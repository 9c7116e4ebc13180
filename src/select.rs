use vstd::prelude::*;

verus! {

/// Where a program reads its input from.
///
/// The choice is made once, at construction, and never changes. A path is not
/// checked when it is stored: whether the file exists or can be read is only
/// found out when it is opened.
pub enum Input {
    /// The standard input stream that the process inherited.
    Stdin,
    /// The file at the given path.
    File(String),
}

/// Where a program writes its output to.
///
/// Opening a `File` output creates the file, or truncates it if it exists.
pub enum Output {
    /// The standard output stream that the process inherited.
    Stdout,
    /// The file at the given path.
    File(String),
}

impl Input {
    /// The path that was chosen, or `None` for standard input.
    pub open spec fn path_spec(self) -> Option<Seq<char>> {
        match self {
            Input::Stdin => None,
            Input::File(p) => Some(p@),
        }
    }

    /// A named file when a path is given, standard input when it is not.
    /// This never fails, whatever the path holds.
    pub fn from(path: Option<String>) -> (r: Input)
        ensures
            path is Some <==> r is File,
            path is None <==> r is Stdin,
            r.path_spec() == match path {
                Some(p) => Some(p@),
                None => None::<Seq<char>>,
            },
    {
        match path {
            Some(p) => Input::File(p),
            None => Input::Stdin,
        }
    }
}

impl Output {
    /// The path that was chosen, or `None` for standard output.
    pub open spec fn path_spec(self) -> Option<Seq<char>> {
        match self {
            Output::Stdout => None,
            Output::File(p) => Some(p@),
        }
    }

    /// A named file when a path is given, standard output when it is not.
    /// This never fails, whatever the path holds.
    pub fn from(path: Option<String>) -> (r: Output)
        ensures
            path is Some <==> r is File,
            path is None <==> r is Stdout,
            r.path_spec() == match path {
                Some(p) => Some(p@),
                None => None::<Seq<char>>,
            },
    {
        match path {
            Some(p) => Output::File(p),
            None => Output::Stdout,
        }
    }
}

} // verus!
