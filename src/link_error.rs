use vstd::prelude::*;

verus! {

/// An error of kind `E`, tagged with where it occurred: at the target path,
/// at the link path (both may be set), or in an external helper program.
#[derive(Debug, PartialEq, Eq)]
pub struct LinkError<E> {
    pub error: E,
    pub target: bool,
    pub link: bool,
    pub program: Option<String>,
}

/// The mathematical value of a `LinkError`: the helper program's name is a
/// sequence of characters.
pub struct LinkErrorView<E> {
    pub error: E,
    pub target: bool,
    pub link: bool,
    pub program: Option<Seq<char>>,
}

/// The characters of an optional string.
pub open spec fn string_option_view(p: Option<String>) -> Option<Seq<char>> {
    match p {
        Some(s) => Some(s@),
        None => None,
    }
}

impl<E> View for LinkError<E> {
    type V = LinkErrorView<E>;

    open spec fn view(&self) -> LinkErrorView<E> {
        LinkErrorView {
            error: self.error,
            target: self.target,
            link: self.link,
            program: string_option_view(self.program),
        }
    }
}

/// The error `error` tagged with the given locations and no program.
pub open spec fn tagged<E>(error: E, target: bool, link: bool) -> LinkErrorView<E> {
    LinkErrorView { error, target, link, program: None }
}

impl<E> LinkError<E> {
    /// The same locations, with the error mapped through `f`.
    pub fn map<E2, F: FnOnce(E) -> E2>(self, f: F) -> (r: LinkError<E2>)
        requires
            f.requires((self.error,)),
        ensures
            f.ensures((self.error,), r.error),
            r.target == self.target,
            r.link == self.link,
            r.program == self.program,
    {
        LinkError { error: f(self.error), target: self.target, link: self.link, program: self.program }
    }

    /// An error at both the target and the link path.
    pub fn both(error: E) -> (r: LinkError<E>)
        ensures
            r@ == tagged(error, true, true),
    {
        LinkError { error, target: true, link: true, program: None }
    }

    /// An error at the target path.
    pub fn target(error: E) -> (r: LinkError<E>)
        ensures
            r@ == tagged(error, true, false),
    {
        LinkError { error, target: true, link: false, program: None }
    }

    /// An error at the link path.
    pub fn link(error: E) -> (r: LinkError<E>)
        ensures
            r@ == tagged(error, false, true),
    {
        LinkError { error, target: false, link: true, program: None }
    }

    /// An error at neither path.
    pub fn none(error: E) -> (r: LinkError<E>)
        ensures
            r@ == tagged(error, false, false),
    {
        LinkError { error, target: false, link: false, program: None }
    }

    /// An error raised by running the helper program `program`.
    pub fn program(error: E, program: &str) -> (r: LinkError<E>)
        ensures
            r@ == (LinkErrorView { error, target: false, link: false, program: Some(program@) }),
    {
        LinkError { error, target: false, link: false, program: Some(program.to_string()) }
    }
}

/// Errors found while resolving what link to create.
#[derive(Clone, Copy, Debug, PartialEq, Eq, Structural)]
pub enum PreLinkError {
    /// The target exists and is not of the requested file type.
    LinkFileTypeMismatch,
    /// The target is neither a file, a symbolic link nor a directory.
    InvalidFileType,
    /// The file type had to be inferred but the target does not exist.
    InferredNonExistentTarget,
}

/// Errors raised while creating a link.
#[derive(Clone, Copy, Debug, PartialEq, Eq, Structural)]
pub enum DuringLinkError {
    /// Something already exists at the link path.
    LinkAlreadyExists,
    /// The operating system refused the operation.
    OS(OSError),
}

/// A raw operating system error code.
#[derive(Clone, Copy, Debug, PartialEq, Eq, Structural)]
pub struct OSError(pub i32);

} // verus!
