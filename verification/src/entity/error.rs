use vstd::prelude::*;
use vstd::std_specs::cmp::PartialEqSpec;

verus! {

/// What can go wrong while fetching or storing: a request that failed, or
/// the file system. Both carry a message for the reader and nothing else.
#[derive(Debug)]
pub enum Error {
    RequestFail(String),
    IoError(String),
}

/// An [`Error`] as plain mathematical values.
pub enum ErrorView {
    RequestFail(Seq<char>),
    IoError(Seq<char>),
}

impl View for Error {
    type V = ErrorView;

    open spec fn view(&self) -> ErrorView {
        match self {
            Error::RequestFail(message) => ErrorView::RequestFail(message@),
            Error::IoError(message) => ErrorView::IoError(message@),
        }
    }
}

impl Error {
    /// The message that the error carries.
    pub open spec fn message(&self) -> Seq<char> {
        match self {
            Error::RequestFail(message) => message@,
            Error::IoError(message) => message@,
        }
    }

    /// The text shown for the error: its message, whatever the variant.
    pub fn to_string(&self) -> (r: String)
        ensures
            r@ == self.message(),
    {
        match self {
            Error::RequestFail(message) => message.clone(),
            Error::IoError(message) => message.clone(),
        }
    }
}

impl Clone for Error {
    fn clone(&self) -> (r: Self)
        ensures
            r@ == self@,
    {
        match self {
            Error::RequestFail(message) => Error::RequestFail(message.clone()),
            Error::IoError(message) => Error::IoError(message.clone()),
        }
    }
}

impl PartialEq for Error {
    fn eq(&self, other: &Self) -> (r: bool) {
        match (self, other) {
            (Error::RequestFail(a), Error::RequestFail(b)) => *a == *b,
            (Error::IoError(a), Error::IoError(b)) => *a == *b,
            _ => false,
        }
    }
}

impl vstd::std_specs::cmp::PartialEqSpecImpl for Error {
    open spec fn obeys_eq_spec() -> bool {
        true
    }

    open spec fn eq_spec(&self, other: &Self) -> bool {
        self@ == other@
    }
}

impl Eq for Error {

}

/// Turns the text of a failure into an [`Error`] of the kind that `func`
/// builds, such as `Error::IoError`: the result is what `func` gives for
/// `message`.
pub fn map_to_string<F: Fn(String) -> Error>(func: F, message: String) -> (r: Error)
    requires
        call_requires(func, (message,)),
    ensures
        call_ensures(func, (message,), r),
{
    func(message)
}

} // verus!
