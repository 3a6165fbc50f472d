//! What an API call answers: a value, or an error with its status.

use vstd::prelude::*;

verus! {

/// The body of an error answer.
#[derive(Debug)]
pub struct Error {
    text: String,
}

impl View for Error {
    type V = Seq<char>;

    closed spec fn view(&self) -> Seq<char> {
        self.text@
    }
}

impl Error {
    /// An error that says `text`.
    pub fn new(text: String) -> (error: Self)
        ensures
            error@ == text@,
    {
        Error { text }
    }

    /// What the error says.
    pub fn text(&self) -> (text: &String)
        ensures
            text@ == self@,
    {
        &self.text
    }
}

/// The answer to an API call.
#[derive(Debug)]
pub enum APIResponse<T> {
    /// The call succeeded; status 200.
    Okay(T),
    /// What the call named does not exist; status 404.
    NotFound(Error),
    /// The call failed for a reason that is not the caller's; status 500.
    InternalError(Error),
}

impl<T: Default> Default for APIResponse<T> {
    /// A success that carries the default value of `T`.
    fn default() -> (response: Self)
        ensures
            response matches APIResponse::Okay(inner) && call_ensures(T::default, (), inner),
    {
        APIResponse::Okay(T::default())
    }
}

impl<T> APIResponse<T> {
    /// A success that carries `inner`.
    pub fn ok(inner: T) -> (response: Self)
        ensures
            response == APIResponse::Okay(inner),
    {
        APIResponse::Okay(inner)
    }

    /// The answer that something was not found.
    pub fn not_found(inner: Error) -> (response: Self)
        ensures
            response == APIResponse::<T>::NotFound(inner),
    {
        APIResponse::NotFound(inner)
    }

    /// The answer that the call failed inside the server.
    pub fn internal_error(inner: Error) -> (response: Self)
        ensures
            response == APIResponse::<T>::InternalError(inner),
    {
        APIResponse::InternalError(inner)
    }

    /// The HTTP status that the answer goes out with.
    pub open spec fn spec_status(&self) -> u16 {
        match self {
            APIResponse::Okay(_) => 200,
            APIResponse::NotFound(_) => 404,
            APIResponse::InternalError(_) => 500,
        }
    }

    /// The HTTP status that the answer goes out with: 200 for a success, 404
    /// for something not found, 500 for an internal error.
    #[verifier::when_used_as_spec(spec_status)]
    pub fn status(&self) -> (status: u16)
        ensures
            status == self.spec_status(),
    {
        match self {
            APIResponse::Okay(_) => 200,
            APIResponse::NotFound(_) => 404,
            APIResponse::InternalError(_) => 500,
        }
    }
}

impl APIResponse<Empty> {
    /// A success with nothing to say.
    pub fn empty() -> (response: Self)
        ensures
            response == APIResponse::Okay(Empty {}),
    {
        APIResponse::Okay(Empty::default())
    }
}

/// The body of a success that has nothing to say.
#[derive(Debug, PartialEq, Eq, PartialOrd, Ord, Clone, Copy)]
pub struct Empty {}

impl Default for Empty {
    fn default() -> (empty: Self)
        ensures
            empty == (Empty {}),
    {
        Empty {}
    }
}

} // verus!
