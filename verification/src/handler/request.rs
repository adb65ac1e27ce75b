use vstd::prelude::*;

verus! {

/// A value read from a JSON request body.
pub struct Json<T>(pub T);

impl<T> core::ops::Deref for Json<T> {
    type Target = T;

    fn deref(&self) -> (r: &T)
        ensures
            *r == self.0,
    {
        &self.0
    }
}

/// A value read from the path of a request.
pub struct Path<T>(pub T);

impl<T> core::ops::Deref for Path<T> {
    type Target = T;

    fn deref(&self) -> (r: &T)
        ensures
            *r == self.0,
    {
        &self.0
    }
}

/// A value read from the query string of a request.
pub struct Query<T>(pub T);

impl<T> core::ops::Deref for Query<T> {
    type Target = T;

    fn deref(&self) -> (r: &T)
        ensures
            *r == self.0,
    {
        &self.0
    }
}

/// A request that could not be read: the status and the message of the
/// rejection, answered as `{"error": {"status": .., "message": ..}}`.
#[derive(Debug, Clone, PartialEq, Eq)]
pub struct ErrorRejection {
    pub status: u16,
    pub message: String,
}

impl ErrorRejection {
    /// The rejection with this status and message.
    pub fn new(status: u16, message: String) -> (r: ErrorRejection)
        ensures
            r.status == status,
            r.message == message,
    {
        ErrorRejection { status, message }
    }

    /// The status and the message of the error reply.
    pub fn response_parts(&self) -> (r: (u16, String))
        ensures
            r.0 == self.status,
            r.1@ == self.message@,
    {
        (self.status, self.message.clone())
    }
}

} // verus!
