use vstd::prelude::*;

verus! {

/// `200 OK`.
pub const STATUS_OK: u16 = 200;

/// `201 Created`.
pub const STATUS_CREATED: u16 = 201;

/// `204 No Content`.
pub const STATUS_NO_CONTENT: u16 = 204;

/// `404 Not Found`.
pub const STATUS_NOT_FOUND: u16 = 404;

/// `500 Internal Server Error`.
pub const STATUS_INTERNAL_SERVER_ERROR: u16 = 500;

/// The message of the not-found error.
pub open spec fn not_found_message() -> Seq<char> {
    "NOT FOUND"@
}

/// The message of the server error.
pub open spec fn server_error_message() -> Seq<char> {
    "INTERNAL SERVER ERROR"@
}

/// A successful reply: a status and the data that goes under `"data"`.
#[derive(Debug, Clone, PartialEq, Eq)]
pub struct JsonData<T> {
    pub status: u16,
    pub data: T,
}

/// The result of a handler.
pub type HandlerResult<T> = core::result::Result<T, AppError>;

impl<T> JsonData<T> {
    /// A `200 OK` reply carrying `data`.
    pub fn ok(data: T) -> (r: HandlerResult<JsonData<T>>)
        ensures
            r == Ok::<JsonData<T>, AppError>(JsonData { status: STATUS_OK, data }),
    {
        Ok(JsonData { status: STATUS_OK, data })
    }

    /// A `201 Created` reply carrying `data`.
    pub fn created(data: T) -> (r: HandlerResult<JsonData<T>>)
        ensures
            r == Ok::<JsonData<T>, AppError>(JsonData { status: STATUS_CREATED, data }),
    {
        Ok(JsonData { status: STATUS_CREATED, data })
    }
}

/// A reply without a body.
#[derive(Debug, Clone, PartialEq, Eq)]
pub struct NoContent;

impl NoContent {
    /// The `204 No Content` reply.
    pub fn ok() -> (r: HandlerResult<NoContent>)
        ensures
            r == Ok::<NoContent, AppError>(NoContent),
    {
        Ok(NoContent)
    }

    /// The status of this reply.
    pub fn status(&self) -> (r: u16)
        ensures
            r == STATUS_NO_CONTENT,
    {
        STATUS_NO_CONTENT
    }
}

/// A failed request: either a fault of the server, or a refusal with a
/// status and a message for the client.
#[derive(Debug, Clone, PartialEq, Eq)]
pub enum AppError {
    ServerError,
    ClientError { status: u16, message: String },
}

impl AppError {
    /// This is the not-found refusal.
    pub open spec fn is_not_found(&self) -> bool {
        &&& self is ClientError
        &&& self->status == STATUS_NOT_FOUND
        &&& self->message@ == not_found_message()
    }

    /// The status this error is answered with.
    pub open spec fn spec_status(&self) -> u16 {
        match self {
            AppError::ServerError => STATUS_INTERNAL_SERVER_ERROR,
            AppError::ClientError { status, .. } => *status,
        }
    }

    /// The message this error is answered with.
    pub open spec fn spec_message(&self) -> Seq<char> {
        match self {
            AppError::ServerError => server_error_message(),
            AppError::ClientError { message, .. } => message@,
        }
    }

    /// The error for any failure of the storage or of the server: whatever
    /// went wrong is answered with the server error.
    pub fn from_failure() -> (r: AppError)
        ensures
            r is ServerError,
    {
        AppError::ServerError
    }

    /// The refusal for a missing item.
    pub fn from_not_found(_value: NotFound) -> (r: AppError)
        ensures
            r.is_not_found(),
    {
        let message = String::from_str("NOT FOUND");
        AppError::ClientError { status: STATUS_NOT_FOUND, message }
    }

    /// The status and the message of the error reply,
    /// `{"error": {"status": .., "message": ..}}`.
    pub fn response_parts(&self) -> (r: (u16, String))
        ensures
            r.0 == self.spec_status(),
            r.1@ == self.spec_message(),
    {
        match self {
            AppError::ServerError => {
                let message = String::from_str("INTERNAL SERVER ERROR");
                (STATUS_INTERNAL_SERVER_ERROR, message)
            },
            AppError::ClientError { status, message } => (*status, message.clone()),
        }
    }
}

/// The marker for a missing item.
#[derive(Debug, Clone, PartialEq, Eq)]
pub struct NotFound;

} // verus!
