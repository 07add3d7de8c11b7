use vstd::prelude::*;
use vstd::string::StringExecFns;

verus! {

/// Status code of a request the client got wrong.
pub const BAD_REQUEST: u16 = 400;

/// Status code of a request for an item that does not exist.
pub const NOT_FOUND: u16 = 404;

/// Status code of a failure of the storage.
pub const INTERNAL_SERVER_ERROR: u16 = 500;

/// Body of every error response: a single human-readable `detail`.
pub struct ErrorResponse {
    pub detail: String,
}

/// An error response: its status code and its body.
pub struct AppError(pub u16, pub ErrorResponse);

/// Mathematical view of an error response.
pub ghost struct ErrorView {
    pub status: u16,
    pub detail: Seq<char>,
}

impl View for AppError {
    type V = ErrorView;

    open spec fn view(&self) -> ErrorView {
        ErrorView { status: self.0, detail: self.1.detail@ }
    }
}

/// The storage operations that can fail on the server's side.
pub enum Operation {
    List,
    Create,
    Update,
    Delete,
}

/// Every way a request can fail.
pub enum Failure {
    /// The body could not be parsed; the parser's message.
    MalformedBody(String),
    /// A title that is empty once trimmed.
    EmptyTitle,
    /// No item has the requested id.
    NotFound,
    /// The storage failed while doing the operation.
    StorageFailed(Operation),
}

/// A storage operation that did not complete; what went wrong is never shown
/// to the client.
pub struct StorageError;

pub open spec fn empty_title_detail() -> Seq<char> {
    "Title cannot be empty"@
}

pub open spec fn not_found_detail() -> Seq<char> {
    "Todo not found"@
}

/// The fixed message sent when the storage fails during `op`.
pub open spec fn storage_detail(op: Operation) -> Seq<char> {
    match op {
        Operation::List => "Failed to list todos"@,
        Operation::Create => "Failed to create todo"@,
        Operation::Update => "Failed to update todo"@,
        Operation::Delete => "Failed to delete todo"@,
    }
}

pub open spec fn bad_request(detail: Seq<char>) -> ErrorView {
    ErrorView { status: BAD_REQUEST, detail }
}

pub open spec fn empty_title() -> ErrorView {
    bad_request(empty_title_detail())
}

pub open spec fn not_found() -> ErrorView {
    ErrorView { status: NOT_FOUND, detail: not_found_detail() }
}

pub open spec fn storage_failed(op: Operation) -> ErrorView {
    ErrorView { status: INTERNAL_SERVER_ERROR, detail: storage_detail(op) }
}

/// The response each failure is sent as.
pub open spec fn response_of(f: Failure) -> ErrorView {
    match f {
        Failure::MalformedBody(d) => bad_request(d@),
        Failure::EmptyTitle => empty_title(),
        Failure::NotFound => not_found(),
        Failure::StorageFailed(op) => storage_failed(op),
    }
}

impl AppError {
    /// Maps a failure to its status code and body; the one place
    /// where that mapping is made.
    pub fn from_failure(f: Failure) -> (r: AppError)
        ensures
            r@ == response_of(f),
    {
        proof {
            reveal_strlit("Title cannot be empty");
            reveal_strlit("Todo not found");
            reveal_strlit("Failed to list todos");
            reveal_strlit("Failed to create todo");
            reveal_strlit("Failed to update todo");
            reveal_strlit("Failed to delete todo");
        }
        match f {
            Failure::MalformedBody(d) => AppError(BAD_REQUEST, ErrorResponse { detail: d }),
            Failure::EmptyTitle => AppError(
                BAD_REQUEST,
                ErrorResponse { detail: String::from_str("Title cannot be empty") },
            ),
            Failure::NotFound => AppError(
                NOT_FOUND,
                ErrorResponse { detail: String::from_str("Todo not found") },
            ),
            Failure::StorageFailed(op) => {
                let detail = match op {
                    Operation::List => String::from_str("Failed to list todos"),
                    Operation::Create => String::from_str("Failed to create todo"),
                    Operation::Update => String::from_str("Failed to update todo"),
                    Operation::Delete => String::from_str("Failed to delete todo"),
                };
                AppError(INTERNAL_SERVER_ERROR, ErrorResponse { detail })
            },
        }
    }

    /// The error sent for a body that could not be parsed, carrying the
    /// parser's message.
    pub fn malformed_body(detail: String) -> (r: AppError)
        ensures
            r@ == bad_request(detail@),
    {
        AppError::from_failure(Failure::MalformedBody(detail))
    }
}

} // verus!
