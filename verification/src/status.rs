//! The failure status with which a service call is answered.
use vstd::prelude::*;

verus! {

/// The exceptions that a call is answered with.
#[derive(Debug, PartialEq, Eq, Structural, Clone, Copy)]
pub enum ExceptionCode {
    IllegalArgument,
    UnsupportedOperation,
    ServiceSpecific,
}

/// The errors of the services themselves.
#[derive(Debug, PartialEq, Eq, Structural, Clone, Copy)]
pub enum ServiceError {
    /// The virtual machine could not be started.
    VmStart,
    /// An error number without a name.
    Number(i32),
}

/// Why a call fails.
#[derive(Debug, PartialEq, Eq, Structural, Clone, Copy)]
pub enum StatusCode {
    Exception(ExceptionCode),
    Service(ServiceError),
}

/// The status of a failed call.
#[derive(Debug)]
pub struct Status {
    pub code: StatusCode,
    pub message: Option<String>,
}

/// What a status says.
pub struct StatusView {
    pub code: StatusCode,
    pub message: Option<Seq<char>>,
}

/// The characters of an optional string.
pub open spec fn opt_text(s: Option<String>) -> Option<Seq<char>> {
    match s {
        Some(s) => Some(s@),
        None => None,
    }
}

impl View for Status {
    type V = StatusView;

    open spec fn view(&self) -> StatusView {
        StatusView { code: self.code, message: opt_text(self.message) }
    }
}

/// An exception with a message.
pub open spec fn exception(code: ExceptionCode, message: Seq<char>) -> StatusView {
    StatusView { code: StatusCode::Exception(code), message: Some(message) }
}

/// An exception without a message.
pub open spec fn bare_exception(code: ExceptionCode) -> StatusView {
    StatusView { code: StatusCode::Exception(code), message: None }
}

/// An error of a service with a message.
pub open spec fn service_error(error: ServiceError, message: Seq<char>) -> StatusView {
    StatusView { code: StatusCode::Service(error), message: Some(message) }
}

impl Status {
    /// An exception without a message.
    pub fn new_exception(code: ExceptionCode) -> (r: Status)
        ensures
            r@ == bare_exception(code),
    {
        Status { code: StatusCode::Exception(code), message: None }
    }

    /// An exception with a message.
    pub fn new_exception_str(code: ExceptionCode, message: &str) -> (r: Status)
        ensures
            r@ == exception(code, message@),
    {
        Status { code: StatusCode::Exception(code), message: Some(message.to_owned()) }
    }

    /// An error of a service with a message.
    pub fn new_service_specific_error_str(error: ServiceError, message: &str) -> (r: Status)
        ensures
            r@ == service_error(error, message@),
    {
        Status { code: StatusCode::Service(error), message: Some(message.to_owned()) }
    }
}

/// The answer to a call whose failure is known only by its description.
pub fn to_binder_result<T>(result: Result<T, String>) -> (r: Result<T, Status>)
    ensures
        match result {
            Ok(value) => r == Ok::<T, Status>(value),
            Err(words) => r matches Err(status) && status@ == service_error(
                ServiceError::Number(-1i32),
                words@,
            ),
        },
        (match r {
            Ok(value) => Ok(value),
            Err(status) => Err(status@),
        }) == described(
            match result {
                Ok(value) => Ok(value),
                Err(words) => Err(words@),
            },
        ),
{
    match result {
        Ok(value) => Ok(value),
        Err(words) => Err(
            Status::new_service_specific_error_str(ServiceError::Number(-1), words.as_str()),
        ),
    }
}

/// What a status is made of is what it says: the exception or the error, and the message.
pub proof fn status_says_what_it_was_told(
    code: ExceptionCode,
    error: ServiceError,
    message: Seq<char>,
)
    ensures
        exception(code, message).code == StatusCode::Exception(code),
        exception(code, message).message == Some(message),
        bare_exception(code).code == StatusCode::Exception(code),
        bare_exception(code).message is None,
        service_error(error, message).code == StatusCode::Service(error),
        service_error(error, message).message == Some(message),
{
}

/// The answer to a call whose failure is known only by its description.
pub open spec fn described<T>(result: Result<T, Seq<char>>) -> Result<T, StatusView> {
    match result {
        Ok(value) => Ok(value),
        Err(words) => Err(service_error(ServiceError::Number(-1i32), words)),
    }
}

/// A success is handed on as it is, and a failure keeps its words under one error number.
pub proof fn description_is_handed_on<T>(value: T, words: Seq<char>)
    ensures
        described(Ok(value)) == Ok::<T, StatusView>(value),
        described::<T>(Err(words)) matches Err(e) && e.message == Some(words) && e.code
            == StatusCode::Service(ServiceError::Number(-1i32)),
{
}

} // verus!
