//! What a worker answers.
//!
//! A worker carries out one database operation for each message and answers
//! with exactly one response. Whatever goes wrong with the operation is
//! caught at the worker and becomes a failure response; the worker goes on
//! with its next message. One kind of trouble is kept apart from all others:
//! that the connection pool had no connection to give. The worker does not
//! try again; whether to do so is the caller's choice.

use vstd::prelude::*;

verus! {

/// What the database driver reported, told apart by kind.
#[derive(Clone, Copy, Debug, PartialEq, Eq, Structural)]
pub enum Fault {
    /// Reading from or writing to the connection failed.
    Io,
    /// The database refused the operation, with its error code.
    Server { code: u16 },
    /// The pool had no connection free and none came free in time.
    CheckoutTimeout,
    /// Any other trouble inside the driver.
    Driver,
    /// The address of the database could not be understood.
    Url,
    /// A value of a row was not of the expected type.
    FromValue,
    /// A row was not of the expected shape.
    FromRow,
}

/// The kinds of failure a caller is told of.
#[derive(Clone, Copy, Debug, PartialEq, Eq, Structural)]
pub enum Failure {
    /// The connection pool was exhausted.
    PoolExhausted,
    /// The operation itself failed; `code` is the database's error code where
    /// it gave one.
    Operation { code: Option<u16> },
}

/// The answer to one message.
#[derive(Debug, PartialEq, Eq)]
pub enum Response<T> {
    /// The operation was carried out; this is what it gave.
    Success(T),
    /// The operation was not carried out, or not to its end.
    Failed(Failure),
}

/// The failure that a caller is told of for `fault`.
pub open spec fn failure_of(fault: Fault) -> Failure {
    match fault {
        Fault::CheckoutTimeout => Failure::PoolExhausted,
        Fault::Server { code } => Failure::Operation { code: Some(code) },
        _ => Failure::Operation { code: None },
    }
}

/// The response to a message whose operation ended in `outcome`.
pub open spec fn response_of<T>(outcome: Result<T, Fault>) -> Response<T> {
    match outcome {
        Ok(value) => Response::Success(value),
        Err(fault) => Response::Failed(failure_of(fault)),
    }
}

/// The error type of the database driver: opaque here, looked at only by
/// `fault_of`.
#[verifier::external_type_specification]
#[verifier::external_body]
pub struct ExError(mysql::Error);

/// Tells the variants of `mysql::Error` apart, and among its driver errors
/// `mysql::DriverError::Timeout`, which the driver raises when a checkout
/// from the pool has timed out and at no other place. The error code of a
/// server error is carried over; every other field is left behind. Nothing
/// is claimed of the result: the driver's error cannot be looked into from
/// here.
#[verifier::external_body]
fn fault_of(error: &mysql::Error) -> Fault {
    match error {
        mysql::Error::IoError(_) => Fault::Io,
        mysql::Error::MySqlError(refused) => Fault::Server { code: refused.code },
        mysql::Error::DriverError(mysql::DriverError::Timeout) => Fault::CheckoutTimeout,
        mysql::Error::DriverError(_) => Fault::Driver,
        mysql::Error::UrlError(_) => Fault::Url,
        mysql::Error::FromValueError(_) => Fault::FromValue,
        mysql::Error::FromRowError(_) => Fault::FromRow,
    }
}

/// Sorts faults into the kinds of failure a caller is told of.
pub fn classify(fault: Fault) -> (failure: Failure)
    ensures
        failure == failure_of(fault),
{
    match fault {
        Fault::CheckoutTimeout => Failure::PoolExhausted,
        Fault::Server { code } => Failure::Operation { code: Some(code) },
        _ => Failure::Operation { code: None },
    }
}

/// Makes the one response to a message from the outcome of its operation.
/// Every outcome has a response; none is passed on as a crash.
pub fn respond<T>(outcome: Result<T, Fault>) -> (response: Response<T>)
    ensures
        response == response_of(outcome),
{
    match outcome {
        Ok(value) => Response::Success(value),
        Err(fault) => Response::Failed(classify(fault)),
    }
}

/// Makes the one response to a message from what the database driver gave
/// back. A result is passed on as it is; an error of the driver, whichever it
/// is, becomes a failure of the kind that `failure_of` gives for its fault.
pub fn answer<T>(outcome: Result<T, mysql::Error>) -> (response: Response<T>)
    ensures
        match outcome {
            Ok(value) => response == Response::Success(value),
            Err(_) => exists|fault: Fault| response == Response::<T>::Failed(failure_of(fault)),
        },
{
    match outcome {
        Ok(value) => Response::Success(value),
        Err(error) => {
            let fault: Fault = fault_of(&error);
            Response::Failed(classify(fault))
        },
    }
}

impl<T> Response<T> {
    /// Whether the operation was carried out.
    pub fn is_success(&self) -> (success: bool)
        ensures
            success <==> *self is Success,
    {
        match self {
            Response::Success(_) => true,
            Response::Failed(_) => false,
        }
    }
}

/// Pool exhaustion is told apart from every other failure: a caller sees
/// `PoolExhausted` exactly when a checkout from the pool timed out.
pub proof fn law_exhaustion_is_distinct(fault: Fault)
    ensures
        failure_of(fault) == Failure::PoolExhausted <==> fault == Fault::CheckoutTimeout,
{
}

/// Every outcome has its response, and only a result is a success.
pub proof fn law_every_outcome_is_answered<T>(outcome: Result<T, Fault>)
    ensures
        response_of(outcome) is Success <==> outcome is Ok,
        response_of(outcome) is Failed <==> outcome is Err,
{
}

} // verus!
