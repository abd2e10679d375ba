//! Errors raised on the Java side of a call.
use vstd::prelude::*;

verus! {

/// A Java exception, carried as the text that the throwable gives of itself
/// (its `toString()`).
#[derive(Debug)]
pub struct JavaException {
    pub description: String,
}

/// An error raised on the Java side of a call.
#[derive(Debug)]
pub enum JavaError {
    /// Java threw an exception.
    Throwable(JavaException),
    /// A Java reference could not be cast to the class it was expected to have.
    Cast(java_spaghetti::CastError),
}

/// `java_spaghetti::CastError`, the error of a failed reference cast.
#[verifier::external_type_specification]
#[verifier::external_body]
pub struct ExCastError(java_spaghetti::CastError);

/// Result of an operation that can fail with a Java exception.
pub type JavaResult<T> = Result<T, JavaError>;

} // verus!
