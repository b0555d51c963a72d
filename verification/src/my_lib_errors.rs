//! Errors of this crate.
use vstd::prelude::*;
use vstd::string::StringExecFns;

verus! {

/// Results of this crate.
pub type MyLibResult<T> = Result<T, MyError>;

/// Errors that registering a handler can report.
#[derive(Debug)]
pub enum MyError {
    FailedToRegister { dest: String },
}

/// The text an error is shown with.
pub open spec fn spec_message(err: MyError) -> Seq<char> {
    match err {
        MyError::FailedToRegister { dest } => "Failed to register destination '"@ + dest@ + "'"@,
    }
}

impl MyError {
    /// The human-readable text of the error, e.g.
    /// `Failed to register destination 'here'`.
    pub fn message(&self) -> (text: String)
        ensures
            text@ == spec_message(*self),
    {
        match self {
            MyError::FailedToRegister { dest } => {
                let mut text = String::from_str("Failed to register destination '");
                text.append(dest.as_str());
                text.append("'");
                text
            },
        }
    }
}

} // verus!
