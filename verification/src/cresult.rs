//! The shared error and result model.
//!
//! An error value carries a numeric code identifying the error class, a static
//! message tied to that code, and optional free-form context attached at the
//! failure site. Error constants are never mutated: enriched copies are derived
//! from them with [`CError::add_other_info`].

use vstd::prelude::*;

verus! {

/// An error value: a stable numeric code, the static message that belongs to
/// that code, and optional context attached where the failure happened.
#[derive(Debug, Clone)]
pub struct CError {
    /// Stable identifier for the error class.
    pub code: u32,
    /// Human-readable description tied to the code.
    pub message: &'static str,
    /// Optional free-form context attached at the use site.
    pub other_info: Option<String>,
}

/// The standard result type of this library: a success value or a [`CError`].
pub type CResult<T> = Result<T, CError>;

impl CError {
    /// Construct an error constant with no contextual info.
    pub fn new(code: u32, message: &'static str) -> (r: CError)
        ensures
            r.code == code,
            r.message == message,
            r.other_info is None,
    {
        CError { code, message, other_info: None }
    }

    /// Derive a copy of this error with `other_info` attached; the receiver
    /// itself is left untouched, so shared constants can be reused freely.
    pub fn add_other_info(&self, other_info: String) -> (r: CError)
        ensures
            r.code == self.code,
            r.message == self.message,
            r.other_info == Some(other_info),
    {
        CError { code: self.code, message: self.message, other_info: Some(other_info) }
    }

    /// Wrap a copy of this error as the failure variant of a result.
    pub fn to_cresult<T>(&self) -> (r: CResult<T>)
        ensures
            r matches Err(e) && e == *self,
    {
        Err(
            CError {
                code: self.code,
                message: self.message,
                other_info: match &self.other_info {
                    Some(info) => Some(info.clone()),
                    None => None,
                },
            },
        )
    }

    /// Attach `other_info` and wrap the enriched copy as the failure variant
    /// of a result, in one step.
    pub fn to_cresult_with_other_info<T>(&self, other_info: String) -> (r: CResult<T>)
        ensures
            r matches Err(e) && e.code == self.code && e.message == self.message && e.other_info
                == Some(other_info),
    {
        let e = self.add_other_info(other_info);
        Err(e)
    }
}

} // verus!
