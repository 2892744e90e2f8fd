use vstd::prelude::*;
use crate::config::PlatformType;

verus! {

/// Why a configuration update or a translation failed. Each variant names
/// the stage that failed.
#[derive(Clone, Debug)]
pub enum TranslateError {
    /// The configuration could not be read, written or decoded.
    ConfigIo(String),
    /// The request could not be sent, or its reply could not be read.
    Transport(String),
    /// The backend answered with this status, which is not a success.
    HttpStatus(u16),
    /// The response lacks the text field that this platform's shape puts it in.
    Parse(PlatformType),
    /// The translation could not be recorded in the history.
    Persistence(String),
}

/// `e` is a persistence error with message `msg`.
pub open spec fn is_persistence_error(e: TranslateError, msg: Seq<char>) -> bool {
    e matches TranslateError::Persistence(m) && m@ == msg
}

} // verus!
