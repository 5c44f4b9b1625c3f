//! The errors of the C interface and how they reach C.
//!
//! Every fallible export returns a C string: NULL for success, or an
//! allocated message for a failure. A failure may carry an empty message
//! (zoxide reports a cancelled interactive selection that way), and it is
//! still a failure: only success is NULL.
use vstd::prelude::*;
use vstd::string::StringExecFns;
use vstd::utf8::encode_utf8;
use crate::cstr::{is_c_visible_prefix, string_into_c};

verus! {

/// Why a call of the C interface failed.
#[derive(Debug)]
pub enum FfiError {
    /// A required pointer argument was NULL.
    NullArgument,
    /// The path argument is not valid UTF-8.
    PathNotUtf8,
    /// The keyword array is NULL with a positive length, or holds a NULL or
    /// non-UTF-8 entry.
    InvalidKeywords,
    /// The `exclude` query option is not valid UTF-8.
    ExcludeNotUtf8,
    /// The `base_dir` query option is not valid UTF-8.
    BaseDirNotUtf8,
    /// No session exists: `zo_init` was not called, or `zo_shutdown` dropped it.
    NotInitialized,
    /// The session's own operation failed with this message (possibly empty).
    Session(String),
    /// A panic was caught; it carries the panic's text when the payload was a
    /// string.
    Panic(Option<String>),
}

impl FfiError {
    /// The text of the message that C receives for this error.
    pub open spec fn spec_message(&self) -> Seq<char> {
        match self {
            FfiError::NullArgument => "null argument"@,
            FfiError::PathNotUtf8 => "path is not valid UTF-8"@,
            FfiError::InvalidKeywords => "invalid keywords array"@,
            FfiError::ExcludeNotUtf8 => "exclude is not valid UTF-8"@,
            FfiError::BaseDirNotUtf8 => "base_dir is not valid UTF-8"@,
            FfiError::NotInitialized => "session is not initialized"@,
            FfiError::Session(msg) => msg@,
            FfiError::Panic(Some(text)) => "panic: "@ + text@,
            FfiError::Panic(None) => "panic: unknown error"@,
        }
    }

    /// The message that C receives for this error.
    pub fn message(&self) -> (r: String)
        ensures
            r@ == self.spec_message(),
    {
        match self {
            FfiError::NullArgument => "null argument".to_owned(),
            FfiError::PathNotUtf8 => "path is not valid UTF-8".to_owned(),
            FfiError::InvalidKeywords => "invalid keywords array".to_owned(),
            FfiError::ExcludeNotUtf8 => "exclude is not valid UTF-8".to_owned(),
            FfiError::BaseDirNotUtf8 => "base_dir is not valid UTF-8".to_owned(),
            FfiError::NotInitialized => "session is not initialized".to_owned(),
            FfiError::Session(msg) => msg.clone(),
            FfiError::Panic(Some(text)) => {
                let mut msg = "panic: ".to_owned();
                msg.append(text.as_str());
                msg
            },
            FfiError::Panic(None) => "panic: unknown error".to_owned(),
        }
    }
}

/// The bytes of the C message for `err`: its message up to the first NUL.
pub fn error_string(err: &FfiError) -> (r: Vec<u8>)
    ensures
        is_c_visible_prefix(r@, encode_utf8(err.spec_message())),
{
    let msg = err.message();
    string_into_c(msg.as_str())
}

/// What a fallible export returns to C for the outcome `status`: `None`
/// (NULL) for success, and for every failure the bytes of its message, even
/// when that message is empty.
pub fn status_to_c<T>(status: &Result<T, FfiError>) -> (r: Option<Vec<u8>>)
    ensures
        r is None <==> status is Ok,
        status matches Err(e) ==> is_c_visible_prefix(r.unwrap()@, encode_utf8(e.spec_message())),
{
    match status {
        Ok(_) => None,
        Err(e) => Some(error_string(e)),
    }
}

} // verus!
