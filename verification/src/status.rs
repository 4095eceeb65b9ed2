//! What the runtime answers: status codes, the text the runtime has for
//! them, and replies that carry a value beside the status.

use crate::text::{format_hex, hex};
use vstd::prelude::*;

verus! {

/// The status codes of the runtime that this library tells apart.
pub const STATUS_SUCCESS: u32 = 0x0;

/// Returned by a visitor to end an enumeration early; not a failure.
pub const STATUS_INFO_BREAK: u32 = 0x1;

/// A failure without a more specific code.
pub const STATUS_ERROR: u32 = 0x1000;

pub const STATUS_ERROR_INVALID_ARGUMENT: u32 = 0x1001;

pub const STATUS_ERROR_INVALID_QUEUE_CREATION: u32 = 0x1002;

pub const STATUS_ERROR_INVALID_ALLOCATION: u32 = 0x1003;

pub const STATUS_ERROR_INVALID_AGENT: u32 = 0x1004;

pub const STATUS_ERROR_INVALID_REGION: u32 = 0x1005;

pub const STATUS_ERROR_OUT_OF_RESOURCES: u32 = 0x1008;

pub const STATUS_ERROR_NOT_INITIALIZED: u32 = 0x100B;

pub const STATUS_ERROR_INCOMPATIBLE_ARGUMENTS: u32 = 0x100D;

pub const STATUS_ERROR_INVALID_ISA: u32 = 0x100F;

pub const STATUS_ERROR_INVALID_CODE_OBJECT: u32 = 0x1010;

pub const STATUS_ERROR_INVALID_EXECUTABLE: u32 = 0x1011;

pub const STATUS_ERROR_FROZEN_EXECUTABLE: u32 = 0x1012;

pub const STATUS_ERROR_INVALID_SYMBOL_NAME: u32 = 0x1013;

pub const STATUS_ERROR_VARIABLE_ALREADY_DEFINED: u32 = 0x1014;

pub const STATUS_ERROR_VARIABLE_UNDEFINED: u32 = 0x1015;

pub const STATUS_ERROR_INVALID_ISA_NAME: u32 = 0x1017;

pub const STATUS_ERROR_FATAL: u32 = 0x1026;

/// The status of one call into the runtime.
///
/// `text` is what the runtime's own status-to-text query gave for `code`, and
/// `None` where that query failed, gave nothing, or gave bytes that are not
/// UTF-8. The runtime's texts are constants that live as long as the
/// process, so a status is a small value that is copied freely.
#[derive(Clone, Copy, Debug)]
pub struct Status {
    pub code: u32,
    pub text: Option<&'static str>,
}

/// The answer to a call that also hands back a value. The value means
/// something only where the status is success.
#[derive(Clone, Copy, Debug)]
pub struct Reply<T> {
    pub status: Status,
    pub value: T,
}

impl Status {
    /// The text that stands for this status in messages: the runtime's own
    /// where it gave one, else the code in hexadecimal.
    pub open spec fn wording(self) -> Seq<char> {
        match self.text {
            Some(t) => t@,
            None => "HSA status code: 0x"@ + hex(self.code as nat),
        }
    }

    /// Whether the code is the success code.
    pub open spec fn succeeded(self) -> bool {
        self.code == STATUS_SUCCESS
    }

    /// A status from its parts.
    pub fn new(code: u32, text: Option<&'static str>) -> (s: Status)
        ensures
            s.code == code,
            s.text == text,
    {
        Status { code, text }
    }

    /// The status for `code`, with the text that the runtime gave for it.
    ///
    /// `query` is the status code with which the runtime answered the
    /// request for the text, and `text` is what it handed back, if that was
    /// anything and was UTF-8. A request that failed leaves the status
    /// without text.
    pub fn from_query(code: u32, query: u32, text: Option<&'static str>) -> (s: Status)
        ensures
            s.code == code,
            s.text == if query == STATUS_SUCCESS {
                text
            } else {
                None
            },
    {
        if query == STATUS_SUCCESS {
            Status { code, text }
        } else {
            Status { code, text: None }
        }
    }

    /// The success status, with no text.
    pub fn success() -> (s: Status)
        ensures
            s.succeeded(),
            s.text is None,
    {
        Status { code: STATUS_SUCCESS, text: None }
    }

    /// Whether the code is the success code.
    pub fn is_success(&self) -> (b: bool)
        ensures
            b == self.succeeded(),
    {
        self.code == STATUS_SUCCESS
    }

    /// The wording of this status as an owned string.
    pub fn description(&self) -> (s: String)
        ensures
            s@ == self.wording(),
    {
        match self.text {
            Some(t) => String::from_str(t),
            None => {
                let mut s = String::from_str("HSA status code: 0x");
                let digits = format_hex(self.code as u64);
                s.append(digits.as_str());
                s
            },
        }
    }
}

impl<T> Reply<T> {
    /// A reply from its parts.
    pub fn new(status: Status, value: T) -> (r: Reply<T>)
        ensures
            r.status == status,
            r.value == value,
    {
        Reply { status, value }
    }
}

} // verus!
