//! The error type, and how a runtime status becomes an error.

use crate::status::{
    Reply, Status, STATUS_ERROR_FATAL, STATUS_ERROR_FROZEN_EXECUTABLE,
    STATUS_ERROR_INCOMPATIBLE_ARGUMENTS, STATUS_ERROR_INVALID_AGENT,
    STATUS_ERROR_INVALID_ALLOCATION, STATUS_ERROR_INVALID_ARGUMENT,
    STATUS_ERROR_INVALID_CODE_OBJECT, STATUS_ERROR_INVALID_EXECUTABLE, STATUS_ERROR_INVALID_ISA,
    STATUS_ERROR_INVALID_ISA_NAME, STATUS_ERROR_INVALID_QUEUE_CREATION,
    STATUS_ERROR_INVALID_REGION, STATUS_ERROR_INVALID_SYMBOL_NAME,
    STATUS_ERROR_NOT_INITIALIZED, STATUS_ERROR_OUT_OF_RESOURCES,
    STATUS_ERROR_VARIABLE_ALREADY_DEFINED, STATUS_ERROR_VARIABLE_UNDEFINED,
};
use crate::text::{decimal, format_decimal, joined};
pub use crate::log::{log_debug, log_error, log_info, log_warning};
use vstd::prelude::*;

verus! {

/// Every way an operation of this library can fail.
#[derive(Debug, Clone, PartialEq, Eq)]
pub enum HsaError {
    InitializationFailed,
    ShutdownFailed,
    AgentNotFound,
    QueueCreationFailed(String),
    MemoryAllocationFailed(String),
    CodeObjectReaderFailed(String),
    CodeObjectLoadFailed(String),
    ExecutableCreationFailed(String),
    ExecutableFreezeFailed(String),
    KernelNotFound(String),
    ExecutionFailed(String),
    MemoryRegionNotFound,
    SignalOperationFailed(String),
    InvalidArgument(String),
    InvalidAgent(String),
    InvalidRegion(String),
    InvalidAllocation(String),
    InvalidCodeObject(String),
    InvalidExecutable(String),
    InvalidIsa(String),
    InvalidSymbolName(String),
    FrozenExecutable(String),
    VariableAlreadyDefined(String),
    VariableUndefined(String),
    IncompatibleArguments(String),
    OutOfResources(String),
    NotInitialized(String),
    Fatal(String),
    HsaStatus { status: u32, description: String },
    StringConversionError,
}

/// The variant of an [`HsaError`], without what it carries.
#[derive(Debug, Clone, Copy, PartialEq, Eq, Structural)]
pub enum ErrorKind {
    InitializationFailed,
    ShutdownFailed,
    AgentNotFound,
    QueueCreationFailed,
    MemoryAllocationFailed,
    CodeObjectReaderFailed,
    CodeObjectLoadFailed,
    ExecutableCreationFailed,
    ExecutableFreezeFailed,
    KernelNotFound,
    ExecutionFailed,
    MemoryRegionNotFound,
    SignalOperationFailed,
    InvalidArgument,
    InvalidAgent,
    InvalidRegion,
    InvalidAllocation,
    InvalidCodeObject,
    InvalidExecutable,
    InvalidIsa,
    InvalidSymbolName,
    FrozenExecutable,
    VariableAlreadyDefined,
    VariableUndefined,
    IncompatibleArguments,
    OutOfResources,
    NotInitialized,
    Fatal,
    HsaStatus,
    StringConversionError,
}

/// An error as a mathematical value: its variant, the text it carries (empty
/// for a variant that carries none) and, for [`HsaError::HsaStatus`], the
/// status code.
pub struct ErrorView {
    pub kind: ErrorKind,
    pub detail: Seq<char>,
    pub status: Option<u32>,
}

impl ErrorView {
    /// An error of a variant that carries nothing.
    pub open spec fn bare(kind: ErrorKind) -> ErrorView {
        ErrorView { kind, detail: Seq::empty(), status: None }
    }

    /// An error of a variant that carries a text.
    pub open spec fn with(kind: ErrorKind, detail: Seq<char>) -> ErrorView {
        ErrorView { kind, detail, status: None }
    }

    /// What the error reads as when shown to a user.
    pub open spec fn display(self) -> Seq<char> {
        match self.status {
            Some(code) => heading(self.kind) + decimal(code as nat) + ": "@ + self.detail,
            None => heading(self.kind) + self.detail,
        }
    }
}

/// The fixed words that open the message of each variant; for a variant that
/// carries nothing, the whole message.
pub open spec fn heading(kind: ErrorKind) -> Seq<char> {
    match kind {
        ErrorKind::InitializationFailed => "HSA initialization failed"@,
        ErrorKind::ShutdownFailed => "HSA shutdown failed"@,
        ErrorKind::AgentNotFound => "No GPU agent found"@,
        ErrorKind::QueueCreationFailed => "Queue creation failed: "@,
        ErrorKind::MemoryAllocationFailed => "Memory allocation failed: "@,
        ErrorKind::CodeObjectReaderFailed => "Code object reader creation failed: "@,
        ErrorKind::CodeObjectLoadFailed => "Code object load failed: "@,
        ErrorKind::ExecutableCreationFailed => "Executable creation failed: "@,
        ErrorKind::ExecutableFreezeFailed => "Executable freeze failed: "@,
        ErrorKind::KernelNotFound => "Kernel not found: "@,
        ErrorKind::ExecutionFailed => "Kernel execution failed: "@,
        ErrorKind::MemoryRegionNotFound => "Required memory region not found"@,
        ErrorKind::SignalOperationFailed => "Signal operation failed: "@,
        ErrorKind::InvalidArgument => "Invalid argument: "@,
        ErrorKind::InvalidAgent => "Invalid agent: "@,
        ErrorKind::InvalidRegion => "Invalid region: "@,
        ErrorKind::InvalidAllocation => "Invalid allocation: "@,
        ErrorKind::InvalidCodeObject => "Invalid code object: "@,
        ErrorKind::InvalidExecutable => "Invalid executable: "@,
        ErrorKind::InvalidIsa => "Invalid ISA: "@,
        ErrorKind::InvalidSymbolName => "Invalid symbol name: "@,
        ErrorKind::FrozenExecutable => "Frozen executable: "@,
        ErrorKind::VariableAlreadyDefined => "Variable already defined: "@,
        ErrorKind::VariableUndefined => "Variable undefined: "@,
        ErrorKind::IncompatibleArguments => "Incompatible arguments: "@,
        ErrorKind::OutOfResources => "Out of resources: "@,
        ErrorKind::NotInitialized => "Runtime not initialized: "@,
        ErrorKind::Fatal => "Fatal HSA error: "@,
        ErrorKind::HsaStatus => "HSA error "@,
        ErrorKind::StringConversionError => "String conversion error"@,
    }
}

/// The variant that a status code is translated to.
pub open spec fn kind_of_status(code: u32) -> ErrorKind {
    if code == STATUS_ERROR_INVALID_ARGUMENT {
        ErrorKind::InvalidArgument
    } else if code == STATUS_ERROR_INVALID_QUEUE_CREATION {
        ErrorKind::QueueCreationFailed
    } else if code == STATUS_ERROR_INVALID_ALLOCATION {
        ErrorKind::InvalidAllocation
    } else if code == STATUS_ERROR_INVALID_AGENT {
        ErrorKind::InvalidAgent
    } else if code == STATUS_ERROR_INVALID_REGION {
        ErrorKind::InvalidRegion
    } else if code == STATUS_ERROR_OUT_OF_RESOURCES {
        ErrorKind::OutOfResources
    } else if code == STATUS_ERROR_NOT_INITIALIZED {
        ErrorKind::NotInitialized
    } else if code == STATUS_ERROR_INVALID_CODE_OBJECT {
        ErrorKind::InvalidCodeObject
    } else if code == STATUS_ERROR_INVALID_EXECUTABLE {
        ErrorKind::InvalidExecutable
    } else if code == STATUS_ERROR_FROZEN_EXECUTABLE {
        ErrorKind::FrozenExecutable
    } else if code == STATUS_ERROR_INVALID_SYMBOL_NAME {
        ErrorKind::InvalidSymbolName
    } else if code == STATUS_ERROR_VARIABLE_ALREADY_DEFINED {
        ErrorKind::VariableAlreadyDefined
    } else if code == STATUS_ERROR_VARIABLE_UNDEFINED {
        ErrorKind::VariableUndefined
    } else if code == STATUS_ERROR_INCOMPATIBLE_ARGUMENTS {
        ErrorKind::IncompatibleArguments
    } else if code == STATUS_ERROR_INVALID_ISA {
        ErrorKind::InvalidIsa
    } else if code == STATUS_ERROR_INVALID_ISA_NAME {
        ErrorKind::InvalidIsa
    } else if code == STATUS_ERROR_FATAL {
        ErrorKind::Fatal
    } else {
        ErrorKind::HsaStatus
    }
}

/// The error that a status is translated to, carrying `detail`.
pub open spec fn translated_as(code: u32, detail: Seq<char>) -> ErrorView {
    ErrorView {
        kind: kind_of_status(code),
        detail,
        status: if kind_of_status(code) == ErrorKind::HsaStatus {
            Some(code)
        } else {
            None
        },
    }
}

/// The error that a status is translated to: the variant for its code, with
/// the status's wording as text.
pub open spec fn translated(status: Status) -> ErrorView {
    translated_as(status.code, status.wording())
}

/// As [`translated`], with the text opened by what was being done.
pub open spec fn translated_with_context(status: Status, context: Seq<char>) -> ErrorView {
    translated_as(status.code, context + ": "@ + status.wording())
}

/// The outcome of a query: the value where the runtime answered with
/// success, else the status translated under `context`.
pub open spec fn answered<T>(reply: Reply<T>, context: Seq<char>) -> Result<T, ErrorView> {
    if reply.status.succeeded() {
        Ok(reply.value)
    } else {
        Err(translated_with_context(reply.status, context))
    }
}

/// Whether a result is the expected one: the same value, or an error with
/// the same view.
pub open spec fn agrees<T>(result: Result<T, HsaError>, expected: Result<T, ErrorView>) -> bool {
    match (result, expected) {
        (Ok(a), Ok(b)) => a == b,
        (Err(e), Err(v)) => e@ == v,
        _ => false,
    }
}

impl View for HsaError {
    type V = ErrorView;

    open spec fn view(&self) -> ErrorView {
        match self {
            HsaError::InitializationFailed => ErrorView::bare(ErrorKind::InitializationFailed),
            HsaError::ShutdownFailed => ErrorView::bare(ErrorKind::ShutdownFailed),
            HsaError::AgentNotFound => ErrorView::bare(ErrorKind::AgentNotFound),
            HsaError::QueueCreationFailed(m) => ErrorView::with(ErrorKind::QueueCreationFailed, m@),
            HsaError::MemoryAllocationFailed(m) => ErrorView::with(ErrorKind::MemoryAllocationFailed, m@),
            HsaError::CodeObjectReaderFailed(m) => ErrorView::with(ErrorKind::CodeObjectReaderFailed, m@),
            HsaError::CodeObjectLoadFailed(m) => ErrorView::with(ErrorKind::CodeObjectLoadFailed, m@),
            HsaError::ExecutableCreationFailed(m) => ErrorView::with(ErrorKind::ExecutableCreationFailed, m@),
            HsaError::ExecutableFreezeFailed(m) => ErrorView::with(ErrorKind::ExecutableFreezeFailed, m@),
            HsaError::KernelNotFound(m) => ErrorView::with(ErrorKind::KernelNotFound, m@),
            HsaError::ExecutionFailed(m) => ErrorView::with(ErrorKind::ExecutionFailed, m@),
            HsaError::MemoryRegionNotFound => ErrorView::bare(ErrorKind::MemoryRegionNotFound),
            HsaError::SignalOperationFailed(m) => ErrorView::with(ErrorKind::SignalOperationFailed, m@),
            HsaError::InvalidArgument(m) => ErrorView::with(ErrorKind::InvalidArgument, m@),
            HsaError::InvalidAgent(m) => ErrorView::with(ErrorKind::InvalidAgent, m@),
            HsaError::InvalidRegion(m) => ErrorView::with(ErrorKind::InvalidRegion, m@),
            HsaError::InvalidAllocation(m) => ErrorView::with(ErrorKind::InvalidAllocation, m@),
            HsaError::InvalidCodeObject(m) => ErrorView::with(ErrorKind::InvalidCodeObject, m@),
            HsaError::InvalidExecutable(m) => ErrorView::with(ErrorKind::InvalidExecutable, m@),
            HsaError::InvalidIsa(m) => ErrorView::with(ErrorKind::InvalidIsa, m@),
            HsaError::InvalidSymbolName(m) => ErrorView::with(ErrorKind::InvalidSymbolName, m@),
            HsaError::FrozenExecutable(m) => ErrorView::with(ErrorKind::FrozenExecutable, m@),
            HsaError::VariableAlreadyDefined(m) => ErrorView::with(ErrorKind::VariableAlreadyDefined, m@),
            HsaError::VariableUndefined(m) => ErrorView::with(ErrorKind::VariableUndefined, m@),
            HsaError::IncompatibleArguments(m) => ErrorView::with(ErrorKind::IncompatibleArguments, m@),
            HsaError::OutOfResources(m) => ErrorView::with(ErrorKind::OutOfResources, m@),
            HsaError::NotInitialized(m) => ErrorView::with(ErrorKind::NotInitialized, m@),
            HsaError::Fatal(m) => ErrorView::with(ErrorKind::Fatal, m@),
            HsaError::HsaStatus { status, description } => ErrorView {
                kind: ErrorKind::HsaStatus,
                detail: description@,
                status: Some(*status),
            },
            HsaError::StringConversionError => ErrorView::bare(ErrorKind::StringConversionError),
        }
    }
}

fn build(code: u32, detail: String) -> (e: HsaError)
    ensures
        e@ == translated_as(code, detail@),
{
    if code == STATUS_ERROR_INVALID_ARGUMENT {
        HsaError::InvalidArgument(detail)
    } else if code == STATUS_ERROR_INVALID_QUEUE_CREATION {
        HsaError::QueueCreationFailed(detail)
    } else if code == STATUS_ERROR_INVALID_ALLOCATION {
        HsaError::InvalidAllocation(detail)
    } else if code == STATUS_ERROR_INVALID_AGENT {
        HsaError::InvalidAgent(detail)
    } else if code == STATUS_ERROR_INVALID_REGION {
        HsaError::InvalidRegion(detail)
    } else if code == STATUS_ERROR_OUT_OF_RESOURCES {
        HsaError::OutOfResources(detail)
    } else if code == STATUS_ERROR_NOT_INITIALIZED {
        HsaError::NotInitialized(detail)
    } else if code == STATUS_ERROR_INVALID_CODE_OBJECT {
        HsaError::InvalidCodeObject(detail)
    } else if code == STATUS_ERROR_INVALID_EXECUTABLE {
        HsaError::InvalidExecutable(detail)
    } else if code == STATUS_ERROR_FROZEN_EXECUTABLE {
        HsaError::FrozenExecutable(detail)
    } else if code == STATUS_ERROR_INVALID_SYMBOL_NAME {
        HsaError::InvalidSymbolName(detail)
    } else if code == STATUS_ERROR_VARIABLE_ALREADY_DEFINED {
        HsaError::VariableAlreadyDefined(detail)
    } else if code == STATUS_ERROR_VARIABLE_UNDEFINED {
        HsaError::VariableUndefined(detail)
    } else if code == STATUS_ERROR_INCOMPATIBLE_ARGUMENTS {
        HsaError::IncompatibleArguments(detail)
    } else if code == STATUS_ERROR_INVALID_ISA {
        HsaError::InvalidIsa(detail)
    } else if code == STATUS_ERROR_INVALID_ISA_NAME {
        HsaError::InvalidIsa(detail)
    } else if code == STATUS_ERROR_FATAL {
        HsaError::Fatal(detail)
    } else {
        HsaError::HsaStatus { status: code, description: detail }
    }
}

impl HsaError {
    /// Translates a status into an error. A code without a variant of its
    /// own, the success code among them, becomes [`HsaError::HsaStatus`].
    pub fn from_status(status: Status) -> (e: HsaError)
        ensures
            e@ == translated(status),
    {
        build(status.code, status.description())
    }

    /// Translates a status into an error whose text reads `context`, a colon
    /// and a space, then the status's wording.
    pub fn from_status_with_context(status: Status, context: &str) -> (e: HsaError)
        ensures
            e@ == translated_with_context(status, context@),
    {
        let mut detail = String::from_str(context);
        detail.append(": ");
        let wording = status.description();
        detail.append(wording.as_str());
        build(status.code, detail)
    }

    /// The message of this error.
    pub fn to_string(&self) -> (s: String)
        ensures
            s@ == self@.display(),
    {
        let s = match self {
            HsaError::InitializationFailed => String::from_str("HSA initialization failed"),
            HsaError::ShutdownFailed => String::from_str("HSA shutdown failed"),
            HsaError::AgentNotFound => String::from_str("No GPU agent found"),
            HsaError::QueueCreationFailed(m) => joined("Queue creation failed: ", m.as_str()),
            HsaError::MemoryAllocationFailed(m) => joined("Memory allocation failed: ", m.as_str()),
            HsaError::CodeObjectReaderFailed(m) => joined("Code object reader creation failed: ", m.as_str()),
            HsaError::CodeObjectLoadFailed(m) => joined("Code object load failed: ", m.as_str()),
            HsaError::ExecutableCreationFailed(m) => joined("Executable creation failed: ", m.as_str()),
            HsaError::ExecutableFreezeFailed(m) => joined("Executable freeze failed: ", m.as_str()),
            HsaError::KernelNotFound(m) => joined("Kernel not found: ", m.as_str()),
            HsaError::ExecutionFailed(m) => joined("Kernel execution failed: ", m.as_str()),
            HsaError::MemoryRegionNotFound => String::from_str("Required memory region not found"),
            HsaError::SignalOperationFailed(m) => joined("Signal operation failed: ", m.as_str()),
            HsaError::InvalidArgument(m) => joined("Invalid argument: ", m.as_str()),
            HsaError::InvalidAgent(m) => joined("Invalid agent: ", m.as_str()),
            HsaError::InvalidRegion(m) => joined("Invalid region: ", m.as_str()),
            HsaError::InvalidAllocation(m) => joined("Invalid allocation: ", m.as_str()),
            HsaError::InvalidCodeObject(m) => joined("Invalid code object: ", m.as_str()),
            HsaError::InvalidExecutable(m) => joined("Invalid executable: ", m.as_str()),
            HsaError::InvalidIsa(m) => joined("Invalid ISA: ", m.as_str()),
            HsaError::InvalidSymbolName(m) => joined("Invalid symbol name: ", m.as_str()),
            HsaError::FrozenExecutable(m) => joined("Frozen executable: ", m.as_str()),
            HsaError::VariableAlreadyDefined(m) => joined("Variable already defined: ", m.as_str()),
            HsaError::VariableUndefined(m) => joined("Variable undefined: ", m.as_str()),
            HsaError::IncompatibleArguments(m) => joined("Incompatible arguments: ", m.as_str()),
            HsaError::OutOfResources(m) => joined("Out of resources: ", m.as_str()),
            HsaError::NotInitialized(m) => joined("Runtime not initialized: ", m.as_str()),
            HsaError::Fatal(m) => joined("Fatal HSA error: ", m.as_str()),
            HsaError::HsaStatus { status, description } => {
                let mut s = String::from_str("HSA error ");
                let digits = format_decimal(*status as u64);
                s.append(digits.as_str());
                s.append(": ");
                s.append(description.as_str());
                s
            },
            HsaError::StringConversionError => String::from_str("String conversion error"),
        };
        assert(s@ =~= self@.display());
        s
    }
}

} // verus!
