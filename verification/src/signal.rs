//! Completion signals: a 64-bit value that producers and the device change
//! and that a caller waits on.

use crate::error::{translated_with_context, ErrorKind, ErrorView, HsaError};
use crate::log::{lines, LineView, LogLevel, LogLine};
use crate::status::Reply;
use crate::text::{format_hex, format_signed, hex, signed_decimal};
use vstd::prelude::*;

verus! {

/// A signal as a mathematical value.
pub struct SignalView {
    pub handle: u64,
    pub value: i64,
}

impl SignalView {
    /// The lines that describe the signal, all at level info.
    pub open spec fn info_lines(self) -> Seq<LineView> {
        seq![
            LineView { level: LogLevel::Info, message: "Signal Information:"@ },
            LineView {
                level: LogLevel::Info,
                message: "  Handle: 0x"@ + hex(self.handle as nat),
            },
            LineView {
                level: LogLevel::Info,
                message: "  Current Value: "@ + signed_decimal(self.value as int),
            },
        ]
    }
}

/// The comparison that a wait is made under.
#[derive(Debug, Clone, Copy, PartialEq, Eq, Structural)]
pub enum SignalCondition {
    Eq,
    Ne,
    Lt,
    Gte,
}

impl SignalCondition {
    /// Whether a signal that holds `observed` meets this condition against
    /// `value`.
    pub open spec fn met(self, observed: i64, value: i64) -> bool {
        match self {
            SignalCondition::Eq => observed == value,
            SignalCondition::Ne => observed != value,
            SignalCondition::Lt => observed < value,
            SignalCondition::Gte => observed >= value,
        }
    }
}

impl SignalCondition {
    /// Whether a signal that holds `observed` meets this condition against
    /// `value`. A caller learns from this whether a wait ended because its
    /// condition was met.
    pub fn holds(self, observed: i64, value: i64) -> (met: bool)
        ensures
            met == self.met(observed, value),
    {
        match self {
            SignalCondition::Eq => observed == value,
            SignalCondition::Ne => observed != value,
            SignalCondition::Lt => observed < value,
            SignalCondition::Gte => observed >= value,
        }
    }
}

/// One signal. Its handle is never zero.
///
/// The value lives in this object: an operation on the signal is an
/// operation on that value, and nothing else changes it. A wait therefore
/// observes the value as it stands and returns at once, whether or not its
/// condition is met; the caller tells the two apart by the value returned.
/// A returned value that fails the condition says only that the condition
/// was not met when the wait ended, not why.
#[derive(Debug)]
pub struct Signal {
    handle: u64,
    value: i64,
}

/// What the context of a failed creation reads.
pub open spec fn create_context(initial_value: i64) -> Seq<char> {
    "Failed to create signal with initial value "@ + signed_decimal(initial_value as int)
}

/// Why a creation fails, if it does: the message that the error carries.
pub open spec fn create_failure(initial_value: i64, reply: Reply<u64>) -> Option<Seq<char>> {
    if !reply.status.succeeded() {
        Some(translated_with_context(reply.status, create_context(initial_value)).display())
    } else if reply.value == 0 {
        Some("Signal creation returned invalid handle (0)"@)
    } else {
        None
    }
}

impl View for Signal {
    type V = SignalView;

    closed spec fn view(&self) -> SignalView {
        SignalView { handle: self.handle, value: self.value }
    }
}

impl Signal {
    #[verifier::type_invariant]
    spec fn nonzero_handle(self) -> bool {
        self.handle != 0
    }

    /// Makes the signal that the runtime answered a creation request with.
    ///
    /// `reply` is the runtime's answer to a request for a signal with
    /// `initial_value` and no consumer list: its status and the handle. A
    /// status other than success, or a zero handle, is an error.
    pub fn create(initial_value: i64, reply: Reply<u64>) -> (r: Result<Signal, HsaError>)
        ensures
            match create_failure(initial_value, reply) {
                Some(message) => r matches Err(e) && e@ == ErrorView::with(
                    ErrorKind::SignalOperationFailed,
                    message,
                ),
                None => r matches Ok(s) && s@ == (SignalView {
                    handle: reply.value,
                    value: initial_value,
                }),
            },
    {
        if !reply.status.is_success() {
            let mut context = String::from_str("Failed to create signal with initial value ");
            let number = format_signed(initial_value);
            context.append(number.as_str());
            let error = HsaError::from_status_with_context(reply.status, context.as_str());
            return Err(HsaError::SignalOperationFailed(error.to_string()));
        }
        if reply.value == 0 {
            return Err(
                HsaError::SignalOperationFailed(
                    String::from_str("Signal creation returned invalid handle (0)"),
                ),
            );
        }
        Ok(Signal { handle: reply.value, value: initial_value })
    }

    /// The handle of the signal, which a dispatch packet names.
    pub fn handle(&self) -> (h: u64)
        ensures
            h == self@.handle,
            h != 0,
    {
        proof {
            use_type_invariant(self);
        }
        self.handle
    }

    /// The value of the signal.
    pub fn load(&self) -> (v: i64)
        ensures
            v == self@.value,
    {
        self.value
    }

    /// Sets the value of the signal.
    pub fn store(&mut self, value: i64)
        ensures
            final(self)@ == (SignalView { value, ..old(self)@ }),
    {
        proof {
            use_type_invariant(&*self);
        }
        self.value = value;
    }

    /// Waits until the signal equals `value`. Returns the value observed,
    /// which is the value of the signal as it stands:
    /// [`SignalCondition::holds`] tells whether the condition was met.
    #[allow(unused_variables)]
    pub fn wait_eq(&self, value: i64, timeout_ns: u64) -> (observed: i64)
        ensures
            observed == self@.value,
    {
        self.value
    }

    /// Waits until the signal differs from `value`. Returns the value
    /// observed.
    #[allow(unused_variables)]
    pub fn wait_ne(&self, value: i64, timeout_ns: u64) -> (observed: i64)
        ensures
            observed == self@.value,
    {
        self.value
    }

    /// Waits until the signal is below `value`. Returns the value observed.
    #[allow(unused_variables)]
    pub fn wait_lt(&self, value: i64, timeout_ns: u64) -> (observed: i64)
        ensures
            observed == self@.value,
    {
        self.value
    }

    /// Waits until the signal is at least `value`. Returns the value
    /// observed.
    #[allow(unused_variables)]
    pub fn wait_gte(&self, value: i64, timeout_ns: u64) -> (observed: i64)
        ensures
            observed == self@.value,
    {
        self.value
    }

    /// Gives the signal up. Returns the handle to hand back to the runtime.
    pub fn destroy(self) -> (handle: u64)
        ensures
            handle == self@.handle,
            handle != 0,
    {
        proof {
            use_type_invariant(&self);
        }
        self.handle
    }

    /// Describes the signal: its handle and its value.
    pub fn print_info(&self) -> (list: Vec<LogLine>)
        ensures
            lines(list@) == self@.info_lines(),
    {
        let handle = format_hex(self.handle);
        let value = format_signed(self.load());
        let mut list: Vec<LogLine> = Vec::new();
        list.push(LogLine::info("Signal Information:", ""));
        list.push(LogLine::info("  Handle: 0x", handle.as_str()));
        list.push(LogLine::info("  Current Value: ", value.as_str()));
        proof {
            reveal_strlit("");
            assert(""@ =~= Seq::<char>::empty());
            assert("Signal Information:"@ + Seq::<char>::empty() =~= "Signal Information:"@);
            assert(lines(list@) =~= self@.info_lines());
        }
        list
    }

    /// Adds `value`, wrapping at the bounds of a 64-bit signed number.
    pub fn add(&mut self, value: i64)
        ensures
            final(self)@ == (SignalView {
                value: old(self)@.value.wrapping_add(value),
                ..old(self)@
            }),
    {
        proof {
            use_type_invariant(&*self);
        }
        self.value = self.value.wrapping_add(value);
    }

    /// Subtracts `value`, wrapping at the bounds of a 64-bit signed number.
    pub fn subtract(&mut self, value: i64)
        ensures
            final(self)@ == (SignalView {
                value: old(self)@.value.wrapping_sub(value),
                ..old(self)@
            }),
    {
        proof {
            use_type_invariant(&*self);
        }
        self.value = self.value.wrapping_sub(value);
    }

    /// Stores `value` and returns what the signal held before.
    pub fn exchange(&mut self, value: i64) -> (previous: i64)
        ensures
            previous == old(self)@.value,
            final(self)@ == (SignalView { value, ..old(self)@ }),
    {
        proof {
            use_type_invariant(&*self);
        }
        let previous = self.value;
        self.value = value;
        previous
    }

    /// Stores `value` if the signal holds `expected`. Returns what the signal
    /// held before; the store took place exactly if that equals `expected`.
    pub fn compare_and_swap(&mut self, expected: i64, value: i64) -> (previous: i64)
        ensures
            previous == old(self)@.value,
            final(self)@ == (SignalView {
                value: if previous == expected {
                    value
                } else {
                    previous
                },
                ..old(self)@
            }),
    {
        proof {
            use_type_invariant(&*self);
        }
        let previous = self.value;
        if previous == expected {
            self.value = value;
        }
        previous
    }

    /// Replaces the value by its bitwise and with `value`.
    pub fn and(&mut self, value: i64)
        ensures
            final(self)@ == (SignalView { value: old(self)@.value & value, ..old(self)@ }),
    {
        proof {
            use_type_invariant(&*self);
        }
        self.value = self.value & value;
    }

    /// Replaces the value by its bitwise or with `value`.
    pub fn or(&mut self, value: i64)
        ensures
            final(self)@ == (SignalView { value: old(self)@.value | value, ..old(self)@ }),
    {
        proof {
            use_type_invariant(&*self);
        }
        self.value = self.value | value;
    }

    /// Replaces the value by its bitwise exclusive or with `value`.
    pub fn xor(&mut self, value: i64)
        ensures
            final(self)@ == (SignalView { value: old(self)@.value ^ value, ..old(self)@ }),
    {
        proof {
            use_type_invariant(&*self);
        }
        self.value = self.value ^ value;
    }
}

} // verus!
