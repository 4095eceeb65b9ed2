//! Loaded code: executables and the kernel symbols in them.

use crate::agent::Agent;
use crate::error::{
    agrees, answered, translated, translated_with_context, ErrorKind, ErrorView, HsaError,
};
use crate::status::{
    Reply, Status, STATUS_ERROR_FROZEN_EXECUTABLE, STATUS_ERROR_INCOMPATIBLE_ARGUMENTS,
    STATUS_ERROR_INVALID_CODE_OBJECT, STATUS_ERROR_OUT_OF_RESOURCES,
    STATUS_ERROR_VARIABLE_UNDEFINED,
};
use crate::text::joined;
use vstd::prelude::*;
use vstd::utf8::{decode_utf8, valid_utf8};

verus! {

/// An executable as a mathematical value.
pub struct ExecutableView {
    pub handle: u64,
    /// The reader of the code object that was loaded last, if any was.
    pub code_object_reader: Option<u64>,
}

/// A container of loaded code.
#[derive(Debug)]
pub struct Executable {
    handle: u64,
    code_object_reader: Option<u64>,
}

/// One kernel in an executable, as the runtime reported it: its handle and
/// the answer to each query about it.
#[derive(Debug, Clone, Copy)]
pub struct KernelSymbol {
    pub handle: u64,
    pub kernel_object: Reply<u64>,
    pub kernarg_segment_size: Reply<u32>,
    pub group_segment_size: Reply<u32>,
    pub private_segment_size: Reply<u32>,
}

/// One symbol of an enumeration, as the runtime reported it: the length of
/// its name, and the buffer of that length and one byte more that the
/// runtime wrote the name into.
#[derive(Debug, Clone)]
pub struct SymbolRecord {
    pub name_length: Reply<u32>,
    pub name: Reply<Vec<u8>>,
}

/// What is added to the message of a failed load to say what may have
/// caused it.
pub open spec fn load_hint(code: u32) -> Seq<char> {
    if code == STATUS_ERROR_INCOMPATIBLE_ARGUMENTS {
        "\n  Possible causes:\n  - Code object ISA incompatible with agent\n  - Machine model mismatch\n  - Profile mismatch\n  - Floating-point mode mismatch"@
    } else if code == STATUS_ERROR_INVALID_CODE_OBJECT {
        "\n  Possible causes:\n  - Corrupted code object\n  - Invalid file format\n  - Unsupported code object version"@
    } else if code == STATUS_ERROR_OUT_OF_RESOURCES {
        "\n  Possible causes:\n  - Insufficient GPU memory\n  - Too many loaded code objects"@
    } else {
        Seq::empty()
    }
}

/// What is added to the message of a failed freeze.
pub open spec fn freeze_hint(code: u32) -> Seq<char> {
    if code == STATUS_ERROR_VARIABLE_UNDEFINED {
        "\n  One or more variables are undefined. All external variables must be defined before freezing."@
    } else if code == STATUS_ERROR_FROZEN_EXECUTABLE {
        "\n  Executable is already frozen."@
    } else {
        Seq::empty()
    }
}

/// The error of a load that fails, if it does.
pub open spec fn load_failure(code_object: Seq<u8>, reader: Reply<u64>, load: Reply<u64>) -> Option<
    ErrorView,
> {
    if code_object.len() == 0 {
        Some(ErrorView::with(ErrorKind::InvalidArgument, "Code object is empty"@))
    } else if !reader.status.succeeded() {
        Some(
            ErrorView::with(
                ErrorKind::CodeObjectReaderFailed,
                translated_with_context(
                    reader.status,
                    "Failed to create code object reader from memory"@,
                ).display(),
            ),
        )
    } else if !load.status.succeeded() {
        Some(
            ErrorView::with(
                ErrorKind::CodeObjectLoadFailed,
                translated_with_context(
                    load.status,
                    "Failed to load agent code object"@,
                ).display() + load_hint(load.status.code),
            ),
        )
    } else {
        None
    }
}

/// The error of a symbol lookup that fails, if it does.
pub open spec fn lookup_failure(name: Seq<char>, status: Status) -> Option<ErrorView> {
    if name.contains('\0') {
        Some(
            ErrorView::with(
                ErrorKind::InvalidArgument,
                "Invalid kernel name: '"@ + name + "'"@,
            ),
        )
    } else if !status.succeeded() {
        Some(
            ErrorView::with(
                ErrorKind::KernelNotFound,
                translated_with_context(
                    status,
                    "Failed to find kernel symbol '"@ + name + "'"@,
                ).display(),
            ),
        )
    } else {
        None
    }
}

/// The bytes of the text in a buffer that ends in its only zero byte: those
/// before that byte. A buffer that is empty, does not end in a zero byte, or
/// holds a zero byte before its end, has none.
pub open spec fn terminated_text(buffer: Seq<u8>) -> Option<Seq<u8>> {
    if buffer.len() > 0 && buffer.last() == 0 && !buffer.drop_last().contains(0u8) {
        Some(buffer.drop_last())
    } else {
        None
    }
}

/// The name that a symbol record gives, if it gives one: the runtime
/// answered the name query with success, the buffer ends in its only zero
/// byte, and the bytes before it are UTF-8.
pub open spec fn symbol_name(record: SymbolRecord) -> Option<Seq<char>> {
    if !record.name.status.succeeded() {
        None
    } else {
        match terminated_text(record.name.value@) {
            Some(bytes) => if valid_utf8(bytes) {
                Some(decode_utf8(bytes))
            } else {
                None
            },
            None => None,
        }
    }
}

/// The names that the first `count` records give, in order.
pub open spec fn symbol_names(records: Seq<SymbolRecord>, count: nat) -> Seq<Seq<char>>
    decreases count,
{
    if count == 0 {
        Seq::empty()
    } else {
        let before = symbol_names(records, (count - 1) as nat);
        match symbol_name(records[count - 1]) {
            Some(name) => before.push(name),
            None => before,
        }
    }
}

/// The index of the first record whose length query failed, or the number of
/// records where none did.
pub open spec fn first_failed_length(records: Seq<SymbolRecord>) -> nat
    decreases records.len(),
{
    if records.len() == 0 || !records[0].name_length.status.succeeded() {
        0
    } else {
        1 + first_failed_length(records.drop_first())
    }
}

/// The views of a list of strings.
pub open spec fn texts(strings: Seq<String>) -> Seq<Seq<char>> {
    strings.map_values(|s: String| s@)
}

/// `String::from_utf8` on a copy of the bytes. Claims that bytes that are
/// UTF-8 give the text that they encode, and that other bytes give nothing.
#[verifier::external_body]
fn decode_strict(bytes: &Vec<u8>) -> (text: Option<String>)
    ensures
        match text {
            Some(s) => valid_utf8(bytes@) && s@ == decode_utf8(bytes@),
            None => !valid_utf8(bytes@),
        },
{
    String::from_utf8(bytes.clone()).ok()
}

/// Whether a text holds the character with code zero.
fn holds_nul(text: &str) -> (found: bool)
    ensures
        found == text@.contains('\0'),
{
    let n = text.unicode_len();
    let mut i: usize = 0;
    while i < n
        invariant
            0 <= i <= n,
            n == text@.len(),
            forall|k: int| 0 <= k < i ==> text@[k] != '\0',
        decreases n - i,
    {
        if text.get_char(i) == '\0' {
            return true;
        }
        i += 1;
    }
    false
}

/// The bytes before the zero byte that ends a buffer, where the buffer ends
/// in its only zero byte.
pub fn read_terminated(buffer: &Vec<u8>) -> (text: Option<Vec<u8>>)
    ensures
        match text {
            Some(bytes) => terminated_text(buffer@) == Some(bytes@),
            None => terminated_text(buffer@) is None,
        },
{
    let n = buffer.len();
    if n == 0 || buffer[n - 1] != 0 {
        return None;
    }
    let mut bytes: Vec<u8> = Vec::new();
    let mut i: usize = 0;
    while i < n - 1
        invariant
            0 <= i <= n - 1,
            n == buffer@.len(),
            buffer@.last() == 0,
            bytes@ == buffer@.take(i as int),
            forall|k: int| 0 <= k < i ==> buffer@[k] != 0,
        decreases n - i,
    {
        if buffer[i] == 0 {
            assert(buffer@.drop_last()[i as int] == 0u8);
            assert(buffer@.drop_last().contains(0u8));
            return None;
        }
        assert(buffer@.take(i as int).push(buffer@[i as int]) =~= buffer@.take(i + 1));
        bytes.push(buffer[i]);
        i += 1;
    }
    assert(buffer@.take(n - 1) =~= buffer@.drop_last());
    Some(bytes)
}

/// Reads the name out of a symbol record.
fn read_symbol_name(record: &SymbolRecord) -> (name: Option<String>)
    ensures
        match name {
            Some(s) => symbol_name(*record) == Some(s@),
            None => symbol_name(*record) is None,
        },
{
    if !record.name.status.is_success() {
        return None;
    }
    match read_terminated(&record.name.value) {
        Some(bytes) => decode_strict(&bytes),
        None => None,
    }
}

/// The length of the buffer to hand to the runtime for the name of a symbol:
/// one byte more than the name is long, for the zero byte that ends it.
/// There is none where the length is not known, nor where no buffer can be
/// that long.
pub fn name_buffer_len(name_length: &Reply<u32>) -> (len: Option<usize>)
    ensures
        len == if name_length.status.succeeded() && name_length.value < u32::MAX {
            Some((name_length.value + 1) as usize)
        } else {
            None
        },
{
    if name_length.status.is_success() && name_length.value < u32::MAX {
        Some((name_length.value + 1) as usize)
    } else {
        None
    }
}

/// The visitor of an enumeration of symbols: adds the name of the symbol to
/// `symbols` if the record gives one. Returns the failing status of the
/// length query, which ends the enumeration with that status, and success
/// otherwise.
pub fn collect_symbol_names_callback(record: &SymbolRecord, symbols: &mut Vec<String>) -> (status:
    Status)
    ensures
        status.succeeded() == record.name_length.status.succeeded(),
        !status.succeeded() ==> status == record.name_length.status && texts(final(symbols)@)
            == texts(old(symbols)@),
        status.succeeded() ==> texts(final(symbols)@) == match symbol_name(*record) {
            Some(name) => texts(old(symbols)@).push(name),
            None => texts(old(symbols)@),
        },
{
    if !record.name_length.status.is_success() {
        return record.name_length.status;
    }
    match read_symbol_name(record) {
        Some(name) => {
            let ghost before = symbols@;
            symbols.push(name);
            assert(texts(symbols@) =~= texts(before).push(name@));
        },
        None => {},
    }
    Status::success()
}

impl View for Executable {
    type V = ExecutableView;

    closed spec fn view(&self) -> ExecutableView {
        ExecutableView { handle: self.handle, code_object_reader: self.code_object_reader }
    }
}

impl Executable {
    /// Makes the executable that the runtime answered a creation request
    /// with. `reply` holds the status and the handle.
    pub fn create(reply: Reply<u64>) -> (r: Result<Executable, HsaError>)
        ensures
            match r {
                Ok(x) => reply.status.succeeded() && x@ == (ExecutableView {
                    handle: reply.value,
                    code_object_reader: None,
                }),
                Err(e) => !reply.status.succeeded() && e@ == translated_with_context(
                    reply.status,
                    "Failed to create executable"@,
                ),
            },
    {
        if !reply.status.is_success() {
            return Err(
                HsaError::from_status_with_context(reply.status, "Failed to create executable"),
            );
        }
        Ok(Executable { handle: reply.value, code_object_reader: None })
    }

    /// The handle of the executable.
    pub fn handle(&self) -> (h: u64)
        ensures
            h == self@.handle,
    {
        self.handle
    }

    /// The reader that the executable holds on to, to be released with it.
    pub fn code_object_reader(&self) -> (reader: Option<u64>)
        ensures
            reader == self@.code_object_reader,
    {
        self.code_object_reader
    }

    /// Gives the executable up. Returns what to hand back to the runtime,
    /// in this order: the reader that the executable holds on to, if any,
    /// and the handle of the executable.
    pub fn destroy(self) -> (handles: (Option<u64>, u64))
        ensures
            handles == (self@.code_object_reader, self@.handle),
    {
        (self.code_object_reader, self.handle)
    }

    /// Refuses a code object that is empty: there is nothing to make a
    /// reader over.
    pub fn check_code_object(code_object: &[u8]) -> (r: Result<(), HsaError>)
        ensures
            match r {
                Ok(_) => code_object@.len() > 0,
                Err(e) => code_object@.len() == 0 && e@ == ErrorView::with(
                    ErrorKind::InvalidArgument,
                    "Code object is empty"@,
                ),
            },
    {
        if code_object.len() == 0 {
            return Err(HsaError::InvalidArgument(String::from_str("Code object is empty")));
        }
        Ok(())
    }

    /// Refuses a kernel name that holds the character with code zero: such a
    /// name cannot be handed to the runtime.
    pub fn check_kernel_name(name: &str) -> (r: Result<(), HsaError>)
        ensures
            match r {
                Ok(_) => !name@.contains('\0'),
                Err(e) => name@.contains('\0') && e@ == ErrorView::with(
                    ErrorKind::InvalidArgument,
                    "Invalid kernel name: '"@ + name@ + "'"@,
                ),
            },
    {
        if holds_nul(name) {
            let mut message = joined("Invalid kernel name: '", name);
            message.append("'");
            return Err(HsaError::InvalidArgument(message));
        }
        Ok(())
    }

    /// Takes the runtime's answers to the loading of a code object.
    ///
    /// `reader` is the answer to the creation of a reader over
    /// `code_object`, and `load` the answer to loading through that reader
    /// for `agent`. An empty code object is refused before either is looked
    /// at, and `load` is looked at only where `reader` succeeded. On success
    /// the executable holds the reader; on failure it is unchanged, and a
    /// reader that was created is the caller's to release.
    #[allow(unused_variables)]
    pub fn load_code_object(
        &mut self,
        agent: &Agent,
        code_object: &[u8],
        reader: Reply<u64>,
        load: Reply<u64>,
    ) -> (r: Result<(), HsaError>)
        ensures
            match load_failure(code_object@, reader, load) {
                Some(error) => r matches Err(e) && e@ == error && final(self)@ == old(self)@,
                None => r is Ok && final(self)@ == (ExecutableView {
                    code_object_reader: Some(reader.value),
                    ..old(self)@
                }),
            },
    {
        match Self::check_code_object(code_object) {
            Err(e) => {
                return Err(e);
            },
            Ok(_) => {},
        }
        if !reader.status.is_success() {
            let error = HsaError::from_status_with_context(
                reader.status,
                "Failed to create code object reader from memory",
            );
            return Err(HsaError::CodeObjectReaderFailed(error.to_string()));
        }
        if !load.status.is_success() {
            let error = HsaError::from_status_with_context(
                load.status,
                "Failed to load agent code object",
            );
            let mut detail = error.to_string();
            let code = load.status.code;
            if code == STATUS_ERROR_INCOMPATIBLE_ARGUMENTS {
                detail.append(
                    "\n  Possible causes:\n  - Code object ISA incompatible with agent\n  - Machine model mismatch\n  - Profile mismatch\n  - Floating-point mode mismatch",
                );
            } else if code == STATUS_ERROR_INVALID_CODE_OBJECT {
                detail.append(
                    "\n  Possible causes:\n  - Corrupted code object\n  - Invalid file format\n  - Unsupported code object version",
                );
            } else if code == STATUS_ERROR_OUT_OF_RESOURCES {
                detail.append(
                    "\n  Possible causes:\n  - Insufficient GPU memory\n  - Too many loaded code objects",
                );
            } else {
                assert(detail@ + Seq::<char>::empty() =~= detail@);
            }
            return Err(HsaError::CodeObjectLoadFailed(detail));
        }
        self.code_object_reader = Some(reader.value);
        Ok(())
    }

    /// Takes the runtime's answer to freezing the executable.
    pub fn freeze(&self, status: Status) -> (r: Result<(), HsaError>)
        ensures
            match r {
                Ok(_) => status.succeeded(),
                Err(e) => !status.succeeded() && e@ == ErrorView::with(
                    ErrorKind::ExecutableFreezeFailed,
                    translated_with_context(status, "Failed to freeze executable"@).display()
                        + freeze_hint(status.code),
                ),
            },
    {
        if !status.is_success() {
            let error = HsaError::from_status_with_context(status, "Failed to freeze executable");
            let mut detail = error.to_string();
            if status.code == STATUS_ERROR_VARIABLE_UNDEFINED {
                detail.append(
                    "\n  One or more variables are undefined. All external variables must be defined before freezing.",
                );
            } else if status.code == STATUS_ERROR_FROZEN_EXECUTABLE {
                detail.append("\n  Executable is already frozen.");
            } else {
                assert(detail@ + Seq::<char>::empty() =~= detail@);
            }
            return Err(HsaError::ExecutableFreezeFailed(detail));
        }
        Ok(())
    }

    /// Takes the runtime's answer to the lookup of a kernel by name.
    ///
    /// A name that holds the character with code zero cannot be handed to
    /// the runtime and is refused whatever the reply holds.
    #[allow(unused_variables)]
    pub fn get_kernel_symbol(&self, name: &str, agent: &Agent, reply: Reply<KernelSymbol>) -> (r:
        Result<KernelSymbol, HsaError>)
        ensures
            match lookup_failure(name@, reply.status) {
                Some(error) => r matches Err(e) && e@ == error,
                None => r == Ok::<KernelSymbol, HsaError>(reply.value),
            },
    {
        match Self::check_kernel_name(name) {
            Err(e) => {
                return Err(e);
            },
            Ok(_) => {},
        }
        if !reply.status.is_success() {
            let mut context = joined("Failed to find kernel symbol '", name);
            context.append("'");
            let error = HsaError::from_status_with_context(reply.status, context.as_str());
            return Err(HsaError::KernelNotFound(error.to_string()));
        }
        Ok(reply.value)
    }

    /// The names of the symbols of an enumeration.
    ///
    /// `records` are the symbols in the order in which the runtime presents
    /// them, and `walk` is the status with which the runtime ends an
    /// enumeration that no visitor stops. A symbol whose length query failed
    /// stops the enumeration with that status, which is then the error. A
    /// symbol that gives no name is passed over.
    #[allow(unused_variables)]
    pub fn list_symbols(&self, agent: &Agent, records: &Vec<SymbolRecord>, walk: Status) -> (r:
        Result<Vec<String>, HsaError>)
        ensures
            ({
                let stop = first_failed_length(records@) as int;
                let status = if stop < records@.len() {
                    records@[stop].name_length.status
                } else {
                    walk
                };
                match r {
                    Ok(names) => status.succeeded() && texts(names@) == symbol_names(
                        records@,
                        stop as nat,
                    ),
                    Err(e) => !status.succeeded() && e@ == translated_with_context(
                        status,
                        "Failed to iterate symbols"@,
                    ),
                }
            }),
    {
        let mut names: Vec<String> = Vec::new();
        let mut status = walk;
        let mut i: usize = 0;
        assert(records@.skip(0) =~= records@);
        assert(texts(names@) =~= symbol_names(records@, 0));
        while i < records.len()
            invariant_except_break
                0 <= i <= records.len(),
                status == walk,
                first_failed_length(records@) == i + first_failed_length(records@.skip(i as int)),
                texts(names@) == symbol_names(records@, i as nat),
            ensures
                0 <= i <= records.len(),
                first_failed_length(records@) == i,
                status == if i < records@.len() {
                    records@[i as int].name_length.status
                } else {
                    walk
                },
                i < records@.len() ==> !status.succeeded(),
                texts(names@) == symbol_names(records@, i as nat),
            decreases records.len() - i,
        {
            proof {
                let rest = records@.skip(i as int);
                assert(rest[0] == records@[i as int]);
                assert(rest.drop_first() =~= records@.skip(i + 1));
            }
            let visited = collect_symbol_names_callback(&records[i], &mut names);
            if !visited.is_success() {
                status = visited;
                break;
            }
            i += 1;
        }
        if !status.is_success() {
            return Err(HsaError::from_status_with_context(status, "Failed to iterate symbols"));
        }
        Ok(names)
    }
}

impl KernelSymbol {
    /// The handle of the kernel's code, which a dispatch packet names.
    pub fn kernel_object(&self) -> (r: Result<u64, HsaError>)
        ensures
            agrees(
                r,
                answered(
                    self.kernel_object,
                    "Failed to get kernel object from symbol"@,
                ),
            ),
    {
        if !self.kernel_object.status.is_success() {
            return Err(
                HsaError::from_status_with_context(
                    self.kernel_object.status,
                    "Failed to get kernel object from symbol",
                ),
            );
        }
        Ok(self.kernel_object.value)
    }

    /// The size of the kernel's argument block in bytes.
    pub fn get_kernarg_segment_size(&self) -> (r: Result<u32, HsaError>)
        ensures
            match r {
                Ok(size) => self.kernarg_segment_size.status.succeeded() && size
                    == self.kernarg_segment_size.value,
                Err(e) => !self.kernarg_segment_size.status.succeeded() && e@ == translated(
                    self.kernarg_segment_size.status,
                ),
            },
    {
        if !self.kernarg_segment_size.status.is_success() {
            return Err(HsaError::from_status(self.kernarg_segment_size.status));
        }
        Ok(self.kernarg_segment_size.value)
    }

    /// The size of the group memory that the kernel needs, in bytes.
    pub fn get_group_segment_size(&self) -> (r: Result<u32, HsaError>)
        ensures
            match r {
                Ok(size) => self.group_segment_size.status.succeeded() && size
                    == self.group_segment_size.value,
                Err(e) => !self.group_segment_size.status.succeeded() && e@ == translated(
                    self.group_segment_size.status,
                ),
            },
    {
        if !self.group_segment_size.status.is_success() {
            return Err(HsaError::from_status(self.group_segment_size.status));
        }
        Ok(self.group_segment_size.value)
    }

    /// The size of the private memory that each work-item needs, in bytes.
    pub fn get_private_segment_size(&self) -> (r: Result<u32, HsaError>)
        ensures
            match r {
                Ok(size) => self.private_segment_size.status.succeeded() && size
                    == self.private_segment_size.value,
                Err(e) => !self.private_segment_size.status.succeeded() && e@ == translated(
                    self.private_segment_size.status,
                ),
            },
    {
        if !self.private_segment_size.status.is_success() {
            return Err(HsaError::from_status(self.private_segment_size.status));
        }
        Ok(self.private_segment_size.value)
    }
}

} // verus!
