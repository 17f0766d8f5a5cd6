//! Status values exchanged on every transaction.
//!
//! A status value packs a module id (9 bits) and a description code
//! (13 bits) into one 32-bit word. The all-zero word means success.

use vstd::prelude::*;

verus! {

/// Number of distinct module ids (the module occupies the low 9 bits).
pub const MODULE_LIMIT: u32 = 512;

/// Number of distinct description codes (13 bits above the module).
pub const DESCRIPTION_LIMIT: u32 = 8192;

/// Module id of failures reported by the kernel.
pub const MODULE_KERNEL: u32 = 1;

/// Module id of failures found while marshaling commands.
pub const MODULE_COMMAND: u32 = 10;

/// Module id of failures found while laying out a message.
pub const MODULE_MESSAGE: u32 = 11;

/// Kernel: the handle does not name a live kernel object.
pub const DESCRIPTION_INVALID_HANDLE: u32 = 114;

/// Command: the data header of a received message is not the expected one.
pub const DESCRIPTION_INVALID_HEADER: u32 = 211;

/// Command: no table entry accepts the request id at the negotiated version.
pub const DESCRIPTION_UNKNOWN_COMMAND: u32 = 221;

/// Command: the received payload is too short for the expected outputs.
pub const DESCRIPTION_INVALID_OUTPUT: u32 = 232;

/// Command: the addressed domain object does not exist.
pub const DESCRIPTION_OBJECT_NOT_FOUND: u32 = 261;

/// Command: the domain has no free object id left.
pub const DESCRIPTION_OUT_OF_DOMAIN_ENTRIES: u32 = 301;

/// Message: the active protocol cannot carry the requested feature.
pub const DESCRIPTION_UNSUPPORTED_OPERATION: u32 = 1;

/// Message: the message does not fit the shared message region.
pub const DESCRIPTION_MESSAGE_TOO_LARGE: u32 = 2;

/// Message: the received bytes are not a well-formed message.
pub const DESCRIPTION_MALFORMED_MESSAGE: u32 = 3;

/// The packed word of a module id and a description code, both in range.
pub open spec fn pack(module: int, description: int) -> int {
    module + 512 * description
}

/// The status value of a module id and a description code, each reduced
/// to the width of its field.
pub open spec fn code(module: u32, description: u32) -> ResultCode {
    ResultCode { value: pack(module as int % 512, description as int % 8192) as u32 }
}

/// A packed success / failure code.
#[derive(Clone, Copy, Debug, PartialEq, Eq, Structural)]
pub struct ResultCode {
    pub value: u32,
}

impl ResultCode {
    /// The module id held in the low 9 bits.
    pub open spec fn module_of(self) -> int {
        self.value as int % 512
    }

    /// The description code held in the 13 bits above the module id.
    pub open spec fn description_of(self) -> int {
        (self.value as int / 512) % 8192
    }

    /// Whether this is the success sentinel.
    pub open spec fn succeeded(self) -> bool {
        self.value == 0
    }

    /// Wraps a raw status word.
    pub fn new(value: u32) -> (rc: Self)
        ensures
            rc.value == value,
    {
        Self { value }
    }

    /// The success sentinel.
    pub fn success() -> (rc: Self)
        ensures
            rc.value == 0,
            rc.succeeded(),
    {
        Self { value: 0 }
    }

    /// Packs a module id and a description code. Each part is reduced to
    /// the width of its field, so the parts never spill into each other.
    pub fn from_parts(module: u32, description: u32) -> (rc: Self)
        ensures
            rc == code(module, description),
            rc.value == pack(module as int % 512, description as int % 8192),
            rc.module_of() == module as int % 512,
            rc.description_of() == description as int % 8192,
    {
        let m: u32 = module % MODULE_LIMIT;
        let d: u32 = description % DESCRIPTION_LIMIT;
        Self { value: m + MODULE_LIMIT * d }
    }

    /// The raw status word.
    pub fn get_value(&self) -> (value: u32)
        ensures
            value == self.value,
    {
        self.value
    }

    /// The module id.
    pub fn get_module(&self) -> (module: u32)
        ensures
            module == self.module_of(),
            module < 512,
    {
        self.value % MODULE_LIMIT
    }

    /// The description code.
    pub fn get_description(&self) -> (description: u32)
        ensures
            description == self.description_of(),
            description < 8192,
    {
        (self.value / MODULE_LIMIT) % DESCRIPTION_LIMIT
    }

    /// Whether the status is the success sentinel.
    pub fn is_success(&self) -> (b: bool)
        ensures
            b == self.succeeded(),
    {
        self.value == 0
    }

    /// Whether the status is anything but the success sentinel.
    pub fn is_failure(&self) -> (b: bool)
        ensures
            b == !self.succeeded(),
    {
        self.value != 0
    }
}

/// Kernel failure: the handle does not name a live kernel object.
pub fn invalid_handle() -> (rc: ResultCode)
    ensures
        rc == spec_invalid_handle(),
{
    ResultCode::from_parts(MODULE_KERNEL, DESCRIPTION_INVALID_HANDLE)
}

/// Decode failure: the data header of a received message is wrong.
pub fn invalid_header() -> (rc: ResultCode)
    ensures
        rc == spec_invalid_header(),
{
    ResultCode::from_parts(MODULE_COMMAND, DESCRIPTION_INVALID_HEADER)
}

/// Dispatch failure: the command is unsupported at the negotiated version.
pub fn unknown_command() -> (rc: ResultCode)
    ensures
        rc == spec_unknown_command(),
{
    ResultCode::from_parts(MODULE_COMMAND, DESCRIPTION_UNKNOWN_COMMAND)
}

/// Decode failure: the payload does not hold the expected outputs.
pub fn invalid_output() -> (rc: ResultCode)
    ensures
        rc == spec_invalid_output(),
{
    ResultCode::from_parts(MODULE_COMMAND, DESCRIPTION_INVALID_OUTPUT)
}

/// Domain routing failure: the addressed object id is not in the table.
pub fn object_not_found() -> (rc: ResultCode)
    ensures
        rc == spec_object_not_found(),
{
    ResultCode::from_parts(MODULE_COMMAND, DESCRIPTION_OBJECT_NOT_FOUND)
}

/// Domain failure: every object id of the domain is in use.
pub fn out_of_domain_entries() -> (rc: ResultCode)
    ensures
        rc == spec_out_of_domain_entries(),
{
    ResultCode::from_parts(MODULE_COMMAND, DESCRIPTION_OUT_OF_DOMAIN_ENTRIES)
}

/// Encode failure: the protocol cannot carry the requested feature.
pub fn unsupported_operation() -> (rc: ResultCode)
    ensures
        rc == spec_unsupported_operation(),
{
    ResultCode::from_parts(MODULE_MESSAGE, DESCRIPTION_UNSUPPORTED_OPERATION)
}

/// Encode failure: the message does not fit the shared message region.
pub fn message_too_large() -> (rc: ResultCode)
    ensures
        rc == spec_message_too_large(),
{
    ResultCode::from_parts(MODULE_MESSAGE, DESCRIPTION_MESSAGE_TOO_LARGE)
}

/// Decode failure: the received bytes are not a well-formed message.
pub fn malformed_message() -> (rc: ResultCode)
    ensures
        rc == spec_malformed_message(),
{
    ResultCode::from_parts(MODULE_MESSAGE, DESCRIPTION_MALFORMED_MESSAGE)
}

/// The status of `invalid_handle`.
pub open spec fn spec_invalid_handle() -> ResultCode {
    code(MODULE_KERNEL, DESCRIPTION_INVALID_HANDLE)
}

/// The status of `invalid_header`.
pub open spec fn spec_invalid_header() -> ResultCode {
    code(MODULE_COMMAND, DESCRIPTION_INVALID_HEADER)
}

/// The status of `unknown_command`.
pub open spec fn spec_unknown_command() -> ResultCode {
    code(MODULE_COMMAND, DESCRIPTION_UNKNOWN_COMMAND)
}

/// The status of `invalid_output`.
pub open spec fn spec_invalid_output() -> ResultCode {
    code(MODULE_COMMAND, DESCRIPTION_INVALID_OUTPUT)
}

/// The status of `object_not_found`.
pub open spec fn spec_object_not_found() -> ResultCode {
    code(MODULE_COMMAND, DESCRIPTION_OBJECT_NOT_FOUND)
}

/// The status of `out_of_domain_entries`.
pub open spec fn spec_out_of_domain_entries() -> ResultCode {
    code(MODULE_COMMAND, DESCRIPTION_OUT_OF_DOMAIN_ENTRIES)
}

/// The status of `unsupported_operation`.
pub open spec fn spec_unsupported_operation() -> ResultCode {
    code(MODULE_MESSAGE, DESCRIPTION_UNSUPPORTED_OPERATION)
}

/// The status of `message_too_large`.
pub open spec fn spec_message_too_large() -> ResultCode {
    code(MODULE_MESSAGE, DESCRIPTION_MESSAGE_TOO_LARGE)
}

/// The status of `malformed_message`.
pub open spec fn spec_malformed_message() -> ResultCode {
    code(MODULE_MESSAGE, DESCRIPTION_MALFORMED_MESSAGE)
}

/// Unpacking what `pack` produced gives the parts back, and a status word
/// is the packing of its own parts whenever it uses no bit above the
/// description field.
pub proof fn lemma_pack_unpack(module: int, description: int)
    requires
        0 <= module < 512,
        0 <= description < 8192,
    ensures
        0 <= pack(module, description) < 0x40_0000,
        (ResultCode { value: pack(module, description) as u32 }).module_of() == module,
        (ResultCode { value: pack(module, description) as u32 }).description_of() == description,
        (pack(module, description) == 0) <==> (module == 0 && description == 0),
{
}

/// Every failure this crate reports is distinct from success and from
/// every other failure it reports.
pub proof fn lemma_failures_distinct()
    ensures
        !spec_invalid_handle().succeeded(),
        !spec_invalid_header().succeeded(),
        !spec_unknown_command().succeeded(),
        !spec_invalid_output().succeeded(),
        !spec_object_not_found().succeeded(),
        !spec_out_of_domain_entries().succeeded(),
        !spec_unsupported_operation().succeeded(),
        !spec_message_too_large().succeeded(),
        !spec_malformed_message().succeeded(),
        spec_unknown_command() != spec_object_not_found(),
        spec_unknown_command() != spec_invalid_output(),
        spec_object_not_found() != spec_invalid_output(),
        spec_invalid_header() != spec_invalid_output(),
        spec_malformed_message() != spec_invalid_header(),
{
}

} // verus!
