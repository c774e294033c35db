use vstd::prelude::*;

verus! {

/// Status codes shared by the kernel and the user-space services.
///
/// Every variant has a fixed wire code (see [`Error::code`]); a code that
/// names no variant decodes to [`Error::Unknown`].
#[derive(Debug, Clone, Copy, PartialEq, Eq, Structural)]
pub enum Error {
    Success,
    // --- General errors (1-19) ---
    /// Generic unspecified error
    Generic,
    /// Invalid arguments provided
    InvalidArgs,
    /// Operation not supported
    NotSupported,
    /// Feature not implemented
    NotImplemented,
    /// Internal kernel error
    InternalError,
    /// Operation timed out
    Timeout,
    /// Operation interrupted
    Interrupted,
    /// Resource temporarily unavailable (try again)
    WouldBlock,
    /// Component not initialized
    NotInitialized,
    // --- Capability & object errors (20-39) ---
    /// Invalid capability reference (empty or wrong type)
    InvalidCapability,
    /// Permission denied
    PermissionDenied,
    /// Invalid object type for operation
    InvalidType,
    /// Invalid slot index
    InvalidSlot,
    /// CNode is full / no slots available
    CNodeFull,
    /// Target slot is not empty (for mint/copy/move)
    SlotNotEmpty,
    /// Invalid invocation method
    InvalidMethod,
    // --- Memory & address space (40-59) ---
    /// Out of memory
    OutOfMemory,
    /// Memory mapping failed
    MappingFailed,
    /// Unmapping failed
    UnmappingFailed,
    /// Invalid address (virtual or physical)
    InvalidAddress,
    // --- IPC (60-79) ---
    /// Invalid endpoint capability
    InvalidEndpoint,
    /// IPC protocol mismatch
    InvalidProtocol,
    /// Message too long / buffer overflow
    MessageTooLong,
    /// Reply failed (no receiver)
    ReplyFailed,
    // --- Resources & lookup (80-99) ---
    /// Item not found
    NotFound,
    /// Item already exists
    AlreadyExists,
    /// Resource is busy / in use
    ResourceBusy,
    // --- Device & IO (100-119) ---
    /// Generic IO error
    IoError,
    /// Hardware device error
    DeviceError,
    /// Invalid configuration
    InvalidConfig,
    /// Any code that names no other variant
    Unknown,
}

/// The wire code of each status.
pub open spec fn spec_error_code(e: Error) -> usize {
    match e {
        Error::Success => 0,
        Error::Generic => 1,
        Error::InvalidArgs => 2,
        Error::NotSupported => 3,
        Error::NotImplemented => 4,
        Error::InternalError => 5,
        Error::Timeout => 6,
        Error::Interrupted => 7,
        Error::WouldBlock => 8,
        Error::NotInitialized => 9,
        Error::InvalidCapability => 20,
        Error::PermissionDenied => 21,
        Error::InvalidType => 22,
        Error::InvalidSlot => 23,
        Error::CNodeFull => 24,
        Error::SlotNotEmpty => 25,
        Error::InvalidMethod => 26,
        Error::OutOfMemory => 40,
        Error::MappingFailed => 41,
        Error::UnmappingFailed => 42,
        Error::InvalidAddress => 43,
        Error::InvalidEndpoint => 60,
        Error::InvalidProtocol => 61,
        Error::MessageTooLong => 62,
        Error::ReplyFailed => 63,
        Error::NotFound => 80,
        Error::AlreadyExists => 81,
        Error::ResourceBusy => 82,
        Error::IoError => 100,
        Error::DeviceError => 101,
        Error::InvalidConfig => 102,
        Error::Unknown => 255,
    }
}

/// True of exactly the codes that some status is encoded as.
pub open spec fn is_known_code(code: usize) -> bool {
    exists|e: Error| spec_error_code(e) == code
}

/// The status that a wire code stands for: the one whose code it is, or
/// `Unknown` for a code that no status has.
pub open spec fn spec_error_from_code(code: usize) -> Error {
    if is_known_code(code) {
        choose|e: Error| spec_error_code(e) == code
    } else {
        Error::Unknown
    }
}

impl Error {
    /// The wire code of this status.
    pub fn code(self) -> (c: usize)
        ensures
            c == spec_error_code(self),
    {
        match self {
            Error::Success => 0,
            Error::Generic => 1,
            Error::InvalidArgs => 2,
            Error::NotSupported => 3,
            Error::NotImplemented => 4,
            Error::InternalError => 5,
            Error::Timeout => 6,
            Error::Interrupted => 7,
            Error::WouldBlock => 8,
            Error::NotInitialized => 9,
            Error::InvalidCapability => 20,
            Error::PermissionDenied => 21,
            Error::InvalidType => 22,
            Error::InvalidSlot => 23,
            Error::CNodeFull => 24,
            Error::SlotNotEmpty => 25,
            Error::InvalidMethod => 26,
            Error::OutOfMemory => 40,
            Error::MappingFailed => 41,
            Error::UnmappingFailed => 42,
            Error::InvalidAddress => 43,
            Error::InvalidEndpoint => 60,
            Error::InvalidProtocol => 61,
            Error::MessageTooLong => 62,
            Error::ReplyFailed => 63,
            Error::NotFound => 80,
            Error::AlreadyExists => 81,
            Error::ResourceBusy => 82,
            Error::IoError => 100,
            Error::DeviceError => 101,
            Error::InvalidConfig => 102,
            Error::Unknown => 255,
        }
    }

    /// Decodes a wire code; a code that names no status gives `Unknown`.
    pub fn from_code(code: usize) -> (e: Error)
        ensures
            e == spec_error_from_code(code),
            is_known_code(code) ==> spec_error_code(e) == code,
            !is_known_code(code) ==> e == Error::Unknown,
    {
        proof {
            lemma_code_injective();
        }
        let e = match code {
            0 => Error::Success,
            1 => Error::Generic,
            2 => Error::InvalidArgs,
            3 => Error::NotSupported,
            4 => Error::NotImplemented,
            5 => Error::InternalError,
            6 => Error::Timeout,
            7 => Error::Interrupted,
            8 => Error::WouldBlock,
            9 => Error::NotInitialized,
            20 => Error::InvalidCapability,
            21 => Error::PermissionDenied,
            22 => Error::InvalidType,
            23 => Error::InvalidSlot,
            24 => Error::CNodeFull,
            25 => Error::SlotNotEmpty,
            26 => Error::InvalidMethod,
            40 => Error::OutOfMemory,
            41 => Error::MappingFailed,
            42 => Error::UnmappingFailed,
            43 => Error::InvalidAddress,
            60 => Error::InvalidEndpoint,
            61 => Error::InvalidProtocol,
            62 => Error::MessageTooLong,
            63 => Error::ReplyFailed,
            80 => Error::NotFound,
            81 => Error::AlreadyExists,
            82 => Error::ResourceBusy,
            100 => Error::IoError,
            101 => Error::DeviceError,
            102 => Error::InvalidConfig,
            _ => Error::Unknown,
        };
        proof {
            if is_known_code(code) {
                let w = choose|w: Error| spec_error_code(w) == code;
                assert(spec_error_code(e) == code);
            } else {
                assert(!is_known_code(code));
                if e != Error::Unknown {
                    assert(spec_error_code(e) == code);
                }
            }
        }
        e
    }
}

/// Distinct statuses have distinct wire codes.
pub proof fn lemma_code_injective()
    ensures
        forall|a: Error, b: Error| spec_error_code(a) == spec_error_code(b) ==> a == b,
{
}

/// Encoding a status and decoding the code gives the status back.
pub proof fn lemma_code_round_trip(e: Error)
    ensures
        is_known_code(spec_error_code(e)),
        spec_error_from_code(spec_error_code(e)) == e,
{
    lemma_code_injective();
    assert(spec_error_code(e) == spec_error_code(e));
}

/// The wire table of statuses: each status is sent as its fixed number,
/// and that number is read back as the same status.
pub proof fn lemma_code_table()
    ensures
        spec_error_code(Error::Success) == 0 && spec_error_from_code(0) == Error::Success,
        spec_error_code(Error::Generic) == 1 && spec_error_from_code(1) == Error::Generic,
        spec_error_code(Error::InvalidArgs) == 2 && spec_error_from_code(2) == Error::InvalidArgs,
        spec_error_code(Error::NotSupported) == 3 && spec_error_from_code(3) == Error::NotSupported,
        spec_error_code(Error::NotImplemented) == 4 && spec_error_from_code(4) == Error::NotImplemented,
        spec_error_code(Error::InternalError) == 5 && spec_error_from_code(5) == Error::InternalError,
        spec_error_code(Error::Timeout) == 6 && spec_error_from_code(6) == Error::Timeout,
        spec_error_code(Error::Interrupted) == 7 && spec_error_from_code(7) == Error::Interrupted,
        spec_error_code(Error::WouldBlock) == 8 && spec_error_from_code(8) == Error::WouldBlock,
        spec_error_code(Error::NotInitialized) == 9 && spec_error_from_code(9) == Error::NotInitialized,
        spec_error_code(Error::InvalidCapability) == 20 && spec_error_from_code(20) == Error::InvalidCapability,
        spec_error_code(Error::PermissionDenied) == 21 && spec_error_from_code(21) == Error::PermissionDenied,
        spec_error_code(Error::InvalidType) == 22 && spec_error_from_code(22) == Error::InvalidType,
        spec_error_code(Error::InvalidSlot) == 23 && spec_error_from_code(23) == Error::InvalidSlot,
        spec_error_code(Error::CNodeFull) == 24 && spec_error_from_code(24) == Error::CNodeFull,
        spec_error_code(Error::SlotNotEmpty) == 25 && spec_error_from_code(25) == Error::SlotNotEmpty,
        spec_error_code(Error::InvalidMethod) == 26 && spec_error_from_code(26) == Error::InvalidMethod,
        spec_error_code(Error::OutOfMemory) == 40 && spec_error_from_code(40) == Error::OutOfMemory,
        spec_error_code(Error::MappingFailed) == 41 && spec_error_from_code(41) == Error::MappingFailed,
        spec_error_code(Error::UnmappingFailed) == 42 && spec_error_from_code(42) == Error::UnmappingFailed,
        spec_error_code(Error::InvalidAddress) == 43 && spec_error_from_code(43) == Error::InvalidAddress,
        spec_error_code(Error::InvalidEndpoint) == 60 && spec_error_from_code(60) == Error::InvalidEndpoint,
        spec_error_code(Error::InvalidProtocol) == 61 && spec_error_from_code(61) == Error::InvalidProtocol,
        spec_error_code(Error::MessageTooLong) == 62 && spec_error_from_code(62) == Error::MessageTooLong,
        spec_error_code(Error::ReplyFailed) == 63 && spec_error_from_code(63) == Error::ReplyFailed,
        spec_error_code(Error::NotFound) == 80 && spec_error_from_code(80) == Error::NotFound,
        spec_error_code(Error::AlreadyExists) == 81 && spec_error_from_code(81) == Error::AlreadyExists,
        spec_error_code(Error::ResourceBusy) == 82 && spec_error_from_code(82) == Error::ResourceBusy,
        spec_error_code(Error::IoError) == 100 && spec_error_from_code(100) == Error::IoError,
        spec_error_code(Error::DeviceError) == 101 && spec_error_from_code(101) == Error::DeviceError,
        spec_error_code(Error::InvalidConfig) == 102 && spec_error_from_code(102) == Error::InvalidConfig,
        spec_error_code(Error::Unknown) == 255 && spec_error_from_code(255) == Error::Unknown,
{
    lemma_code_round_trip(Error::Success);
    lemma_code_round_trip(Error::Generic);
    lemma_code_round_trip(Error::InvalidArgs);
    lemma_code_round_trip(Error::NotSupported);
    lemma_code_round_trip(Error::NotImplemented);
    lemma_code_round_trip(Error::InternalError);
    lemma_code_round_trip(Error::Timeout);
    lemma_code_round_trip(Error::Interrupted);
    lemma_code_round_trip(Error::WouldBlock);
    lemma_code_round_trip(Error::NotInitialized);
    lemma_code_round_trip(Error::InvalidCapability);
    lemma_code_round_trip(Error::PermissionDenied);
    lemma_code_round_trip(Error::InvalidType);
    lemma_code_round_trip(Error::InvalidSlot);
    lemma_code_round_trip(Error::CNodeFull);
    lemma_code_round_trip(Error::SlotNotEmpty);
    lemma_code_round_trip(Error::InvalidMethod);
    lemma_code_round_trip(Error::OutOfMemory);
    lemma_code_round_trip(Error::MappingFailed);
    lemma_code_round_trip(Error::UnmappingFailed);
    lemma_code_round_trip(Error::InvalidAddress);
    lemma_code_round_trip(Error::InvalidEndpoint);
    lemma_code_round_trip(Error::InvalidProtocol);
    lemma_code_round_trip(Error::MessageTooLong);
    lemma_code_round_trip(Error::ReplyFailed);
    lemma_code_round_trip(Error::NotFound);
    lemma_code_round_trip(Error::AlreadyExists);
    lemma_code_round_trip(Error::ResourceBusy);
    lemma_code_round_trip(Error::IoError);
    lemma_code_round_trip(Error::DeviceError);
    lemma_code_round_trip(Error::InvalidConfig);
    lemma_code_round_trip(Error::Unknown);
}

/// Decoding a code and encoding the status gives the code back exactly when
/// the code names a status; every other code decodes to `Unknown`, whose
/// code is 255.
pub proof fn lemma_decode_encode(code: usize)
    ensures
        is_known_code(code) ==> spec_error_code(spec_error_from_code(code)) == code,
        !is_known_code(code) ==> spec_error_code(spec_error_from_code(code)) == 255,
{
}

impl From<Error> for usize {
    fn from(e: Error) -> (c: usize) {
        e.code()
    }
}

impl vstd::std_specs::convert::FromSpecImpl<Error> for usize {
    open spec fn obeys_from_spec() -> bool {
        true
    }

    open spec fn from_spec(e: Error) -> usize {
        spec_error_code(e)
    }
}

} // verus!
