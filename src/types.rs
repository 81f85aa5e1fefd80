//! Arguments supplied by a caller and the parameter slots a computation was
//! compiled to expect.
use vstd::prelude::*;

verus! {

/// Width in bytes of one serialized parameter slot.
pub const SLOT_BYTES: u32 = 32;

/// Number of single-byte parameter slots one signature argument occupies.
pub const SIGNATURE_SLOTS: usize = 64;

/// One slot of the schema a computation was compiled with.
#[derive(Clone, Copy, Debug, PartialEq, Eq, Structural)]
pub enum Parameter {
    PlaintextBool,
    PlaintextU8,
    PlaintextU16,
    PlaintextU32,
    PlaintextU64,
    PlaintextU128,
    Ciphertext,
    ArcisPubkey,
    ArcisSignature,
    PlaintextFloat,
    ManticoreAlgo,
    InputDataset,
}

/// One value supplied by a caller for a computation.
///
/// A plaintext float is carried as its IEEE-754 bit pattern: the checks here
/// only ever look at which kind of value it is.
#[derive(Clone, Debug)]
pub enum Argument {
    PlaintextBool(bool),
    PlaintextU8(u8),
    PlaintextU16(u16),
    PlaintextU32(u32),
    PlaintextU64(u64),
    PlaintextU128(u128),
    PlaintextFloat(u64),
    EncryptedBool([u8; 32]),
    EncryptedU8([u8; 32]),
    EncryptedU16([u8; 32]),
    EncryptedU32([u8; 32]),
    EncryptedU64([u8; 32]),
    EncryptedU128([u8; 32]),
    EncryptedFloat([u8; 32]),
    ArcisPubkey([u8; 32]),
    ArcisSignature([u8; 64]),
    /// An account holding serialized data: its address, an offset into its
    /// data and the length in bytes of the part passed on.
    Account([u8; 32], u32, u32),
    ManticoreAlgo(String),
    InputDataset(String),
}

impl Argument {
    /// Scalars occupy exactly one slot and are checked one-to-one.
    pub open spec fn is_scalar(self) -> bool {
        !(self is ArcisSignature) && !(self is Account)
    }

    /// The number of parameter slots the argument occupies: a whole account
    /// length divided into slots, sixty-four for a signature, one otherwise.
    pub open spec fn stride(self) -> int {
        match self {
            Argument::Account(_, _, len) => (len / SLOT_BYTES) as int,
            Argument::ArcisSignature(_) => SIGNATURE_SLOTS as int,
            _ => 1,
        }
    }

    /// Whether a scalar argument satisfies a parameter slot: a plaintext
    /// kind only its own kind, every encrypted kind the ciphertext slot.
    pub open spec fn satisfies(self, p: Parameter) -> bool {
        match self {
            Argument::PlaintextBool(_) => p == Parameter::PlaintextBool,
            Argument::PlaintextU8(_) => p == Parameter::PlaintextU8,
            Argument::PlaintextU16(_) => p == Parameter::PlaintextU16,
            Argument::PlaintextU32(_) => p == Parameter::PlaintextU32,
            Argument::PlaintextU64(_) => p == Parameter::PlaintextU64,
            Argument::PlaintextU128(_) => p == Parameter::PlaintextU128,
            Argument::PlaintextFloat(_) => p == Parameter::PlaintextFloat,
            Argument::EncryptedBool(_) | Argument::EncryptedU8(_) | Argument::EncryptedU16(_)
            | Argument::EncryptedU32(_) | Argument::EncryptedU64(_) | Argument::EncryptedU128(_)
            | Argument::EncryptedFloat(_) => p == Parameter::Ciphertext,
            Argument::ArcisPubkey(_) => p == Parameter::ArcisPubkey,
            Argument::ManticoreAlgo(_) => p == Parameter::ManticoreAlgo,
            Argument::InputDataset(_) => p == Parameter::InputDataset,
            Argument::ArcisSignature(_) | Argument::Account(..) => false,
        }
    }
}

/// Decides whether a scalar argument satisfies one parameter slot.
///
/// Signatures and accounts span several slots and are handled by the
/// matcher before this is reached; the precondition rules them out.
pub fn arg_match_param(arg: &Argument, param: &Parameter) -> (r: bool)
    requires
        arg.is_scalar(),
    ensures
        r == arg.satisfies(*param),
{
    match arg {
        Argument::PlaintextBool(_) => matches!(param, Parameter::PlaintextBool),
        Argument::PlaintextU8(_) => matches!(param, Parameter::PlaintextU8),
        Argument::PlaintextU16(_) => matches!(param, Parameter::PlaintextU16),
        Argument::PlaintextU32(_) => matches!(param, Parameter::PlaintextU32),
        Argument::PlaintextU64(_) => matches!(param, Parameter::PlaintextU64),
        Argument::PlaintextU128(_) => matches!(param, Parameter::PlaintextU128),
        Argument::PlaintextFloat(_) => matches!(param, Parameter::PlaintextFloat),
        Argument::EncryptedBool(_) => matches!(param, Parameter::Ciphertext),
        Argument::EncryptedU8(_) => matches!(param, Parameter::Ciphertext),
        Argument::EncryptedU16(_) => matches!(param, Parameter::Ciphertext),
        Argument::EncryptedU32(_) => matches!(param, Parameter::Ciphertext),
        Argument::EncryptedU64(_) => matches!(param, Parameter::Ciphertext),
        Argument::EncryptedU128(_) => matches!(param, Parameter::Ciphertext),
        Argument::EncryptedFloat(_) => matches!(param, Parameter::Ciphertext),
        Argument::ArcisPubkey(_) => matches!(param, Parameter::ArcisPubkey),
        Argument::ManticoreAlgo(_) => matches!(param, Parameter::ManticoreAlgo),
        Argument::InputDataset(_) => matches!(param, Parameter::InputDataset),
        Argument::ArcisSignature(_) | Argument::Account(..) => false,
    }
}

} // verus!
