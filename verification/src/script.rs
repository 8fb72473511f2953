//! Looking at the leading bytes of a script: which standard template it
//! follows, which operation a byte stands for, and the data behind the
//! header.

use vstd::prelude::*;
use vstd::slice::*;

verus! {

/// The standard templates that a script is told apart by.
#[derive(Debug, Clone, Copy, PartialEq, Eq, Structural)]
pub enum ScriptType {
    /// Pay to public key hash.
    P2PKH,
    /// Pay to witness public key hash.
    P2WPKH,
    /// Neither of the two.
    Unknown,
}

/// The operations that a script byte can stand for.
#[derive(Debug, Clone, Copy, PartialEq, Eq, Structural)]
pub enum Opcode {
    /// Byte `0xac`.
    OpChecksig,
    /// Byte `0x76`.
    OpDup,
    /// No operation at all. `from_byte` never returns it: a byte that stands
    /// for no operation is an error there.
    OpInvalid,
}

/// A byte that stands for no known operation.
#[derive(Debug, Clone, Copy, PartialEq, Eq, Structural)]
pub struct UnknownOpcodeError {
    /// The byte.
    pub byte: u8,
}

/// A script with fewer bytes than the header that was to be skipped.
#[derive(Debug, Clone, Copy, PartialEq, Eq, Structural)]
pub struct LengthError {
    /// The length of the header.
    pub needed: usize,
    /// The length of the script.
    pub found: usize,
}

/// The number of bytes before the pushed data.
pub const PUSHDATA_HEADER_LEN: usize = 2;

/// The bytes that a pay-to-public-key-hash script begins with.
pub open spec fn p2pkh_prefix() -> Seq<u8> {
    seq![0x76u8, 0xa9u8, 0x14u8]
}

/// The bytes that a pay-to-witness-public-key-hash script begins with.
pub open spec fn p2wpkh_prefix() -> Seq<u8> {
    seq![0x00u8, 0x14u8]
}

/// The template of a script, decided by its leading bytes alone.
pub open spec fn script_type_of(script: Seq<u8>) -> ScriptType {
    if p2pkh_prefix().is_prefix_of(script) {
        ScriptType::P2PKH
    } else if p2wpkh_prefix().is_prefix_of(script) {
        ScriptType::P2WPKH
    } else {
        ScriptType::Unknown
    }
}

/// The operation that a byte stands for, if any.
pub open spec fn opcode_of(byte: u8) -> Option<Opcode> {
    if byte == 0xac {
        Some(Opcode::OpChecksig)
    } else if byte == 0x76 {
        Some(Opcode::OpDup)
    } else {
        None
    }
}

/// Whether `script` begins with `prefix`.
fn starts_with(script: &[u8], prefix: &[u8]) -> (r: bool)
    ensures
        r == prefix@.is_prefix_of(script@),
{
    let n: usize = prefix.len();
    if script.len() < n {
        return false;
    }
    let mut i: usize = 0;
    while i < n
        invariant
            n == prefix@.len(),
            n <= script@.len(),
            i <= n,
            forall|j: int| 0 <= j < i ==> script@[j] == prefix@[j],
        decreases n - i,
    {
        if script[i] != prefix[i] {
            assert(script@.subrange(0, n as int)[i as int] != prefix@[i as int]);
            return false;
        }
        i += 1;
    }
    assert(prefix@ =~= script@.subrange(0, n as int));
    true
}

/// Tells which standard template a script follows. A script that is too
/// short to hold a prefix does not follow that template.
pub fn classify_script(script: &[u8]) -> (r: ScriptType)
    ensures
        r == script_type_of(script@),
{
    let p2pkh: [u8; 3] = [0x76, 0xa9, 0x14];
    let p2wpkh: [u8; 2] = [0x00, 0x14];
    assert(p2pkh@ =~= p2pkh_prefix());
    assert(p2wpkh@ =~= p2wpkh_prefix());
    if starts_with(script, p2pkh.as_slice()) {
        ScriptType::P2PKH
    } else if starts_with(script, p2wpkh.as_slice()) {
        ScriptType::P2WPKH
    } else {
        ScriptType::Unknown
    }
}

/// Returns the pushed data: what follows the two header bytes. A script
/// shorter than the header is refused.
pub fn read_pushdata(script: &[u8]) -> (r: Result<&[u8], LengthError>)
    ensures
        r is Ok <==> script@.len() >= PUSHDATA_HEADER_LEN,
        match r {
            Ok(data) => data@ == script@.skip(PUSHDATA_HEADER_LEN as int),
            Err(e) => e.needed == PUSHDATA_HEADER_LEN && e.found == script@.len(),
        },
{
    let n: usize = script.len();
    if n < PUSHDATA_HEADER_LEN {
        return Err(LengthError { needed: PUSHDATA_HEADER_LEN, found: n });
    }
    Ok(slice_subrange(script, PUSHDATA_HEADER_LEN, n))
}

impl Opcode {
    /// Decodes one script byte.
    pub fn from_byte(byte: u8) -> (r: Result<Opcode, UnknownOpcodeError>)
        ensures
            r is Ok <==> opcode_of(byte) is Some,
            match r {
                Ok(op) => opcode_of(byte) == Some(op),
                Err(e) => e.byte == byte,
            },
    {
        match byte {
            0xac => Ok(Opcode::OpChecksig),
            0x76 => Ok(Opcode::OpDup),
            _ => Err(UnknownOpcodeError { byte }),
        }
    }
}

} // verus!
