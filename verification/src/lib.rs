//! Magic-number registry for self-describing binary metadata documents.
//!
//! Each recognized document kind is bound to a unique 64-bit constant whose
//! big-endian serialization is the 8-byte prefix ("magic number") that tags a
//! byte stream with its kind. The registry converts between the symbolic kind,
//! its 8-byte prefix, and its canonical lowercase-hyphenated name, and rejects
//! anything outside the closed set with a typed error.

use vstd::prelude::*;

verus! {

/// The closed set of recognized document kinds.
///
/// The set has no "unknown" variant: an unrecognized 64-bit value or name is a
/// decode failure, never a new kind.
#[derive(Clone, Copy, Debug, PartialEq, Eq, Structural)]
pub enum KnownMagic {
    RainMetaDocumentV1,
    SolidityAbiV2,
    OpMetaV1,
    InterpreterCallerMetaV1,
    AuthoringMetaV1,
    DotrainV1,
    RainlangV1,
    ExpressionDeployerV2BytecodeV1,
}

/// Why a value, prefix or name was rejected by the registry.
///
/// Every failure is reported to the caller; nothing is retried, logged or
/// recovered silently, and no unknown input aborts the process.
#[derive(Clone, Copy, Debug, PartialEq, Eq, Structural)]
pub enum MagicError {
    /// A 64-bit value (or 8-byte prefix) matches no registered kind.
    UnknownMagic,
    /// Fewer than 8 bytes were available to extract a prefix.
    InsufficientBytes,
    /// A textual name matches no registered kind's canonical name.
    UnknownMagicName,
}

/// The 8 bytes of a 64-bit value in big-endian order, most significant first.
pub open spec fn be_bytes_of_u64(v: u64) -> Seq<u8> {
    seq![
        ((v >> 56) & 0xff) as u8,
        ((v >> 48) & 0xff) as u8,
        ((v >> 40) & 0xff) as u8,
        ((v >> 32) & 0xff) as u8,
        ((v >> 24) & 0xff) as u8,
        ((v >> 16) & 0xff) as u8,
        ((v >> 8) & 0xff) as u8,
        (v & 0xff) as u8,
    ]
}

/// The 64-bit value read from 8 bytes in big-endian order.
pub open spec fn u64_of_be_bytes(s: Seq<u8>) -> u64
    recommends
        s.len() == 8,
{
    ((s[0] as u64) << 56) | ((s[1] as u64) << 48) | ((s[2] as u64) << 40) | ((s[3] as u64) << 32)
        | ((s[4] as u64) << 24) | ((s[5] as u64) << 16) | ((s[6] as u64) << 8) | (s[7] as u64)
}

/// Reading back the big-endian serialization of a value yields the value.
pub proof fn lemma_be_bytes_round_trip(v: u64)
    ensures
        u64_of_be_bytes(be_bytes_of_u64(v)) == v,
{
    assert((((((v >> 56) & 0xff) as u8) as u64) << 56) | (((((v >> 48) & 0xff) as u8) as u64)
        << 48) | (((((v >> 40) & 0xff) as u8) as u64) << 40) | (((((v >> 32) & 0xff) as u8) as u64)
        << 32) | (((((v >> 24) & 0xff) as u8) as u64) << 24) | (((((v >> 16) & 0xff) as u8) as u64)
        << 16) | (((((v >> 8) & 0xff) as u8) as u64) << 8) | (((v & 0xff) as u8) as u64) == v)
        by (bit_vector);
}

/// The 64-bit magic constant bound to each kind.
///
/// Every constant's high byte is 0xff, reserving that leading byte as a
/// tag-space marker for binary prefixes.
pub open spec fn magic_of(kind: KnownMagic) -> u64 {
    match kind {
        KnownMagic::RainMetaDocumentV1 => 0xff0a89c674ee7874,
        KnownMagic::SolidityAbiV2 => 0xffe5ffb4a3ff2cde,
        KnownMagic::OpMetaV1 => 0xffe5282f43e495b4,
        KnownMagic::InterpreterCallerMetaV1 => 0xffc21bbf86cc199b,
        KnownMagic::AuthoringMetaV1 => 0xffe9e3a02ca8e235,
        KnownMagic::DotrainV1 => 0xffdac2f2f37be894,
        KnownMagic::RainlangV1 => 0xff1c198cec3b48a7,
        KnownMagic::ExpressionDeployerV2BytecodeV1 => 0xffdb988a8cd04d32,
    }
}

/// The unique kind whose magic constant equals `v`, if any.
pub open spec fn kind_of_magic(v: u64) -> Option<KnownMagic> {
    if v == magic_of(KnownMagic::RainMetaDocumentV1) {
        Some(KnownMagic::RainMetaDocumentV1)
    } else if v == magic_of(KnownMagic::SolidityAbiV2) {
        Some(KnownMagic::SolidityAbiV2)
    } else if v == magic_of(KnownMagic::OpMetaV1) {
        Some(KnownMagic::OpMetaV1)
    } else if v == magic_of(KnownMagic::InterpreterCallerMetaV1) {
        Some(KnownMagic::InterpreterCallerMetaV1)
    } else if v == magic_of(KnownMagic::AuthoringMetaV1) {
        Some(KnownMagic::AuthoringMetaV1)
    } else if v == magic_of(KnownMagic::DotrainV1) {
        Some(KnownMagic::DotrainV1)
    } else if v == magic_of(KnownMagic::RainlangV1) {
        Some(KnownMagic::RainlangV1)
    } else if v == magic_of(KnownMagic::ExpressionDeployerV2BytecodeV1) {
        Some(KnownMagic::ExpressionDeployerV2BytecodeV1)
    } else {
        None
    }
}

impl KnownMagic {
    /// The kind's magic constant as a 64-bit integer.
    pub fn to_u64(&self) -> (v: u64)
        ensures
            v == magic_of(*self),
    {
        match *self {
            KnownMagic::RainMetaDocumentV1 => 0xff0a89c674ee7874,
            KnownMagic::SolidityAbiV2 => 0xffe5ffb4a3ff2cde,
            KnownMagic::OpMetaV1 => 0xffe5282f43e495b4,
            KnownMagic::InterpreterCallerMetaV1 => 0xffc21bbf86cc199b,
            KnownMagic::AuthoringMetaV1 => 0xffe9e3a02ca8e235,
            KnownMagic::DotrainV1 => 0xffdac2f2f37be894,
            KnownMagic::RainlangV1 => 0xff1c198cec3b48a7,
            KnownMagic::ExpressionDeployerV2BytecodeV1 => 0xffdb988a8cd04d32,
        }
    }

    /// The kind's magic constant serialized as its 8-byte big-endian prefix.
    ///
    /// Big-endian is mandated: the magic is a fixed binary prefix read
    /// byte-by-byte from a stream, so the layout must not depend on the
    /// platform's native byte order.
    pub fn to_prefix_bytes(&self) -> (b: [u8; 8])
        ensures
            b@ == be_bytes_of_u64(magic_of(*self)),
    {
        let v: u64 = self.to_u64();
        proof {
            assert((v >> 56) & 0xff < 256 && (v >> 48) & 0xff < 256 && (v >> 40) & 0xff < 256 && (v
                >> 32) & 0xff < 256 && (v >> 24) & 0xff < 256 && (v >> 16) & 0xff < 256 && (v >> 8)
                & 0xff < 256 && v & 0xff < 256) by (bit_vector);
        }
        let b: [u8; 8] = [
            ((v >> 56) & 0xff) as u8,
            ((v >> 48) & 0xff) as u8,
            ((v >> 40) & 0xff) as u8,
            ((v >> 32) & 0xff) as u8,
            ((v >> 24) & 0xff) as u8,
            ((v >> 16) & 0xff) as u8,
            ((v >> 8) & 0xff) as u8,
            (v & 0xff) as u8,
        ];
        proof {
            assert(b@ =~= be_bytes_of_u64(v));
        }
        b
    }

    /// The unique kind whose magic constant equals `value`, or
    /// `MagicError::UnknownMagic` when no registered kind matches.
    pub fn from_u64(value: u64) -> (r: Result<KnownMagic, MagicError>)
        ensures
            r == (match kind_of_magic(value) {
                Some(kind) => Ok::<KnownMagic, MagicError>(kind),
                None => Err::<KnownMagic, MagicError>(MagicError::UnknownMagic),
            }),
    {
        if value == KnownMagic::AuthoringMetaV1.to_u64() {
            Ok(KnownMagic::AuthoringMetaV1)
        } else if value == KnownMagic::DotrainV1.to_u64() {
            Ok(KnownMagic::DotrainV1)
        } else if value == KnownMagic::ExpressionDeployerV2BytecodeV1.to_u64() {
            Ok(KnownMagic::ExpressionDeployerV2BytecodeV1)
        } else if value == KnownMagic::InterpreterCallerMetaV1.to_u64() {
            Ok(KnownMagic::InterpreterCallerMetaV1)
        } else if value == KnownMagic::OpMetaV1.to_u64() {
            Ok(KnownMagic::OpMetaV1)
        } else if value == KnownMagic::RainMetaDocumentV1.to_u64() {
            Ok(KnownMagic::RainMetaDocumentV1)
        } else if value == KnownMagic::RainlangV1.to_u64() {
            Ok(KnownMagic::RainlangV1)
        } else if value == KnownMagic::SolidityAbiV2.to_u64() {
            Ok(KnownMagic::SolidityAbiV2)
        } else {
            Err(MagicError::UnknownMagic)
        }
    }

    /// Sniffs the magic prefix at the start of `bytes`: reads the first 8
    /// bytes as a big-endian 64-bit integer and decodes it.
    ///
    /// Fails with `MagicError::InsufficientBytes` when fewer than 8 bytes are
    /// available — distinct from `MagicError::UnknownMagic`, so callers can
    /// tell "stream too short to hold a magic" from "stream starts with
    /// unrecognized bytes". Bytes past the first 8 are ignored: they belong to
    /// the payload, which this registry never interprets.
    pub fn decode_prefix(bytes: &[u8]) -> (r: Result<KnownMagic, MagicError>)
        ensures
            bytes@.len() < 8 ==> r == Err::<KnownMagic, MagicError>(MagicError::InsufficientBytes),
            bytes@.len() >= 8 ==> r == (match kind_of_magic(u64_of_be_bytes(bytes@.take(8))) {
                Some(kind) => Ok::<KnownMagic, MagicError>(kind),
                None => Err::<KnownMagic, MagicError>(MagicError::UnknownMagic),
            }),
    {
        if bytes.len() < 8 {
            return Err(MagicError::InsufficientBytes);
        }
        let v: u64 = ((bytes[0] as u64) << 56) | ((bytes[1] as u64) << 48) | ((bytes[2] as u64)
            << 40) | ((bytes[3] as u64) << 32) | ((bytes[4] as u64) << 24) | ((bytes[5] as u64)
            << 16) | ((bytes[6] as u64) << 8) | (bytes[7] as u64);
        proof {
            assert(forall|i: int| 0 <= i < 8 ==> bytes@.take(8)[i] == bytes@[i]);
        }
        KnownMagic::from_u64(v)
    }
}

/// The canonical lowercase-hyphenated name of each kind, used wherever kinds
/// appear in human-readable text rather than binary streams.
pub open spec fn name_of(kind: KnownMagic) -> Seq<char> {
    match kind {
        KnownMagic::RainMetaDocumentV1 => "rain-meta-document-v1"@,
        KnownMagic::SolidityAbiV2 => "solidity-abi-v2"@,
        KnownMagic::OpMetaV1 => "op-meta-v1"@,
        KnownMagic::InterpreterCallerMetaV1 => "interpreter-caller-meta-v1"@,
        KnownMagic::AuthoringMetaV1 => "authoring-meta-v1"@,
        KnownMagic::DotrainV1 => "dotrain-v1"@,
        KnownMagic::RainlangV1 => "rainlang-v1"@,
        KnownMagic::ExpressionDeployerV2BytecodeV1 => "expression-deployer-v2-bytecode-v1"@,
    }
}

/// The unique kind whose canonical name equals `s`, if any.
pub open spec fn kind_of_name(s: Seq<char>) -> Option<KnownMagic> {
    if s == name_of(KnownMagic::RainMetaDocumentV1) {
        Some(KnownMagic::RainMetaDocumentV1)
    } else if s == name_of(KnownMagic::SolidityAbiV2) {
        Some(KnownMagic::SolidityAbiV2)
    } else if s == name_of(KnownMagic::OpMetaV1) {
        Some(KnownMagic::OpMetaV1)
    } else if s == name_of(KnownMagic::InterpreterCallerMetaV1) {
        Some(KnownMagic::InterpreterCallerMetaV1)
    } else if s == name_of(KnownMagic::AuthoringMetaV1) {
        Some(KnownMagic::AuthoringMetaV1)
    } else if s == name_of(KnownMagic::DotrainV1) {
        Some(KnownMagic::DotrainV1)
    } else if s == name_of(KnownMagic::RainlangV1) {
        Some(KnownMagic::RainlangV1)
    } else if s == name_of(KnownMagic::ExpressionDeployerV2BytecodeV1) {
        Some(KnownMagic::ExpressionDeployerV2BytecodeV1)
    } else {
        None
    }
}

/// Character-by-character string comparison, so that equality of the views is
/// what the result reports.
fn str_eq(a: &str, b: &str) -> (r: bool)
    ensures
        r == (a@ == b@),
{
    let n: usize = a.unicode_len();
    if n != b.unicode_len() {
        return false;
    }
    let mut i: usize = 0;
    while i < n
        invariant
            n == a@.len(),
            n == b@.len(),
            i <= n,
            forall|j: int| 0 <= j < i ==> a@[j] == b@[j],
        decreases n - i,
    {
        if a.get_char(i) != b.get_char(i) {
            return false;
        }
        i += 1;
    }
    proof {
        assert(a@ =~= b@);
    }
    true
}

impl KnownMagic {
    /// The kind's canonical lowercase-hyphenated name.
    pub fn display_name(&self) -> (r: &'static str)
        ensures
            r@ == name_of(*self),
    {
        match *self {
            KnownMagic::RainMetaDocumentV1 => "rain-meta-document-v1",
            KnownMagic::SolidityAbiV2 => "solidity-abi-v2",
            KnownMagic::OpMetaV1 => "op-meta-v1",
            KnownMagic::InterpreterCallerMetaV1 => "interpreter-caller-meta-v1",
            KnownMagic::AuthoringMetaV1 => "authoring-meta-v1",
            KnownMagic::DotrainV1 => "dotrain-v1",
            KnownMagic::RainlangV1 => "rainlang-v1",
            KnownMagic::ExpressionDeployerV2BytecodeV1 => "expression-deployer-v2-bytecode-v1",
        }
    }

    /// The unique kind whose canonical name equals `name`, or
    /// `MagicError::UnknownMagicName` when no registered kind's name matches.
    pub fn name_to_kind(name: &str) -> (r: Result<KnownMagic, MagicError>)
        ensures
            r == (match kind_of_name(name@) {
                Some(kind) => Ok::<KnownMagic, MagicError>(kind),
                None => Err::<KnownMagic, MagicError>(MagicError::UnknownMagicName),
            }),
    {
        if str_eq(name, "rain-meta-document-v1") {
            Ok(KnownMagic::RainMetaDocumentV1)
        } else if str_eq(name, "solidity-abi-v2") {
            Ok(KnownMagic::SolidityAbiV2)
        } else if str_eq(name, "op-meta-v1") {
            Ok(KnownMagic::OpMetaV1)
        } else if str_eq(name, "interpreter-caller-meta-v1") {
            Ok(KnownMagic::InterpreterCallerMetaV1)
        } else if str_eq(name, "authoring-meta-v1") {
            Ok(KnownMagic::AuthoringMetaV1)
        } else if str_eq(name, "dotrain-v1") {
            Ok(KnownMagic::DotrainV1)
        } else if str_eq(name, "rainlang-v1") {
            Ok(KnownMagic::RainlangV1)
        } else if str_eq(name, "expression-deployer-v2-bytecode-v1") {
            Ok(KnownMagic::ExpressionDeployerV2BytecodeV1)
        } else {
            Err(MagicError::UnknownMagicName)
        }
    }
}

/// Round trip: reading a kind's encoded prefix back as a big-endian integer
/// and decoding that integer yields the kind it came from.
pub proof fn lemma_prefix_round_trip(kind: KnownMagic)
    ensures
        kind_of_magic(u64_of_be_bytes(be_bytes_of_u64(magic_of(kind)))) == Some(kind),
{
    lemma_be_bytes_round_trip(magic_of(kind));
}

/// Uniqueness: distinct kinds encode to distinct 8-byte prefixes.
pub proof fn lemma_prefix_unique(k1: KnownMagic, k2: KnownMagic)
    requires
        k1 != k2,
    ensures
        be_bytes_of_u64(magic_of(k1)) != be_bytes_of_u64(magic_of(k2)),
{
    lemma_be_bytes_round_trip(magic_of(k1));
    lemma_be_bytes_round_trip(magic_of(k2));
}

/// Leading-byte convention: every kind's encoded prefix starts with 0xff.
pub proof fn lemma_leading_byte(kind: KnownMagic)
    ensures
        be_bytes_of_u64(magic_of(kind))[0] == 0xff,
{
    match kind {
        KnownMagic::RainMetaDocumentV1 => {
            assert((0xff0a89c674ee7874u64 >> 56) & 0xff == 0xff) by (bit_vector);
        },
        KnownMagic::SolidityAbiV2 => {
            assert((0xffe5ffb4a3ff2cdeu64 >> 56) & 0xff == 0xff) by (bit_vector);
        },
        KnownMagic::OpMetaV1 => {
            assert((0xffe5282f43e495b4u64 >> 56) & 0xff == 0xff) by (bit_vector);
        },
        KnownMagic::InterpreterCallerMetaV1 => {
            assert((0xffc21bbf86cc199bu64 >> 56) & 0xff == 0xff) by (bit_vector);
        },
        KnownMagic::AuthoringMetaV1 => {
            assert((0xffe9e3a02ca8e235u64 >> 56) & 0xff == 0xff) by (bit_vector);
        },
        KnownMagic::DotrainV1 => {
            assert((0xffdac2f2f37be894u64 >> 56) & 0xff == 0xff) by (bit_vector);
        },
        KnownMagic::RainlangV1 => {
            assert((0xff1c198cec3b48a7u64 >> 56) & 0xff == 0xff) by (bit_vector);
        },
        KnownMagic::ExpressionDeployerV2BytecodeV1 => {
            assert((0xffdb988a8cd04d32u64 >> 56) & 0xff == 0xff) by (bit_vector);
        },
    }
}

/// Name round trip: looking a kind's canonical name back up yields the kind it
/// came from.
pub proof fn lemma_name_round_trip(kind: KnownMagic)
    ensures
        kind_of_name(name_of(kind)) == Some(kind),
{
    reveal_strlit("rain-meta-document-v1");
    reveal_strlit("solidity-abi-v2");
    reveal_strlit("op-meta-v1");
    reveal_strlit("interpreter-caller-meta-v1");
    reveal_strlit("authoring-meta-v1");
    reveal_strlit("dotrain-v1");
    reveal_strlit("rainlang-v1");
    reveal_strlit("expression-deployer-v2-bytecode-v1");
    assert(name_of(KnownMagic::RainMetaDocumentV1).len() == 21);
    assert(name_of(KnownMagic::SolidityAbiV2).len() == 15);
    assert(name_of(KnownMagic::OpMetaV1).len() == 10);
    assert(name_of(KnownMagic::InterpreterCallerMetaV1).len() == 26);
    assert(name_of(KnownMagic::AuthoringMetaV1).len() == 17);
    assert(name_of(KnownMagic::DotrainV1).len() == 10);
    assert(name_of(KnownMagic::RainlangV1).len() == 11);
    assert(name_of(KnownMagic::ExpressionDeployerV2BytecodeV1).len() == 34);
    // The two names of equal length are told apart by their first character.
    assert(name_of(KnownMagic::OpMetaV1)[0] == 'o');
    assert(name_of(KnownMagic::DotrainV1)[0] == 'd');
}

} // verus!
