//! Public keys of the solo machine's signer, read from hex-encoded SEC1 bytes.
use vstd::prelude::*;
use crate::ident::same_text;

verus! {

/// Whether `c` is a hexadecimal digit, in either case.
pub open spec fn is_hex_digit(c: char) -> bool {
    ('0' <= c && c <= '9') || ('a' <= c && c <= 'f') || ('A' <= c && c <= 'F')
}

/// Whether `c` is a digit or a lower-case hexadecimal letter.
pub open spec fn is_lower_hex_digit(c: char) -> bool {
    ('0' <= c && c <= '9') || ('a' <= c && c <= 'f')
}

/// The value of a hexadecimal digit.
pub open spec fn hex_value(c: char) -> int {
    if '0' <= c && c <= '9' {
        c as int - '0' as int
    } else if 'a' <= c && c <= 'f' {
        c as int - 'a' as int + 10
    } else {
        c as int - 'A' as int + 10
    }
}

/// The lower-case digit for a value below sixteen.
pub open spec fn lower_hex_digit(v: int) -> char {
    if v < 10 {
        (v + '0' as int) as char
    } else {
        (v - 10 + 'a' as int) as char
    }
}

/// Whether `s` is a whole hexadecimal encoding: an even number of hex digits.
pub open spec fn valid_hex(s: Seq<char>) -> bool {
    s.len() % 2 == 0 && forall|i: int| 0 <= i < s.len() ==> is_hex_digit(#[trigger] s[i])
}

/// The bytes that a hexadecimal string encodes, two digits to a byte, high digit first.
pub open spec fn hex_decode(s: Seq<char>) -> Seq<u8> {
    Seq::new(s.len() / 2, |i: int| (16 * hex_value(s[2 * i]) + hex_value(s[2 * i + 1])) as u8)
}

/// The lower-case hexadecimal encoding of bytes, high digit first.
pub open spec fn hex_encode(b: Seq<u8>) -> Seq<char> {
    Seq::new(
        2 * b.len(),
        |i: int|
            if i % 2 == 0 {
                lower_hex_digit(b[i / 2] as int / 16)
            } else {
                lower_hex_digit(b[i / 2] as int % 16)
            },
    )
}

/// Whether bytes are a SEC1 encoding of a point on the secp256k1 curve.
pub uninterp spec fn is_sec1_point(b: Seq<u8>) -> bool;

/// Relies on hex::decode: it accepts digits of either case, two to a byte, and
/// fails on an odd length or on any other character.
#[verifier::external_body]
fn decode_hex(s: &str) -> (r: Option<Vec<u8>>)
    ensures
        r is Some <==> valid_hex(s@),
        r is Some ==> r->Some_0@ == hex_decode(s@),
{
    hex::decode(s).ok()
}

/// Relies on hex::encode: two lower-case digits for each byte, high digit first.
#[verifier::external_body]
fn encode_hex(b: &[u8]) -> (r: String)
    ensures
        r@ == hex_encode(b@),
{
    hex::encode(b)
}

/// Relies on k256's VerifyingKey::from_sec1_bytes: whether the bytes decode to a
/// verifying key, which depends on the bytes alone.
#[verifier::external_body]
fn sec1_point(b: &[u8]) -> (r: bool)
    ensures
        r == is_sec1_point(b@),
{
    k256::ecdsa::VerifyingKey::from_sec1_bytes(b).is_ok()
}

/// A copy of a byte vector.
fn copy_bytes(b: &Vec<u8>) -> (r: Vec<u8>)
    ensures
        r@ == b@,
{
    let mut r: Vec<u8> = Vec::new();
    let mut i: usize = 0;
    while i < b.len()
        invariant
            i <= b.len(),
            r@ == b@.take(i as int),
        decreases b.len() - i,
    {
        r.push(b[i]);
        i += 1;
        assert(r@ =~= b@.take(i as int));
    }
    assert(b@.take(b.len() as int) =~= b@);
    r
}

/// Elliptic-curve schemes of a signer's public key.
#[derive(Debug, Clone, Copy, PartialEq, Eq, Structural)]
pub enum PublicKeyAlgo {
    Secp256k1,
    EthSecp256k1,
}

/// Why a public key or its algorithm was refused.
#[derive(Debug, Clone, Copy, PartialEq, Eq, Structural)]
pub enum KeyError {
    /// The algorithm's name is none of the known ones.
    UnknownAlgorithm,
    /// The algorithm is known but its capability is not enabled.
    AlgorithmNotEnabled,
    /// The key is not a whole hexadecimal encoding.
    InvalidHex,
    /// The bytes are not a point on the curve.
    InvalidPoint,
}

/// The algorithm that a name selects, if any.
pub open spec fn algo_of_name(s: Seq<char>) -> Option<PublicKeyAlgo> {
    if s == "secp256k1"@ {
        Some(PublicKeyAlgo::Secp256k1)
    } else if s == "eth-secp256k1"@ {
        Some(PublicKeyAlgo::EthSecp256k1)
    } else {
        None
    }
}

impl PublicKeyAlgo {
    /// Reads an algorithm from its name: `secp256k1` or `eth-secp256k1`.
    pub fn from_name(s: &str) -> (r: Result<PublicKeyAlgo, KeyError>)
        ensures
            r is Ok <==> algo_of_name(s@) is Some,
            r is Ok ==> algo_of_name(s@) == Some(r->Ok_0),
            r is Err ==> r->Err_0 == KeyError::UnknownAlgorithm,
    {
        proof {
            reveal_strlit("secp256k1");
            reveal_strlit("eth-secp256k1");
        }
        if same_text(s, "secp256k1") {
            Ok(PublicKeyAlgo::Secp256k1)
        } else if same_text(s, "eth-secp256k1") {
            Ok(PublicKeyAlgo::EthSecp256k1)
        } else {
            Err(KeyError::UnknownAlgorithm)
        }
    }

    /// Whether this algorithm may be selected, given whether the Ethereum-flavoured
    /// capability is enabled.
    pub open spec fn enabled(self, eth_enabled: bool) -> bool {
        self == PublicKeyAlgo::Secp256k1 || eth_enabled
    }
}

/// A signer's public key: SEC1 bytes of a curve point, tagged with its scheme.
#[derive(Debug, Clone, PartialEq, Eq)]
pub enum PublicKey {
    Secp256k1(Vec<u8>),
    EthSecp256k1(Vec<u8>),
}

impl PublicKey {
    /// The key's scheme.
    pub open spec fn algo_spec(&self) -> PublicKeyAlgo {
        match self {
            PublicKey::Secp256k1(_) => PublicKeyAlgo::Secp256k1,
            PublicKey::EthSecp256k1(_) => PublicKeyAlgo::EthSecp256k1,
        }
    }

    /// The key's SEC1 bytes.
    pub open spec fn bytes(&self) -> Seq<u8> {
        match self {
            PublicKey::Secp256k1(b) => b@,
            PublicKey::EthSecp256k1(b) => b@,
        }
    }

    /// The key's scheme.
    pub fn algo(&self) -> (r: PublicKeyAlgo)
        ensures
            r == self.algo_spec(),
    {
        match self {
            PublicKey::Secp256k1(_) => PublicKeyAlgo::Secp256k1,
            PublicKey::EthSecp256k1(_) => PublicKeyAlgo::EthSecp256k1,
        }
    }

    /// Another key of the same scheme and bytes.
    pub fn duplicate(&self) -> (r: PublicKey)
        ensures
            r.algo_spec() == self.algo_spec(),
            r.bytes() == self.bytes(),
    {
        match self {
            PublicKey::Secp256k1(b) => PublicKey::Secp256k1(copy_bytes(b)),
            PublicKey::EthSecp256k1(b) => PublicKey::EthSecp256k1(copy_bytes(b)),
        }
    }

    /// The key's SEC1 bytes in lower-case hexadecimal.
    pub fn to_hex(&self) -> (r: String)
        ensures
            r@ == hex_encode(self.bytes()),
    {
        match self {
            PublicKey::Secp256k1(b) => encode_hex(b.as_slice()),
            PublicKey::EthSecp256k1(b) => encode_hex(b.as_slice()),
        }
    }
}


/// The error that `decode_public_key` gives, if any, in the order the checks run:
/// the algorithm first, then the hexadecimal text, then the curve point.
pub open spec fn public_key_error(s: Seq<char>, algo: PublicKeyAlgo, eth_enabled: bool) -> Option<
    KeyError,
> {
    if !algo.enabled(eth_enabled) {
        Some(KeyError::AlgorithmNotEnabled)
    } else if !valid_hex(s) {
        Some(KeyError::InvalidHex)
    } else if !is_sec1_point(hex_decode(s)) {
        Some(KeyError::InvalidPoint)
    } else {
        None
    }
}

/// Reads a hex-encoded SEC1 public key for the selected algorithm. A disabled
/// algorithm is refused before the key text is looked at.
pub fn decode_public_key(s: &str, algo: PublicKeyAlgo, eth_enabled: bool) -> (r: Result<
    PublicKey,
    KeyError,
>)
    ensures
        r is Ok <==> public_key_error(s@, algo, eth_enabled) is None,
        r is Err ==> public_key_error(s@, algo, eth_enabled) == Some(r->Err_0),
        r is Ok ==> r->Ok_0.algo_spec() == algo && r->Ok_0.bytes() == hex_decode(s@),
{
    match algo {
        PublicKeyAlgo::EthSecp256k1 => {
            if !eth_enabled {
                return Err(KeyError::AlgorithmNotEnabled);
            }
        },
        PublicKeyAlgo::Secp256k1 => {},
    }
    let bytes = match decode_hex(s) {
        Some(b) => b,
        None => {
            return Err(KeyError::InvalidHex);
        },
    };
    if !sec1_point(bytes.as_slice()) {
        return Err(KeyError::InvalidPoint);
    }
    match algo {
        PublicKeyAlgo::Secp256k1 => Ok(PublicKey::Secp256k1(bytes)),
        PublicKeyAlgo::EthSecp256k1 => Ok(PublicKey::EthSecp256k1(bytes)),
    }
}

/// A lower-case digit is written back as itself from its value.
proof fn lemma_lower_digit_round_trip(c: char)
    requires
        is_lower_hex_digit(c),
    ensures
        0 <= hex_value(c) < 16,
        lower_hex_digit(hex_value(c)) == c,
{
}

/// Decoding a whole lower-case hexadecimal string and encoding the bytes again
/// gives back the same string.
pub proof fn lemma_hex_round_trip(s: Seq<char>)
    requires
        valid_hex(s),
        forall|i: int| 0 <= i < s.len() ==> is_lower_hex_digit(#[trigger] s[i]),
    ensures
        hex_encode(hex_decode(s)) == s,
{
    let b = hex_decode(s);
    let e = hex_encode(b);
    assert forall|i: int| 0 <= i < s.len() implies e[i] == s[i] by {
        let k = i / 2;
        assert(0 <= 2 * k && 2 * k + 1 < s.len());
        let hi = hex_value(s[2 * k]);
        let lo = hex_value(s[2 * k + 1]);
        lemma_lower_digit_round_trip(s[2 * k]);
        lemma_lower_digit_round_trip(s[2 * k + 1]);
        assert(b[k] as int == 16 * hi + lo);
        assert((16 * hi + lo) / 16 == hi && (16 * hi + lo) % 16 == lo) by (nonlinear_arith)
            requires
                0 <= hi < 16,
                0 <= lo < 16,
        ;
        if i % 2 == 0 {
            assert(i == 2 * k);
        } else {
            assert(i == 2 * k + 1);
        }
    }
    assert(e =~= s);
}

/// A key read from lower-case hexadecimal is written back as the same text.
pub proof fn lemma_public_key_hex_round_trip(s: Seq<char>, k: PublicKey)
    requires
        forall|i: int| 0 <= i < s.len() ==> is_lower_hex_digit(#[trigger] s[i]),
        valid_hex(s),
        k.bytes() == hex_decode(s),
    ensures
        hex_encode(k.bytes()) == s,
{
    lemma_hex_round_trip(s);
}

} // verus!
