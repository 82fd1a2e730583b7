//! The subset of the Ethereum ABI that the bridge uses: static argument tuples of
//! addresses, unsigned integers and booleans, and single 256-bit return values.
use crate::address::EvmAddress;
use crate::word::U256;
use vstd::prelude::*;

verus! {

#[verifier::external_type_specification]
#[verifier::external_body]
pub struct ExAbiError(ethabi::Error);

/// One ABI argument.
#[derive(Clone, Copy, Debug, PartialEq, Eq)]
pub enum AbiToken {
    Address(EvmAddress),
    Uint(U256),
    Bool(bool),
}

/// `n` zero bytes.
pub open spec fn zeros(n: nat) -> Seq<u8> {
    Seq::new(n, |i: int| 0u8)
}

/// The 32-byte word of a static token: an address left-padded with zeros, an integer in
/// big-endian order, a boolean as 0 or 1.
pub open spec fn token_word(t: AbiToken) -> Seq<u8> {
    match t {
        AbiToken::Address(a) => zeros(12) + a@,
        AbiToken::Uint(u) => u.bytes@,
        AbiToken::Bool(b) => zeros(31).push(if b { 1u8 } else { 0u8 }),
    }
}

/// The canonical encoding of a tuple of static tokens: their words, one after another.
pub open spec fn abi_encoding(ts: Seq<AbiToken>) -> Seq<u8>
    decreases ts.len(),
{
    if ts.len() == 0 {
        Seq::empty()
    } else {
        abi_encoding(ts.drop_last()) + token_word(ts.last())
    }
}

/// Every token takes one 32-byte word.
pub proof fn lemma_token_word_len(t: AbiToken)
    ensures
        token_word(t).len() == 32,
{
}

/// The encoding of `n` static tokens is `n` words, and word `i` is token `i`'s.
pub proof fn lemma_abi_encoding_words(ts: Seq<AbiToken>)
    ensures
        abi_encoding(ts).len() == 32 * ts.len(),
        forall|i: int|
            0 <= i < ts.len() ==> #[trigger] abi_encoding(ts).subrange(32 * i, 32 * i + 32)
                == token_word(ts[i]),
    decreases ts.len(),
{
    if ts.len() > 0 {
        let d = ts.drop_last();
        lemma_abi_encoding_words(d);
        lemma_token_word_len(ts.last());
        let e = abi_encoding(ts);
        assert forall|i: int| 0 <= i < ts.len() implies #[trigger] e.subrange(32 * i, 32 * i + 32)
            == token_word(ts[i]) by {
            if i < ts.len() - 1 {
                assert(ts[i] == d[i]);
                assert(e.subrange(32 * i, 32 * i + 32) =~= abi_encoding(d).subrange(
                    32 * i,
                    32 * i + 32,
                ));
            } else {
                assert(e.subrange(32 * i, 32 * i + 32) =~= token_word(ts.last()));
            }
        }
    }
}

/// Relies on ethabi::encode: a tuple of static tokens (address, uint, bool) is encoded
/// as their 32-byte words in order (`encode_token_append` in ethabi's encoder).
#[verifier::external_body]
fn ethabi_encode(tokens: &Vec<AbiToken>) -> (r: Vec<u8>)
    ensures
        r@ == abi_encoding(tokens@),
{
    let ts: Vec<ethabi::Token> = tokens.iter().map(|t| match *t {
        AbiToken::Address(a) => ethabi::Token::Address(ethabi::Address::from(a)),
        AbiToken::Uint(u) => ethabi::Token::Uint(ethabi::Uint::from(u.bytes)),
        AbiToken::Bool(b) => ethabi::Token::Bool(b),
    }).collect();
    ethabi::encode(&ts)
}

/// Encodes a tuple of static tokens.
pub fn encode_tokens(tokens: &Vec<AbiToken>) -> (r: Vec<u8>)
    ensures
        r@ == abi_encoding(tokens@),
{
    ethabi_encode(tokens)
}

/// Relies on ethabi::decode with the single type uint256: it fails on data shorter than
/// one word, and otherwise returns one `Uint` token read big-endian from the first 32 bytes,
/// ignoring what follows (`decode_param` and `peek_32_bytes` in ethabi's decoder).
#[verifier::external_body]
fn ethabi_decode_uint256(data: &Vec<u8>) -> (r: Result<Vec<Option<U256>>, ethabi::Error>)
    ensures
        r is Ok <==> data@.len() >= 32,
        r matches Ok(ts) ==> (ts@.len() == 1 && (ts@[0] matches Some(w) && w.bytes@
            == data@.subrange(0, 32))),
{
    ethabi::decode(&[ethabi::ParamType::Uint(256)], data).map(|ts| ts.into_iter().map(|t| match t {
        ethabi::Token::Uint(u) => Some(U256 { bytes: u.into() }),
        _ => None,
    }).collect())
}

/// Why return data could not be read as one 256-bit integer.
#[derive(Clone, Copy, Debug, PartialEq, Eq)]
pub enum DecodeError {
    /// Shorter than one word: not an ABI encoding of any value.
    Malformed,
    /// A well-formed payload of another shape than the single word expected.
    UnexpectedShape,
}

/// Reads return data that must be exactly one ABI-encoded uint256.
pub fn decode_uint256(data: &Vec<u8>) -> (r: Result<U256, DecodeError>)
    ensures
        data@.len() < 32 <==> r == Err::<U256, DecodeError>(DecodeError::Malformed),
        data@.len() > 32 <==> r == Err::<U256, DecodeError>(DecodeError::UnexpectedShape),
        data@.len() == 32 <==> r is Ok,
        r matches Ok(w) ==> w.bytes@ == data@,
{
    match ethabi_decode_uint256(data) {
        Err(_) => Err(DecodeError::Malformed),
        Ok(ts) => {
            if ts.len() != 1 || data.len() != 32 {
                Err(DecodeError::UnexpectedShape)
            } else {
                match ts[0] {
                    Some(w) => {
                        assert(data@.subrange(0, 32) =~= data@);
                        Ok(w)
                    },
                    None => Err(DecodeError::UnexpectedShape),
                }
            }
        },
    }
}

} // verus!
