//! The closed catalog of EVM functions that the bridge calls, and their calldata:
//! the 4-byte selector followed by the ABI encoding of the arguments.
use crate::abi::{abi_encoding, encode_tokens, lemma_abi_encoding_words, token_word, AbiToken};
use crate::address::EvmAddress;
use crate::word::{be_value, word_of, U256};
use vstd::prelude::*;

verus! {

/// `approve(address,uint256)`
pub const APPROVE_SELECTOR: [u8; 4] = [0x09, 0x5e, 0xa7, 0xb3];

/// `transfer(address,uint256)`
pub const TRANSFER_SELECTOR: [u8; 4] = [0xa9, 0x05, 0x9c, 0xbb];

/// `transferFrom(address,address,uint256)`
pub const TRANSFER_FROM_SELECTOR: [u8; 4] = [0x23, 0xb8, 0x72, 0xdd];

/// `mint(address,uint256)`
pub const MINT_SELECTOR: [u8; 4] = [0x40, 0xc1, 0x0f, 0x19];

/// `balanceOf(address)`
pub const BALANCE_OF_SELECTOR: [u8; 4] = [0x70, 0xa0, 0x82, 0x31];

/// `totalSupply()`
pub const TOTAL_SUPPLY_SELECTOR: [u8; 4] = [0x18, 0x16, 0x0d, 0xdd];

/// `isApprovedForAll(address,address)`
pub const IS_APPROVED_FOR_ALL_SELECTOR: [u8; 4] = [0xe9, 0x85, 0xe9, 0xc5];

/// A call of an EVM token contract, with its typed arguments.
#[derive(Clone, Copy, Debug, PartialEq, Eq)]
pub enum EvmCall {
    Approve { spender: EvmAddress, value: U256 },
    Transfer { to: EvmAddress, value: U256 },
    TransferFrom { from: EvmAddress, to: EvmAddress, value: U256 },
    Mint { to: EvmAddress, value: U256 },
    BalanceOf { owner: EvmAddress },
    TotalSupply,
    IsApprovedForAll { owner: EvmAddress, operator: EvmAddress },
}

impl EvmCall {
    pub open spec fn spec_selector(&self) -> [u8; 4] {
        match *self {
            EvmCall::Approve { .. } => APPROVE_SELECTOR,
            EvmCall::Transfer { .. } => TRANSFER_SELECTOR,
            EvmCall::TransferFrom { .. } => TRANSFER_FROM_SELECTOR,
            EvmCall::Mint { .. } => MINT_SELECTOR,
            EvmCall::BalanceOf { .. } => BALANCE_OF_SELECTOR,
            EvmCall::TotalSupply => TOTAL_SUPPLY_SELECTOR,
            EvmCall::IsApprovedForAll { .. } => IS_APPROVED_FOR_ALL_SELECTOR,
        }
    }

    pub open spec fn spec_arguments(&self) -> Seq<AbiToken> {
        match *self {
            EvmCall::Approve { spender, value } => seq![
                AbiToken::Address(spender),
                AbiToken::Uint(value),
            ],
            EvmCall::Transfer { to, value } => seq![AbiToken::Address(to), AbiToken::Uint(value)],
            EvmCall::TransferFrom { from, to, value } => seq![
                AbiToken::Address(from),
                AbiToken::Address(to),
                AbiToken::Uint(value),
            ],
            EvmCall::Mint { to, value } => seq![AbiToken::Address(to), AbiToken::Uint(value)],
            EvmCall::BalanceOf { owner } => seq![AbiToken::Address(owner)],
            EvmCall::TotalSupply => Seq::empty(),
            EvmCall::IsApprovedForAll { owner, operator } => seq![
                AbiToken::Address(owner),
                AbiToken::Address(operator),
            ],
        }
    }

    /// The calldata: the selector, then the canonical encoding of the arguments.
    pub open spec fn encoded(&self) -> Seq<u8> {
        self.spec_selector()@ + abi_encoding(self.spec_arguments())
    }

    /// The 4-byte selector of the called function.
    pub fn selector(&self) -> (r: [u8; 4])
        ensures
            r == self.spec_selector(),
    {
        match *self {
            EvmCall::Approve { .. } => APPROVE_SELECTOR,
            EvmCall::Transfer { .. } => TRANSFER_SELECTOR,
            EvmCall::TransferFrom { .. } => TRANSFER_FROM_SELECTOR,
            EvmCall::Mint { .. } => MINT_SELECTOR,
            EvmCall::BalanceOf { .. } => BALANCE_OF_SELECTOR,
            EvmCall::TotalSupply => TOTAL_SUPPLY_SELECTOR,
            EvmCall::IsApprovedForAll { .. } => IS_APPROVED_FOR_ALL_SELECTOR,
        }
    }

    /// The argument tuple, in the order of the function's signature.
    pub fn arguments(&self) -> (r: Vec<AbiToken>)
        ensures
            r@ == self.spec_arguments(),
    {
        let r = match *self {
            EvmCall::Approve { spender, value } => vec![
                AbiToken::Address(spender),
                AbiToken::Uint(value),
            ],
            EvmCall::Transfer { to, value } => vec![AbiToken::Address(to), AbiToken::Uint(value)],
            EvmCall::TransferFrom { from, to, value } => vec![
                AbiToken::Address(from),
                AbiToken::Address(to),
                AbiToken::Uint(value),
            ],
            EvmCall::Mint { to, value } => vec![AbiToken::Address(to), AbiToken::Uint(value)],
            EvmCall::BalanceOf { owner } => vec![AbiToken::Address(owner)],
            EvmCall::TotalSupply => Vec::new(),
            EvmCall::IsApprovedForAll { owner, operator } => vec![
                AbiToken::Address(owner),
                AbiToken::Address(operator),
            ],
        };
        assert(r@ =~= self.spec_arguments());
        r
    }

    /// Encodes the call; purely local and never fails.
    pub fn encode(&self) -> (r: Vec<u8>)
        ensures
            r@ == self.encoded(),
    {
        let sel = self.selector();
        let mut out: Vec<u8> = vec![sel[0], sel[1], sel[2], sel[3]];
        let args = self.arguments();
        let mut body = encode_tokens(&args);
        out.append(&mut body);
        assert(out@ =~= self.encoded());
        out
    }
}

/// For every call kind, the calldata is the kind's fixed 4-byte selector followed by one
/// 32-byte word per argument, in signature order, and nothing else.
pub proof fn lemma_call_layout(call: EvmCall)
    ensures
        call.encoded().len() == 4 + 32 * call.spec_arguments().len(),
        call.encoded().subrange(0, 4) == call.spec_selector()@,
        forall|i: int|
            0 <= i < call.spec_arguments().len() ==> #[trigger] call.encoded().subrange(
                4 + 32 * i,
                4 + 32 * i + 32,
            ) == token_word(call.spec_arguments()[i]),
{
    let sel = call.spec_selector()@;
    let body = abi_encoding(call.spec_arguments());
    lemma_abi_encoding_words(call.spec_arguments());
    assert(call.encoded().subrange(0, 4) =~= sel);
    assert forall|i: int| 0 <= i < call.spec_arguments().len() implies #[trigger] call.encoded().subrange(
        4 + 32 * i,
        4 + 32 * i + 32,
    ) == token_word(call.spec_arguments()[i]) by {
        assert(call.encoded().subrange(4 + 32 * i, 4 + 32 * i + 32) =~= body.subrange(
            32 * i,
            32 * i + 32,
        ));
    }
}

/// Why arguments could not be encoded.
#[derive(Clone, Copy, Debug, PartialEq, Eq)]
pub enum EncodeError {
    /// A raw-bytes token id longer than 32 bytes has no 256-bit value.
    IdTooLong,
}

/// A non-fungible token id.
#[derive(Clone, Debug, PartialEq, Eq)]
pub enum Id {
    U8(u8),
    U16(u16),
    U32(u32),
    U64(u64),
    U128(u128),
    Bytes(Vec<u8>),
}

impl Id {
    /// The id as an unsigned integer, when it has one: numbers as they are, raw bytes read
    /// big-endian when there are at most 32 of them.
    pub open spec fn spec_uint(&self) -> Option<nat> {
        match *self {
            Id::U8(v) => Some(v as nat),
            Id::U16(v) => Some(v as nat),
            Id::U32(v) => Some(v as nat),
            Id::U64(v) => Some(v as nat),
            Id::U128(v) => Some(v as nat),
            Id::Bytes(b) => if b@.len() <= 32 {
                Some(be_value(b@))
            } else {
                None
            },
        }
    }
}

/// Widens a token id to a 256-bit integer; raw bytes are never truncated, so an id of more
/// than 32 bytes is refused.
pub fn cast(id: &Id) -> (r: Result<U256, EncodeError>)
    ensures
        id.spec_uint() is None <==> r == Err::<U256, EncodeError>(EncodeError::IdTooLong),
        id.spec_uint() is None <==> r is Err,
        r matches Ok(w) ==> id.spec_uint() == Some(w.value()),
        r matches Ok(w) ==> w == word_of(id.spec_uint()->Some_0),
        id matches Id::Bytes(b) ==> (r matches Ok(w) ==> w.bytes@.subrange(32 - b@.len(), 32)
            == b@),
{
    match id {
        Id::U8(v) => Ok(U256::from_u128(*v as u128)),
        Id::U16(v) => Ok(U256::from_u128(*v as u128)),
        Id::U32(v) => Ok(U256::from_u128(*v as u128)),
        Id::U64(v) => Ok(U256::from_u128(*v as u128)),
        Id::U128(v) => Ok(U256::from_u128(*v)),
        Id::Bytes(b) => match U256::from_be_slice(b.as_slice()) {
            Some(w) => Ok(w),
            None => Err(EncodeError::IdTooLong),
        },
    }
}

/// A token id as a value.
pub enum IdView {
    U8(u8),
    U16(u16),
    U32(u32),
    U64(u64),
    U128(u128),
    Bytes(Seq<u8>),
}

impl View for Id {
    type V = IdView;

    open spec fn view(&self) -> IdView {
        match *self {
            Id::U8(v) => IdView::U8(v),
            Id::U16(v) => IdView::U16(v),
            Id::U32(v) => IdView::U32(v),
            Id::U64(v) => IdView::U64(v),
            Id::U128(v) => IdView::U128(v),
            Id::Bytes(b) => IdView::Bytes(b@),
        }
    }
}

fn same_bytes(a: &Vec<u8>, b: &Vec<u8>) -> (r: bool)
    ensures
        r == (a@ == b@),
{
    if a.len() != b.len() {
        return false;
    }
    let mut i: usize = 0;
    while i < a.len()
        invariant
            a@.len() == b@.len(),
            0 <= i <= a@.len(),
            forall|j: int| 0 <= j < i ==> a@[j] == b@[j],
        decreases a@.len() - i,
    {
        if a[i] != b[i] {
            return false;
        }
        i = i + 1;
    }
    assert(a@ =~= b@);
    true
}

impl Id {
    /// Whether two ids are the same token: the same kind and the same value.
    pub fn same(&self, other: &Id) -> (r: bool)
        ensures
            r == (self@ == other@),
    {
        match (self, other) {
            (Id::U8(a), Id::U8(b)) => *a == *b,
            (Id::U16(a), Id::U16(b)) => *a == *b,
            (Id::U32(a), Id::U32(b)) => *a == *b,
            (Id::U64(a), Id::U64(b)) => *a == *b,
            (Id::U128(a), Id::U128(b)) => *a == *b,
            (Id::Bytes(a), Id::Bytes(b)) => same_bytes(a, b),
            _ => false,
        }
    }

    /// A copy of the id.
    pub fn duplicate(&self) -> (r: Id)
        ensures
            r@ == self@,
    {
        match self {
            Id::U8(v) => Id::U8(*v),
            Id::U16(v) => Id::U16(*v),
            Id::U32(v) => Id::U32(*v),
            Id::U64(v) => Id::U64(*v),
            Id::U128(v) => Id::U128(*v),
            Id::Bytes(b) => {
                let mut c: Vec<u8> = Vec::new();
                let mut i: usize = 0;
                while i < b.len()
                    invariant
                        0 <= i <= b@.len(),
                        c@ == b@.subrange(0, i as int),
                    decreases b@.len() - i,
                {
                    c.push(b[i]);
                    assert(c@ =~= b@.subrange(0, i + 1));
                    i = i + 1;
                }
                assert(b@.subrange(0, b@.len() as int) =~= b@);
                Id::Bytes(c)
            },
        }
    }
}

} // verus!
