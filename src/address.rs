//! Mapping between native account identifiers and EVM addresses.
use vstd::prelude::*;

verus! {

/// A native ledger account: 32 bytes.
pub type AccountId = [u8; 32];

/// An EVM address: 20 bytes.
pub type EvmAddress = [u8; 20];

/// The EVM address that mechanical truncation gives: the first 20 bytes.
pub open spec fn truncated(account: Seq<u8>) -> Seq<u8> {
    account.subrange(0, 20)
}

/// Truncation is a function of its input, and truncating an address again leaves it unchanged.
pub proof fn lemma_truncate_deterministic_idempotent(a: AccountId, b: AccountId)
    ensures
        a == b ==> truncated(a@) == truncated(b@),
        truncated(truncated(a@)) == truncated(a@),
{
    assert(truncated(truncated(a@)) =~= truncated(a@));
}

/// Mechanical mapping: the first 20 bytes of the account. Lossy; always succeeds.
pub fn h160(account: &AccountId) -> (r: EvmAddress)
    ensures
        r@ == truncated(account@),
{
    let mut out = [0u8; 20];
    let mut i: usize = 0;
    while i < 20
        invariant
            0 <= i <= 20,
            forall|j: int| 0 <= j < i ==> out[j] == account[j],
        decreases 20 - i,
    {
        out[i] = account[i];
        i = i + 1;
    }
    assert(out@ =~= truncated(account@));
    out
}

/// Failure of an exact address lookup.
#[derive(Clone, Copy, Debug, PartialEq, Eq)]
pub enum AddressError {
    /// The account unification service holds no mapping for the account.
    AccountNotMapped,
}

/// Exact mapping: the address that the unification lookup returned, or an error when it
/// returned none.
pub fn mapped_h160(lookup: Option<EvmAddress>) -> (r: Result<EvmAddress, AddressError>)
    ensures
        lookup matches Some(a) ==> r == Ok::<EvmAddress, AddressError>(a),
        lookup is None ==> r == Err::<EvmAddress, AddressError>(AddressError::AccountNotMapped),
{
    match lookup {
        Some(a) => Ok(a),
        None => Err(AddressError::AccountNotMapped),
    }
}

/// What the "or default" lookup returns: an explicit mapping, or the deterministic fallback.
#[derive(Clone, Copy, Debug, PartialEq, Eq)]
pub enum UnifiedAddress {
    Mapped(EvmAddress),
    Default(EvmAddress),
}

impl UnifiedAddress {
    pub open spec fn spec_address(&self) -> EvmAddress {
        match *self {
            UnifiedAddress::Mapped(a) => a,
            UnifiedAddress::Default(a) => a,
        }
    }

    /// The address, whether mapped or fallback.
    pub fn address(&self) -> (r: EvmAddress)
        ensures
            r == self.spec_address(),
    {
        match *self {
            UnifiedAddress::Mapped(a) => a,
            UnifiedAddress::Default(a) => a,
        }
    }

    /// Whether the address comes from an explicit mapping.
    pub fn is_mapped(&self) -> (r: bool)
        ensures
            r == (*self is Mapped),
    {
        match *self {
            UnifiedAddress::Mapped(_) => true,
            UnifiedAddress::Default(_) => false,
        }
    }
}

/// A transfer recipient: an EVM address given as such, or a native account.
#[derive(Clone, Copy, Debug, PartialEq, Eq)]
pub enum To {
    EVM(EvmAddress),
    WASM(AccountId),
}

impl To {
    pub open spec fn spec_h160(&self) -> Seq<u8> {
        match *self {
            To::EVM(a) => a@,
            To::WASM(a) => truncated(a@),
        }
    }

    /// The recipient's EVM address; a native account is truncated.
    pub fn to_h160(&self) -> (r: EvmAddress)
        ensures
            r@ == self.spec_h160(),
    {
        match *self {
            To::EVM(a) => a,
            To::WASM(a) => h160(&a),
        }
    }
}

/// The identifier of the account unification chain extension.
pub const UA_EXTENSION_ID: u16 = 3;

/// The account unification chain extension.
pub struct UAExtension;

impl UAExtension {
    /// The function id of command `idx`: the extension id in the high half, the command below.
    pub fn get_func_id(idx: u16) -> (r: u32)
        ensures
            r == UA_EXTENSION_ID as nat * 65536 + idx as nat,
    {
        let id = UA_EXTENSION_ID as u32;
        let high = id << 16u32;
        assert(high == id * 65536) by (bit_vector)
            requires
                id == 3u32,
                high == id << 16u32,
        ;
        high + (idx as u32)
    }
}

} // verus!
