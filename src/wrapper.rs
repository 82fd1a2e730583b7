//! What the wrapped-asset controllers share: the execution context, the delegate's
//! instantiation, the error taxonomy and the record of an operation in flight.
use crate::address::{AccountId, AddressError, EvmAddress};
use crate::ledger::LedgerError;
use crate::nft::NftError;
use crate::xvm::XvmError;
use vstd::prelude::*;

verus! {

/// The ambient facts of one contract invocation, passed explicitly.
#[derive(Clone, Copy, Debug, PartialEq, Eq)]
pub struct ExecContext {
    /// The account that invoked the contract.
    pub caller: AccountId,
    /// The contract's own account.
    pub account_id: AccountId,
}

/// The code hash of a contract.
pub type Hash = [u8; 32];

/// The little-endian bytes of a version number.
pub open spec fn le_bytes(v: u32) -> Seq<u8> {
    seq![
        (v % 256) as u8,
        ((v / 256) % 256) as u8,
        ((v / 65536) % 256) as u8,
        (v / 16777216) as u8,
    ]
}

/// The salt that the delegate of `version` is instantiated with: the version's
/// little-endian bytes, so that each version gets its own deterministic address.
pub fn salt_of(version: u32) -> (r: [u8; 4])
    ensures
        r@ == le_bytes(version),
{
    let b0 = (version & 0xff) as u8;
    let b1 = ((version >> 8u32) & 0xff) as u8;
    let b2 = ((version >> 16u32) & 0xff) as u8;
    let b3 = ((version >> 24u32) & 0xff) as u8;
    assert(version & 0xff == version % 256) by (bit_vector);
    assert((version >> 8u32) & 0xff == (version / 256) % 256) by (bit_vector);
    assert((version >> 16u32) & 0xff == (version / 65536) % 256) by (bit_vector);
    assert((version >> 24u32) & 0xff == version / 16777216) by (bit_vector);
    let r = [b0, b1, b2, b3];
    assert(r@ =~= le_bytes(version));
    r
}

/// How the host is asked to instantiate a wrapper's delegate contract.
#[derive(Clone, Copy, Debug, PartialEq, Eq)]
pub struct InstantiateRequest {
    pub code_hash: Hash,
    pub salt: [u8; 4],
    pub endowment: u128,
    /// The constructor's argument: the EVM contract that the delegate controls.
    pub evm_address: EvmAddress,
}

/// The request for the delegate of `version`, built from `code_hash`, controlling the EVM
/// contract at `evm_address`, with no endowment.
pub fn delegate_request(version: u32, code_hash: Hash, evm_address: EvmAddress) -> (r:
    InstantiateRequest)
    ensures
        r.code_hash == code_hash,
        r.salt@ == le_bytes(version),
        r.endowment == 0,
        r.evm_address == evm_address,
{
    InstantiateRequest { code_hash, salt: salt_of(version), endowment: 0, evm_address }
}

/// Why the host failed to instantiate a delegate.
#[derive(Clone, Copy, Debug, PartialEq, Eq)]
pub enum InstantiateError {
    /// The host refused or failed the instantiation.
    Environment,
    /// The delegate's constructor failed.
    Constructor,
}

/// An operation whose foreign half is in flight; while one is, the wrapper refuses others.
#[derive(Clone, Debug, PartialEq, Eq)]
pub enum Pending<T> {
    Deposit { caller: AccountId, item: T },
    Withdraw { caller: AccountId, item: T },
}

/// Which half of a two-step bridge operation committed before the other failed.
#[derive(Clone, Copy, Debug, PartialEq, Eq)]
pub enum CommittedHalf {
    /// Deposit: the foreign asset reached custody, but the native side was not credited.
    ForeignCustody,
    /// Withdraw: the native side was debited, but the foreign asset was not released.
    NativeBurn,
}

/// Failures of the wrapped-asset controllers.
#[derive(Clone, Copy, Debug, PartialEq, Eq)]
pub enum WrapperError {
    /// Another operation of this wrapper is in flight.
    OperationInProgress,
    /// No operation of the kind being completed is in flight.
    NothingPending,
    /// The caller has no EVM address from account unification.
    AccountNotMapped,
    /// The token id has no 256-bit value.
    InvalidId,
    /// The first, foreign step failed; nothing changed on either side.
    Call(XvmError),
    /// The first, native step was refused; nothing changed on either side.
    Ledger(LedgerError),
    /// A token operation was refused; nothing changed on either side.
    Token(NftError),
    /// One half committed and the other failed: the ledgers disagree until reconciled.
    PartialBridgeFailure(CommittedHalf),
    /// The delegate could not be instantiated; the wrapper does not exist.
    DelegateInstantiation(InstantiateError),
}

impl WrapperError {
    pub fn from_address(e: AddressError) -> (r: WrapperError)
        ensures
            r == WrapperError::AccountNotMapped,
    {
        match e {
            AddressError::AccountNotMapped => WrapperError::AccountNotMapped,
        }
    }
}

} // verus!
