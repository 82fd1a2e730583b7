//! Handles on EVM token contracts: each operation becomes one cross-VM call request,
//! and read calls turn the returned bytes into a native amount.
use crate::abi::{decode_uint256, DecodeError};
use crate::address::{h160, truncated, AccountId, EvmAddress, To};
use crate::calls::{cast, EncodeError, EvmCall, Id};
use crate::word::{be_value, native_bound, word_of, U256};
use crate::xvm::{Xvm, XvmCall, XvmError, EVM_ID};
use vstd::prelude::*;

verus! {

/// `r` calls `call` on the EVM contract at `target`, carrying no value.
pub open spec fn is_evm_call(r: XvmCall, target: EvmAddress, call: EvmCall) -> bool {
    &&& r.vm_id == EVM_ID
    &&& r.target@ == target@
    &&& r.input@ == call.encoded()
    &&& r.value == 0
}

/// The request for `call` on the EVM contract at `target`.
pub fn request(target: &EvmAddress, call: &EvmCall) -> (r: XvmCall)
    ensures
        is_evm_call(r, *target, *call),
{
    Xvm::evm_call(target, call.encode())
}

/// The EVM address of a native account, by truncation, as a word of the model.
pub open spec fn h160_of(account: AccountId) -> EvmAddress {
    choose|a: EvmAddress| a@ == truncated(account@)
}

proof fn lemma_h160_of(account: AccountId, a: EvmAddress)
    requires
        a@ == truncated(account@),
    ensures
        h160_of(account) == a,
{
    let b = h160_of(account);
    assert(b@ == truncated(account@));
    assert(b =~= a);
}

/// The truncated EVM address of a native account, pinned as a value.
pub fn account_h160(account: &AccountId) -> (r: EvmAddress)
    ensures
        r == h160_of(*account),
        r@ == truncated(account@),
{
    let r = h160(account);
    proof {
        lemma_h160_of(*account, r);
    }
    r
}

/// Why reading an amount from an EVM contract failed.
#[derive(Clone, Copy, Debug, PartialEq, Eq)]
pub enum ReadError {
    /// The cross-VM call itself failed.
    Call(XvmError),
    /// The returned bytes are not one uint256.
    Decode(DecodeError),
    /// The value does not fit in a native 128-bit amount.
    AmountOverflow,
}

/// Turns the outcome of a read call into a native amount: the call's error, the decoding
/// error, an overflow when the 256-bit value exceeds the native range, or the value.
pub fn read_amount(outcome: Result<Vec<u8>, XvmError>) -> (r: Result<u128, ReadError>)
    ensures
        outcome matches Err(e) ==> r == Err::<u128, ReadError>(ReadError::Call(e)),
        outcome matches Ok(d) ==> (d@.len() < 32 <==> r == Err::<u128, ReadError>(
            ReadError::Decode(DecodeError::Malformed),
        )),
        outcome matches Ok(d) ==> (d@.len() > 32 <==> r == Err::<u128, ReadError>(
            ReadError::Decode(DecodeError::UnexpectedShape),
        )),
        outcome matches Ok(d) ==> (d@.len() == 32 && be_value(d@) >= native_bound() <==> r
            == Err::<u128, ReadError>(ReadError::AmountOverflow)),
        outcome matches Ok(d) ==> (d@.len() == 32 && be_value(d@) < native_bound() <==> r
            is Ok),
        r matches Ok(v) ==> (outcome matches Ok(d) && v as nat == be_value(d@)),
{
    match outcome {
        Err(e) => Err(ReadError::Call(e)),
        Ok(d) => match decode_uint256(&d) {
            Err(e) => Err(ReadError::Decode(e)),
            Ok(w) => match w.to_u128() {
                Some(v) => Ok(v),
                None => Err(ReadError::AmountOverflow),
            },
        },
    }
}

/// An ERC20 contract on the EVM, by address.
#[derive(Clone, Copy, Debug, PartialEq, Eq)]
pub struct Erc20 {
    pub evm_address: EvmAddress,
}

impl Erc20 {
    pub fn new(evm_address: EvmAddress) -> (r: Erc20)
        ensures
            r.evm_address == evm_address,
    {
        Erc20 { evm_address }
    }

    /// `totalSupply()`; read the answer with `read_amount`.
    pub fn total_supply(&self) -> (r: XvmCall)
        ensures
            is_evm_call(r, self.evm_address, EvmCall::TotalSupply),
    {
        request(&self.evm_address, &EvmCall::TotalSupply)
    }

    /// `balanceOf(from)` of an EVM address; read the answer with `read_amount`.
    pub fn balance_of(&self, from: EvmAddress) -> (r: XvmCall)
        ensures
            is_evm_call(r, self.evm_address, EvmCall::BalanceOf { owner: from }),
    {
        request(&self.evm_address, &EvmCall::BalanceOf { owner: from })
    }

    /// `balanceOf` of a native account, by its truncated address.
    pub fn balance_of_account_id(&self, from: &AccountId) -> (r: XvmCall)
        ensures
            is_evm_call(r, self.evm_address, EvmCall::BalanceOf { owner: h160_of(*from) }),
    {
        let owner = account_h160(from);
        request(&self.evm_address, &EvmCall::BalanceOf { owner })
    }

    /// `approve(to, value)`.
    pub fn approve(&self, to: EvmAddress, value: u128) -> (r: XvmCall)
        ensures
            is_evm_call(
                r,
                self.evm_address,
                EvmCall::Approve { spender: to, value: word_of(value as nat) },
            ),
    {
        let value = U256::from_u128(value);
        request(&self.evm_address, &EvmCall::Approve { spender: to, value })
    }

    /// `transfer(to, value)`.
    pub fn transfer(&self, to: EvmAddress, value: u128) -> (r: XvmCall)
        ensures
            is_evm_call(r, self.evm_address, EvmCall::Transfer { to, value: word_of(value as nat) }),
    {
        let value = U256::from_u128(value);
        request(&self.evm_address, &EvmCall::Transfer { to, value })
    }

    /// `transferFrom(from, to, value)`.
    pub fn transfer_from(&self, from: EvmAddress, to: EvmAddress, value: u128) -> (r: XvmCall)
        ensures
            is_evm_call(
                r,
                self.evm_address,
                EvmCall::TransferFrom { from, to, value: word_of(value as nat) },
            ),
    {
        let value = U256::from_u128(value);
        request(&self.evm_address, &EvmCall::TransferFrom { from, to, value })
    }
}

/// An ERC721 contract on the EVM, by address.
#[derive(Clone, Copy, Debug, PartialEq, Eq)]
pub struct Erc721 {
    pub evm_address: EvmAddress,
}

impl Erc721 {
    pub fn new(evm_address: EvmAddress) -> (r: Erc721)
        ensures
            r.evm_address == evm_address,
    {
        Erc721 { evm_address }
    }

    /// `transferFrom(from, to, tokenId)`.
    pub fn transfer_from(&self, from: EvmAddress, to: EvmAddress, token_id: U256) -> (r: XvmCall)
        ensures
            is_evm_call(r, self.evm_address, EvmCall::TransferFrom { from, to, value: token_id }),
    {
        request(&self.evm_address, &EvmCall::TransferFrom { from, to, value: token_id })
    }

    /// `approve(to, tokenId)`.
    pub fn approve(&self, to: EvmAddress, token_id: U256) -> (r: XvmCall)
        ensures
            is_evm_call(r, self.evm_address, EvmCall::Approve { spender: to, value: token_id }),
    {
        request(&self.evm_address, &EvmCall::Approve { spender: to, value: token_id })
    }

    /// `mint(to, tokenId)`, the bridging extension of the EVM contract.
    pub fn mint(&self, to: EvmAddress, token_id: U256) -> (r: XvmCall)
        ensures
            is_evm_call(r, self.evm_address, EvmCall::Mint { to, value: token_id }),
    {
        request(&self.evm_address, &EvmCall::Mint { to, value: token_id })
    }

    /// `isApprovedForAll(owner, operator)`.
    pub fn is_approved_for_all(&self, owner: EvmAddress, operator: EvmAddress) -> (r: XvmCall)
        ensures
            is_evm_call(r, self.evm_address, EvmCall::IsApprovedForAll { owner, operator }),
    {
        request(&self.evm_address, &EvmCall::IsApprovedForAll { owner, operator })
    }
}

/// The fungible delegate: a native-side controller of one ERC20 contract, addressed by
/// native accounts, which it truncates.
#[derive(Clone, Copy, Debug, PartialEq, Eq)]
pub struct Psp22 {
    pub evm_address: EvmAddress,
}

impl Psp22 {
    pub fn new(evm_address: EvmAddress) -> (r: Psp22)
        ensures
            r.evm_address == evm_address,
    {
        Psp22 { evm_address }
    }

    pub fn approve(&self, spender: &AccountId, value: u128) -> (r: XvmCall)
        ensures
            is_evm_call(
                r,
                self.evm_address,
                EvmCall::Approve { spender: h160_of(*spender), value: word_of(value as nat) },
            ),
    {
        Erc20::new(self.evm_address).approve(account_h160(spender), value)
    }

    pub fn transfer(&self, to: &AccountId, value: u128) -> (r: XvmCall)
        ensures
            is_evm_call(
                r,
                self.evm_address,
                EvmCall::Transfer { to: h160_of(*to), value: word_of(value as nat) },
            ),
    {
        Erc20::new(self.evm_address).transfer(account_h160(to), value)
    }

    pub fn transfer_from(&self, from: &AccountId, to: &AccountId, value: u128) -> (r: XvmCall)
        ensures
            is_evm_call(
                r,
                self.evm_address,
                EvmCall::TransferFrom {
                    from: h160_of(*from),
                    to: h160_of(*to),
                    value: word_of(value as nat),
                },
            ),
    {
        Erc20::new(self.evm_address).transfer_from(account_h160(from), account_h160(to), value)
    }
}

/// Why the non-fungible delegate could not build a call.
#[derive(Clone, Copy, Debug, PartialEq, Eq)]
pub enum ControllerError {
    /// An approval must name a token.
    IdRequired,
    Encode(EncodeError),
}

/// The non-fungible delegate: a native-side controller of one ERC721 contract.
#[derive(Clone, Copy, Debug, PartialEq, Eq)]
pub struct PSP34Controller {
    pub evm_address: EvmAddress,
}

impl PSP34Controller {
    pub fn new(evm_address: EvmAddress) -> (r: PSP34Controller)
        ensures
            r.evm_address == evm_address,
    {
        PSP34Controller { evm_address }
    }

    /// Approves `operator` for one token; an approval of all tokens is refused.
    pub fn approve(&self, operator: &AccountId, id: &Option<Id>) -> (r: Result<
        XvmCall,
        ControllerError,
    >)
        ensures
            id is None ==> r == Err::<XvmCall, ControllerError>(ControllerError::IdRequired),
            id matches Some(i) ==> (i.spec_uint() is None <==> r == Err::<XvmCall, ControllerError>(
                ControllerError::Encode(EncodeError::IdTooLong),
            )),
            id matches Some(i) ==> (r matches Ok(c) ==> is_evm_call(
                c,
                self.evm_address,
                EvmCall::Approve {
                    spender: h160_of(*operator),
                    value: word_of(i.spec_uint()->Some_0),
                },
            )),
            id matches Some(i) ==> (i.spec_uint() is Some ==> r is Ok),
    {
        match id {
            None => Err(ControllerError::IdRequired),
            Some(i) => match cast(i) {
                Err(e) => Err(ControllerError::Encode(e)),
                Ok(w) => Ok(Erc721::new(self.evm_address).approve(account_h160(operator), w)),
            },
        }
    }

    /// Transfers token `id` from `caller` to `to`.
    pub fn transfer(&self, caller: &AccountId, to: &AccountId, id: &Id) -> (r: Result<
        XvmCall,
        EncodeError,
    >)
        ensures
            id.spec_uint() is None <==> r == Err::<XvmCall, EncodeError>(EncodeError::IdTooLong),
            r matches Ok(c) ==> is_evm_call(
                c,
                self.evm_address,
                EvmCall::TransferFrom {
                    from: h160_of(*caller),
                    to: h160_of(*to),
                    value: word_of(id.spec_uint()->Some_0),
                },
            ),
    {
        let w = cast(id)?;
        Ok(Erc721::new(self.evm_address).transfer_from(account_h160(caller), account_h160(to), w))
    }

    /// Mints token `id` to `to` on the EVM side.
    pub fn mint(&self, to: &AccountId, id: &Id) -> (r: Result<XvmCall, EncodeError>)
        ensures
            id.spec_uint() is None <==> r == Err::<XvmCall, EncodeError>(EncodeError::IdTooLong),
            r matches Ok(c) ==> is_evm_call(
                c,
                self.evm_address,
                EvmCall::Mint { to: h160_of(*to), value: word_of(id.spec_uint()->Some_0) },
            ),
    {
        let w = cast(id)?;
        Ok(Erc721::new(self.evm_address).mint(account_h160(to), w))
    }
}

/// Transfers of ERC20 tokens to EVM addresses or native accounts.
pub struct XvmTransfer;

impl XvmTransfer {
    /// `transfer` on the ERC20 contract at `erc20_address`, to the recipient's EVM address.
    pub fn transfer(to: &To, value: u128, erc20_address: &EvmAddress) -> (r: XvmCall)
        ensures
            exists|a: EvmAddress|
                a@ == to.spec_h160() && is_evm_call(
                    r,
                    *erc20_address,
                    EvmCall::Transfer { to: a, value: word_of(value as nat) },
                ),
    {
        let a = to.to_h160();
        Erc20::new(*erc20_address).transfer(a, value)
    }
}

} // verus!
