//! The wrapped fungible asset: native balances backed one to one by ERC20 tokens held in
//! the delegate's custody on the EVM side.
//!
//! Deposit and withdraw each take two steps on two ledgers that fail independently, so
//! each is split where the foreign call happens: `begin_*` returns the call to make and
//! records the operation as in flight, and `finish_*` takes the call's outcome.
use crate::address::{mapped_h160, AccountId, EvmAddress};
use crate::erc::{h160_of, is_evm_call, Erc20};
use crate::calls::EvmCall;
use crate::ledger::{credit, debit, FungibleLedger, LedgerError};
use crate::word::word_of;
use crate::wrapper::{CommittedHalf, ExecContext, InstantiateError, Pending, WrapperError};
use crate::xvm::{XvmCall, XvmError};
use vstd::prelude::*;

verus! {

/// The state of a fungible wrapper as the laws speak of it.
pub struct WrapperModel {
    pub balances: Map<AccountId, nat>,
    pub supply: nat,
    /// The amount held in foreign custody for this wrapper, as far as it has seen.
    pub custody: int,
    pub pending: Option<Pending<u128>>,
}

impl WrapperModel {
    /// Every account has a balance.
    pub open spec fn valid(&self) -> bool {
        &&& forall|a: AccountId| #[trigger] self.balances.dom().contains(a)
        &&& forall|a: AccountId| #[trigger] self.balances[a] <= self.supply
        &&& self.supply <= u128::MAX
    }
}

/// A deposit of `amount` by `caller` is in flight.
pub open spec fn deposit_started(s: WrapperModel, caller: AccountId, amount: u128) -> WrapperModel {
    WrapperModel { pending: Some(Pending::Deposit { caller, item: amount }), ..s }
}

/// A deposit completed: nothing moved when the foreign transfer failed; otherwise custody
/// grew, and the caller was credited when the supply had room.
pub open spec fn deposit_finished(
    s: WrapperModel,
    caller: AccountId,
    amount: u128,
    foreign_ok: bool,
) -> WrapperModel {
    if !foreign_ok {
        WrapperModel { pending: None, ..s }
    } else if s.supply + amount > u128::MAX {
        WrapperModel { pending: None, custody: s.custody + amount, ..s }
    } else {
        WrapperModel {
            balances: credit(s.balances, caller, amount as nat),
            supply: (s.supply + amount) as nat,
            custody: s.custody + amount,
            pending: None,
        }
    }
}

/// A withdrawal of `amount` by `caller` is in flight; its native half is done.
pub open spec fn withdraw_started(s: WrapperModel, caller: AccountId, amount: u128) -> WrapperModel {
    WrapperModel {
        balances: debit(s.balances, caller, amount as nat),
        supply: (s.supply - amount) as nat,
        custody: s.custody,
        pending: Some(Pending::Withdraw { caller, item: amount }),
    }
}

/// A withdrawal completed: custody shrank when the release succeeded.
pub open spec fn withdraw_finished(s: WrapperModel, amount: u128, foreign_ok: bool) -> WrapperModel {
    if foreign_ok {
        WrapperModel { pending: None, custody: s.custody - amount, ..s }
    } else {
        WrapperModel { pending: None, ..s }
    }
}

/// A deposit of an amount followed by its withdrawal by the same caller, with both foreign
/// calls succeeding, leaves balances, supply and custody as they were.
pub proof fn lemma_round_trip(s: WrapperModel, caller: AccountId, amount: u128)
    requires
        s.valid(),
        s.pending is None,
        s.supply + amount <= u128::MAX,
    ensures
        ({
            let s1 = deposit_finished(deposit_started(s, caller, amount), caller, amount, true);
            &&& s1.balances[caller] >= amount
            &&& withdraw_finished(withdraw_started(s1, caller, amount), amount, true) == s
        }),
{
    let s1 = deposit_finished(deposit_started(s, caller, amount), caller, amount, true);
    let s2 = withdraw_finished(withdraw_started(s1, caller, amount), amount, true);
    assert(s1.balances[caller] == s.balances[caller] + amount);
    assert(s2.balances =~= s.balances);
}

/// When custody backed the supply exactly, every completed operation leaves custody at
/// least the supply, and exactly it unless a partial failure occurred.
pub proof fn lemma_custody_backs_supply(s: WrapperModel, caller: AccountId, amount: u128, ok: bool)
    requires
        s.valid(),
        s.custody == s.supply,
        s.balances[caller] >= amount,
    ensures
        ({
            let d = deposit_finished(deposit_started(s, caller, amount), caller, amount, ok);
            &&& d.supply <= d.custody
            &&& (d.supply == d.custody <==> (!ok || s.supply + amount <= u128::MAX))
        }),
        ({
            let w = withdraw_finished(withdraw_started(s, caller, amount), amount, ok);
            &&& w.supply <= w.custody
            &&& (w.supply == w.custody <==> (ok || amount == 0))
        }),
{
}

/// Transfer of `value` from the delegate to `to`, which the wrapper asks its delegate for.
#[derive(Clone, Copy, Debug, PartialEq, Eq)]
pub struct DelegateTransfer {
    pub delegate: AccountId,
    pub to: AccountId,
    pub value: u128,
}

/// The display metadata of a wrapped token.
#[derive(Clone, Debug, PartialEq, Eq)]
pub struct Metadata {
    pub name: String,
    pub symbol: String,
    pub decimals: u8,
}

/// A wrapped ERC20 token on the native ledger.
pub struct PSP22Wrapper {
    ledger: FungibleLedger,
    metadata: Metadata,
    evm_address: EvmAddress,
    psp22_controller: AccountId,
    pending: Option<Pending<u128>>,
    custody: Ghost<int>,
}

impl View for PSP22Wrapper {
    type V = WrapperModel;

    closed spec fn view(&self) -> WrapperModel {
        WrapperModel {
            balances: self.ledger@.balances,
            supply: self.ledger@.supply,
            custody: self.custody@,
            pending: self.pending,
        }
    }
}

impl PSP22Wrapper {
    pub closed spec fn wf(&self) -> bool {
        &&& self.ledger.wf()
        &&& self.metadata.decimals == 18
        &&& self.metadata.name@ == "Wrapped PSP22"@
        &&& self.metadata.symbol@ == "WPSP22"@
        &&& self@.valid()
    }

    /// What no operation changes: the wrapped contract and the delegate.
    pub open spec fn config(&self) -> (EvmAddress, AccountId) {
        (self.spec_evm_address(), self.spec_controller())
    }

    pub closed spec fn spec_evm_address(&self) -> EvmAddress {
        self.evm_address
    }

    pub closed spec fn spec_controller(&self) -> AccountId {
        self.psp22_controller
    }

    proof fn lemma_wf(&self)
        requires
            self.ledger.wf(),
            self.metadata.decimals == 18,
            self.metadata.name@ == "Wrapped PSP22"@,
            self.metadata.symbol@ == "WPSP22"@,
        ensures
            self.wf(),
    {
        assert forall|a: AccountId| #[trigger] self@.balances.dom().contains(a) by {
            self.ledger.lemma_balance_le_supply(a);
        }
        assert forall|a: AccountId| #[trigger] self@.balances[a] <= self@.supply by {
            self.ledger.lemma_balance_le_supply(a);
        }
        self.ledger.lemma_balance_le_supply(self.psp22_controller);
    }

    /// Builds the wrapper once its delegate exists. When the delegate's instantiation
    /// failed, so does construction, and no wrapper exists.
    pub fn new(evm_contract_address: EvmAddress, delegate: Result<AccountId, InstantiateError>) -> (r:
        Result<PSP22Wrapper, WrapperError>)
        ensures
            delegate matches Err(e) ==> r == Err::<PSP22Wrapper, WrapperError>(
                WrapperError::DelegateInstantiation(e),
            ),
            delegate matches Ok(d) ==> (r matches Ok(w) && w.wf() && w@.supply == 0 && w@.custody
                == 0 && w@.pending is None && (forall|a: AccountId| #[trigger] w@.balances[a] == 0)
                && w.spec_evm_address() == evm_contract_address && w.spec_controller() == d),
    {
        let controller = match delegate {
            Err(e) => return Err(WrapperError::DelegateInstantiation(e)),
            Ok(d) => d,
        };
        let w = PSP22Wrapper {
            ledger: FungibleLedger::new(),
            metadata: Metadata {
                name: "Wrapped PSP22".to_owned(),
                symbol: "WPSP22".to_owned(),
                decimals: 18,
            },
            evm_address: evm_contract_address,
            psp22_controller: controller,
            pending: None,
            custody: Ghost(0),
        };
        proof {
            w.lemma_wf();
        }
        Ok(w)
    }

    /// The delegate contract that holds custody and releases tokens.
    pub fn get_psp22_controller(&self) -> (r: AccountId)
        ensures
            r == self.spec_controller(),
    {
        self.psp22_controller
    }

    /// The wrapped ERC20 contract.
    pub fn evm_address(&self) -> (r: EvmAddress)
        ensures
            r == self.spec_evm_address(),
    {
        self.evm_address
    }

    pub fn balance_of(&self, owner: &AccountId) -> (r: u128)
        requires
            self.wf(),
        ensures
            r as nat == self@.balances[*owner],
    {
        self.ledger.balance_of(owner)
    }

    pub fn total_supply(&self) -> (r: u128)
        ensures
            r as nat == self@.supply,
    {
        self.ledger.total_supply()
    }

    /// Whether an operation is in flight.
    pub fn is_busy(&self) -> (r: bool)
        ensures
            r == self@.pending is Some,
    {
        self.pending.is_some()
    }

    pub fn token_name(&self) -> (r: Option<String>)
        requires
            self.wf(),
        ensures
            r matches Some(n) && n@ == "Wrapped PSP22"@,
    {
        Some(self.metadata.name.clone())
    }

    pub fn token_symbol(&self) -> (r: Option<String>)
        requires
            self.wf(),
        ensures
            r matches Some(n) && n@ == "WPSP22"@,
    {
        Some(self.metadata.symbol.clone())
    }

    pub fn token_decimals(&self) -> (r: u8)
        requires
            self.wf(),
        ensures
            r == 18,
    {
        self.metadata.decimals
    }

    /// Moves `value` of the caller's balance to `to`; refused while an operation is in flight.
    pub fn transfer(&mut self, ctx: &ExecContext, to: &AccountId, value: u128) -> (r: Result<
        (),
        WrapperError,
    >)
        requires
            old(self).wf(),
        ensures
            final(self).wf(),
            final(self).config() == old(self).config(),
            old(self)@.pending is Some ==> r == Err::<(), WrapperError>(
                WrapperError::OperationInProgress,
            ) && final(self)@ == old(self)@,
            old(self)@.pending is None && old(self)@.balances[ctx.caller] < value ==> r == Err::<
                (),
                WrapperError,
            >(WrapperError::Ledger(LedgerError::InsufficientBalance)) && final(self)@ == old(
                self,
            )@,
            old(self)@.pending is None && old(self)@.balances[ctx.caller] >= value ==> r is Ok
                && final(self)@ == (WrapperModel {
                balances: credit(debit(old(self)@.balances, ctx.caller, value as nat), *to, value as nat),
                ..old(self)@
            }),
    {
        if self.pending.is_some() {
            return Err(WrapperError::OperationInProgress);
        }
        match self.ledger.transfer(&ctx.caller, to, value) {
            Ok(()) => {
                proof {
                    self.lemma_wf();
                }
                Ok(())
            },
            Err(e) => Err(WrapperError::Ledger(e)),
        }
    }

    /// First step of a deposit: the call that moves `amount` of the caller's ERC20 tokens,
    /// from the caller's unified EVM address, into the delegate's custody. The caller must
    /// have an explicit mapping: an allowance on the EVM side is keyed by it.
    pub fn begin_deposit(
        &mut self,
        ctx: &ExecContext,
        caller_evm: Option<EvmAddress>,
        amount: u128,
    ) -> (r: Result<XvmCall, WrapperError>)
        requires
            old(self).wf(),
        ensures
            final(self).wf(),
            final(self).config() == old(self).config(),
            old(self)@.pending is Some ==> r == Err::<XvmCall, WrapperError>(
                WrapperError::OperationInProgress,
            ) && final(self)@ == old(self)@,
            old(self)@.pending is None && caller_evm is None ==> r == Err::<XvmCall, WrapperError>(
                WrapperError::AccountNotMapped,
            ) && final(self)@ == old(self)@,
            old(self)@.pending is None && caller_evm is Some ==> (r matches Ok(c) && is_evm_call(
                c,
                old(self).spec_evm_address(),
                EvmCall::TransferFrom {
                    from: caller_evm->Some_0,
                    to: h160_of(old(self).spec_controller()),
                    value: word_of(amount as nat),
                },
            )) && final(self)@ == deposit_started(old(self)@, ctx.caller, amount),
    {
        if self.pending.is_some() {
            return Err(WrapperError::OperationInProgress);
        }
        let from = match mapped_h160(caller_evm) {
            Ok(a) => a,
            Err(e) => return Err(WrapperError::from_address(e)),
        };
        let custodian = crate::erc::account_h160(&self.psp22_controller);
        let call = Erc20::new(self.evm_address).transfer_from(from, custodian, amount);
        self.pending = Some(Pending::Deposit { caller: ctx.caller, item: amount });
        proof {
            self.lemma_wf();
        }
        Ok(call)
    }

    /// Second step of a deposit, given the outcome of the foreign transfer. On failure
    /// nothing moved. On success the caller is credited; when the supply has no room the
    /// tokens sit in custody uncredited, and the result says so.
    pub fn finish_deposit(&mut self, outcome: Result<(), XvmError>) -> (r: Result<(), WrapperError>)
        requires
            old(self).wf(),
        ensures
            final(self).wf(),
            final(self).config() == old(self).config(),
            !(old(self)@.pending matches Some(Pending::Deposit { .. })) ==> r == Err::<
                (),
                WrapperError,
            >(WrapperError::NothingPending) && final(self)@ == old(self)@,
            old(self)@.pending matches Some(Pending::Deposit { caller, item }) ==> final(self)@
                == deposit_finished(old(self)@, caller, item, outcome is Ok),
            old(self)@.pending matches Some(Pending::Deposit { caller, item }) ==> (outcome matches Err(
                e,
            ) ==> r == Err::<(), WrapperError>(WrapperError::Call(e))),
            old(self)@.pending matches Some(Pending::Deposit { caller, item }) ==> (outcome is Ok
                ==> (r is Ok <==> old(self)@.supply + item <= u128::MAX)),
            old(self)@.pending matches Some(Pending::Deposit { caller, item }) ==> (outcome is Ok
                && old(self)@.supply + item > u128::MAX ==> r == Err::<(), WrapperError>(
                WrapperError::PartialBridgeFailure(CommittedHalf::ForeignCustody),
            ) && final(self)@.balances == old(self)@.balances),
    {
        let (caller, amount) = match &self.pending {
            Some(Pending::Deposit { caller, item }) => (*caller, *item),
            _ => return Err(WrapperError::NothingPending),
        };
        self.pending = None;
        let r = match outcome {
            Err(e) => Err(WrapperError::Call(e)),
            Ok(()) => {
                self.custody = Ghost(self.custody@ + amount);
                match self.ledger.mint(&caller, amount) {
                    Ok(()) => Ok(()),
                    Err(_) => Err(WrapperError::PartialBridgeFailure(CommittedHalf::ForeignCustody)),
                }
            },
        };
        proof {
            self.lemma_wf();
        }
        r
    }

    /// First step of a withdrawal: burns `amount` of the caller's balance, and returns the
    /// release that the delegate must make. Refused, with nothing changed, when the balance
    /// is smaller.
    pub fn begin_withdraw(&mut self, ctx: &ExecContext, amount: u128) -> (r: Result<
        DelegateTransfer,
        WrapperError,
    >)
        requires
            old(self).wf(),
        ensures
            final(self).wf(),
            final(self).config() == old(self).config(),
            old(self)@.pending is Some ==> r == Err::<DelegateTransfer, WrapperError>(
                WrapperError::OperationInProgress,
            ) && final(self)@ == old(self)@,
            old(self)@.pending is None && old(self)@.balances[ctx.caller] < amount ==> r == Err::<
                DelegateTransfer,
                WrapperError,
            >(WrapperError::Ledger(LedgerError::InsufficientBalance)) && final(self)@ == old(
                self,
            )@,
            old(self)@.pending is None && old(self)@.balances[ctx.caller] >= amount ==> r == Ok::<
                DelegateTransfer,
                WrapperError,
            >(DelegateTransfer { delegate: old(self).spec_controller(), to: ctx.caller, value: amount })
                && final(self)@ == withdraw_started(old(self)@, ctx.caller, amount),
    {
        if self.pending.is_some() {
            return Err(WrapperError::OperationInProgress);
        }
        match self.ledger.burn(&ctx.caller, amount) {
            Err(e) => Err(WrapperError::Ledger(e)),
            Ok(()) => {
                self.pending = Some(Pending::Withdraw { caller: ctx.caller, item: amount });
                proof {
                    self.lemma_wf();
                }
                Ok(DelegateTransfer { delegate: self.psp22_controller, to: ctx.caller, value: amount })
            },
        }
    }

    /// Second step of a withdrawal, given the outcome of the delegate's release. A failed
    /// release leaves the burn in place and is reported as a partial bridge failure.
    pub fn finish_withdraw(&mut self, outcome: Result<(), XvmError>) -> (r: Result<(), WrapperError>)
        requires
            old(self).wf(),
        ensures
            final(self).wf(),
            final(self).config() == old(self).config(),
            !(old(self)@.pending matches Some(Pending::Withdraw { .. })) ==> r == Err::<
                (),
                WrapperError,
            >(WrapperError::NothingPending) && final(self)@ == old(self)@,
            old(self)@.pending matches Some(Pending::Withdraw { caller, item }) ==> final(self)@
                == withdraw_finished(old(self)@, item, outcome is Ok),
            old(self)@.pending matches Some(Pending::Withdraw { .. }) ==> (outcome is Ok <==> r is Ok),
            old(self)@.pending matches Some(Pending::Withdraw { .. }) ==> (outcome is Err ==> r
                == Err::<(), WrapperError>(
                WrapperError::PartialBridgeFailure(CommittedHalf::NativeBurn),
            )),
    {
        let amount = match &self.pending {
            Some(Pending::Withdraw { item, .. }) => *item,
            _ => return Err(WrapperError::NothingPending),
        };
        self.pending = None;
        match outcome {
            Ok(()) => {
                self.custody = Ghost(self.custody@ - amount);
                Ok(())
            },
            Err(_) => Err(WrapperError::PartialBridgeFailure(CommittedHalf::NativeBurn)),
        }
    }
}

} // verus!
