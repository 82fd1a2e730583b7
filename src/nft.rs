//! The wrapped non-fungible asset: native tokens backed one to one by ERC721 tokens held
//! in the wrapper's custody on the EVM side, released through the delegate.
use crate::address::{AccountId, EvmAddress};
use crate::calls::{cast, EvmCall, Id, IdView};
use crate::erc::{h160_of, is_evm_call, Erc721};
use crate::ledger::same_account;
use crate::word::word_of;
use crate::wrapper::{CommittedHalf, ExecContext, InstantiateError, Pending, WrapperError};
use crate::xvm::{XvmCall, XvmError};
use vstd::prelude::*;

verus! {

/// The owner that a list of entries gives a token: its last entry, if any.
pub open spec fn owner_in(s: Seq<(Id, Option<AccountId>)>, k: IdView) -> Option<AccountId>
    decreases s.len(),
{
    if s.len() == 0 {
        None
    } else if s.last().0@ == k {
        s.last().1
    } else {
        owner_in(s.drop_last(), k)
    }
}

/// No token has two entries.
pub open spec fn ids_unique(s: Seq<(Id, Option<AccountId>)>) -> bool {
    forall|i: int, j: int| 0 <= i < j < s.len() ==> s[i].0@ != s[j].0@
}

proof fn lemma_owner_at(s: Seq<(Id, Option<AccountId>)>, i: int)
    requires
        ids_unique(s),
        0 <= i < s.len(),
    ensures
        owner_in(s, s[i].0@) == s[i].1,
    decreases s.len(),
{
    if i < s.len() - 1 {
        assert(s.drop_last()[i] == s[i]);
        lemma_owner_at(s.drop_last(), i);
    }
}

proof fn lemma_owner_absent(s: Seq<(Id, Option<AccountId>)>, k: IdView)
    requires
        forall|i: int| 0 <= i < s.len() ==> s[i].0@ != k,
    ensures
        owner_in(s, k) is None,
    decreases s.len(),
{
    if s.len() > 0 {
        assert forall|i: int| 0 <= i < s.drop_last().len() implies s.drop_last()[i].0@ != k by {
            assert(s.drop_last()[i] == s[i]);
        }
        lemma_owner_absent(s.drop_last(), k);
    }
}

proof fn lemma_owner_update(
    s: Seq<(Id, Option<AccountId>)>,
    i: int,
    id: Id,
    v: Option<AccountId>,
    k: IdView,
)
    requires
        ids_unique(s),
        0 <= i < s.len(),
        id@ == s[i].0@,
    ensures
        owner_in(s.update(i, (id, v)), k) == if k == id@ {
            v
        } else {
            owner_in(s, k)
        },
        ids_unique(s.update(i, (id, v))),
    decreases s.len(),
{
    let t = s.update(i, (id, v));
    assert(ids_unique(t)) by {
        assert forall|p: int, q: int| 0 <= p < q < t.len() implies t[p].0@ != t[q].0@ by {
            assert(t[p].0@ == s[p].0@);
            assert(t[q].0@ == s[q].0@);
        }
    }
    if i == s.len() - 1 {
        assert(t.drop_last() =~= s.drop_last());
    } else {
        let d = s.drop_last();
        assert(t.drop_last() =~= d.update(i, (id, v)));
        assert(s.last().0@ != s[i].0@);
        lemma_owner_update(d, i, id, v, k);
    }
}

proof fn lemma_owner_push(s: Seq<(Id, Option<AccountId>)>, id: Id, v: Option<AccountId>, k: IdView)
    requires
        ids_unique(s),
        forall|i: int| 0 <= i < s.len() ==> s[i].0@ != id@,
    ensures
        owner_in(s.push((id, v)), k) == if k == id@ {
            v
        } else {
            owner_in(s, k)
        },
        ids_unique(s.push((id, v))),
{
    assert(s.push((id, v)).drop_last() =~= s);
}

/// Why a token operation was refused; the ledger is then unchanged.
#[derive(Clone, Copy, Debug, PartialEq, Eq)]
pub enum NftError {
    TokenExists,
    TokenNotExists,
    /// The token belongs to another account.
    NotOwner,
}

/// The owner of every existing token.
pub struct NftLedger {
    entries: Vec<(Id, Option<AccountId>)>,
}

/// The owners after token `k` changes to `v` (`None`: it no longer exists).
pub open spec fn set_owner(m: Map<IdView, AccountId>, k: IdView, v: Option<AccountId>) -> Map<
    IdView,
    AccountId,
> {
    match v {
        Some(a) => m.insert(k, a),
        None => m.remove(k),
    }
}

impl View for NftLedger {
    type V = Map<IdView, AccountId>;

    closed spec fn view(&self) -> Map<IdView, AccountId> {
        Map::new(
            |k: IdView| owner_in(self.entries@, k) is Some,
            |k: IdView| owner_in(self.entries@, k)->Some_0,
        )
    }
}

impl NftLedger {
    pub closed spec fn wf(&self) -> bool {
        ids_unique(self.entries@)
    }

    /// An empty ledger.
    pub fn new() -> (r: NftLedger)
        ensures
            r.wf(),
            r@ == Map::<IdView, AccountId>::empty(),
    {
        let r = NftLedger { entries: Vec::new() };
        assert(r@ =~= Map::<IdView, AccountId>::empty());
        r
    }

    fn find(&self, id: &Id) -> (r: Option<usize>)
        ensures
            r matches Some(i) ==> i < self.entries@.len() && self.entries@[i as int].0@ == id@,
            r is None ==> forall|i: int| 0 <= i < self.entries@.len() ==> self.entries@[i].0@ != id@,
    {
        let mut i: usize = 0;
        while i < self.entries.len()
            invariant
                0 <= i <= self.entries@.len(),
                forall|j: int| 0 <= j < i ==> self.entries@[j].0@ != id@,
            decreases self.entries@.len() - i,
        {
            if self.entries[i].0.same(id) {
                return Some(i);
            }
            i = i + 1;
        }
        None
    }

    /// The owner of token `id`, if it exists.
    pub fn owner_of(&self, id: &Id) -> (r: Option<AccountId>)
        requires
            self.wf(),
        ensures
            r is Some <==> self@.dom().contains(id@),
            r matches Some(a) ==> self@[id@] == a,
    {
        match self.find(id) {
            Some(i) => {
                proof {
                    lemma_owner_at(self.entries@, i as int);
                }
                self.entries[i].1
            },
            None => {
                proof {
                    lemma_owner_absent(self.entries@, id@);
                }
                None
            },
        }
    }

    fn put(&mut self, id: &Id, v: Option<AccountId>)
        requires
            old(self).wf(),
        ensures
            final(self).wf(),
            final(self)@ == set_owner(old(self)@, id@, v),
    {
        let ghost s = self.entries@;
        match self.find(id) {
            Some(i) => {
                let key = id.duplicate();
                proof {
                    assert forall|k: IdView| true implies owner_in(s.update(i as int, (key, v)), k)
                        == if k == id@ {
                        v
                    } else {
                        owner_in(s, k)
                    } by {
                        lemma_owner_update(s, i as int, key, v, k);
                    }
                    lemma_owner_update(s, i as int, key, v, id@);
                }
                self.entries.set(i, (key, v));
            },
            None => {
                let key = id.duplicate();
                proof {
                    assert forall|k: IdView| true implies owner_in(s.push((key, v)), k) == if k
                        == id@ {
                        v
                    } else {
                        owner_in(s, k)
                    } by {
                        lemma_owner_push(s, key, v, k);
                    }
                    lemma_owner_push(s, key, v, id@);
                }
                self.entries.push((key, v));
            },
        }
        assert(self@ =~= set_owner(old(self)@, id@, v));
    }

    /// Creates token `id` for `to`; refused when it exists.
    pub fn mint(&mut self, to: &AccountId, id: &Id) -> (r: Result<(), NftError>)
        requires
            old(self).wf(),
        ensures
            final(self).wf(),
            r is Err <==> old(self)@.dom().contains(id@),
            r is Err ==> r == Err::<(), NftError>(NftError::TokenExists) && final(self)@ == old(
                self,
            )@,
            r is Ok ==> final(self)@ == old(self)@.insert(id@, *to),
    {
        if self.owner_of(id).is_some() {
            return Err(NftError::TokenExists);
        }
        self.put(id, Some(*to));
        Ok(())
    }

    /// Destroys token `id` of `from`; refused when it does not exist or is another's.
    pub fn burn(&mut self, from: &AccountId, id: &Id) -> (r: Result<(), NftError>)
        requires
            old(self).wf(),
        ensures
            final(self).wf(),
            !old(self)@.dom().contains(id@) <==> r == Err::<(), NftError>(NftError::TokenNotExists),
            old(self)@.dom().contains(id@) && old(self)@[id@] != *from <==> r == Err::<
                (),
                NftError,
            >(NftError::NotOwner),
            r is Ok <==> old(self)@.dom().contains(id@) && old(self)@[id@] == *from,
            r is Err ==> final(self)@ == old(self)@,
            r is Ok ==> final(self)@ == old(self)@.remove(id@),
    {
        match self.owner_of(id) {
            None => Err(NftError::TokenNotExists),
            Some(owner) => {
                if !same_account(&owner, from) {
                    return Err(NftError::NotOwner);
                }
                self.put(id, None);
                Ok(())
            },
        }
    }

    /// Moves token `id` from `from` to `to`; refused when it does not exist or is another's.
    pub fn transfer(&mut self, from: &AccountId, to: &AccountId, id: &Id) -> (r: Result<
        (),
        NftError,
    >)
        requires
            old(self).wf(),
        ensures
            final(self).wf(),
            !old(self)@.dom().contains(id@) <==> r == Err::<(), NftError>(NftError::TokenNotExists),
            old(self)@.dom().contains(id@) && old(self)@[id@] != *from <==> r == Err::<
                (),
                NftError,
            >(NftError::NotOwner),
            r is Ok <==> old(self)@.dom().contains(id@) && old(self)@[id@] == *from,
            r is Err ==> final(self)@ == old(self)@,
            r is Ok ==> final(self)@ == old(self)@.insert(id@, *to),
    {
        match self.owner_of(id) {
            None => Err(NftError::TokenNotExists),
            Some(owner) => {
                if !same_account(&owner, from) {
                    return Err(NftError::NotOwner);
                }
                self.put(id, Some(*to));
                Ok(())
            },
        }
    }
}

/// The state of a non-fungible wrapper as the laws speak of it.
pub struct NftModel {
    pub owners: Map<IdView, AccountId>,
    /// The tokens held in foreign custody for this wrapper, as far as it has seen.
    pub custody: Set<IdView>,
    pub pending: Option<Pending<IdView>>,
}

pub open spec fn pending_view(p: Option<Pending<Id>>) -> Option<Pending<IdView>> {
    match p {
        None => None,
        Some(Pending::Deposit { caller, item }) => Some(Pending::Deposit { caller, item: item@ }),
        Some(Pending::Withdraw { caller, item }) => Some(Pending::Withdraw { caller, item: item@ }),
    }
}

/// A deposit of token `id` by `caller` is in flight.
pub open spec fn nft_deposit_started(s: NftModel, caller: AccountId, id: IdView) -> NftModel {
    NftModel { pending: Some(Pending::Deposit { caller, item: id }), ..s }
}

/// A deposit completed: nothing moved when the foreign transfer failed; otherwise the token
/// is in custody, and the caller owns it natively unless it already existed.
pub open spec fn nft_deposit_finished(
    s: NftModel,
    caller: AccountId,
    id: IdView,
    foreign_ok: bool,
) -> NftModel {
    if !foreign_ok {
        NftModel { pending: None, ..s }
    } else if s.owners.dom().contains(id) {
        NftModel { custody: s.custody.insert(id), pending: None, ..s }
    } else {
        NftModel { owners: s.owners.insert(id, caller), custody: s.custody.insert(id), pending: None }
    }
}

/// A withdrawal of token `id` by `caller` is in flight; the native token is burnt.
pub open spec fn nft_withdraw_started(s: NftModel, caller: AccountId, id: IdView) -> NftModel {
    NftModel {
        owners: s.owners.remove(id),
        custody: s.custody,
        pending: Some(Pending::Withdraw { caller, item: id }),
    }
}

/// A withdrawal completed: the token left custody when the release succeeded.
pub open spec fn nft_withdraw_finished(s: NftModel, id: IdView, foreign_ok: bool) -> NftModel {
    if foreign_ok {
        NftModel { custody: s.custody.remove(id), pending: None, ..s }
    } else {
        NftModel { pending: None, ..s }
    }
}

/// A deposit of a token that neither ledger holds for the wrapper, followed by its
/// withdrawal by the same caller, with both foreign calls succeeding, leaves ownership and
/// custody as they were.
pub proof fn lemma_nft_round_trip(s: NftModel, caller: AccountId, id: IdView)
    requires
        s.pending is None,
        !s.owners.dom().contains(id),
        !s.custody.contains(id),
    ensures
        ({
            let s1 = nft_deposit_finished(nft_deposit_started(s, caller, id), caller, id, true);
            &&& s1.owners.dom().contains(id) && s1.owners[id] == caller
            &&& nft_withdraw_finished(nft_withdraw_started(s1, caller, id), id, true) == s
        }),
{
    let s1 = nft_deposit_finished(nft_deposit_started(s, caller, id), caller, id, true);
    let s2 = nft_withdraw_finished(nft_withdraw_started(s1, caller, id), id, true);
    assert(s2.owners =~= s.owners);
    assert(s2.custody =~= s.custody);
}

/// Transfer of token `id` from `owner`'s custody to `to`, which the wrapper asks its
/// delegate for.
#[derive(Clone, Debug, PartialEq, Eq)]
pub struct DelegateNftTransfer {
    pub delegate: AccountId,
    pub owner: AccountId,
    pub to: AccountId,
    pub id: Id,
}

/// A wrapped ERC721 collection on the native ledger.
pub struct PSP34Wrapper {
    ledger: NftLedger,
    evm_address: EvmAddress,
    psp34_controller: AccountId,
    collection_id: Id,
    name: String,
    symbol: String,
    pending: Option<Pending<Id>>,
    custody: Ghost<Set<IdView>>,
}

impl View for PSP34Wrapper {
    type V = NftModel;

    closed spec fn view(&self) -> NftModel {
        NftModel { owners: self.ledger@, custody: self.custody@, pending: pending_view(self.pending) }
    }
}

impl PSP34Wrapper {
    pub closed spec fn wf(&self) -> bool {
        self.ledger.wf()
    }

    pub closed spec fn spec_evm_address(&self) -> EvmAddress {
        self.evm_address
    }

    pub closed spec fn spec_controller(&self) -> AccountId {
        self.psp34_controller
    }

    /// What no operation changes: the wrapped contract, the delegate and the attributes.
    pub open spec fn config(&self) -> (EvmAddress, AccountId, (IdView, Seq<char>, Seq<char>)) {
        (self.spec_evm_address(), self.spec_controller(), self.spec_attributes())
    }

    /// Builds the wrapper once its delegate exists, naming the collection on token `id`.
    /// When the delegate's instantiation failed, so does construction, and no wrapper exists.
    pub fn new(
        evm_contract_address: EvmAddress,
        delegate: Result<AccountId, InstantiateError>,
        id: Id,
        name: String,
        symbol: String,
    ) -> (r: Result<PSP34Wrapper, WrapperError>)
        ensures
            delegate matches Err(e) ==> r == Err::<PSP34Wrapper, WrapperError>(
                WrapperError::DelegateInstantiation(e),
            ),
            delegate matches Ok(d) ==> (r matches Ok(w) && w.wf() && w@.owners
                == Map::<IdView, AccountId>::empty() && w@.custody == Set::<IdView>::empty()
                && w@.pending is None && w.spec_evm_address() == evm_contract_address
                && w.spec_controller() == d && w.spec_attributes() == (id@, name@, symbol@)),
    {
        let controller = match delegate {
            Err(e) => return Err(WrapperError::DelegateInstantiation(e)),
            Ok(d) => d,
        };
        Ok(PSP34Wrapper {
            ledger: NftLedger::new(),
            evm_address: evm_contract_address,
            psp34_controller: controller,
            collection_id: id,
            name,
            symbol,
            pending: None,
            custody: Ghost(Set::empty()),
        })
    }

    /// The delegate contract that releases tokens from custody.
    pub fn get_psp34_controller(&self) -> (r: AccountId)
        ensures
            r == self.spec_controller(),
    {
        self.psp34_controller
    }

    /// The wrapped ERC721 contract.
    pub fn evm_address(&self) -> (r: EvmAddress)
        ensures
            r == self.spec_evm_address(),
    {
        self.evm_address
    }

    pub closed spec fn spec_attributes(&self) -> (IdView, Seq<char>, Seq<char>) {
        (self.collection_id@, self.name@, self.symbol@)
    }

    /// The token that carries the collection's name and symbol.
    pub fn collection_id(&self) -> (r: &Id)
        ensures
            r@ == self.spec_attributes().0,
    {
        &self.collection_id
    }

    pub fn name(&self) -> (r: &String)
        ensures
            r@ == self.spec_attributes().1,
    {
        &self.name
    }

    pub fn symbol(&self) -> (r: &String)
        ensures
            r@ == self.spec_attributes().2,
    {
        &self.symbol
    }

    pub fn owner_of(&self, id: &Id) -> (r: Option<AccountId>)
        requires
            self.wf(),
        ensures
            r is Some <==> self@.owners.dom().contains(id@),
            r matches Some(a) ==> self@.owners[id@] == a,
    {
        self.ledger.owner_of(id)
    }

    /// Whether an operation is in flight.
    pub fn is_busy(&self) -> (r: bool)
        ensures
            r == self@.pending is Some,
    {
        self.pending.is_some()
    }

    /// First step of a deposit: the call that moves token `id` from the caller's truncated
    /// EVM address into the wrapper's custody. Refused, before any foreign call, when the
    /// token already exists natively or has no 256-bit value.
    pub fn begin_deposit(&mut self, ctx: &ExecContext, id: &Id) -> (r: Result<XvmCall, WrapperError>)
        requires
            old(self).wf(),
        ensures
            final(self).wf(),
            final(self).config() == old(self).config(),
            r is Err ==> final(self)@ == old(self)@,
            old(self)@.pending is Some ==> r == Err::<XvmCall, WrapperError>(
                WrapperError::OperationInProgress,
            ),
            old(self)@.pending is None && old(self)@.owners.dom().contains(id@) ==> r == Err::<
                XvmCall,
                WrapperError,
            >(WrapperError::Token(NftError::TokenExists)),
            old(self)@.pending is None && !old(self)@.owners.dom().contains(id@) && id.spec_uint()
                is None ==> r == Err::<XvmCall, WrapperError>(WrapperError::InvalidId),
            old(self)@.pending is None && !old(self)@.owners.dom().contains(id@) && id.spec_uint()
                is Some ==> (r matches Ok(c) && is_evm_call(
                c,
                old(self).spec_evm_address(),
                EvmCall::TransferFrom {
                    from: h160_of(ctx.caller),
                    to: h160_of(ctx.account_id),
                    value: word_of(id.spec_uint()->Some_0),
                },
            )) && final(self)@ == nft_deposit_started(old(self)@, ctx.caller, id@),
    {
        if self.pending.is_some() {
            return Err(WrapperError::OperationInProgress);
        }
        if self.ledger.owner_of(id).is_some() {
            return Err(WrapperError::Token(NftError::TokenExists));
        }
        let w = match cast(id) {
            Ok(w) => w,
            Err(_) => return Err(WrapperError::InvalidId),
        };
        let from = crate::erc::account_h160(&ctx.caller);
        let custodian = crate::erc::account_h160(&ctx.account_id);
        let call = Erc721::new(self.evm_address).transfer_from(from, custodian, w);
        self.pending = Some(Pending::Deposit { caller: ctx.caller, item: id.duplicate() });
        Ok(call)
    }

    /// Second step of a deposit, given the outcome of the foreign transfer. On failure
    /// nothing moved; on success the caller owns the token natively.
    pub fn finish_deposit(&mut self, outcome: Result<(), XvmError>) -> (r: Result<(), WrapperError>)
        requires
            old(self).wf(),
        ensures
            final(self).wf(),
            final(self).config() == old(self).config(),
            !(old(self)@.pending matches Some(Pending::Deposit { .. })) ==> r == Err::<
                (),
                WrapperError,
            >(WrapperError::NothingPending) && final(self)@ == old(self)@,
            old(self)@.pending matches Some(Pending::Deposit { caller, item }) ==> final(self)@
                == nft_deposit_finished(old(self)@, caller, item, outcome is Ok),
            old(self)@.pending matches Some(Pending::Deposit { .. }) ==> (outcome matches Err(e)
                ==> r == Err::<(), WrapperError>(WrapperError::Call(e))),
            old(self)@.pending matches Some(Pending::Deposit { caller, item }) ==> (outcome is Ok
                ==> (r is Ok <==> !old(self)@.owners.dom().contains(item))),
            old(self)@.pending matches Some(Pending::Deposit { caller, item }) ==> (outcome is Ok
                && old(self)@.owners.dom().contains(item) ==> r == Err::<(), WrapperError>(
                WrapperError::PartialBridgeFailure(CommittedHalf::ForeignCustody),
            )),
    {
        let p = self.pending.take();
        match p {
            Some(Pending::Deposit { caller, item }) => match outcome {
                Err(e) => Err(WrapperError::Call(e)),
                Ok(()) => {
                    self.custody = Ghost(self.custody@.insert(item@));
                    match self.ledger.mint(&caller, &item) {
                        Ok(()) => Ok(()),
                        Err(_) => Err(
                            WrapperError::PartialBridgeFailure(CommittedHalf::ForeignCustody),
                        ),
                    }
                },
            },
            _ => {
                self.pending = p;
                Err(WrapperError::NothingPending)
            },
        }
    }

    /// First step of a withdrawal: burns the caller's token `id`, and returns the release
    /// that the delegate must make from the wrapper's custody. Refused, with nothing
    /// changed, when the token is not the caller's or has no 256-bit value.
    pub fn begin_withdraw(&mut self, ctx: &ExecContext, id: &Id) -> (r: Result<
        DelegateNftTransfer,
        WrapperError,
    >)
        requires
            old(self).wf(),
        ensures
            final(self).wf(),
            final(self).config() == old(self).config(),
            r is Err ==> final(self)@ == old(self)@,
            old(self)@.pending is Some ==> r == Err::<DelegateNftTransfer, WrapperError>(
                WrapperError::OperationInProgress,
            ),
            old(self)@.pending is None && id.spec_uint() is None ==> r == Err::<
                DelegateNftTransfer,
                WrapperError,
            >(WrapperError::InvalidId),
            old(self)@.pending is None && id.spec_uint() is Some && !old(
                self,
            )@.owners.dom().contains(id@) ==> r == Err::<DelegateNftTransfer, WrapperError>(
                WrapperError::Token(NftError::TokenNotExists),
            ),
            old(self)@.pending is None && id.spec_uint() is Some && old(self)@.owners.dom().contains(
                id@,
            ) && old(self)@.owners[id@] != ctx.caller ==> r == Err::<
                DelegateNftTransfer,
                WrapperError,
            >(WrapperError::Token(NftError::NotOwner)),
            old(self)@.pending is None && id.spec_uint() is Some && old(self)@.owners.dom().contains(
                id@,
            ) && old(self)@.owners[id@] == ctx.caller ==> (r matches Ok(t) && t.delegate == old(
                self,
            ).spec_controller() && t.owner == ctx.account_id && t.to == ctx.caller && t.id@ == id@)
                && final(self)@ == nft_withdraw_started(old(self)@, ctx.caller, id@),
    {
        if self.pending.is_some() {
            return Err(WrapperError::OperationInProgress);
        }
        if cast(id).is_err() {
            return Err(WrapperError::InvalidId);
        }
        match self.ledger.burn(&ctx.caller, id) {
            Err(e) => Err(WrapperError::Token(e)),
            Ok(()) => {
                let item = id.duplicate();
                self.pending = Some(Pending::Withdraw { caller: ctx.caller, item });
                let t = DelegateNftTransfer {
                    delegate: self.psp34_controller,
                    owner: ctx.account_id,
                    to: ctx.caller,
                    id: id.duplicate(),
                };
                Ok(t)
            },
        }
    }

    /// Second step of a withdrawal, given the outcome of the delegate's release. A failed
    /// release leaves the burn in place and is reported as a partial bridge failure.
    pub fn finish_withdraw(&mut self, outcome: Result<(), XvmError>) -> (r: Result<(), WrapperError>)
        requires
            old(self).wf(),
        ensures
            final(self).wf(),
            final(self).config() == old(self).config(),
            !(old(self)@.pending matches Some(Pending::Withdraw { .. })) ==> r == Err::<
                (),
                WrapperError,
            >(WrapperError::NothingPending) && final(self)@ == old(self)@,
            old(self)@.pending matches Some(Pending::Withdraw { caller, item }) ==> final(self)@
                == nft_withdraw_finished(old(self)@, item, outcome is Ok),
            old(self)@.pending matches Some(Pending::Withdraw { .. }) ==> (outcome is Ok <==> r is Ok),
            old(self)@.pending matches Some(Pending::Withdraw { .. }) ==> (outcome is Err ==> r
                == Err::<(), WrapperError>(
                WrapperError::PartialBridgeFailure(CommittedHalf::NativeBurn),
            )),
    {
        let p = self.pending.take();
        match p {
            Some(Pending::Withdraw { caller, item }) => match outcome {
                Ok(()) => {
                    self.custody = Ghost(self.custody@.remove(item@));
                    Ok(())
                },
                Err(_) => Err(WrapperError::PartialBridgeFailure(CommittedHalf::NativeBurn)),
            },
            _ => {
                self.pending = p;
                Err(WrapperError::NothingPending)
            },
        }
    }
}

} // verus!
