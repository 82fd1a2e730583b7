use xvm_bridge::calls::Id;
use xvm_bridge::erc::{PSP34Controller, Psp22};
use xvm_bridge::fungible::{DelegateTransfer, PSP22Wrapper};
use xvm_bridge::ledger::{FungibleLedger, LedgerError};
use xvm_bridge::nft::{NftError, NftLedger, PSP34Wrapper};
use xvm_bridge::wrapper::{
    delegate_request, salt_of, CommittedHalf, ExecContext, InstantiateError, WrapperError,
};
use xvm_bridge::xvm::XvmError;

const ERC20: [u8; 20] = [0xa1; 20];
const DELEGATE: [u8; 32] = [0xd0; 32];
const WRAPPER: [u8; 32] = [0xc0; 32];
const ALICE: [u8; 32] = [0x01; 32];
const BOB: [u8; 32] = [0x02; 32];
const ALICE_EVM: [u8; 20] = [0xaa; 20];

fn ctx(caller: [u8; 32]) -> ExecContext {
    ExecContext { caller, account_id: WRAPPER }
}

fn wrapper() -> PSP22Wrapper {
    PSP22Wrapper::new(ERC20, Ok(DELEGATE)).unwrap()
}

fn deposit(w: &mut PSP22Wrapper, caller: [u8; 32], amount: u128) -> Result<(), WrapperError> {
    w.begin_deposit(&ctx(caller), Some(ALICE_EVM), amount)?;
    w.finish_deposit(Ok(()))
}

#[test]
fn salt_is_the_little_endian_version() {
    assert_eq!(salt_of(1), [1, 0, 0, 0]);
    assert_eq!(salt_of(0x0403_0201), [1, 2, 3, 4]);
    let r = delegate_request(7, [9u8; 32], ERC20);
    assert_eq!(r.salt, [7, 0, 0, 0]);
    assert_eq!(r.code_hash, [9u8; 32]);
    assert_eq!(r.endowment, 0);
    assert_eq!(r.evm_address, ERC20);
}

#[test]
fn construction_fails_when_the_delegate_does_not_exist() {
    let r = PSP22Wrapper::new(ERC20, Err(InstantiateError::Environment));
    assert!(matches!(
        r,
        Err(WrapperError::DelegateInstantiation(InstantiateError::Environment))
    ));
    let r = PSP22Wrapper::new(ERC20, Err(InstantiateError::Constructor));
    assert!(matches!(
        r,
        Err(WrapperError::DelegateInstantiation(InstantiateError::Constructor))
    ));
}

#[test]
fn construction_records_the_delegate_and_metadata() {
    let w = wrapper();
    assert_eq!(w.get_psp22_controller(), DELEGATE);
    assert_eq!(w.evm_address(), ERC20);
    assert_eq!(w.total_supply(), 0);
    assert_eq!(w.balance_of(&ALICE), 0);
    assert_eq!(w.token_name(), Some("Wrapped PSP22".to_string()));
    assert_eq!(w.token_symbol(), Some("WPSP22".to_string()));
    assert_eq!(w.token_decimals(), 18);
    assert!(!w.is_busy());
}

#[test]
fn deposit_moves_tokens_into_the_delegate_custody() {
    let mut w = wrapper();
    let call = w.begin_deposit(&ctx(ALICE), Some(ALICE_EVM), 500).unwrap();
    let mut expected = vec![0x23, 0xb8, 0x72, 0xdd];
    expected.extend_from_slice(&[0u8; 12]);
    expected.extend_from_slice(&ALICE_EVM);
    expected.extend_from_slice(&[0u8; 12]);
    expected.extend_from_slice(&[0xd0; 20]);
    expected.extend_from_slice(&[0u8; 30]);
    expected.extend_from_slice(&[0x01, 0xf4]);
    assert_eq!(call.input, expected);
    assert_eq!(call.target, ERC20.to_vec());
    assert!(w.is_busy());
    assert_eq!(w.finish_deposit(Ok(())), Ok(()));
    assert_eq!(w.balance_of(&ALICE), 500);
    assert_eq!(w.total_supply(), 500);
    assert!(!w.is_busy());
}

#[test]
fn deposit_then_withdraw_restores_balances() {
    let mut w = wrapper();
    deposit(&mut w, BOB, 40).unwrap();
    deposit(&mut w, ALICE, 100).unwrap();
    let release = w.begin_withdraw(&ctx(ALICE), 100).unwrap();
    assert_eq!(
        release,
        DelegateTransfer { delegate: DELEGATE, to: ALICE, value: 100 }
    );
    assert_eq!(w.finish_withdraw(Ok(())), Ok(()));
    assert_eq!(w.balance_of(&ALICE), 0);
    assert_eq!(w.balance_of(&BOB), 40);
    assert_eq!(w.total_supply(), 40);
}

#[test]
fn failed_mint_after_foreign_transfer_is_a_partial_failure() {
    let mut w = wrapper();
    deposit(&mut w, BOB, u128::MAX).unwrap();
    w.begin_deposit(&ctx(ALICE), Some(ALICE_EVM), 1).unwrap();
    assert_eq!(
        w.finish_deposit(Ok(())),
        Err(WrapperError::PartialBridgeFailure(CommittedHalf::ForeignCustody))
    );
    assert_eq!(w.balance_of(&ALICE), 0);
    assert_eq!(w.total_supply(), u128::MAX);
    assert!(!w.is_busy());
}

#[test]
fn failed_foreign_transfer_changes_nothing() {
    let mut w = wrapper();
    w.begin_deposit(&ctx(ALICE), Some(ALICE_EVM), 10).unwrap();
    assert_eq!(
        w.finish_deposit(Err(XvmError::ExecutionFailed)),
        Err(WrapperError::Call(XvmError::ExecutionFailed))
    );
    assert_eq!(w.balance_of(&ALICE), 0);
    assert_eq!(w.total_supply(), 0);
    assert!(!w.is_busy());
}

#[test]
fn failed_release_after_burn_is_a_partial_failure() {
    let mut w = wrapper();
    deposit(&mut w, ALICE, 10).unwrap();
    w.begin_withdraw(&ctx(ALICE), 4).unwrap();
    assert_eq!(
        w.finish_withdraw(Err(XvmError::BadOrigin)),
        Err(WrapperError::PartialBridgeFailure(CommittedHalf::NativeBurn))
    );
    assert_eq!(w.balance_of(&ALICE), 6);
    assert_eq!(w.total_supply(), 6);
}

#[test]
fn operations_are_refused_while_one_is_in_flight() {
    let mut w = wrapper();
    deposit(&mut w, ALICE, 10).unwrap();
    w.begin_deposit(&ctx(ALICE), Some(ALICE_EVM), 5).unwrap();
    assert_eq!(
        w.begin_deposit(&ctx(BOB), Some(ALICE_EVM), 5),
        Err(WrapperError::OperationInProgress)
    );
    assert_eq!(w.begin_withdraw(&ctx(ALICE), 1), Err(WrapperError::OperationInProgress));
    assert_eq!(w.transfer(&ctx(ALICE), &BOB, 1), Err(WrapperError::OperationInProgress));
    assert_eq!(w.finish_withdraw(Ok(())), Err(WrapperError::NothingPending));
    assert_eq!(w.finish_deposit(Ok(())), Ok(()));
    assert_eq!(w.balance_of(&ALICE), 15);
}

#[test]
fn deposit_needs_a_mapped_caller() {
    let mut w = wrapper();
    assert_eq!(
        w.begin_deposit(&ctx(ALICE), None, 5),
        Err(WrapperError::AccountNotMapped)
    );
    assert!(!w.is_busy());
}

#[test]
fn withdraw_beyond_balance_is_refused() {
    let mut w = wrapper();
    deposit(&mut w, ALICE, 3).unwrap();
    assert_eq!(
        w.begin_withdraw(&ctx(ALICE), 4),
        Err(WrapperError::Ledger(LedgerError::InsufficientBalance))
    );
    assert_eq!(w.balance_of(&ALICE), 3);
    assert!(!w.is_busy());
}

#[test]
fn finishing_without_beginning_is_refused() {
    let mut w = wrapper();
    assert_eq!(w.finish_deposit(Ok(())), Err(WrapperError::NothingPending));
    assert_eq!(w.finish_withdraw(Ok(())), Err(WrapperError::NothingPending));
}

#[test]
fn native_transfer_moves_balance() {
    let mut w = wrapper();
    deposit(&mut w, ALICE, 10).unwrap();
    assert_eq!(w.transfer(&ctx(ALICE), &BOB, 7), Ok(()));
    assert_eq!(w.balance_of(&ALICE), 3);
    assert_eq!(w.balance_of(&BOB), 7);
    assert_eq!(
        w.transfer(&ctx(ALICE), &BOB, 4),
        Err(WrapperError::Ledger(LedgerError::InsufficientBalance))
    );
    assert_eq!(w.transfer(&ctx(BOB), &BOB, 7), Ok(()));
    assert_eq!(w.balance_of(&BOB), 7);
    assert_eq!(w.total_supply(), 10);
}

#[test]
fn fungible_ledger_operations() {
    let mut l = FungibleLedger::new();
    assert_eq!(l.mint(&ALICE, 5), Ok(()));
    assert_eq!(l.mint(&BOB, u128::MAX), Err(LedgerError::Overflow));
    assert_eq!(l.burn(&BOB, 1), Err(LedgerError::InsufficientBalance));
    assert_eq!(l.transfer(&ALICE, &BOB, 2), Ok(()));
    assert_eq!(l.burn(&ALICE, 3), Ok(()));
    assert_eq!(l.balance_of(&ALICE), 0);
    assert_eq!(l.balance_of(&BOB), 2);
    assert_eq!(l.total_supply(), 2);
}

#[test]
fn delegate_releases_by_truncated_address() {
    let d = Psp22::new(ERC20);
    let call = d.transfer(&ALICE, 1);
    let mut expected = vec![0xa9, 0x05, 0x9c, 0xbb];
    expected.extend_from_slice(&[0u8; 12]);
    expected.extend_from_slice(&[0x01; 20]);
    expected.extend_from_slice(&[0u8; 31]);
    expected.push(1);
    assert_eq!(call.input, expected);
    assert_eq!(d.approve(&BOB, 1).input[..4], [0x09, 0x5e, 0xa7, 0xb3]);
    assert_eq!(d.transfer_from(&ALICE, &BOB, 1).input.len(), 4 + 96);
}

fn nft_wrapper() -> PSP34Wrapper {
    PSP34Wrapper::new(
        ERC20,
        Ok(DELEGATE),
        Id::U8(0),
        "Wrapped".to_string(),
        "W".to_string(),
    )
    .unwrap()
}

#[test]
fn nft_construction_fails_without_delegate() {
    let r = PSP34Wrapper::new(
        ERC20,
        Err(InstantiateError::Constructor),
        Id::U8(0),
        "Wrapped".to_string(),
        "W".to_string(),
    );
    assert!(matches!(
        r,
        Err(WrapperError::DelegateInstantiation(InstantiateError::Constructor))
    ));
    let w = nft_wrapper();
    assert_eq!(w.get_psp34_controller(), DELEGATE);
    assert_eq!(w.name(), "Wrapped");
    assert_eq!(w.symbol(), "W");
    assert_eq!(w.collection_id(), &Id::U8(0));
}

#[test]
fn nft_deposit_then_withdraw() {
    let mut w = nft_wrapper();
    let call = w.begin_deposit(&ctx(ALICE), &Id::U32(7)).unwrap();
    let mut expected = vec![0x23, 0xb8, 0x72, 0xdd];
    expected.extend_from_slice(&[0u8; 12]);
    expected.extend_from_slice(&[0x01; 20]);
    expected.extend_from_slice(&[0u8; 12]);
    expected.extend_from_slice(&[0xc0; 20]);
    expected.extend_from_slice(&[0u8; 31]);
    expected.push(7);
    assert_eq!(call.input, expected);
    assert_eq!(w.finish_deposit(Ok(())), Ok(()));
    assert_eq!(w.owner_of(&Id::U32(7)), Some(ALICE));
    assert_eq!(w.owner_of(&Id::U8(7)), None);

    let release = w.begin_withdraw(&ctx(ALICE), &Id::U32(7)).unwrap();
    assert_eq!(release.delegate, DELEGATE);
    assert_eq!(release.owner, WRAPPER);
    assert_eq!(release.to, ALICE);
    assert_eq!(release.id, Id::U32(7));
    let delegate_call = PSP34Controller::new(ERC20)
        .transfer(&release.owner, &release.to, &release.id)
        .unwrap();
    assert_eq!(delegate_call.input[..4], [0x23, 0xb8, 0x72, 0xdd]);
    assert_eq!(w.finish_withdraw(Ok(())), Ok(()));
    assert_eq!(w.owner_of(&Id::U32(7)), None);
}

#[test]
fn nft_refusals() {
    let mut w = nft_wrapper();
    w.begin_deposit(&ctx(ALICE), &Id::Bytes(vec![1, 2])).unwrap();
    w.finish_deposit(Ok(())).unwrap();
    assert_eq!(
        w.begin_deposit(&ctx(BOB), &Id::Bytes(vec![1, 2])),
        Err(WrapperError::Token(NftError::TokenExists))
    );
    assert_eq!(
        w.begin_withdraw(&ctx(BOB), &Id::Bytes(vec![1, 2])),
        Err(WrapperError::Token(NftError::NotOwner))
    );
    assert_eq!(
        w.begin_withdraw(&ctx(BOB), &Id::U64(1)),
        Err(WrapperError::Token(NftError::TokenNotExists))
    );
    assert_eq!(
        w.begin_deposit(&ctx(BOB), &Id::Bytes(vec![0; 33])),
        Err(WrapperError::InvalidId)
    );
    w.begin_withdraw(&ctx(ALICE), &Id::Bytes(vec![1, 2])).unwrap();
    assert_eq!(
        w.finish_withdraw(Err(XvmError::InvalidTarget)),
        Err(WrapperError::PartialBridgeFailure(CommittedHalf::NativeBurn))
    );
    assert_eq!(w.owner_of(&Id::Bytes(vec![1, 2])), None);
}

#[test]
fn nft_ledger_operations() {
    let mut l = NftLedger::new();
    assert_eq!(l.mint(&ALICE, &Id::U8(1)), Ok(()));
    assert_eq!(l.mint(&BOB, &Id::U8(1)), Err(NftError::TokenExists));
    assert_eq!(l.transfer(&BOB, &ALICE, &Id::U8(1)), Err(NftError::NotOwner));
    assert_eq!(l.transfer(&ALICE, &BOB, &Id::U8(1)), Ok(()));
    assert_eq!(l.owner_of(&Id::U8(1)), Some(BOB));
    assert_eq!(l.burn(&BOB, &Id::U8(1)), Ok(()));
    assert_eq!(l.burn(&BOB, &Id::U8(1)), Err(NftError::TokenNotExists));
    assert_eq!(l.mint(&BOB, &Id::U8(1)), Ok(()));
}

#[test]
fn controller_approval_needs_an_id() {
    let c = PSP34Controller::new(ERC20);
    assert!(c.approve(&ALICE, &None).is_err());
    let call = c.approve(&ALICE, &Some(Id::U16(2))).unwrap();
    assert_eq!(call.input[..4], [0x09, 0x5e, 0xa7, 0xb3]);
    assert_eq!(call.input[4 + 63], 2);
    assert!(c.mint(&ALICE, &Id::Bytes(vec![0; 40])).is_err());
}
