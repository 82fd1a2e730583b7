use xvm_bridge::address::{h160, mapped_h160, AddressError, To, UAExtension, UnifiedAddress};
use xvm_bridge::erc::XvmTransfer;
use xvm_bridge::messages::DelegateMessage;
use xvm_bridge::xvm::{Xvm, XvmError};

#[test]
fn status_codes_map_to_their_errors() {
    assert_eq!(XvmError::from_status_code(0), Ok(()));
    assert_eq!(XvmError::from_status_code(1), Err(XvmError::InvalidVmId));
    assert_eq!(XvmError::from_status_code(2), Err(XvmError::SameVmCallNotAllowed));
    assert_eq!(XvmError::from_status_code(3), Err(XvmError::InvalidTarget));
    assert_eq!(XvmError::from_status_code(4), Err(XvmError::InputTooLarge));
    assert_eq!(XvmError::from_status_code(5), Err(XvmError::BadOrigin));
    assert_eq!(XvmError::from_status_code(6), Err(XvmError::ExecutionFailed));
}

#[test]
fn unknown_status_codes_do_not_panic() {
    assert_eq!(XvmError::from_status_code(7), Err(XvmError::UnknownStatusCode));
    assert_eq!(XvmError::from_status_code(1000), Err(XvmError::UnknownStatusCode));
    assert_eq!(XvmError::from_status_code(u32::MAX), Err(XvmError::UnknownStatusCode));
}

#[test]
fn complete_returns_output_only_on_success() {
    assert_eq!(Xvm::complete(0, vec![1, 2]), Ok(vec![1, 2]));
    assert_eq!(Xvm::complete(2, vec![1, 2]), Err(XvmError::SameVmCallNotAllowed));
    assert_eq!(Xvm::complete(99, vec![]), Err(XvmError::UnknownStatusCode));
}

#[test]
fn evm_call_copies_the_target() {
    let call = Xvm::evm_call(&[7u8; 20], vec![9]);
    assert_eq!(call.target, vec![7u8; 20]);
    assert_eq!(call.input, vec![9]);
    assert_eq!(call.vm_id, 0x0F);
    assert_eq!(call.value, 0);
}

#[test]
fn truncation_takes_the_first_twenty_bytes() {
    let account: [u8; 32] = core::array::from_fn(|i| i as u8);
    let expected: [u8; 20] = core::array::from_fn(|i| i as u8);
    assert_eq!(h160(&account), expected);
}

#[test]
fn truncation_is_deterministic_and_lossy() {
    let a = [0x11u8; 32];
    assert_eq!(h160(&a), h160(&a));
    let mut b = a;
    b[31] = 0x22;
    assert_ne!(a, b);
    assert_eq!(h160(&a), h160(&b));
    let mut once = [0u8; 32];
    once[..20].copy_from_slice(&h160(&a));
    assert_eq!(h160(&once), h160(&a));
}

#[test]
fn exact_lookup_fails_without_mapping() {
    assert_eq!(mapped_h160(Some([3u8; 20])), Ok([3u8; 20]));
    assert_eq!(mapped_h160(None), Err(AddressError::AccountNotMapped));
}

#[test]
fn unified_address_gives_mapped_or_default() {
    let m = UnifiedAddress::Mapped([1u8; 20]);
    let d = UnifiedAddress::Default([2u8; 20]);
    assert_eq!(m.address(), [1u8; 20]);
    assert!(m.is_mapped());
    assert_eq!(d.address(), [2u8; 20]);
    assert!(!d.is_mapped());
}

#[test]
fn recipients_map_to_evm_addresses() {
    assert_eq!(To::EVM([5u8; 20]).to_h160(), [5u8; 20]);
    assert_eq!(To::WASM([6u8; 32]).to_h160(), [6u8; 20]);
    let call = XvmTransfer::transfer(&To::WASM([6u8; 32]), 1, &[9u8; 20]);
    let mut expected = vec![0xa9, 0x05, 0x9c, 0xbb];
    expected.extend_from_slice(&[0u8; 12]);
    expected.extend_from_slice(&[6u8; 20]);
    expected.extend_from_slice(&[0u8; 31]);
    expected.push(1);
    assert_eq!(call.input, expected);
    assert_eq!(call.target, vec![9u8; 20]);
}

#[test]
fn unification_function_ids() {
    assert_eq!(UAExtension::get_func_id(0), 0x0003_0000);
    assert_eq!(UAExtension::get_func_id(3), 0x0003_0003);
}

#[test]
fn delegate_selectors_round_trip() {
    let all = [
        DelegateMessage::New,
        DelegateMessage::Psp22Approve,
        DelegateMessage::Psp22Transfer,
        DelegateMessage::Psp22TransferFrom,
        DelegateMessage::Psp34Approve,
        DelegateMessage::Psp34Transfer,
    ];
    for m in all {
        assert_eq!(DelegateMessage::from_selector(m.selector()), Some(m));
    }
    assert_eq!(DelegateMessage::Psp22Transfer.selector(), [0xdb, 0x20, 0xf9, 0xf5]);
    assert_eq!(DelegateMessage::from_selector([0, 0, 0, 0]), None);
}
