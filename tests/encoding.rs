use xvm_bridge::abi::{decode_uint256, encode_tokens, AbiToken, DecodeError};
use xvm_bridge::calls::{cast, EncodeError, EvmCall, Id};
use xvm_bridge::erc::{read_amount, Erc20, Erc721, ReadError};
use xvm_bridge::word::U256;
use xvm_bridge::xvm::{XvmError, EVM_ID};

fn hex(s: &str) -> Vec<u8> {
    let s: Vec<u8> = s.bytes().filter(|c| !c.is_ascii_whitespace()).collect();
    s.chunks(2)
        .map(|p| u8::from_str_radix(std::str::from_utf8(p).unwrap(), 16).unwrap())
        .collect()
}

fn addr(s: &str) -> [u8; 20] {
    let v = hex(s);
    let mut a = [0u8; 20];
    a.copy_from_slice(&v);
    a
}

const SAMPLE_CONTRACT: &str = "a10d3DBe7c28F46A90476B841B8509978e00B995";
const SAMPLE_TO: &str = "7C32982c3e7Fb8B2AF6ABD3323583C6A41f921C5";
const SAMPLE_FROM: &str = "d806D071365C9Cc3EE19873212A3E0D553Ab97Da";
const SAMPLE_VALUE: u128 = 12353241324u128;

const WORD_TO: &str = "0000000000000000000000007C32982c3e7Fb8B2AF6ABD3323583C6A41f921C5";
const WORD_FROM: &str = "000000000000000000000000d806D071365C9Cc3EE19873212A3E0D553Ab97Da";
const WORD_VALUE: &str = "00000000000000000000000000000000000000000000000000000002e04f80ec";

#[test]
fn arguments_encoding() {
    let erc20 = Erc20::new(addr(SAMPLE_CONTRACT));

    let call = erc20.approve(addr(SAMPLE_TO), SAMPLE_VALUE);
    assert_eq!(call.input, hex(&format!("095ea7b3{}{}", WORD_TO, WORD_VALUE)));

    let call = erc20.transfer(addr(SAMPLE_TO), SAMPLE_VALUE);
    assert_eq!(call.input, hex(&format!("a9059cbb{}{}", WORD_TO, WORD_VALUE)));

    let call = erc20.transfer_from(addr(SAMPLE_FROM), addr(SAMPLE_TO), SAMPLE_VALUE);
    assert_eq!(
        call.input,
        hex(&format!("23b872dd{}{}{}", WORD_FROM, WORD_TO, WORD_VALUE))
    );
}

#[test]
fn lib_arguments_encoding() {
    let erc721 = Erc721::new(addr(SAMPLE_CONTRACT));
    let id = U256::from_u128(SAMPLE_VALUE);

    let call = erc721.transfer_from(addr(SAMPLE_FROM), addr(SAMPLE_TO), id);
    assert_eq!(
        call.input,
        hex(&format!("23b872dd{}{}{}", WORD_FROM, WORD_TO, WORD_VALUE))
    );

    let call = erc721.approve(addr(SAMPLE_TO), id);
    assert_eq!(call.input, hex(&format!("095ea7b3{}{}", WORD_TO, WORD_VALUE)));

    let call = erc721.mint(addr(SAMPLE_TO), id);
    assert_eq!(call.input, hex(&format!("40c10f19{}{}", WORD_TO, WORD_VALUE)));

    let call = erc721.is_approved_for_all(addr(SAMPLE_FROM), addr(SAMPLE_TO));
    assert_eq!(call.input, hex(&format!("e985e9c5{}{}", WORD_FROM, WORD_TO)));
}

#[test]
fn request_targets_the_evm_contract_without_value() {
    let erc20 = Erc20::new(addr(SAMPLE_CONTRACT));
    let call = erc20.approve(addr(SAMPLE_TO), SAMPLE_VALUE);
    assert_eq!(call.vm_id, EVM_ID);
    assert_eq!(call.vm_id, 0x0F);
    assert_eq!(call.target, hex(SAMPLE_CONTRACT));
    assert_eq!(call.value, 0);
}

#[test]
fn total_supply_is_the_bare_selector() {
    let erc20 = Erc20::new(addr(SAMPLE_CONTRACT));
    assert_eq!(erc20.total_supply().input, hex("18160ddd"));
    assert_eq!(EvmCall::TotalSupply.encode(), hex("18160ddd"));
}

#[test]
fn balance_of_encodes_the_owner() {
    let erc20 = Erc20::new(addr(SAMPLE_CONTRACT));
    assert_eq!(
        erc20.balance_of(addr(SAMPLE_TO)).input,
        hex(&format!("70a08231{}", WORD_TO))
    );
    let mut account = [0xeeu8; 32];
    account[..20].copy_from_slice(&addr(SAMPLE_TO));
    assert_eq!(
        erc20.balance_of_account_id(&account).input,
        hex(&format!("70a08231{}", WORD_TO))
    );
}

#[test]
fn catalog_encodes_each_kind() {
    let to = addr(SAMPLE_TO);
    let value = U256::from_u128(SAMPLE_VALUE);
    let mint = EvmCall::Mint { to, value }.encode();
    assert_eq!(mint, hex(&format!("40c10f19{}{}", WORD_TO, WORD_VALUE)));
    assert_eq!(mint.len(), 4 + 64);
    let approve = EvmCall::Approve { spender: to, value };
    assert_eq!(approve.selector(), [0x09, 0x5e, 0xa7, 0xb3]);
    assert_eq!(approve.arguments(), vec![AbiToken::Address(to), AbiToken::Uint(value)]);
}

#[test]
fn booleans_encode_as_a_word() {
    let words = encode_tokens(&vec![AbiToken::Bool(true), AbiToken::Bool(false)]);
    let mut expected = vec![0u8; 64];
    expected[31] = 1;
    assert_eq!(words, expected);
    assert!(encode_tokens(&vec![]).is_empty());
}

#[test]
fn numeric_ids_widen() {
    assert_eq!(cast(&Id::U8(7)).unwrap().to_u128(), Some(7));
    assert_eq!(cast(&Id::U16(0x1234)).unwrap().to_u128(), Some(0x1234));
    assert_eq!(cast(&Id::U32(u32::MAX)).unwrap().to_u128(), Some(u32::MAX as u128));
    assert_eq!(cast(&Id::U64(u64::MAX)).unwrap().to_u128(), Some(u64::MAX as u128));
    assert_eq!(cast(&Id::U128(u128::MAX)).unwrap().to_u128(), Some(u128::MAX));
}

#[test]
fn byte_ids_are_big_endian_and_never_truncated() {
    let w = cast(&Id::Bytes(vec![1, 2])).unwrap();
    let mut expected = [0u8; 32];
    expected[30] = 1;
    expected[31] = 2;
    assert_eq!(w.bytes, expected);
    assert_eq!(w.to_u128(), Some(0x0102));

    let full: Vec<u8> = (1..=32).collect();
    let w = cast(&Id::Bytes(full.clone())).unwrap();
    assert_eq!(w.bytes.to_vec(), full);
    assert_eq!(w.to_u128(), None);

    assert_eq!(cast(&Id::Bytes(vec![0; 33])), Err(EncodeError::IdTooLong));
    assert_eq!(cast(&Id::Bytes(vec![])).unwrap(), U256::zero());
}

#[test]
fn widening_and_narrowing() {
    let w = U256::from_u128(SAMPLE_VALUE);
    assert_eq!(w.bytes.to_vec(), hex(WORD_VALUE));
    assert_eq!(w.to_u128(), Some(SAMPLE_VALUE));
    assert_eq!(U256::from_u128(u128::MAX).to_u128(), Some(u128::MAX));
    assert_eq!(U256::from_u128(0), U256::zero());
}

#[test]
fn narrowing_refuses_values_beyond_128_bits() {
    let mut bytes = [0u8; 32];
    bytes[15] = 1;
    assert_eq!(U256 { bytes }.to_u128(), None);
    assert_eq!(U256 { bytes: [0xff; 32] }.to_u128(), None);
    assert_eq!(U256::from_be_slice(&[1u8; 33]), None);
}

#[test]
fn decode_reads_exactly_one_word() {
    let data = hex(WORD_VALUE);
    assert_eq!(decode_uint256(&data).unwrap().bytes.to_vec(), data);
    assert_eq!(decode_uint256(&vec![]), Err(DecodeError::Malformed));
    assert_eq!(decode_uint256(&vec![0u8; 31]), Err(DecodeError::Malformed));
    assert_eq!(decode_uint256(&vec![0u8; 64]), Err(DecodeError::UnexpectedShape));
}

#[test]
fn read_amount_reports_each_failure() {
    assert_eq!(read_amount(Ok(hex(WORD_VALUE))), Ok(SAMPLE_VALUE));
    assert_eq!(
        read_amount(Err(XvmError::ExecutionFailed)),
        Err(ReadError::Call(XvmError::ExecutionFailed))
    );
    assert_eq!(
        read_amount(Ok(vec![1, 2, 3])),
        Err(ReadError::Decode(DecodeError::Malformed))
    );
    assert_eq!(
        read_amount(Ok(vec![0; 96])),
        Err(ReadError::Decode(DecodeError::UnexpectedShape))
    );
    let mut big = vec![0u8; 32];
    big[0] = 1;
    assert_eq!(read_amount(Ok(big)), Err(ReadError::AmountOverflow));
    let mut max = vec![0u8; 32];
    for b in max[16..].iter_mut() {
        *b = 0xff;
    }
    assert_eq!(read_amount(Ok(max)), Ok(u128::MAX));
}
