use aori_requests::hex::to_hex;
use aori_requests::primitives::{Address, B256, U256};
use aori_requests::seaport::{current_seaport_address, ItemType, OrderType};

#[test]
fn hex_of_bytes() {
    assert_eq!(to_hex(&[]), "0x");
    assert_eq!(to_hex(&[0x00, 0x0f, 0xa0, 0xff, 0x19]), "0x000fa0ff19");
    assert_eq!(
        B256::zero().to_hex(),
        "0x0000000000000000000000000000000000000000000000000000000000000000"
    );
}

#[test]
fn hex_agrees_with_the_primitives_crate() {
    let mut bytes = [0u8; 32];
    for (i, b) in bytes.iter_mut().enumerate() {
        *b = (i as u8).wrapping_mul(37).wrapping_add(11);
    }
    let expected = alloy_primitives::B256::from(bytes).to_string();
    assert_eq!(B256 { bytes }.to_hex(), expected);
}

#[test]
fn u256_from_integers() {
    assert_eq!(U256::from_u64(0).bytes, [0u8; 32]);
    let one = U256::from_u64(1);
    assert_eq!(one.bytes[31], 1);
    assert_eq!(one.bytes[..31], [0u8; 31]);
    let big = U256::from_u64(0x0102030405060708);
    assert_eq!(big.bytes[24..], [1, 2, 3, 4, 5, 6, 7, 8]);
    assert_eq!(big.bytes[..24], [0u8; 24]);
    let wide = U256::from_u128(u128::MAX);
    assert_eq!(wide.bytes[16..], [0xffu8; 16]);
    assert_eq!(wide.bytes[..16], [0u8; 16]);
    assert_eq!(U256::from_u64(77), U256::from_u128(77));
    assert_eq!(U256::from_be_bytes(big.bytes), big);
}

#[test]
fn u256_in_decimal() {
    assert_eq!(U256::from_u64(0).to_decimal(), "0");
    assert_eq!(U256::from_u64(9).to_decimal(), "9");
    assert_eq!(U256::from_u64(10).to_decimal(), "10");
    assert_eq!(U256::from_u64(1000).to_decimal(), "1000");
    assert_eq!(U256::from_u128(1000000000000000u128).to_decimal(), "1000000000000000");
    assert_eq!(U256::from_u64(u64::MAX).to_decimal(), "18446744073709551615");
    assert_eq!(
        U256::from_u128(u128::MAX).to_decimal(),
        "340282366920938463463374607431768211455"
    );
    assert_eq!(
        U256::from_be_bytes([0xff; 32]).to_decimal(),
        "115792089237316195423570985008687907853269984665640564039457584007913129639935"
    );
}

#[test]
fn address_checksum() {
    let vitalik = Address {
        bytes: [
            0xd8, 0xda, 0x6b, 0xf2, 0x69, 0x64, 0xaf, 0x9d, 0x7e, 0xed, 0x9e, 0x03, 0xe5, 0x34,
            0x15, 0xd3, 0x7a, 0xa9, 0x60, 0x45,
        ],
    };
    assert_eq!(vitalik.to_checksum(), "0xd8dA6BF26964aF9D7eEd9e03E53415D37aA96045");
    assert_eq!(
        Address::zero().to_checksum(),
        "0x0000000000000000000000000000000000000000"
    );
    assert_eq!(
        current_seaport_address().to_checksum(),
        "0x00000000000000ADc04C56Bf30aC9d3c0aAF14dC"
    );
}

#[test]
fn enum_codes() {
    assert_eq!(ItemType::NATIVE.as_u8(), 0);
    assert_eq!(ItemType::ERC20.as_u8(), 1);
    assert_eq!(ItemType::ERC721.as_u8(), 2);
    assert_eq!(ItemType::ERC1155.as_u8(), 3);
    assert_eq!(ItemType::ERC721_WITH_CRITERIA.as_u8(), 4);
    assert_eq!(ItemType::ERC1155_WITH_CRITERIA.as_u8(), 5);
    assert_eq!(OrderType::FULL_OPEN.as_u8(), 0);
    assert_eq!(OrderType::PARTIAL_OPEN.as_u8(), 1);
    assert_eq!(OrderType::FULL_RESTRICTED.as_u8(), 2);
    assert_eq!(OrderType::PARTIAL_RESTRICTED.as_u8(), 3);
    assert_eq!(OrderType::CONTRACT.as_u8(), 4);
    for code in 0u8..=255 {
        match ItemType::from_u8(code) {
            Some(kind) => assert_eq!(kind.as_u8(), code),
            None => assert!(code > 5),
        }
        match OrderType::from_u8(code) {
            Some(kind) => assert_eq!(kind.as_u8(), code),
            None => assert!(code > 4),
        }
    }
}

#[test]
fn u256_ordering() {
    let zero = U256::from_u64(0);
    let one = U256::from_u64(1);
    let byte_edge = U256::from_u64(256);
    let wide = U256::from_u128(u128::MAX);
    let top = U256::from_be_bytes([0xff; 32]);
    let mut high_bit = [0u8; 32];
    high_bit[0] = 1;
    let high = U256::from_be_bytes(high_bit);
    assert!(zero.le(&zero));
    assert!(zero.le(&one));
    assert!(!one.le(&zero));
    assert!(U256::from_u64(255).le(&byte_edge));
    assert!(!byte_edge.le(&U256::from_u64(255)));
    assert!(wide.le(&high));
    assert!(!high.le(&wide));
    assert!(high.le(&top));
    assert!(top.le(&top));
    assert!(!top.le(&high));
}
