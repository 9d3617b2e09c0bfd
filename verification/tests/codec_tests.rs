use currency_codec::currency::CurrencyId;
use currency_codec::currency::DexShare;
use currency_codec::registry::TokenSymbol;
use currency_codec::DecodeError;

#[test]
fn encode32_token_aca_is_all_zero() {
    // Code 0 in the token slot: every byte of the encoding is zero.
    let bytes = CurrencyId::Token(TokenSymbol::ACA).encode32();
    assert_eq!(bytes, [0u8; 32]);
}

#[test]
fn encode32_token_kar_sets_byte_27() {
    let bytes = CurrencyId::Token(TokenSymbol::KAR).encode32();
    let mut expected = [0u8; 32];
    expected[27] = 0x80;
    assert_eq!(bytes, expected);
}

#[test]
fn encode32_pair_sets_discriminator_and_codes() {
    let pair = CurrencyId::DexShare(
        DexShare::Token(TokenSymbol::KAR),
        DexShare::Token(TokenSymbol::DOT),
    );
    let mut expected = [0u8; 32];
    expected[23] = 1;
    expected[27] = 128;
    expected[31] = 2;
    assert_eq!(pair.encode32(), expected);
}

#[test]
fn encode32_pair_contract_side_takes_address_prefix() {
    let mut addr = [0u8; 20];
    addr[0] = 0xAA;
    addr[1] = 0xBB;
    addr[2] = 0xCC;
    addr[3] = 0xDD;
    let pair = CurrencyId::DexShare(DexShare::Erc20(addr), DexShare::Token(TokenSymbol::ACA));
    let mut expected = [0u8; 32];
    expected[23] = 1;
    expected[24] = 0xAA;
    expected[25] = 0xBB;
    expected[26] = 0xCC;
    expected[27] = 0xDD;
    assert_eq!(pair.encode32(), expected);
}

#[test]
fn encode32_contract_address_verbatim() {
    let bytes = CurrencyId::Erc20([0x11; 20]).encode32();
    let mut expected = [0u8; 32];
    for i in 12..32 {
        expected[i] = 0x11;
    }
    assert_eq!(bytes, expected);
}

#[test]
fn decode32_token_round_trip() {
    for symbol in TokenSymbol::all() {
        let id = CurrencyId::Token(symbol);
        assert_eq!(CurrencyId::decode32(id.encode32()), Ok(id));
    }
}

#[test]
fn decode32_pair_round_trip() {
    let pair = CurrencyId::DexShare(
        DexShare::Token(TokenSymbol::KAR),
        DexShare::Token(TokenSymbol::DOT),
    );
    assert_eq!(CurrencyId::decode32(pair.encode32()), Ok(pair));

    let same_sides = CurrencyId::DexShare(
        DexShare::Token(TokenSymbol::ACA),
        DexShare::Token(TokenSymbol::ACA),
    );
    assert_eq!(CurrencyId::decode32(same_sides.encode32()), Ok(same_sides));
}

#[test]
fn decode32_contract_round_trip() {
    let id = CurrencyId::Erc20([0x11; 20]);
    assert_eq!(CurrencyId::decode32(id.encode32()), Ok(id));

    let mut addr = [0u8; 20];
    addr[0] = 0x01;
    addr[19] = 0xFF;
    let id = CurrencyId::Erc20(addr);
    assert_eq!(CurrencyId::decode32(id.encode32()), Ok(id));
}

#[test]
fn decode32_unrecognized_discriminator_is_malformed() {
    for d in [2u8, 3, 0x80, 0xFF] {
        let mut bytes = [0u8; 32];
        bytes[23] = d;
        assert_eq!(
            CurrencyId::decode32(bytes),
            Err(DecodeError::MalformedEncoding)
        );
    }
}

#[test]
fn decode32_nonzero_reserved_prefix_is_malformed() {
    let mut bytes = [0u8; 32];
    bytes[5] = 1;
    assert_eq!(
        CurrencyId::decode32(bytes),
        Err(DecodeError::MalformedEncoding)
    );
}

#[test]
fn decode32_token_with_nonzero_padding_is_malformed() {
    let mut bytes = [0u8; 32];
    bytes[28] = 5;
    assert_eq!(
        CurrencyId::decode32(bytes),
        Err(DecodeError::MalformedEncoding)
    );

    let mut bytes = [0u8; 32];
    bytes[24] = 1;
    assert_eq!(
        CurrencyId::decode32(bytes),
        Err(DecodeError::MalformedEncoding)
    );
}

#[test]
fn decode32_unassigned_token_code_is_unknown() {
    let mut bytes = [0u8; 32];
    bytes[27] = 10;
    assert_eq!(
        CurrencyId::decode32(bytes),
        Err(DecodeError::UnknownSymbolCode)
    );
}

#[test]
fn decode32_pair_with_unassigned_code_is_unknown() {
    let mut bytes = [0u8; 32];
    bytes[23] = 1;
    bytes[27] = 132;
    bytes[31] = 2;
    assert_eq!(
        CurrencyId::decode32(bytes),
        Err(DecodeError::UnknownSymbolCode)
    );

    let mut bytes = [0u8; 32];
    bytes[23] = 1;
    bytes[27] = 2;
    bytes[31] = 139;
    assert_eq!(
        CurrencyId::decode32(bytes),
        Err(DecodeError::UnknownSymbolCode)
    );
}

#[test]
fn decode32_pair_with_contract_side_does_not_round_trip() {
    // The documented gap: only token-kind sides come back out of the
    // 32-byte form. An address whose first byte is nonzero shows as
    // malformed padding in the pair slot.
    let mut addr = [0u8; 20];
    addr[0] = 0xAA;
    let pair = CurrencyId::DexShare(DexShare::Erc20(addr), DexShare::Token(TokenSymbol::ACA));
    assert_eq!(
        CurrencyId::decode32(pair.encode32()),
        Err(DecodeError::MalformedEncoding)
    );
}

#[test]
fn decode32_contract_shape() {
    let mut bytes = [0u8; 32];
    for i in 12..32 {
        bytes[i] = (i as u8) + 1;
    }
    let mut addr = [0u8; 20];
    for i in 0..20 {
        addr[i] = (i as u8) + 13;
    }
    assert_eq!(CurrencyId::decode32(bytes), Ok(CurrencyId::Erc20(addr)));
}

#[test]
fn encode_u32_token_is_the_code() {
    assert_eq!(CurrencyId::Token(TokenSymbol::ACA).encode_u32(), 0);
    assert_eq!(CurrencyId::Token(TokenSymbol::DOT).encode_u32(), 2);
    assert_eq!(CurrencyId::Token(TokenSymbol::KAR).encode_u32(), 128);
    assert_eq!(CurrencyId::Token(TokenSymbol::KILT).encode_u32(), 138);
}

#[test]
fn encode_u32_pair_keeps_only_the_right_side() {
    // The documented lossy overwrite: both sides land in the same four
    // bytes and the right side wins.
    let pair = CurrencyId::DexShare(
        DexShare::Token(TokenSymbol::KAR),
        DexShare::Token(TokenSymbol::DOT),
    );
    assert_eq!(pair.encode_u32(), 2);

    let mut addr = [0u8; 20];
    addr[0] = 0x01;
    addr[1] = 0x02;
    addr[2] = 0x03;
    addr[3] = 0x04;
    let pair = CurrencyId::DexShare(
        DexShare::Token(TokenSymbol::KAR),
        DexShare::Erc20(addr),
    );
    assert_eq!(pair.encode_u32(), 0x01020304);
}

#[test]
fn encode_u32_contract_truncates_to_address_prefix() {
    assert_eq!(CurrencyId::Erc20([0x11; 20]).encode_u32(), 0x11111111);

    let mut addr = [0xFF; 20];
    addr[0] = 0xDE;
    addr[1] = 0xAD;
    addr[2] = 0xBE;
    addr[3] = 0xEF;
    assert_eq!(CurrencyId::Erc20(addr).encode_u32(), 0xDEADBEEF);
}
