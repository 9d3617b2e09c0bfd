use currency_codec::registry::TokenSymbol;
use currency_codec::DecodeError;

fn expected_registry() -> Vec<(TokenSymbol, u8, &'static str, u8, &'static str)> {
    vec![
        (TokenSymbol::ACA, 0, "ACA", 12, "Acala"),
        (TokenSymbol::AUSD, 1, "AUSD", 12, "Acala Dollar"),
        (TokenSymbol::DOT, 2, "DOT", 10, "Polkadot"),
        (TokenSymbol::LDOT, 3, "LDOT", 10, "Liquid DOT"),
        (TokenSymbol::XBTC, 4, "XBTC", 8, "ChainX BTC"),
        (TokenSymbol::RENBTC, 5, "RENBTC", 8, "Ren Protocol BTC"),
        (TokenSymbol::POLKABTC, 6, "POLKABTC", 8, "PolkaBTC"),
        (TokenSymbol::PLM, 7, "PLM", 18, "Plasm"),
        (TokenSymbol::PHA, 8, "PHA", 12, "Phala"),
        (TokenSymbol::HDT, 9, "HDT", 12, "HydraDX"),
        (TokenSymbol::BCG, 11, "BCG", 18, "Bit.Country"),
        (TokenSymbol::KAR, 128, "KAR", 12, "Karura"),
        (TokenSymbol::KUSD, 129, "KUSD", 12, "Karura Dollar"),
        (TokenSymbol::KSM, 130, "KSM", 12, "Kusama"),
        (TokenSymbol::LKSM, 131, "LKSM", 12, "Liquid KSM"),
        (TokenSymbol::SDN, 135, "SDN", 18, "Shiden"),
        (TokenSymbol::KILT, 138, "KILT", 15, "Kilt"),
    ]
}

#[test]
fn assigned_codes_round_trip() {
    for (symbol, code, _, _, _) in expected_registry() {
        let decoded = TokenSymbol::try_from_code(code);
        assert_eq!(decoded, Ok(symbol));
        assert_eq!(decoded.unwrap().code(), code);
    }
}

#[test]
fn unassigned_codes_rejected() {
    let assigned: Vec<u8> = expected_registry().iter().map(|r| r.1).collect();
    for c in 0..=255u8 {
        if !assigned.contains(&c) {
            assert_eq!(
                TokenSymbol::try_from_code(c),
                Err(DecodeError::UnknownSymbolCode)
            );
        }
    }
}

#[test]
fn reserved_gap_codes_rejected() {
    for c in [10u8, 12, 127, 132, 133, 134, 136, 137, 139, 255] {
        assert_eq!(
            TokenSymbol::try_from_code(c),
            Err(DecodeError::UnknownSymbolCode)
        );
    }
}

#[test]
fn decimals_and_names_match_registry() {
    for (symbol, _, _, decimals, name) in expected_registry() {
        assert_eq!(symbol.decimals(), decimals);
        assert_eq!(symbol.name(), name);
    }
}

#[test]
fn all_lists_every_tag_in_declaration_order() {
    let all = TokenSymbol::all();
    let expected: Vec<TokenSymbol> = expected_registry().iter().map(|r| r.0).collect();
    assert_eq!(all, expected);
}

#[test]
fn symbol_bytes_look_the_tag_up() {
    for (symbol, _, symbol_str, _, _) in expected_registry() {
        assert_eq!(
            TokenSymbol::try_from_symbol_bytes(symbol_str.as_bytes()),
            Ok(symbol)
        );
    }
}

#[test]
fn unknown_symbol_bytes_rejected() {
    for name in ["", "ACA ", "aca", "BTC", "ACAB", "Acala", "KILTT", "KIL"] {
        assert_eq!(
            TokenSymbol::try_from_symbol_bytes(name.as_bytes()),
            Err(DecodeError::UnknownSymbolCode)
        );
    }
}

#[test]
fn get_info_lists_symbol_and_decimals() {
    let info = TokenSymbol::get_info();
    let expected: Vec<(&'static str, u32)> = expected_registry()
        .iter()
        .map(|r| (r.2, r.3 as u32))
        .collect();
    assert_eq!(info, expected);
}
