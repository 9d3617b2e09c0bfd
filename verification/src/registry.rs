//! The closed registry of built-in token tags.
//!
//! Each tag carries a stable small unsigned-integer code (its wire
//! representation), a display name, and a decimal-precision value. The high
//! bit of the code partitions the tags into two ecosystems; gaps in the
//! numbering are reserved and must never be reused.

use crate::DecodeError;
use vstd::prelude::*;

verus! {

/// A built-in token tag drawn from a fixed, closed set known at build time.
///
/// The low codes belong to one ecosystem, the codes with the high bit set
/// to the other. Unassigned codes in between are reserved.
#[derive(Clone, Copy, PartialEq, Eq, Debug)]
pub enum TokenSymbol {
    ACA,
    AUSD,
    DOT,
    LDOT,
    XBTC,
    RENBTC,
    POLKABTC,
    PLM,
    PHA,
    HDT,
    BCG,
    KAR,
    KUSD,
    KSM,
    LKSM,
    SDN,
    KILT,
}

/// The stable wire code of a token tag.
pub open spec fn spec_token_code(s: TokenSymbol) -> u8 {
    match s {
        TokenSymbol::ACA => 0,
        TokenSymbol::AUSD => 1,
        TokenSymbol::DOT => 2,
        TokenSymbol::LDOT => 3,
        TokenSymbol::XBTC => 4,
        TokenSymbol::RENBTC => 5,
        TokenSymbol::POLKABTC => 6,
        TokenSymbol::PLM => 7,
        TokenSymbol::PHA => 8,
        TokenSymbol::HDT => 9,
        TokenSymbol::BCG => 11,
        TokenSymbol::KAR => 128,
        TokenSymbol::KUSD => 129,
        TokenSymbol::KSM => 130,
        TokenSymbol::LKSM => 131,
        TokenSymbol::SDN => 135,
        TokenSymbol::KILT => 138,
    }
}

/// Whether a code is currently assigned to some token tag.
pub open spec fn spec_code_assigned(c: u8) -> bool {
    ||| c == 0
    ||| c == 1
    ||| c == 2
    ||| c == 3
    ||| c == 4
    ||| c == 5
    ||| c == 6
    ||| c == 7
    ||| c == 8
    ||| c == 9
    ||| c == 11
    ||| c == 128
    ||| c == 129
    ||| c == 130
    ||| c == 131
    ||| c == 135
    ||| c == 138
}

/// The token tag assigned to a code. Meaningful only for assigned codes.
pub open spec fn spec_symbol_of_code(c: u8) -> TokenSymbol
    recommends
        spec_code_assigned(c),
{
    if c == 0 {
        TokenSymbol::ACA
    } else if c == 1 {
        TokenSymbol::AUSD
    } else if c == 2 {
        TokenSymbol::DOT
    } else if c == 3 {
        TokenSymbol::LDOT
    } else if c == 4 {
        TokenSymbol::XBTC
    } else if c == 5 {
        TokenSymbol::RENBTC
    } else if c == 6 {
        TokenSymbol::POLKABTC
    } else if c == 7 {
        TokenSymbol::PLM
    } else if c == 8 {
        TokenSymbol::PHA
    } else if c == 9 {
        TokenSymbol::HDT
    } else if c == 11 {
        TokenSymbol::BCG
    } else if c == 128 {
        TokenSymbol::KAR
    } else if c == 129 {
        TokenSymbol::KUSD
    } else if c == 130 {
        TokenSymbol::KSM
    } else if c == 131 {
        TokenSymbol::LKSM
    } else if c == 135 {
        TokenSymbol::SDN
    } else {
        TokenSymbol::KILT
    }
}

/// The decimal-precision value of a token tag.
pub open spec fn spec_token_decimals(s: TokenSymbol) -> u8 {
    match s {
        TokenSymbol::ACA => 12,
        TokenSymbol::AUSD => 12,
        TokenSymbol::DOT => 10,
        TokenSymbol::LDOT => 10,
        TokenSymbol::XBTC => 8,
        TokenSymbol::RENBTC => 8,
        TokenSymbol::POLKABTC => 8,
        TokenSymbol::PLM => 18,
        TokenSymbol::PHA => 12,
        TokenSymbol::HDT => 12,
        TokenSymbol::BCG => 18,
        TokenSymbol::KAR => 12,
        TokenSymbol::KUSD => 12,
        TokenSymbol::KSM => 12,
        TokenSymbol::LKSM => 12,
        TokenSymbol::SDN => 18,
        TokenSymbol::KILT => 15,
    }
}

/// The display name of a token tag.
pub open spec fn spec_token_name(s: TokenSymbol) -> &'static str {
    match s {
        TokenSymbol::ACA => "Acala",
        TokenSymbol::AUSD => "Acala Dollar",
        TokenSymbol::DOT => "Polkadot",
        TokenSymbol::LDOT => "Liquid DOT",
        TokenSymbol::XBTC => "ChainX BTC",
        TokenSymbol::RENBTC => "Ren Protocol BTC",
        TokenSymbol::POLKABTC => "PolkaBTC",
        TokenSymbol::PLM => "Plasm",
        TokenSymbol::PHA => "Phala",
        TokenSymbol::HDT => "HydraDX",
        TokenSymbol::BCG => "Bit.Country",
        TokenSymbol::KAR => "Karura",
        TokenSymbol::KUSD => "Karura Dollar",
        TokenSymbol::KSM => "Kusama",
        TokenSymbol::LKSM => "Liquid KSM",
        TokenSymbol::SDN => "Shiden",
        TokenSymbol::KILT => "Kilt",
    }
}

/// All token tags in declaration order (codes strictly increasing).
pub open spec fn spec_all_symbols() -> Seq<TokenSymbol> {
    seq![
        TokenSymbol::ACA,
        TokenSymbol::AUSD,
        TokenSymbol::DOT,
        TokenSymbol::LDOT,
        TokenSymbol::XBTC,
        TokenSymbol::RENBTC,
        TokenSymbol::POLKABTC,
        TokenSymbol::PLM,
        TokenSymbol::PHA,
        TokenSymbol::HDT,
        TokenSymbol::BCG,
        TokenSymbol::KAR,
        TokenSymbol::KUSD,
        TokenSymbol::KSM,
        TokenSymbol::LKSM,
        TokenSymbol::SDN,
        TokenSymbol::KILT,
    ]
}

/// The symbol string of a token tag, as bytes.
pub open spec fn spec_symbol_bytes(s: TokenSymbol) -> Seq<u8> {
    match s {
        TokenSymbol::ACA => seq!['A' as u8, 'C' as u8, 'A' as u8],
        TokenSymbol::AUSD => seq!['A' as u8, 'U' as u8, 'S' as u8, 'D' as u8],
        TokenSymbol::DOT => seq!['D' as u8, 'O' as u8, 'T' as u8],
        TokenSymbol::LDOT => seq!['L' as u8, 'D' as u8, 'O' as u8, 'T' as u8],
        TokenSymbol::XBTC => seq!['X' as u8, 'B' as u8, 'T' as u8, 'C' as u8],
        TokenSymbol::RENBTC => seq![
            'R' as u8,
            'E' as u8,
            'N' as u8,
            'B' as u8,
            'T' as u8,
            'C' as u8,
        ],
        TokenSymbol::POLKABTC => seq![
            'P' as u8,
            'O' as u8,
            'L' as u8,
            'K' as u8,
            'A' as u8,
            'B' as u8,
            'T' as u8,
            'C' as u8,
        ],
        TokenSymbol::PLM => seq!['P' as u8, 'L' as u8, 'M' as u8],
        TokenSymbol::PHA => seq!['P' as u8, 'H' as u8, 'A' as u8],
        TokenSymbol::HDT => seq!['H' as u8, 'D' as u8, 'T' as u8],
        TokenSymbol::BCG => seq!['B' as u8, 'C' as u8, 'G' as u8],
        TokenSymbol::KAR => seq!['K' as u8, 'A' as u8, 'R' as u8],
        TokenSymbol::KUSD => seq!['K' as u8, 'U' as u8, 'S' as u8, 'D' as u8],
        TokenSymbol::KSM => seq!['K' as u8, 'S' as u8, 'M' as u8],
        TokenSymbol::LKSM => seq!['L' as u8, 'K' as u8, 'S' as u8, 'M' as u8],
        TokenSymbol::SDN => seq!['S' as u8, 'D' as u8, 'N' as u8],
        TokenSymbol::KILT => seq!['K' as u8, 'I' as u8, 'L' as u8, 'T' as u8],
    }
}

/// The token tag whose symbol string a byte sequence spells, if any,
/// trying the tags in declaration order.
pub open spec fn spec_symbol_of_bytes(v: Seq<u8>) -> Option<TokenSymbol> {
    if v == spec_symbol_bytes(TokenSymbol::ACA) {
        Some(TokenSymbol::ACA)
    } else if v == spec_symbol_bytes(TokenSymbol::AUSD) {
        Some(TokenSymbol::AUSD)
    } else if v == spec_symbol_bytes(TokenSymbol::DOT) {
        Some(TokenSymbol::DOT)
    } else if v == spec_symbol_bytes(TokenSymbol::LDOT) {
        Some(TokenSymbol::LDOT)
    } else if v == spec_symbol_bytes(TokenSymbol::XBTC) {
        Some(TokenSymbol::XBTC)
    } else if v == spec_symbol_bytes(TokenSymbol::RENBTC) {
        Some(TokenSymbol::RENBTC)
    } else if v == spec_symbol_bytes(TokenSymbol::POLKABTC) {
        Some(TokenSymbol::POLKABTC)
    } else if v == spec_symbol_bytes(TokenSymbol::PLM) {
        Some(TokenSymbol::PLM)
    } else if v == spec_symbol_bytes(TokenSymbol::PHA) {
        Some(TokenSymbol::PHA)
    } else if v == spec_symbol_bytes(TokenSymbol::HDT) {
        Some(TokenSymbol::HDT)
    } else if v == spec_symbol_bytes(TokenSymbol::BCG) {
        Some(TokenSymbol::BCG)
    } else if v == spec_symbol_bytes(TokenSymbol::KAR) {
        Some(TokenSymbol::KAR)
    } else if v == spec_symbol_bytes(TokenSymbol::KUSD) {
        Some(TokenSymbol::KUSD)
    } else if v == spec_symbol_bytes(TokenSymbol::KSM) {
        Some(TokenSymbol::KSM)
    } else if v == spec_symbol_bytes(TokenSymbol::LKSM) {
        Some(TokenSymbol::LKSM)
    } else if v == spec_symbol_bytes(TokenSymbol::SDN) {
        Some(TokenSymbol::SDN)
    } else if v == spec_symbol_bytes(TokenSymbol::KILT) {
        Some(TokenSymbol::KILT)
    } else {
        None
    }
}

/// The `(symbol string, decimals)` record of every tag, in declaration order.
pub open spec fn spec_token_info() -> Seq<(&'static str, u32)> {
    seq![
        ("ACA", 12u32),
        ("AUSD", 12u32),
        ("DOT", 10u32),
        ("LDOT", 10u32),
        ("XBTC", 8u32),
        ("RENBTC", 8u32),
        ("POLKABTC", 8u32),
        ("PLM", 18u32),
        ("PHA", 12u32),
        ("HDT", 12u32),
        ("BCG", 18u32),
        ("KAR", 12u32),
        ("KUSD", 12u32),
        ("KSM", 12u32),
        ("LKSM", 12u32),
        ("SDN", 18u32),
        ("KILT", 15u32),
    ]
}

impl TokenSymbol {
    /// The stable wire code of this tag.
    pub fn code(&self) -> (r: u8)
        ensures
            r == spec_token_code(*self),
    {
        match *self {
            TokenSymbol::ACA => 0,
            TokenSymbol::AUSD => 1,
            TokenSymbol::DOT => 2,
            TokenSymbol::LDOT => 3,
            TokenSymbol::XBTC => 4,
            TokenSymbol::RENBTC => 5,
            TokenSymbol::POLKABTC => 6,
            TokenSymbol::PLM => 7,
            TokenSymbol::PHA => 8,
            TokenSymbol::HDT => 9,
            TokenSymbol::BCG => 11,
            TokenSymbol::KAR => 128,
            TokenSymbol::KUSD => 129,
            TokenSymbol::KSM => 130,
            TokenSymbol::LKSM => 131,
            TokenSymbol::SDN => 135,
            TokenSymbol::KILT => 138,
        }
    }

    /// Look a code up in the registry: the matching tag for an assigned
    /// code, `UnknownSymbolCode` for a reserved or unassigned one.
    pub fn try_from_code(c: u8) -> (r: Result<TokenSymbol, DecodeError>)
        ensures
            spec_code_assigned(c) ==> r == Ok::<TokenSymbol, DecodeError>(spec_symbol_of_code(c)),
            !spec_code_assigned(c) ==> r == Err::<TokenSymbol, DecodeError>(
                DecodeError::UnknownSymbolCode,
            ),
    {
        match c {
            0 => Ok(TokenSymbol::ACA),
            1 => Ok(TokenSymbol::AUSD),
            2 => Ok(TokenSymbol::DOT),
            3 => Ok(TokenSymbol::LDOT),
            4 => Ok(TokenSymbol::XBTC),
            5 => Ok(TokenSymbol::RENBTC),
            6 => Ok(TokenSymbol::POLKABTC),
            7 => Ok(TokenSymbol::PLM),
            8 => Ok(TokenSymbol::PHA),
            9 => Ok(TokenSymbol::HDT),
            11 => Ok(TokenSymbol::BCG),
            128 => Ok(TokenSymbol::KAR),
            129 => Ok(TokenSymbol::KUSD),
            130 => Ok(TokenSymbol::KSM),
            131 => Ok(TokenSymbol::LKSM),
            135 => Ok(TokenSymbol::SDN),
            138 => Ok(TokenSymbol::KILT),
            _ => Err(DecodeError::UnknownSymbolCode),
        }
    }

    /// The decimal-precision value of this tag.
    pub fn decimals(&self) -> (r: u8)
        ensures
            r == spec_token_decimals(*self),
    {
        match *self {
            TokenSymbol::ACA => 12,
            TokenSymbol::AUSD => 12,
            TokenSymbol::DOT => 10,
            TokenSymbol::LDOT => 10,
            TokenSymbol::XBTC => 8,
            TokenSymbol::RENBTC => 8,
            TokenSymbol::POLKABTC => 8,
            TokenSymbol::PLM => 18,
            TokenSymbol::PHA => 12,
            TokenSymbol::HDT => 12,
            TokenSymbol::BCG => 18,
            TokenSymbol::KAR => 12,
            TokenSymbol::KUSD => 12,
            TokenSymbol::KSM => 12,
            TokenSymbol::LKSM => 12,
            TokenSymbol::SDN => 18,
            TokenSymbol::KILT => 15,
        }
    }

    /// The display name of this tag.
    pub fn name(&self) -> (r: &'static str)
        ensures
            r == spec_token_name(*self),
    {
        match *self {
            TokenSymbol::ACA => "Acala",
            TokenSymbol::AUSD => "Acala Dollar",
            TokenSymbol::DOT => "Polkadot",
            TokenSymbol::LDOT => "Liquid DOT",
            TokenSymbol::XBTC => "ChainX BTC",
            TokenSymbol::RENBTC => "Ren Protocol BTC",
            TokenSymbol::POLKABTC => "PolkaBTC",
            TokenSymbol::PLM => "Plasm",
            TokenSymbol::PHA => "Phala",
            TokenSymbol::HDT => "HydraDX",
            TokenSymbol::BCG => "Bit.Country",
            TokenSymbol::KAR => "Karura",
            TokenSymbol::KUSD => "Karura Dollar",
            TokenSymbol::KSM => "Kusama",
            TokenSymbol::LKSM => "Liquid KSM",
            TokenSymbol::SDN => "Shiden",
            TokenSymbol::KILT => "Kilt",
        }
    }

    /// All token tags, in declaration order.
    pub fn all() -> (r: Vec<TokenSymbol>)
        ensures
            r@ == spec_all_symbols(),
    {
        let mut v: Vec<TokenSymbol> = Vec::new();
        v.push(TokenSymbol::ACA);
        v.push(TokenSymbol::AUSD);
        v.push(TokenSymbol::DOT);
        v.push(TokenSymbol::LDOT);
        v.push(TokenSymbol::XBTC);
        v.push(TokenSymbol::RENBTC);
        v.push(TokenSymbol::POLKABTC);
        v.push(TokenSymbol::PLM);
        v.push(TokenSymbol::PHA);
        v.push(TokenSymbol::HDT);
        v.push(TokenSymbol::BCG);
        v.push(TokenSymbol::KAR);
        v.push(TokenSymbol::KUSD);
        v.push(TokenSymbol::KSM);
        v.push(TokenSymbol::LKSM);
        v.push(TokenSymbol::SDN);
        v.push(TokenSymbol::KILT);
        proof {
            assert(v@ =~= spec_all_symbols());
        }
        v
    }

    /// The `(symbol string, decimals)` record of every tag, in declaration
    /// order, for consumption by external tooling.
    pub fn get_info() -> (r: Vec<(&'static str, u32)>)
        ensures
            r@ == spec_token_info(),
    {
        let mut v: Vec<(&'static str, u32)> = Vec::new();
        v.push(("ACA", 12));
        v.push(("AUSD", 12));
        v.push(("DOT", 10));
        v.push(("LDOT", 10));
        v.push(("XBTC", 8));
        v.push(("RENBTC", 8));
        v.push(("POLKABTC", 8));
        v.push(("PLM", 18));
        v.push(("PHA", 12));
        v.push(("HDT", 12));
        v.push(("BCG", 18));
        v.push(("KAR", 12));
        v.push(("KUSD", 12));
        v.push(("KSM", 12));
        v.push(("LKSM", 12));
        v.push(("SDN", 18));
        v.push(("KILT", 15));
        proof {
            assert(v@ =~= spec_token_info());
        }
        v
    }
}

/// Two byte slices hold the same bytes.
fn bytes_eq(a: &[u8], b: &[u8]) -> (r: bool)
    ensures
        r == (a@ == b@),
{
    if a.len() != b.len() {
        assert(a@.len() != b@.len());
        return false;
    }
    let mut i: usize = 0;
    while i < a.len()
        invariant
            i <= a@.len(),
            a@.len() == b@.len(),
            forall|j: int| 0 <= j < i ==> a@[j] == b@[j],
        decreases a@.len() - i,
    {
        if a[i] != b[i] {
            assert(a@ != b@);
            return false;
        }
        i += 1;
    }
    proof {
        assert(a@ =~= b@);
    }
    true
}

/// A byte slice spells the symbol string of the given tag.
fn matches_symbol(v: &[u8], s: TokenSymbol) -> (r: bool)
    ensures
        r == (v@ == spec_symbol_bytes(s)),
{
    match s {
        TokenSymbol::ACA => {
            let lit = ['A' as u8, 'C' as u8, 'A' as u8];
            let r = bytes_eq(v, &lit);
            proof {
                assert(lit@ =~= spec_symbol_bytes(s));
            }
            r
        },
        TokenSymbol::AUSD => {
            let lit = ['A' as u8, 'U' as u8, 'S' as u8, 'D' as u8];
            let r = bytes_eq(v, &lit);
            proof {
                assert(lit@ =~= spec_symbol_bytes(s));
            }
            r
        },
        TokenSymbol::DOT => {
            let lit = ['D' as u8, 'O' as u8, 'T' as u8];
            let r = bytes_eq(v, &lit);
            proof {
                assert(lit@ =~= spec_symbol_bytes(s));
            }
            r
        },
        TokenSymbol::LDOT => {
            let lit = ['L' as u8, 'D' as u8, 'O' as u8, 'T' as u8];
            let r = bytes_eq(v, &lit);
            proof {
                assert(lit@ =~= spec_symbol_bytes(s));
            }
            r
        },
        TokenSymbol::XBTC => {
            let lit = ['X' as u8, 'B' as u8, 'T' as u8, 'C' as u8];
            let r = bytes_eq(v, &lit);
            proof {
                assert(lit@ =~= spec_symbol_bytes(s));
            }
            r
        },
        TokenSymbol::RENBTC => {
            let lit = ['R' as u8, 'E' as u8, 'N' as u8, 'B' as u8, 'T' as u8, 'C' as u8];
            let r = bytes_eq(v, &lit);
            proof {
                assert(lit@ =~= spec_symbol_bytes(s));
            }
            r
        },
        TokenSymbol::POLKABTC => {
            let lit = [
                'P' as u8,
                'O' as u8,
                'L' as u8,
                'K' as u8,
                'A' as u8,
                'B' as u8,
                'T' as u8,
                'C' as u8,
            ];
            let r = bytes_eq(v, &lit);
            proof {
                assert(lit@ =~= spec_symbol_bytes(s));
            }
            r
        },
        TokenSymbol::PLM => {
            let lit = ['P' as u8, 'L' as u8, 'M' as u8];
            let r = bytes_eq(v, &lit);
            proof {
                assert(lit@ =~= spec_symbol_bytes(s));
            }
            r
        },
        TokenSymbol::PHA => {
            let lit = ['P' as u8, 'H' as u8, 'A' as u8];
            let r = bytes_eq(v, &lit);
            proof {
                assert(lit@ =~= spec_symbol_bytes(s));
            }
            r
        },
        TokenSymbol::HDT => {
            let lit = ['H' as u8, 'D' as u8, 'T' as u8];
            let r = bytes_eq(v, &lit);
            proof {
                assert(lit@ =~= spec_symbol_bytes(s));
            }
            r
        },
        TokenSymbol::BCG => {
            let lit = ['B' as u8, 'C' as u8, 'G' as u8];
            let r = bytes_eq(v, &lit);
            proof {
                assert(lit@ =~= spec_symbol_bytes(s));
            }
            r
        },
        TokenSymbol::KAR => {
            let lit = ['K' as u8, 'A' as u8, 'R' as u8];
            let r = bytes_eq(v, &lit);
            proof {
                assert(lit@ =~= spec_symbol_bytes(s));
            }
            r
        },
        TokenSymbol::KUSD => {
            let lit = ['K' as u8, 'U' as u8, 'S' as u8, 'D' as u8];
            let r = bytes_eq(v, &lit);
            proof {
                assert(lit@ =~= spec_symbol_bytes(s));
            }
            r
        },
        TokenSymbol::KSM => {
            let lit = ['K' as u8, 'S' as u8, 'M' as u8];
            let r = bytes_eq(v, &lit);
            proof {
                assert(lit@ =~= spec_symbol_bytes(s));
            }
            r
        },
        TokenSymbol::LKSM => {
            let lit = ['L' as u8, 'K' as u8, 'S' as u8, 'M' as u8];
            let r = bytes_eq(v, &lit);
            proof {
                assert(lit@ =~= spec_symbol_bytes(s));
            }
            r
        },
        TokenSymbol::SDN => {
            let lit = ['S' as u8, 'D' as u8, 'N' as u8];
            let r = bytes_eq(v, &lit);
            proof {
                assert(lit@ =~= spec_symbol_bytes(s));
            }
            r
        },
        TokenSymbol::KILT => {
            let lit = ['K' as u8, 'I' as u8, 'L' as u8, 'T' as u8];
            let r = bytes_eq(v, &lit);
            proof {
                assert(lit@ =~= spec_symbol_bytes(s));
            }
            r
        },
    }
}

impl TokenSymbol {
    /// Look a symbol string up in the registry: the tag whose symbol the
    /// bytes spell, or `UnknownSymbolCode` when no tag matches.
    pub fn try_from_symbol_bytes(v: &[u8]) -> (r: Result<TokenSymbol, DecodeError>)
        ensures
            spec_symbol_of_bytes(v@) matches Some(s) ==> r == Ok::<TokenSymbol, DecodeError>(s),
            spec_symbol_of_bytes(v@) is None ==> r == Err::<TokenSymbol, DecodeError>(
                DecodeError::UnknownSymbolCode,
            ),
    {
        if matches_symbol(v, TokenSymbol::ACA) {
            Ok(TokenSymbol::ACA)
        } else if matches_symbol(v, TokenSymbol::AUSD) {
            Ok(TokenSymbol::AUSD)
        } else if matches_symbol(v, TokenSymbol::DOT) {
            Ok(TokenSymbol::DOT)
        } else if matches_symbol(v, TokenSymbol::LDOT) {
            Ok(TokenSymbol::LDOT)
        } else if matches_symbol(v, TokenSymbol::XBTC) {
            Ok(TokenSymbol::XBTC)
        } else if matches_symbol(v, TokenSymbol::RENBTC) {
            Ok(TokenSymbol::RENBTC)
        } else if matches_symbol(v, TokenSymbol::POLKABTC) {
            Ok(TokenSymbol::POLKABTC)
        } else if matches_symbol(v, TokenSymbol::PLM) {
            Ok(TokenSymbol::PLM)
        } else if matches_symbol(v, TokenSymbol::PHA) {
            Ok(TokenSymbol::PHA)
        } else if matches_symbol(v, TokenSymbol::HDT) {
            Ok(TokenSymbol::HDT)
        } else if matches_symbol(v, TokenSymbol::BCG) {
            Ok(TokenSymbol::BCG)
        } else if matches_symbol(v, TokenSymbol::KAR) {
            Ok(TokenSymbol::KAR)
        } else if matches_symbol(v, TokenSymbol::KUSD) {
            Ok(TokenSymbol::KUSD)
        } else if matches_symbol(v, TokenSymbol::KSM) {
            Ok(TokenSymbol::KSM)
        } else if matches_symbol(v, TokenSymbol::LKSM) {
            Ok(TokenSymbol::LKSM)
        } else if matches_symbol(v, TokenSymbol::SDN) {
            Ok(TokenSymbol::SDN)
        } else if matches_symbol(v, TokenSymbol::KILT) {
            Ok(TokenSymbol::KILT)
        } else {
            Err(DecodeError::UnknownSymbolCode)
        }
    }
}

/// Decoding an assigned code and re-encoding the resulting tag yields the
/// code again: the code assignment is injective on the registry.
pub proof fn lemma_code_round_trip(c: u8)
    requires
        spec_code_assigned(c),
    ensures
        spec_token_code(spec_symbol_of_code(c)) == c,
{
}

/// Every tag's code is assigned, and looking that code up yields the tag
/// again.
pub proof fn lemma_symbol_round_trip(s: TokenSymbol)
    ensures
        spec_code_assigned(spec_token_code(s)),
        spec_symbol_of_code(spec_token_code(s)) == s,
{
}

} // verus!
