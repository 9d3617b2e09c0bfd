//! The asset identifier data model: trading-pair shares and the top-level
//! tagged union over plain tokens, pair shares, and external contract
//! addresses, together with the decimal-precision resolver.

use crate::registry::spec_symbol_of_bytes;
use crate::registry::spec_token_decimals;
use crate::registry::TokenSymbol;
use crate::DecodeError;
use vstd::prelude::*;

verus! {

/// A 20-byte address of an externally-deployed contract-based asset.
pub type EvmAddress = [u8; 20];

/// One side of a trading-pair share: either a built-in token tag or an
/// externally-deployed contract address.
#[derive(Clone, Copy, PartialEq, Eq, Debug)]
pub enum DexShare {
    Token(TokenSymbol),
    Erc20(EvmAddress),
}

/// The top-level asset identifier: a plain registered token, an ordered
/// pair of trading-pair share sides, or a standalone contract address.
///
/// The two sides of a pair are not required to be distinct and are not
/// canonically ordered: swapping them yields a different identifier.
/// Nesting of pairs is structurally forbidden, since a side is a
/// [`DexShare`], never a pair itself.
#[derive(Clone, Copy, PartialEq, Eq, Debug)]
pub enum CurrencyId {
    Token(TokenSymbol),
    DexShare(DexShare, DexShare),
    Erc20(EvmAddress),
}

/// Resolve the precision of one pair side: a token side resolves through
/// the registry, a contract side to `None` (its precision is owned by an
/// external metadata collaborator).
pub open spec fn spec_share_decimals(s: DexShare) -> Option<u8> {
    match s {
        DexShare::Token(t) => Some(spec_token_decimals(t)),
        DexShare::Erc20(_) => None,
    }
}

/// The larger of two precision values.
pub open spec fn spec_max_u8(a: u8, b: u8) -> u8 {
    if a >= b {
        a
    } else {
        b
    }
}

/// Resolve the precision of an identifier. A pair share resolves to the
/// maximum of its two sides' precisions, so that a pool-share token is at
/// least as fine-grained as its most precise underlying asset; if either
/// side has no registry precision the whole result is `None`.
pub open spec fn spec_currency_decimals(c: CurrencyId) -> Option<u8> {
    match c {
        CurrencyId::Token(t) => Some(spec_token_decimals(t)),
        CurrencyId::DexShare(left, right) => match (
            spec_share_decimals(left),
            spec_share_decimals(right),
        ) {
            (Some(a), Some(b)) => Some(spec_max_u8(a, b)),
            _ => None,
        },
        CurrencyId::Erc20(_) => None,
    }
}

/// The identifier standing for one pair side on its own: a token side
/// becomes a plain token identifier, a contract side a contract identifier.
pub open spec fn spec_share_to_currency(s: DexShare) -> CurrencyId {
    match s {
        DexShare::Token(t) => CurrencyId::Token(t),
        DexShare::Erc20(address) => CurrencyId::Erc20(address),
    }
}

/// The pair side an identifier can stand for: `None` for a pair, which can
/// never itself be a side of another pair.
pub open spec fn spec_currency_to_share(c: CurrencyId) -> Option<DexShare> {
    match c {
        CurrencyId::Token(t) => Some(DexShare::Token(t)),
        CurrencyId::Erc20(address) => Some(DexShare::Erc20(address)),
        CurrencyId::DexShare(_, _) => None,
    }
}

/// Decompose a pair identifier into the two identifiers of its sides;
/// `None` for the other variants.
pub open spec fn spec_split_pair(c: CurrencyId) -> Option<(CurrencyId, CurrencyId)> {
    match c {
        CurrencyId::DexShare(left, right) => Some(
            (spec_share_to_currency(left), spec_share_to_currency(right)),
        ),
        _ => None,
    }
}

/// Compose two identifiers into a pair identifier; `None` as soon as either
/// input is itself a pair.
pub open spec fn spec_join_pair(a: CurrencyId, b: CurrencyId) -> Option<CurrencyId> {
    match (spec_currency_to_share(a), spec_currency_to_share(b)) {
        (Some(left), Some(right)) => Some(CurrencyId::DexShare(left, right)),
        _ => None,
    }
}

/// Resolution of a decimal-precision value for an asset identifier.
pub trait GetDecimals {
    /// The precision this value resolves to, if any.
    spec fn spec_decimals(&self) -> Option<u8>;

    /// Resolve the precision.
    fn decimals(&self) -> (r: Option<u8>)
        ensures
            r == self.spec_decimals(),
    ;
}

impl GetDecimals for CurrencyId {
    open spec fn spec_decimals(&self) -> Option<u8> {
        spec_currency_decimals(*self)
    }

    fn decimals(&self) -> (r: Option<u8>)
        ensures
            r == self.spec_decimals(),
    {
        match *self {
            CurrencyId::Token(t) => Some(t.decimals()),
            CurrencyId::DexShare(left, right) => {
                let decimals_0 = match left {
                    DexShare::Token(t) => Some(t.decimals()),
                    DexShare::Erc20(_) => None,
                };
                let decimals_1 = match right {
                    DexShare::Token(t) => Some(t.decimals()),
                    DexShare::Erc20(_) => None,
                };
                match (decimals_0, decimals_1) {
                    (Some(a), Some(b)) => Some(if a >= b { a } else { b }),
                    _ => None,
                }
            },
            CurrencyId::Erc20(_) => None,
        }
    }
}

impl CurrencyId {
    /// Whether this identifier is a plain registered token.
    pub fn is_token_currency_id(&self) -> (r: bool)
        ensures
            r == (*self is Token),
    {
        matches!(self, CurrencyId::Token(_))
    }

    /// Whether this identifier is a trading-pair share.
    pub fn is_dex_share_currency_id(&self) -> (r: bool)
        ensures
            r == (*self is DexShare),
    {
        matches!(self, CurrencyId::DexShare(_, _))
    }

    /// Whether this identifier is an external contract address.
    pub fn is_erc20_currency_id(&self) -> (r: bool)
        ensures
            r == (*self is Erc20),
    {
        matches!(self, CurrencyId::Erc20(_))
    }

    /// Decompose a pair identifier, reconstituting each side as a plain
    /// token or contract identifier. `None` for the other variants.
    pub fn split_dex_share_currency_id(&self) -> (r: Option<(Self, Self)>)
        ensures
            r == spec_split_pair(*self),
            *self is DexShare <==> r is Some,
    {
        match *self {
            CurrencyId::DexShare(left, right) => {
                let symbol_0 = match left {
                    DexShare::Token(token) => CurrencyId::Token(token),
                    DexShare::Erc20(address) => CurrencyId::Erc20(address),
                };
                let symbol_1 = match right {
                    DexShare::Token(token) => CurrencyId::Token(token),
                    DexShare::Erc20(address) => CurrencyId::Erc20(address),
                };
                Some((symbol_0, symbol_1))
            },
            _ => None,
        }
    }

    /// Compose two identifiers into a pair identifier. Succeeds exactly
    /// when both inputs are plain tokens or contract addresses, never when
    /// either is itself a pair.
    pub fn join_dex_share_currency_id(currency_id_0: Self, currency_id_1: Self) -> (r: Option<
        Self,
    >)
        ensures
            r == spec_join_pair(currency_id_0, currency_id_1),
            r is Some <==> (currency_id_0 !is DexShare && currency_id_1 !is DexShare),
    {
        let token_symbol_0 = match currency_id_0 {
            CurrencyId::Token(symbol) => DexShare::Token(symbol),
            CurrencyId::Erc20(address) => DexShare::Erc20(address),
            CurrencyId::DexShare(_, _) => {
                return None;
            },
        };
        let token_symbol_1 = match currency_id_1 {
            CurrencyId::Token(symbol) => DexShare::Token(symbol),
            CurrencyId::Erc20(address) => DexShare::Erc20(address),
            CurrencyId::DexShare(_, _) => {
                return None;
            },
        };
        Some(CurrencyId::DexShare(token_symbol_0, token_symbol_1))
    }

    /// Look a symbol string up in the registry: the plain token identifier
    /// of the tag whose symbol the bytes spell, or `UnknownSymbolCode` when
    /// no tag matches.
    pub fn try_from_symbol_bytes(v: &[u8]) -> (r: Result<Self, DecodeError>)
        ensures
            spec_symbol_of_bytes(v@) matches Some(s) ==> r == Ok::<CurrencyId, DecodeError>(
                CurrencyId::Token(s),
            ),
            spec_symbol_of_bytes(v@) is None ==> r == Err::<CurrencyId, DecodeError>(
                DecodeError::UnknownSymbolCode,
            ),
    {
        match TokenSymbol::try_from_symbol_bytes(v) {
            Ok(s) => Ok(CurrencyId::Token(s)),
            Err(e) => Err(e),
        }
    }
}

impl DexShare {
    /// The identifier this pair side stands for on its own.
    pub fn into_currency_id(self) -> (r: CurrencyId)
        ensures
            r == spec_share_to_currency(self),
    {
        match self {
            DexShare::Token(token) => CurrencyId::Token(token),
            DexShare::Erc20(address) => CurrencyId::Erc20(address),
        }
    }
}

/// Splitting the pair joined from two non-pair identifiers gives the two
/// identifiers back: composition and decomposition are mutual inverses on
/// valid input pairs.
pub proof fn lemma_split_join_pair(a: CurrencyId, b: CurrencyId)
    requires
        a !is DexShare,
        b !is DexShare,
    ensures
        spec_join_pair(a, b) matches Some(p) && spec_split_pair(p) == Some((a, b)),
{
}

/// Joining the two sides recovered from splitting a pair identifier gives
/// the pair identifier back.
pub proof fn lemma_join_split_pair(c: CurrencyId)
    requires
        c is DexShare,
    ensures
        spec_split_pair(c) matches Some(p) && spec_join_pair(p.0, p.1) == Some(c),
{
}

/// Composition fails as soon as either input is itself a pair: nesting is
/// impossible.
pub proof fn lemma_join_pair_rejects_pairs(a: CurrencyId, b: CurrencyId)
    requires
        a is DexShare || b is DexShare,
    ensures
        spec_join_pair(a, b) is None,
{
}

/// A pair of two registered tokens resolves to the maximum of the two
/// registry precisions.
pub proof fn lemma_pair_decimals_max(a: TokenSymbol, b: TokenSymbol)
    ensures
        spec_currency_decimals(CurrencyId::DexShare(DexShare::Token(a), DexShare::Token(b)))
            == Some(spec_max_u8(spec_token_decimals(a), spec_token_decimals(b))),
{
}

/// A pair with an external-contract side on either end has no registry
/// precision, whatever the other side is.
pub proof fn lemma_pair_decimals_external(left: DexShare, right: DexShare)
    requires
        left is Erc20 || right is Erc20,
    ensures
        spec_currency_decimals(CurrencyId::DexShare(left, right)) is None,
{
}

} // verus!
