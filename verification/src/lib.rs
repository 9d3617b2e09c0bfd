//! Compact, bidirectional identifier codec for assets on a multi-asset
//! ledger that must also be addressable inside an embedded contract
//! execution environment sharing a 32-byte address space.
//!
//! The crate defines the asset identifier data model (a closed registry of
//! built-in token tags, single-level trading-pair shares, and external
//! contract addresses), a precision resolver, and the binary codec between
//! identifiers, a fixed 32-byte address-shaped form, and a compact 4-byte
//! numeric index.

pub mod codec;
pub mod currency;
pub mod registry;

use vstd::prelude::*;

verus! {

/// Why a decode operation rejected its input.
#[derive(Clone, Copy, PartialEq, Eq, Debug)]
pub enum DecodeError {
    /// An integer code does not correspond to any assigned token tag.
    UnknownSymbolCode,
    /// A 32-byte input does not match any recognized discriminator or
    /// padding shape.
    MalformedEncoding,
}

} // verus!
