//! The binary codec: the fixed 32-byte address-shaped representation of an
//! identifier and the compact 4-byte numeric index.
//!
//! The 32-byte layout (big-endian, byte indices 0 to 31) is a binary
//! compatibility contract with externally deployed contracts and must never
//! change without an explicit migration:
//!
//! - bytes 0 to 22 are zero for the token and pair variants;
//! - byte 23 is the discriminator, `0` for a token and `1` for a pair;
//! - for a token, bytes 24 to 26 and 28 to 31 are zero and byte 27 holds
//!   the token code;
//! - for a pair, each side occupies four bytes (24 to 27 and 28 to 31): a
//!   token side is three zero bytes and its code, a contract side the first
//!   four bytes of its address;
//! - for a contract address, bytes 0 to 11 are zero and bytes 12 to 31 hold
//!   the raw 20-byte address verbatim.
//!
//! Encoding is total; decoding is partial and rejects every byte pattern
//! that matches none of the recognized shapes. The decoder reconstructs
//! only token-kind pair sides out of the 32-byte form: a pair encoded with
//! a contract side does not round-trip.

use crate::currency::CurrencyId;
use crate::currency::DexShare;
use crate::registry::spec_code_assigned;
use crate::registry::spec_symbol_of_code;
use crate::registry::spec_token_code;
use crate::registry::TokenSymbol;
use crate::DecodeError;
use vstd::prelude::*;

verus! {

/// Every byte of `v` with index in `from .. to` is zero.
pub open spec fn zero_range(v: Seq<u8>, from: int, to: int) -> bool {
    forall|i: int| from <= i < to ==> v[i] == 0
}

/// The four bytes a pair side occupies inside the 32-byte form: a token
/// side is three zero bytes and the token code, a contract side the first
/// four bytes of its address.
pub open spec fn spec_share_bytes(s: DexShare) -> Seq<u8> {
    match s {
        DexShare::Token(t) => seq![0u8, 0u8, 0u8, spec_token_code(t)],
        DexShare::Erc20(address) => address@.subrange(0, 4),
    }
}

/// Byte `i` of the 32-byte encoding of `c`.
pub open spec fn spec_encode32_byte(c: CurrencyId, i: int) -> u8 {
    match c {
        CurrencyId::Token(t) => if i == 27 {
            spec_token_code(t)
        } else {
            0u8
        },
        CurrencyId::DexShare(left, right) => if i == 23 {
            1u8
        } else if 24 <= i < 28 {
            spec_share_bytes(left)[i - 24]
        } else if 28 <= i < 32 {
            spec_share_bytes(right)[i - 28]
        } else {
            0u8
        },
        CurrencyId::Erc20(address) => if 12 <= i < 32 {
            address@[i - 12]
        } else {
            0u8
        },
    }
}

/// The 32-byte encoding of an identifier.
pub open spec fn spec_encode32(c: CurrencyId) -> Seq<u8> {
    Seq::new(32, |i: int| spec_encode32_byte(c, i))
}

/// The 4-byte index of one pair side standing alone: a token side is its
/// code, a contract side the first four address bytes read big-endian.
pub open spec fn spec_share_u32(s: DexShare) -> u32 {
    match s {
        DexShare::Token(t) => spec_token_code(t) as u32,
        DexShare::Erc20(address) => ((address@[0] as int) * 0x1000000 + (address@[1] as int)
            * 0x10000 + (address@[2] as int) * 0x100 + (address@[3] as int)) as u32,
    }
}

/// The 4-byte numeric index of an identifier.
///
/// For a pair, both sides are written into the same four bytes and the
/// right side fully overwrites the left, so only the right side survives;
/// for a contract address, the address is truncated to its first four
/// bytes. Both are documented, intentionally lossy placeholders; no decode
/// path exists for this index.
pub open spec fn spec_encode_u32(c: CurrencyId) -> u32 {
    match c {
        CurrencyId::Token(t) => spec_token_code(t) as u32,
        CurrencyId::DexShare(_, right) => spec_share_u32(right),
        CurrencyId::Erc20(address) => spec_share_u32(DexShare::Erc20(address)),
    }
}

/// What the 32-byte decoder returns on input `v`, as a relation between the
/// input bytes and the result. The relation is deterministic: it pins the
/// result down for every input.
pub open spec fn spec_decode32_matches(v: Seq<u8>, r: Result<CurrencyId, DecodeError>) -> bool {
    if zero_range(v, 0, 23) {
        if v[23] == 0 {
            // Token shape: bytes 24 to 26 and 28 to 31 must be zero.
            if zero_range(v, 24, 27) && zero_range(v, 28, 32) {
                if spec_code_assigned(v[27]) {
                    r == Ok::<CurrencyId, DecodeError>(
                        CurrencyId::Token(spec_symbol_of_code(v[27])),
                    )
                } else {
                    r == Err::<CurrencyId, DecodeError>(DecodeError::UnknownSymbolCode)
                }
            } else {
                r == Err::<CurrencyId, DecodeError>(DecodeError::MalformedEncoding)
            }
        } else if v[23] == 1 {
            // Pair shape: only token-kind sides are reconstructed, the
            // left side first.
            if zero_range(v, 24, 27) {
                if spec_code_assigned(v[27]) {
                    if zero_range(v, 28, 31) {
                        if spec_code_assigned(v[31]) {
                            r == Ok::<CurrencyId, DecodeError>(
                                CurrencyId::DexShare(
                                    DexShare::Token(spec_symbol_of_code(v[27])),
                                    DexShare::Token(spec_symbol_of_code(v[31])),
                                ),
                            )
                        } else {
                            r == Err::<CurrencyId, DecodeError>(DecodeError::UnknownSymbolCode)
                        }
                    } else {
                        r == Err::<CurrencyId, DecodeError>(DecodeError::MalformedEncoding)
                    }
                } else {
                    r == Err::<CurrencyId, DecodeError>(DecodeError::UnknownSymbolCode)
                }
            } else {
                r == Err::<CurrencyId, DecodeError>(DecodeError::MalformedEncoding)
            }
        } else {
            r == Err::<CurrencyId, DecodeError>(DecodeError::MalformedEncoding)
        }
    } else if zero_range(v, 0, 12) {
        // Contract-address shape: the 20 address bytes verbatim.
        r matches Ok(c) && c matches CurrencyId::Erc20(address) && address@ == v.subrange(12, 32)
    } else {
        r == Err::<CurrencyId, DecodeError>(DecodeError::MalformedEncoding)
    }
}

/// The identifiers whose 32-byte encoding decodes back to them: everything
/// except a pair with a contract side (the decoder reconstructs only
/// token-kind sides) and a contract address whose first eleven bytes are
/// all zero (its encoding collides with the token or pair shapes).
pub open spec fn spec_round_trippable(c: CurrencyId) -> bool {
    match c {
        CurrencyId::Token(_) => true,
        CurrencyId::DexShare(left, right) => left is Token && right is Token,
        CurrencyId::Erc20(address) => !zero_range(address@, 0, 11),
    }
}

/// Every byte of `v[from .. to]` is zero.
fn range_all_zero(v: &[u8; 32], from: usize, to: usize) -> (r: bool)
    requires
        from <= to <= 32,
    ensures
        r == zero_range(v@, from as int, to as int),
{
    let mut i = from;
    while i < to
        invariant
            from <= i <= to <= 32,
            forall|j: int| from <= j < i ==> v@[j] == 0,
        decreases to - i,
    {
        if v[i] != 0 {
            return false;
        }
        i += 1;
    }
    true
}

/// The four bytes a pair side occupies inside the 32-byte form.
fn share_bytes(s: &DexShare) -> (r: [u8; 4])
    ensures
        r@ == spec_share_bytes(*s),
{
    match *s {
        DexShare::Token(t) => {
            let r = [0u8, 0u8, 0u8, t.code()];
            proof {
                assert(r@ =~= spec_share_bytes(*s));
            }
            r
        },
        DexShare::Erc20(address) => {
            let r = [address[0], address[1], address[2], address[3]];
            proof {
                assert(r@ =~= spec_share_bytes(*s));
            }
            r
        },
    }
}

impl CurrencyId {
    /// Encode this identifier into its 32-byte address-shaped form.
    /// Encoding is total: every identifier has exactly one encoding.
    pub fn encode32(&self) -> (r: [u8; 32])
        ensures
            r@ == spec_encode32(*self),
    {
        let mut bytes = [0u8; 32];
        match *self {
            CurrencyId::Token(t) => {
                bytes[27] = t.code();
            },
            CurrencyId::DexShare(left, right) => {
                bytes[23] = 1;
                let lb = share_bytes(&left);
                bytes[24] = lb[0];
                bytes[25] = lb[1];
                bytes[26] = lb[2];
                bytes[27] = lb[3];
                let rb = share_bytes(&right);
                bytes[28] = rb[0];
                bytes[29] = rb[1];
                bytes[30] = rb[2];
                bytes[31] = rb[3];
            },
            CurrencyId::Erc20(address) => {
                let mut i: usize = 0;
                while i < 20
                    invariant
                        i <= 20,
                        forall|j: int| 0 <= j < i ==> bytes@[12 + j] == address@[j],
                        forall|j: int| 0 <= j < 12 ==> bytes@[j] == 0,
                        forall|j: int| 12 + i <= j < 32 ==> bytes@[j] == 0,
                    decreases 20 - i,
                {
                    bytes[12 + i] = address[i];
                    i += 1;
                }
            },
        }
        proof {
            assert(bytes@ =~= spec_encode32(*self));
        }
        bytes
    }

    /// Decode a 32-byte value back into an identifier. Decoding is
    /// partial: any input not matching one of the recognized shapes is
    /// rejected, an unassigned token code with `UnknownSymbolCode` and an
    /// unrecognized discriminator or padding shape with
    /// `MalformedEncoding`.
    ///
    /// Decoding the encoding of any round-trippable identifier yields that
    /// identifier back.
    pub fn decode32(v: [u8; 32]) -> (r: Result<Self, DecodeError>)
        ensures
            spec_decode32_matches(v@, r),
            forall|c: CurrencyId|
                spec_round_trippable(c) && v@ == spec_encode32(c) ==> r == Ok::<
                    CurrencyId,
                    DecodeError,
                >(c),
    {
        let r = Self::decode32_inner(v);
        proof {
            assert forall|c: CurrencyId|
                spec_round_trippable(c) && v@ == spec_encode32(c) implies r == Ok::<
                CurrencyId,
                DecodeError,
            >(c) by {
                lemma_encode32_decode32(c, r);
            }
        }
        r
    }

    /// The decoder's case analysis over the recognized shapes.
    fn decode32_inner(v: [u8; 32]) -> (r: Result<Self, DecodeError>)
        ensures
            spec_decode32_matches(v@, r),
    {
        if range_all_zero(&v, 0, 23) {
            if v[23] == 0 {
                // Token shape.
                if range_all_zero(&v, 24, 27) && range_all_zero(&v, 28, 32) {
                    match TokenSymbol::try_from_code(v[27]) {
                        Ok(t) => Ok(CurrencyId::Token(t)),
                        Err(e) => Err(e),
                    }
                } else {
                    Err(DecodeError::MalformedEncoding)
                }
            } else if v[23] == 1 {
                // Pair shape, left side first.
                if !range_all_zero(&v, 24, 27) {
                    return Err(DecodeError::MalformedEncoding);
                }
                let left = match TokenSymbol::try_from_code(v[27]) {
                    Ok(t) => DexShare::Token(t),
                    Err(e) => {
                        return Err(e);
                    },
                };
                if !range_all_zero(&v, 28, 31) {
                    return Err(DecodeError::MalformedEncoding);
                }
                let right = match TokenSymbol::try_from_code(v[31]) {
                    Ok(t) => DexShare::Token(t),
                    Err(e) => {
                        return Err(e);
                    },
                };
                Ok(CurrencyId::DexShare(left, right))
            } else {
                Err(DecodeError::MalformedEncoding)
            }
        } else if range_all_zero(&v, 0, 12) {
            // Contract-address shape.
            let mut address = [0u8; 20];
            let mut i: usize = 0;
            while i < 20
                invariant
                    i <= 20,
                    forall|j: int| 0 <= j < i ==> address@[j] == v@[12 + j],
                decreases 20 - i,
            {
                address[i] = v[12 + i];
                i += 1;
            }
            proof {
                assert(address@ =~= v@.subrange(12, 32));
            }
            Ok(CurrencyId::Erc20(address))
        } else {
            Err(DecodeError::MalformedEncoding)
        }
    }

    /// Encode this identifier into its 4-byte numeric index. Total, and
    /// lossy for the pair and contract-address variants as documented on
    /// [`spec_encode_u32`].
    pub fn encode_u32(&self) -> (r: u32)
        ensures
            r == spec_encode_u32(*self),
    {
        match *self {
            CurrencyId::Token(t) => t.code() as u32,
            CurrencyId::DexShare(_, right) => share_u32(&right),
            CurrencyId::Erc20(address) => share_u32(&DexShare::Erc20(address)),
        }
    }
}

/// The 4-byte index of one pair side standing alone.
fn share_u32(s: &DexShare) -> (r: u32)
    ensures
        r == spec_share_u32(*s),
{
    match *s {
        DexShare::Token(t) => t.code() as u32,
        DexShare::Erc20(address) => (address[0] as u32) * 0x1000000 + (address[1] as u32) * 0x10000
            + (address[2] as u32) * 0x100 + (address[3] as u32),
    }
}

/// Decoding the 32-byte encoding of a round-trippable identifier yields
/// exactly that identifier: the 32-byte codec round-trips on every
/// identifier except a pair with a contract side and a contract address
/// whose first eleven bytes are all zero.
pub proof fn lemma_encode32_decode32(c: CurrencyId, r: Result<CurrencyId, DecodeError>)
    requires
        spec_round_trippable(c),
        spec_decode32_matches(spec_encode32(c), r),
    ensures
        r == Ok::<CurrencyId, DecodeError>(c),
{
    let v = spec_encode32(c);
    match c {
        CurrencyId::Token(t) => {
            crate::registry::lemma_symbol_round_trip(t);
            assert(zero_range(v, 0, 23));
            assert(v[23] == 0);
            assert(zero_range(v, 24, 27));
            assert(zero_range(v, 28, 32));
            assert(v[27] == spec_token_code(t));
        },
        CurrencyId::DexShare(left, right) => {
            let lt = left->Token_0;
            let rt = right->Token_0;
            crate::registry::lemma_symbol_round_trip(lt);
            crate::registry::lemma_symbol_round_trip(rt);
            assert(zero_range(v, 0, 23));
            assert(v[23] == 1);
            assert(v[24] == spec_share_bytes(left)[0]);
            assert(v[25] == spec_share_bytes(left)[1]);
            assert(v[26] == spec_share_bytes(left)[2]);
            assert(v[27] == spec_share_bytes(left)[3]);
            assert(zero_range(v, 24, 27));
            assert(v[27] == spec_token_code(lt));
            assert(v[28] == spec_share_bytes(right)[0]);
            assert(v[29] == spec_share_bytes(right)[1]);
            assert(v[30] == spec_share_bytes(right)[2]);
            assert(v[31] == spec_share_bytes(right)[3]);
            assert(zero_range(v, 28, 31));
            assert(v[31] == spec_token_code(rt));
        },
        CurrencyId::Erc20(address) => {
            let k = choose|k: int| 0 <= k < 11 && address@[k] != 0;
            assert(v[12 + k] == address@[k]);
            assert(!zero_range(v, 0, 23));
            assert(zero_range(v, 0, 12));
            let decoded = r->Ok_0->Erc20_0;
            assert(decoded =~= address) by {
                assert(decoded@ == v.subrange(12, 32));
                assert forall|i: int| 0 <= i < 20 implies decoded@[i] == address@[i] by {
                    assert(v.subrange(12, 32)[i] == v[12 + i]);
                }
            }
        },
    }
}

/// A 32-byte value whose first 23 bytes are zero but whose discriminator
/// byte is neither `0` nor `1` decodes to `MalformedEncoding`, as does any
/// value matching neither the token-or-pair prefix nor the
/// contract-address prefix.
pub proof fn lemma_unrecognized_shape_rejected(v: Seq<u8>, r: Result<CurrencyId, DecodeError>)
    requires
        spec_decode32_matches(v, r),
        zero_range(v, 0, 23) ==> (v[23] != 0 && v[23] != 1),
        !zero_range(v, 0, 23) ==> !zero_range(v, 0, 12),
    ensures
        r == Err::<CurrencyId, DecodeError>(DecodeError::MalformedEncoding),
{
}

} // verus!
