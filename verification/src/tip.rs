//! The asset-denominated transaction tip and its wire encoding.
//!
//! A tip carries an amount in the chain's base unit and, optionally, the
//! location of the asset the tip (and, through the chain's fee-charging
//! extension, the whole fee) is settled in. No asset means the native
//! currency pays. On the wire the amount travels compact-encoded, followed by
//! the optional location; encoding is total over the value space.

use vstd::prelude::*;
use crate::compact::{spec_compact, spec_compact_decode, compact_encode, compact_decode,
    lemma_compact_round_trip};
use crate::location::{AssetLocation, spec_encode_location, spec_decode_location, push_location,
    decode_location, lemma_location_round_trip};

verus! {

/// A tip payment made in the form of a specific asset.
#[derive(Clone, Copy, Debug, PartialEq, Eq)]
pub struct AssetTip {
    /// The tip amount, with no implicit scaling.
    pub tip: u128,
    /// The asset the tip is paid in; the native currency when absent.
    pub asset: Option<AssetLocation>,
}

/// The wire form of a tip: the compact amount, then the optional asset.
pub open spec fn spec_encode_tip(t: AssetTip) -> Seq<u8> {
    spec_compact(t.tip) + match t.asset {
        None => seq![0u8],
        Some(l) => seq![1u8] + spec_encode_location(l),
    }
}

/// Decodes a tip from an exact wire image: every byte must be accounted for.
pub open spec fn spec_decode_tip(s: Seq<u8>) -> Option<AssetTip> {
    match spec_compact_decode(s) {
        None => None,
        Some((amount, c)) => {
            if s.len() < c + 1 {
                None
            } else if s[c as int] == 0 {
                if s.len() == c + 1 {
                    Some(AssetTip { tip: amount, asset: None })
                } else {
                    None
                }
            } else if s[c as int] == 1 {
                match spec_decode_location(s.skip(c + 1 as int)) {
                    Some((l, cl)) => {
                        if s.len() == c + 1 + cl {
                            Some(AssetTip { tip: amount, asset: Some(l) })
                        } else {
                            None
                        }
                    },
                    None => None,
                }
            } else {
                None
            }
        },
    }
}

impl AssetTip {
    /// Create a new tip of the amount provided.
    pub fn new(amount: u128) -> (t: Self)
        ensures
            t == (AssetTip { tip: amount, asset: None }),
    {
        AssetTip { tip: amount, asset: None }
    }

    /// Designate the tip as being of a particular asset class.
    /// If this is not set, then the native currency is used.
    pub fn of_asset(self, asset: AssetLocation) -> (t: Self)
        ensures
            t == (AssetTip { tip: self.tip, asset: Some(asset) }),
    {
        AssetTip { tip: self.tip, asset: Some(asset) }
    }

    /// The canonical wire encoding of this tip.
    pub fn encode(&self) -> (out: Vec<u8>)
        ensures
            out@ == spec_encode_tip(*self),
    {
        let mut out = compact_encode(self.tip);
        match &self.asset {
            None => {
                out.push(0u8);
                proof {
                    assert(out@ =~= spec_encode_tip(*self));
                }
            },
            Some(l) => {
                out.push(1u8);
                push_location(&mut out, l);
                proof {
                    assert(out@ =~= spec_encode_tip(*self));
                }
            },
        }
        out
    }

    /// Reads a tip back from its exact wire image.
    pub fn decode(bytes: &Vec<u8>) -> (r: Option<AssetTip>)
        ensures
            r == spec_decode_tip(bytes@),
    {
        let ghost s = bytes@;
        proof {
            assert(s.skip(0) =~= s);
        }
        match compact_decode(bytes, 0) {
            None => None,
            Some((amount, c)) => {
                if bytes.len() < c + 1 {
                    None
                } else {
                    let marker = bytes[c];
                    if marker == 0 {
                        if bytes.len() == c + 1 {
                            Some(AssetTip { tip: amount, asset: None })
                        } else {
                            None
                        }
                    } else if marker == 1 {
                        match decode_location(bytes, c + 1) {
                            Some((l, cl)) => {
                                if bytes.len() == c + 1 + cl {
                                    Some(AssetTip { tip: amount, asset: Some(l) })
                                } else {
                                    None
                                }
                            },
                            None => None,
                        }
                    } else {
                        None
                    }
                }
            },
        }
    }
}

impl From<u128> for AssetTip {
    /// A bare amount converts to a tip paid in the native currency.
    fn from(n: u128) -> (t: AssetTip) {
        AssetTip::new(n)
    }
}

impl vstd::std_specs::convert::FromSpecImpl<u128> for AssetTip {
    open spec fn obeys_from_spec() -> bool {
        true
    }

    open spec fn from_spec(n: u128) -> AssetTip {
        AssetTip { tip: n, asset: None }
    }
}

/// A fresh tip names no asset, so it encodes for native payment; designating
/// an asset changes only the asset part of the encoding and builds a new
/// value, leaving the amount — and any copy taken of the original tip —
/// untouched.
pub proof fn lemma_tip_asset_choice(a: u128, r: AssetLocation)
    ensures
        (AssetTip { tip: a, asset: None }).asset is None,
        spec_encode_tip(AssetTip { tip: a, asset: None }) == spec_compact(a) + seq![0u8],
        spec_encode_tip(AssetTip { tip: a, asset: Some(r) }) == spec_compact(a) + seq![1u8]
            + spec_encode_location(r),
        (AssetTip { tip: a, asset: Some(r) }).tip == a,
{
    assert(spec_encode_tip(AssetTip { tip: a, asset: Some(r) }) =~= spec_compact(a) + seq![1u8]
        + spec_encode_location(r));
}

/// Decoding inverts encoding: every constructible tip survives the round trip
/// through its wire form unchanged.
pub proof fn lemma_tip_round_trip(t: AssetTip)
    ensures
        spec_decode_tip(spec_encode_tip(t)) == Some(t),
{
    let s = spec_encode_tip(t);
    match t.asset {
        None => {
            lemma_compact_round_trip(t.tip, seq![0u8]);
            let c = spec_compact(t.tip).len();
            assert(s[c as int] == 0u8);
            assert(s.len() == c + 1);
        },
        Some(l) => {
            lemma_compact_round_trip(t.tip, seq![1u8] + spec_encode_location(l));
            assert(s =~= spec_compact(t.tip) + (seq![1u8] + spec_encode_location(l)));
            let c = spec_compact(t.tip).len();
            assert(s[c as int] == 1u8);
            lemma_location_round_trip(l, Seq::empty());
            assert(s.skip(c + 1 as int) =~= spec_encode_location(l) + Seq::empty());
            assert(s.len() == c + 1 + spec_encode_location(l).len());
        },
    }
}

} // verus!
