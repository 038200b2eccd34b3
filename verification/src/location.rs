//! Asset locations: the structured path that names a fungible asset.
//!
//! An asset is either the chain's native currency (one step up from the local
//! scope, with an empty path) or an entry of the local assets module (a two
//! segment path naming the module instance and the asset index). The wire
//! form keeps the chain's variant numbering, so only the segment kinds this
//! workflow uses are modeled; their encodings match the chain's.

use vstd::prelude::*;
use crate::compact::{spec_compact, spec_compact_decode, compact_encode, compact_decode,
    lemma_compact_round_trip};

verus! {

/// One segment of an asset path.
#[derive(Clone, Copy, Debug, PartialEq, Eq)]
pub enum Junction {
    /// A module instance on the chain, by its index.
    PalletInstance(u8),
    /// An index within that module, such as an asset identifier.
    GeneralIndex(u128),
}

/// The path part of an asset location.
#[derive(Clone, Copy, Debug, PartialEq, Eq)]
pub enum Junctions {
    /// The empty path: the location is the scope itself.
    Here,
    /// A path of exactly two segments.
    X2(Junction, Junction),
}

/// Identifies a fungible asset relative to the local scope.
#[derive(Clone, Copy, Debug, PartialEq, Eq)]
pub struct AssetLocation {
    /// How many scopes to ascend before following the path.
    pub parents: u8,
    /// The path within the selected scope.
    pub interior: Junctions,
}

/// The chain's wire numbering of the modeled path segments.
pub open spec fn spec_encode_junction(j: Junction) -> Seq<u8> {
    match j {
        Junction::PalletInstance(i) => seq![4u8, i],
        Junction::GeneralIndex(v) => seq![5u8] + spec_compact(v),
    }
}

pub open spec fn spec_decode_junction(s: Seq<u8>) -> Option<(Junction, nat)> {
    if s.len() < 1 {
        None
    } else if s[0] == 4 {
        if s.len() < 2 {
            None
        } else {
            Some((Junction::PalletInstance(s[1]), 2nat))
        }
    } else if s[0] == 5 {
        match spec_compact_decode(s.skip(1)) {
            Some((v, c)) => Some((Junction::GeneralIndex(v), (1 + c) as nat)),
            None => None,
        }
    } else {
        None
    }
}

pub open spec fn spec_encode_junctions(js: Junctions) -> Seq<u8> {
    match js {
        Junctions::Here => seq![0u8],
        Junctions::X2(a, b) => seq![2u8] + spec_encode_junction(a) + spec_encode_junction(b),
    }
}

pub open spec fn spec_decode_junctions(s: Seq<u8>) -> Option<(Junctions, nat)> {
    if s.len() < 1 {
        None
    } else if s[0] == 0 {
        Some((Junctions::Here, 1nat))
    } else if s[0] == 2 {
        match spec_decode_junction(s.skip(1)) {
            Some((a, ca)) => match spec_decode_junction(s.skip(1 + ca as int)) {
                Some((b, cb)) => Some((Junctions::X2(a, b), (1 + ca + cb) as nat)),
                None => None,
            },
            None => None,
        }
    } else {
        None
    }
}

/// The wire form of a location: the ascent count, then the path.
pub open spec fn spec_encode_location(l: AssetLocation) -> Seq<u8> {
    seq![l.parents] + spec_encode_junctions(l.interior)
}

pub open spec fn spec_decode_location(s: Seq<u8>) -> Option<(AssetLocation, nat)> {
    if s.len() < 1 {
        None
    } else {
        match spec_decode_junctions(s.skip(1)) {
            Some((js, c)) => Some(
                (AssetLocation { parents: s[0], interior: js }, (1 + c) as nat),
            ),
            None => None,
        }
    }
}

/// Decoding a path segment inverts encoding it, whatever follows.
pub proof fn lemma_junction_round_trip(j: Junction, rest: Seq<u8>)
    ensures
        spec_decode_junction(spec_encode_junction(j) + rest) == Some(
            (j, spec_encode_junction(j).len()),
        ),
        spec_encode_junction(j).len() >= 2,
{
    let s = spec_encode_junction(j) + rest;
    match j {
        Junction::PalletInstance(i) => {
        },
        Junction::GeneralIndex(v) => {
            lemma_compact_round_trip(v, rest);
            assert(s.skip(1) =~= spec_compact(v) + rest);
        },
    }
}

/// Decoding a path inverts encoding it, whatever follows.
pub proof fn lemma_junctions_round_trip(js: Junctions, rest: Seq<u8>)
    ensures
        spec_decode_junctions(spec_encode_junctions(js) + rest) == Some(
            (js, spec_encode_junctions(js).len()),
        ),
        spec_encode_junctions(js).len() >= 1,
{
    let s = spec_encode_junctions(js) + rest;
    match js {
        Junctions::Here => {
        },
        Junctions::X2(a, b) => {
            let ea = spec_encode_junction(a);
            let eb = spec_encode_junction(b);
            lemma_junction_round_trip(a, eb + rest);
            assert(s.skip(1) =~= ea + (eb + rest));
            lemma_junction_round_trip(b, rest);
            assert(s.skip(1 + ea.len() as int) =~= eb + rest);
        },
    }
}

/// Decoding a location inverts encoding it, whatever follows.
pub proof fn lemma_location_round_trip(l: AssetLocation, rest: Seq<u8>)
    ensures
        spec_decode_location(spec_encode_location(l) + rest) == Some(
            (l, spec_encode_location(l).len()),
        ),
        spec_encode_location(l).len() >= 2,
{
    let s = spec_encode_location(l) + rest;
    lemma_junctions_round_trip(l.interior, rest);
    assert(s.skip(1) =~= spec_encode_junctions(l.interior) + rest);
    assert(s[0] == l.parents);
}

/// Appends the wire form of a path segment to `out`.
fn push_junction(out: &mut Vec<u8>, j: &Junction)
    ensures
        final(out)@ == old(out)@ + spec_encode_junction(*j),
{
    match j {
        Junction::PalletInstance(i) => {
            out.push(4u8);
            out.push(*i);
            proof {
                assert(out@ =~= old(out)@ + spec_encode_junction(*j));
            }
        },
        Junction::GeneralIndex(v) => {
            out.push(5u8);
            let mut enc = compact_encode(*v);
            out.append(&mut enc);
            proof {
                assert(out@ =~= old(out)@ + spec_encode_junction(*j));
            }
        },
    }
}

/// Appends the wire form of a location to `out`.
pub fn push_location(out: &mut Vec<u8>, l: &AssetLocation)
    ensures
        final(out)@ == old(out)@ + spec_encode_location(*l),
{
    out.push(l.parents);
    match &l.interior {
        Junctions::Here => {
            out.push(0u8);
            proof {
                assert(out@ =~= old(out)@ + spec_encode_location(*l));
            }
        },
        Junctions::X2(a, b) => {
            out.push(2u8);
            push_junction(out, a);
            push_junction(out, b);
            proof {
                assert(out@ =~= old(out)@ + spec_encode_location(*l));
            }
        },
    }
}

/// Decodes a path segment from `s` at offset `at`.
fn decode_junction(s: &Vec<u8>, at: usize) -> (r: Option<(Junction, usize)>)
    requires
        at <= s@.len(),
    ensures
        ({
            let d = spec_decode_junction(s@.skip(at as int));
            match r {
                None => d is None,
                Some((j, c)) => d == Some((j, c as nat)) && at + c <= s@.len(),
            }
        }),
{
    let ghost tail = s@.skip(at as int);
    let avail: usize = s.len() - at;
    if avail == 0 {
        return None;
    }
    let b0 = s[at];
    proof {
        assert(tail[0] == s@[at as int]);
    }
    if b0 == 4 {
        if avail < 2 {
            None
        } else {
            proof {
                assert(tail[1] == s@[at + 1]);
            }
            Some((Junction::PalletInstance(s[at + 1]), 2))
        }
    } else if b0 == 5 {
        proof {
            assert(tail.skip(1) =~= s@.skip(at + 1));
        }
        match compact_decode(s, at + 1) {
            Some((v, c)) => Some((Junction::GeneralIndex(v), 1 + c)),
            None => None,
        }
    } else {
        None
    }
}

/// Decodes a location from `s` at offset `at`: the location and the number of
/// bytes consumed.
pub fn decode_location(s: &Vec<u8>, at: usize) -> (r: Option<(AssetLocation, usize)>)
    requires
        at <= s@.len(),
    ensures
        ({
            let d = spec_decode_location(s@.skip(at as int));
            match r {
                None => d is None,
                Some((l, c)) => d == Some((l, c as nat)) && at + c <= s@.len(),
            }
        }),
{
    let ghost tail = s@.skip(at as int);
    let avail: usize = s.len() - at;
    if avail == 0 {
        return None;
    }
    let parents = s[at];
    proof {
        assert(tail[0] == s@[at as int]);
        assert(tail.skip(1) =~= s@.skip(at + 1));
    }
    let js_at: usize = at + 1;
    let ghost js_tail = s@.skip(js_at as int);
    if s.len() - js_at == 0 {
        return None;
    }
    let b0 = s[js_at];
    proof {
        assert(js_tail[0] == s@[js_at as int]);
    }
    if b0 == 0 {
        Some((AssetLocation { parents, interior: Junctions::Here }, 2))
    } else if b0 == 2 {
        proof {
            assert(js_tail.skip(1) =~= s@.skip(js_at + 1));
        }
        match decode_junction(s, js_at + 1) {
            Some((a, ca)) => {
                proof {
                    assert(js_tail.skip(1 + ca as int) =~= s@.skip(js_at + 1 + ca));
                }
                match decode_junction(s, js_at + 1 + ca) {
                    Some((b, cb)) => Some(
                        (
                            AssetLocation { parents, interior: Junctions::X2(a, b) },
                            2 + ca + cb,
                        ),
                    ),
                    None => None,
                }
            },
            None => None,
        }
    } else {
        None
    }
}

} // verus!
