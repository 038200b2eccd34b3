//! SCALE compact encoding of unsigned 128-bit integers.
//!
//! The tip amount travels on the wire in the chain's compact integer format:
//! small values occupy one, two or four bytes whose two low bits of the first
//! byte name the mode, and larger values use a length-prefixed little-endian
//! form. Encoding is total over `u128`; decoding returns the value together
//! with the number of bytes consumed.

use vstd::prelude::*;

verus! {

use vstd::arithmetic::div_mod::{lemma_fundamental_div_mod_converse, lemma_mod_mod};

/// 256 raised to the power `n`: the number of values `n` bytes can hold.
pub open spec fn pow256(n: nat) -> nat
    decreases n,
{
    if n == 0 {
        1
    } else {
        256 * pow256((n - 1) as nat)
    }
}

/// The `n` low-order bytes of `v`, least significant first.
pub open spec fn le_bytes(v: nat, n: nat) -> Seq<u8>
    decreases n,
{
    if n == 0 {
        Seq::empty()
    } else {
        seq![(v % 256) as u8] + le_bytes(v / 256, (n - 1) as nat)
    }
}

/// The value a little-endian byte string stands for.
pub open spec fn le_value(s: Seq<u8>) -> nat
    decreases s.len(),
{
    if s.len() == 0 {
        0
    } else {
        (s[0] + 256 * le_value(s.drop_first())) as nat
    }
}

/// How many bytes the minimal little-endian form of `v` takes (one for zero).
pub open spec fn min_len_bytes(v: nat) -> nat
    decreases v,
{
    if v < 256 {
        1
    } else {
        1 + min_len_bytes(v / 256)
    }
}

/// The compact encoding of `v`.
pub open spec fn spec_compact(v: u128) -> Seq<u8> {
    if v < 64 {
        seq![(v * 4) as u8]
    } else if v < 16384 {
        le_bytes((v * 4 + 1) as nat, 2)
    } else if v < 0x4000_0000 {
        le_bytes((v * 4 + 2) as nat, 4)
    } else {
        seq![((min_len_bytes(v as nat) - 4) * 4 + 3) as u8] + le_bytes(v as nat, min_len_bytes(v as nat))
    }
}

proof fn lemma_le_bytes_len(v: nat, n: nat)
    ensures
        le_bytes(v, n).len() == n,
    decreases n,
{
    if n > 0 {
        lemma_le_bytes_len(v / 256, (n - 1) as nat);
    }
}

proof fn lemma_le_value_le_bytes(v: nat, n: nat)
    requires
        v < pow256(n),
    ensures
        le_value(le_bytes(v, n)) == v,
    decreases n,
{
    if n > 0 {
        assert(v / 256 < pow256((n - 1) as nat)) by {
            assert(pow256(n) == 256 * pow256((n - 1) as nat));
        };
        lemma_le_value_le_bytes(v / 256, (n - 1) as nat);
        assert(le_bytes(v, n).drop_first() =~= le_bytes(v / 256, (n - 1) as nat));
    }
}

proof fn lemma_min_len_bytes_bounds(v: nat, n: nat)
    requires
        n >= 1,
        v < pow256(n),
    ensures
        min_len_bytes(v) <= n,
    decreases n,
{
    if v >= 256 {
        assert(v / 256 < pow256((n - 1) as nat)) by {
            assert(pow256(n) == 256 * pow256((n - 1) as nat));
        };
        lemma_min_len_bytes_bounds(v / 256, (n - 1) as nat);
    }
}

proof fn lemma_min_len_bytes_pos(v: nat)
    ensures
        min_len_bytes(v) >= 1,
{
}

proof fn lemma_min_len_bytes_tight(v: nat)
    ensures
        v < pow256(min_len_bytes(v)),
        v >= 256 ==> min_len_bytes(v) >= 2,
    decreases v,
{
    if v < 256 {
        assert(pow256(1) == 256 * pow256(0));
        assert(v < pow256(min_len_bytes(v)));
    } else {
        lemma_min_len_bytes_tight(v / 256);
        lemma_min_len_bytes_pos(v / 256);
        vstd::arithmetic::div_mod::lemma_fundamental_div_mod(v as int, 256);
        assert(v < 256 * ((v / 256) + 1));
        assert(256 * ((v / 256) + 1) <= 256 * pow256(min_len_bytes(v / 256)));
        assert(pow256(min_len_bytes(v)) == 256 * pow256(min_len_bytes(v / 256)));
        assert(v < pow256(min_len_bytes(v)));
    }
}

proof fn lemma_pow256_values()
    ensures
        pow256(1) == 0x100,
        pow256(2) == 0x1_0000,
        pow256(3) == 0x100_0000,
        pow256(4) == 0x1_0000_0000,
        pow256(16) == 0x1_0000_0000_0000_0000_0000_0000_0000_0000,
{
    reveal_with_fuel(pow256, 17);
}

proof fn lemma_pow256_monotonic(a: nat, b: nat)
    requires
        a <= b,
    ensures
        pow256(a) <= pow256(b),
    decreases b,
{
    if a < b {
        lemma_pow256_monotonic(a, (b - 1) as nat);
        assert(pow256(b) == 256 * pow256((b - 1) as nat));
    }
}

/// In big mode the length prefix fits one byte: for every `u128` the minimal
/// little-endian form is between 1 and 16 bytes, and at least 4 once the
/// value needs big mode.
proof fn lemma_big_mode_len(v: u128)
    requires
        v >= 0x4000_0000,
    ensures
        4 <= min_len_bytes(v as nat) <= 16,
{
    lemma_pow256_values();
    lemma_min_len_bytes_bounds(v as nat, 16);
    lemma_min_len_bytes_tight(v as nat);
    let m = min_len_bytes(v as nat);
    if m <= 3 {
        lemma_pow256_monotonic(m, 3);
        assert(false);
    }
}

/// Decodes a compact integer from the front of `s`: the value and the number
/// of bytes it occupied. Rejects input that is too short, a length prefix
/// beyond 16 bytes, and nothing else.
pub open spec fn spec_compact_decode(s: Seq<u8>) -> Option<(u128, nat)> {
    if s.len() == 0 {
        None
    } else {
        let b0 = s[0];
        if b0 % 4 == 0 {
            Some(((b0 / 4) as u128, 1nat))
        } else if b0 % 4 == 1 {
            if s.len() < 2 {
                None
            } else {
                Some(((le_value(s.subrange(0, 2)) / 4) as u128, 2nat))
            }
        } else if b0 % 4 == 2 {
            if s.len() < 4 {
                None
            } else {
                Some(((le_value(s.subrange(0, 4)) / 4) as u128, 4nat))
            }
        } else {
            let n = (b0 / 4 + 4) as nat;
            if n > 16 || s.len() < 1 + n {
                None
            } else {
                Some(((le_value(s.subrange(1, 1 + n as int))) as u128, (1 + n) as nat))
            }
        }
    }
}

proof fn lemma_le_value_bound(s: Seq<u8>)
    ensures
        le_value(s) < pow256(s.len()),
    decreases s.len(),
{
    if s.len() > 0 {
        lemma_le_value_bound(s.drop_first());
        assert(pow256(s.len()) == 256 * pow256((s.len() - 1) as nat));
    }
}

/// Decoding inverts encoding: a compact-encoded value followed by anything
/// decodes back to the value, consuming exactly the encoded bytes.
pub proof fn lemma_compact_round_trip(v: u128, rest: Seq<u8>)
    ensures
        spec_compact_decode(spec_compact(v) + rest) == Some((v, spec_compact(v).len())),
        1 <= spec_compact(v).len() <= 17,
{
    let s = spec_compact(v) + rest;
    lemma_pow256_values();
    if v < 64 {
        lemma_fundamental_div_mod_converse(4 * (v as int), 4, v as int, 0);
        assert(s[0] == (v * 4) as u8);
    } else if v < 16384 {
        let w = (v * 4 + 1) as nat;
        lemma_le_bytes_len(w, 2);
        lemma_le_value_le_bytes(w, 2);
        assert(s[0] == le_bytes(w, 2)[0]);
        assert(le_bytes(w, 2)[0] == (w % 256) as u8);
        lemma_mod_mod(w as int, 4, 64);
        lemma_fundamental_div_mod_converse(w as int, 4, v as int, 1);
        assert(s.subrange(0, 2) =~= le_bytes(w, 2));
    } else if v < 0x4000_0000 {
        let w = (v * 4 + 2) as nat;
        lemma_le_bytes_len(w, 4);
        lemma_le_value_le_bytes(w, 4);
        assert(s[0] == le_bytes(w, 4)[0]);
        assert(le_bytes(w, 4)[0] == (w % 256) as u8);
        lemma_mod_mod(w as int, 4, 64);
        lemma_fundamental_div_mod_converse(w as int, 4, v as int, 2);
        assert(s.subrange(0, 4) =~= le_bytes(w, 4));
    } else {
        let m = min_len_bytes(v as nat);
        lemma_big_mode_len(v);
        lemma_le_bytes_len(v as nat, m);
        lemma_min_len_bytes_tight(v as nat);
        lemma_le_value_le_bytes(v as nat, m);
        let b0 = (((m - 4) * 4 + 3) as u8);
        assert(s[0] == b0);
        lemma_fundamental_div_mod_converse(((m - 4) * 4 + 3) as int, 4, (m - 4) as int, 3);
        assert(b0 % 4 == 3);
        assert((b0 / 4 + 4) as nat == m);
        assert(s.subrange(1, 1 + m as int) =~= le_bytes(v as nat, m));
    }
}

/// Appends the `n` low-order bytes of `v` to `out`, least significant first.
fn push_le_bytes(out: &mut Vec<u8>, v: u128, n: usize)
    ensures
        final(out)@ == old(out)@ + le_bytes(v as nat, n as nat),
{
    let mut cur: u128 = v;
    let mut i: usize = 0;
    while i < n
        invariant
            i <= n,
            old(out)@ + le_bytes(v as nat, n as nat) == out@ + le_bytes(cur as nat, (n - i) as nat),
        decreases n - i,
    {
        proof {
            assert(le_bytes(cur as nat, (n - i) as nat) == seq![(cur as nat % 256) as u8] + le_bytes(
                cur as nat / 256,
                (n - i - 1) as nat,
            ));
        }
        out.push((cur % 256) as u8);
        cur = cur / 256;
        i = i + 1;
        proof {
            assert(out@ + le_bytes(cur as nat, (n - i) as nat) =~= old(out)@ + le_bytes(
                v as nat,
                n as nat,
            ));
        }
    }
    proof {
        assert(le_bytes(cur as nat, 0) =~= Seq::<u8>::empty());
        assert(out@ + le_bytes(cur as nat, 0) =~= out@);
    }
}

/// Encodes `v` in the compact integer format.
pub fn compact_encode(v: u128) -> (out: Vec<u8>)
    ensures
        out@ == spec_compact(v),
{
    let mut out: Vec<u8> = Vec::new();
    if v < 64 {
        out.push((v * 4) as u8);
        proof {
            assert(out@ =~= spec_compact(v));
        }
    } else if v < 16384 {
        push_le_bytes(&mut out, v * 4 + 1, 2);
        proof {
            assert(out@ =~= spec_compact(v));
        }
    } else if v < 0x4000_0000 {
        push_le_bytes(&mut out, v * 4 + 2, 4);
        proof {
            assert(out@ =~= spec_compact(v));
        }
    } else {
        proof {
            lemma_big_mode_len(v);
        }
        let mut n: usize = 1;
        let mut tmp: u128 = v;
        while tmp >= 256
            invariant
                1 <= n <= 16,
                min_len_bytes(v as nat) == n - 1 + min_len_bytes(tmp as nat),
                min_len_bytes(v as nat) <= 16,
            decreases tmp,
        {
            proof {
                lemma_min_len_bytes_pos(tmp as nat / 256);
            }
            n = n + 1;
            tmp = tmp / 256;
        }
        proof {
            assert(min_len_bytes(v as nat) == n);
        }
        out.push(((n - 4) * 4 + 3) as u8);
        push_le_bytes(&mut out, v, n);
        proof {
            assert(out@ =~= spec_compact(v));
        }
    }
    out
}

/// Reads `n` bytes of `s` starting at `at` as a little-endian value.
fn read_le(s: &Vec<u8>, at: usize, n: usize) -> (r: u128)
    requires
        at + n <= s@.len(),
        n <= 16,
    ensures
        r as nat == le_value(s@.subrange(at as int, at + n)),
{
    let mut acc: u128 = 0;
    let mut i: usize = n;
    let slen: usize = s.len();
    proof {
        assert(s@.subrange(at + n, at + n) =~= Seq::<u8>::empty());
    }
    while i > 0
        invariant
            i <= n,
            n <= 16,
            at + n <= slen,
            slen == s@.len(),
            acc as nat == le_value(s@.subrange(at + i, at + n)),
        decreases i,
    {
        i = i - 1;
        proof {
            lemma_le_value_bound(s@.subrange(at + i + 1, at + n));
            lemma_pow256_monotonic((n - i - 1) as nat, 15);
            lemma_pow256_values();
            assert(pow256(16) == 256 * pow256(15));
            assert(s@.subrange(at + i, at + n).drop_first() =~= s@.subrange(at + i + 1, at + n));
        }
        acc = acc * 256 + (s[at + i] as u128);
    }
    acc
}

/// Decodes a compact integer from `s` at offset `at`: the value and the
/// number of bytes consumed.
pub fn compact_decode(s: &Vec<u8>, at: usize) -> (r: Option<(u128, usize)>)
    requires
        at <= s@.len(),
    ensures
        ({
            let d = spec_compact_decode(s@.skip(at as int));
            match r {
                None => d is None,
                Some((v, c)) => d == Some((v, c as nat)) && at + c <= s@.len() && 1 <= c <= 17,
            }
        }),
{
    let ghost tail = s@.skip(at as int);
    let avail: usize = s.len() - at;
    if avail == 0 {
        return None;
    }
    let b0 = s[at];
    proof {
        assert(tail[0] == s@[at as int]);
    }
    if b0 % 4 == 0 {
        Some(((b0 / 4) as u128, 1))
    } else if b0 % 4 == 1 {
        if avail < 2 {
            None
        } else {
            proof {
                assert(tail.subrange(0, 2) =~= s@.subrange(at as int, at + 2));
            }
            let w = read_le(s, at, 2);
            Some((w / 4, 2))
        }
    } else if b0 % 4 == 2 {
        if avail < 4 {
            None
        } else {
            proof {
                assert(tail.subrange(0, 4) =~= s@.subrange(at as int, at + 4));
            }
            let w = read_le(s, at, 4);
            Some((w / 4, 4))
        }
    } else {
        let n: usize = (b0 / 4) as usize + 4;
        if n > 16 || avail < 1 + n {
            None
        } else {
            proof {
                assert(tail.subrange(1, 1 + n as int) =~= s@.subrange(at + 1, at + 1 + n));
            }
            let w = read_le(s, at + 1, n);
            Some((w, 1 + n))
        }
    }
}

} // verus!
