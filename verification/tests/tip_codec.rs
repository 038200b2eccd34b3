use asset_tip_flow::compact::{compact_decode, compact_encode};
use asset_tip_flow::location::{AssetLocation, Junction, Junctions};
use asset_tip_flow::tip::AssetTip;
use parity_scale_codec::{Compact, Encode};

fn sample_location() -> AssetLocation {
    AssetLocation {
        parents: 0,
        interior: Junctions::X2(Junction::PalletInstance(50), Junction::GeneralIndex(1)),
    }
}

#[test]
fn new_tip_names_no_asset() {
    let t = AssetTip::new(7);
    assert_eq!(t.tip, 7);
    assert_eq!(t.asset, None);
    // The wire form ends with the "no asset" marker.
    let bytes = t.encode();
    assert_eq!(bytes.last(), Some(&0u8));
}

#[test]
fn of_asset_sets_the_asset_and_leaves_a_copy_untouched() {
    let original = AssetTip::new(42);
    let copy = original.clone();
    let with_asset = original.of_asset(sample_location());
    assert_eq!(with_asset.tip, 42);
    assert_eq!(with_asset.asset, Some(sample_location()));
    assert_eq!(copy.tip, 42);
    assert_eq!(copy.asset, None);
    assert_eq!(copy.encode().last(), Some(&0u8));
}

#[test]
fn bare_amount_converts_to_native_tip() {
    let t: AssetTip = 99u128.into();
    assert_eq!(t, AssetTip::new(99));
}

#[test]
fn compact_encoding_matches_the_reference_codec() {
    let samples: [u128; 14] = [
        0,
        1,
        63,
        64,
        255,
        16383,
        16384,
        65535,
        0x3fff_ffff,
        0x4000_0000,
        0xffff_ffff,
        0xffff_ffff_ffff_ffff,
        0x0102_0304_0506_0708_090a_0b0c_0d0e_0f10,
        u128::MAX,
    ];
    for v in samples {
        assert_eq!(compact_encode(v), Compact(v).encode(), "value {v}");
    }
}

#[test]
fn compact_decoding_inverts_encoding() {
    let samples: [u128; 10] = [
        0,
        63,
        64,
        16383,
        16384,
        0x3fff_ffff,
        0x4000_0000,
        0xffff_ffff_ffff_ffff,
        1_000_000_000_000,
        u128::MAX,
    ];
    for v in samples {
        let enc = compact_encode(v);
        let n = enc.len();
        assert_eq!(compact_decode(&enc, 0), Some((v, n)), "value {v}");
    }
}

#[test]
fn compact_decoding_reads_exact_byte_strings() {
    // Single-byte mode: 63 is the largest value it carries.
    assert_eq!(compact_decode(&vec![63u8 << 2], 0), Some((63, 1)));
    // Two-byte mode: 64 encodes as (64 << 2) | 0b01, little endian.
    assert_eq!(compact_decode(&vec![0x01, 0x01], 0), Some((64, 2)));
    // Truncated input is rejected rather than misread.
    assert_eq!(compact_decode(&vec![0x01], 0), None);
    assert_eq!(compact_decode(&Vec::new(), 0), None);
}

#[test]
fn tip_wire_format_is_compact_amount_then_optional_asset() {
    // Native tip: compact amount, then the "no asset" byte.
    let native = AssetTip::new(16384);
    let mut expected = Compact(16384u128).encode();
    expected.push(0);
    assert_eq!(native.encode(), expected);

    // Asset tip: compact amount, the "some asset" byte, then the location:
    // no ascent, a two-segment path, module instance 50, asset index 1.
    let tipped = AssetTip::new(0).of_asset(sample_location());
    let mut expected = Compact(0u128).encode();
    expected.extend([1u8, 0, 2, 4, 50, 5]);
    expected.extend(Compact(1u128).encode());
    assert_eq!(tipped.encode(), expected);
}

#[test]
fn tip_round_trips_through_its_wire_form() {
    let tips = [
        AssetTip::new(0),
        AssetTip::new(63),
        AssetTip::new(u128::MAX),
        AssetTip::new(0).of_asset(sample_location()),
        AssetTip::new(123456789).of_asset(AssetLocation { parents: 1, interior: Junctions::Here }),
        AssetTip::new(16383).of_asset(AssetLocation {
            parents: 0,
            interior: Junctions::X2(
                Junction::PalletInstance(99),
                Junction::GeneralIndex(u128::MAX),
            ),
        }),
    ];
    for t in tips {
        let enc = t.encode();
        assert_eq!(AssetTip::decode(&enc), Some(t), "tip {t:?}");
    }
}

#[test]
fn tip_decoding_rejects_trailing_or_missing_bytes() {
    let mut enc = AssetTip::new(5).encode();
    enc.push(0);
    assert_eq!(AssetTip::decode(&enc), None);

    let enc = AssetTip::new(5).of_asset(sample_location()).encode();
    let truncated = enc[..enc.len() - 1].to_vec();
    assert_eq!(AssetTip::decode(&truncated), None);
}
