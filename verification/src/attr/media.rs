//! The media size domain.
//!
//! The largest of the capability tables: the protocol's self-describing
//! media size names (ISO, JIS, Japanese, North-American and PRC sizes and
//! envelopes) against the native predefined media names.  The table is
//! built fresh on use; a native identity is the position of its entry in
//! the association.  The association is stated in slices of a dozen
//! entries, and the builder proves every insertion succeeds: no key is
//! duplicated on either side.

use vstd::prelude::*;
use crate::capmap::{find_spec, supported_keys, find_by_ipp_str, all_supported_str, OptionPack};
use crate::captable::{str_fwd, str_rev, str_table_empty, str_table_new, str_table_insert,
    StrKeyTable};

verus! {

/// Native identity of the ISO A4 media size, the preferred default.
pub const MEDIA_ISO_A4: u64 = 6;

/// The media table's first 12 forward entries.
pub open spec fn media_fwd_a() -> Map<Seq<char>, u64> {
    Map::<Seq<char>, u64>::empty().insert(
        "iso_a0_841x1189mm"@,
        0,
    ).insert(
        "iso_a1_594x841mm"@,
        1,
    ).insert(
        "iso_a10_26x37mm"@,
        2,
    ).insert(
        "iso_a2_420x594mm"@,
        3,
    ).insert(
        "iso_a3_297x420mm"@,
        4,
    ).insert(
        "iso_a3-extra_322x445mm"@,
        5,
    ).insert(
        "iso_a4_210x297mm"@,
        6,
    ).insert(
        "iso_a4-extra_235.5x322.3mm"@,
        7,
    ).insert(
        "iso_a5_148x210mm"@,
        8,
    ).insert(
        "iso_a5-extra_174x235mm"@,
        9,
    ).insert(
        "iso_a6_105x148mm"@,
        10,
    ).insert(
        "iso_a7_74x105mm"@,
        11,
    )
}

/// The media table's first 12 reverse entries.
pub open spec fn media_rev_a() -> Map<u64, Seq<char>> {
    Map::<u64, Seq<char>>::empty().insert(
        0,
        "iso_a0_841x1189mm"@,
    ).insert(
        1,
        "iso_a1_594x841mm"@,
    ).insert(
        2,
        "iso_a10_26x37mm"@,
    ).insert(
        3,
        "iso_a2_420x594mm"@,
    ).insert(
        4,
        "iso_a3_297x420mm"@,
    ).insert(
        5,
        "iso_a3-extra_322x445mm"@,
    ).insert(
        6,
        "iso_a4_210x297mm"@,
    ).insert(
        7,
        "iso_a4-extra_235.5x322.3mm"@,
    ).insert(
        8,
        "iso_a5_148x210mm"@,
    ).insert(
        9,
        "iso_a5-extra_174x235mm"@,
    ).insert(
        10,
        "iso_a6_105x148mm"@,
    ).insert(
        11,
        "iso_a7_74x105mm"@,
    )
}
/// The media table's first 24 forward entries.
pub open spec fn media_fwd_b() -> Map<Seq<char>, u64> {
    media_fwd_a().insert(
        "iso_a8_52x74mm"@,
        12,
    ).insert(
        "iso_a9_37x52mm"@,
        13,
    ).insert(
        "iso_b0_1000x1414mm"@,
        14,
    ).insert(
        "iso_b1_707x1000mm"@,
        15,
    ).insert(
        "iso_b10_31x44mm"@,
        16,
    ).insert(
        "iso_b2_500x707mm"@,
        17,
    ).insert(
        "iso_b3_353x500mm"@,
        18,
    ).insert(
        "iso_b4_250x353mm"@,
        19,
    ).insert(
        "iso_b5-extra_201x276mm"@,
        20,
    ).insert(
        "iso_b5_176x250mm"@,
        21,
    ).insert(
        "iso_b7_88x125mm"@,
        22,
    ).insert(
        "iso_b8_62x88mm"@,
        23,
    )
}

/// The media table's first 24 reverse entries.
pub open spec fn media_rev_b() -> Map<u64, Seq<char>> {
    media_rev_a().insert(
        12,
        "iso_a8_52x74mm"@,
    ).insert(
        13,
        "iso_a9_37x52mm"@,
    ).insert(
        14,
        "iso_b0_1000x1414mm"@,
    ).insert(
        15,
        "iso_b1_707x1000mm"@,
    ).insert(
        16,
        "iso_b10_31x44mm"@,
    ).insert(
        17,
        "iso_b2_500x707mm"@,
    ).insert(
        18,
        "iso_b3_353x500mm"@,
    ).insert(
        19,
        "iso_b4_250x353mm"@,
    ).insert(
        20,
        "iso_b5-extra_201x276mm"@,
    ).insert(
        21,
        "iso_b5_176x250mm"@,
    ).insert(
        22,
        "iso_b7_88x125mm"@,
    ).insert(
        23,
        "iso_b8_62x88mm"@,
    )
}
/// The media table's first 36 forward entries.
pub open spec fn media_fwd_c() -> Map<Seq<char>, u64> {
    media_fwd_b().insert(
        "iso_b9_44x62mm"@,
        24,
    ).insert(
        "iso_c0_917x1297mm"@,
        25,
    ).insert(
        "iso_c1_648x917mm"@,
        26,
    ).insert(
        "iso_c10_28x40mm"@,
        27,
    ).insert(
        "iso_c2_458x648mm"@,
        28,
    ).insert(
        "iso_c3_324x458mm"@,
        29,
    ).insert(
        "iso_c4_229x324mm"@,
        30,
    ).insert(
        "iso_c5_162x229mm"@,
        31,
    ).insert(
        "iso_c6_114x162mm"@,
        32,
    ).insert(
        "iso_c6c5_114x229mm"@,
        33,
    ).insert(
        "iso_c7_81x114mm"@,
        34,
    ).insert(
        "iso_c8_57x81mm"@,
        35,
    )
}

/// The media table's first 36 reverse entries.
pub open spec fn media_rev_c() -> Map<u64, Seq<char>> {
    media_rev_b().insert(
        24,
        "iso_b9_44x62mm"@,
    ).insert(
        25,
        "iso_c0_917x1297mm"@,
    ).insert(
        26,
        "iso_c1_648x917mm"@,
    ).insert(
        27,
        "iso_c10_28x40mm"@,
    ).insert(
        28,
        "iso_c2_458x648mm"@,
    ).insert(
        29,
        "iso_c3_324x458mm"@,
    ).insert(
        30,
        "iso_c4_229x324mm"@,
    ).insert(
        31,
        "iso_c5_162x229mm"@,
    ).insert(
        32,
        "iso_c6_114x162mm"@,
    ).insert(
        33,
        "iso_c6c5_114x229mm"@,
    ).insert(
        34,
        "iso_c7_81x114mm"@,
    ).insert(
        35,
        "iso_c8_57x81mm"@,
    )
}
/// The media table's first 48 forward entries.
pub open spec fn media_fwd_d() -> Map<Seq<char>, u64> {
    media_fwd_c().insert(
        "iso_c9_40x57mm"@,
        36,
    ).insert(
        "iso_dl_110x220mm"@,
        37,
    ).insert(
        "iso_sra2_450x640mm"@,
        38,
    ).insert(
        "jis_b0_1030x1456mm"@,
        39,
    ).insert(
        "jis_b1_728x1030mm"@,
        40,
    ).insert(
        "jis_b10_32x45mm"@,
        41,
    ).insert(
        "jis_b2_515x728mm"@,
        42,
    ).insert(
        "jis_b3_364x515mm"@,
        43,
    ).insert(
        "jis_b4_257x364mm"@,
        44,
    ).insert(
        "jis_b5_182x257mm"@,
        45,
    ).insert(
        "jis_b6_128x182mm"@,
        46,
    ).insert(
        "jis_b7_91x128mm"@,
        47,
    )
}

/// The media table's first 48 reverse entries.
pub open spec fn media_rev_d() -> Map<u64, Seq<char>> {
    media_rev_c().insert(
        36,
        "iso_c9_40x57mm"@,
    ).insert(
        37,
        "iso_dl_110x220mm"@,
    ).insert(
        38,
        "iso_sra2_450x640mm"@,
    ).insert(
        39,
        "jis_b0_1030x1456mm"@,
    ).insert(
        40,
        "jis_b1_728x1030mm"@,
    ).insert(
        41,
        "jis_b10_32x45mm"@,
    ).insert(
        42,
        "jis_b2_515x728mm"@,
    ).insert(
        43,
        "jis_b3_364x515mm"@,
    ).insert(
        44,
        "jis_b4_257x364mm"@,
    ).insert(
        45,
        "jis_b5_182x257mm"@,
    ).insert(
        46,
        "jis_b6_128x182mm"@,
    ).insert(
        47,
        "jis_b7_91x128mm"@,
    )
}
/// The media table's first 60 forward entries.
pub open spec fn media_fwd_e() -> Map<Seq<char>, u64> {
    media_fwd_d().insert(
        "jis_b8_64x91mm"@,
        48,
    ).insert(
        "jis_b9_45x64mm"@,
        49,
    ).insert(
        "jpn_chou3_120x235mm"@,
        50,
    ).insert(
        "jpn_chou4_90x205mm"@,
        51,
    ).insert(
        "jpn_hagaki_100x148mm"@,
        52,
    ).insert(
        "jpn_kaku2_240x332mm"@,
        53,
    ).insert(
        "jpn_kaku3_216x277mm"@,
        54,
    ).insert(
        "jpn_you4_105x235mm"@,
        55,
    ).insert(
        "na_10x11_10x11in"@,
        56,
    ).insert(
        "na_10x14_10x14in"@,
        57,
    ).insert(
        "na_5x7_5x7in"@,
        58,
    ).insert(
        "na_9x11_9x11in"@,
        59,
    )
}

/// The media table's first 60 reverse entries.
pub open spec fn media_rev_e() -> Map<u64, Seq<char>> {
    media_rev_d().insert(
        48,
        "jis_b8_64x91mm"@,
    ).insert(
        49,
        "jis_b9_45x64mm"@,
    ).insert(
        50,
        "jpn_chou3_120x235mm"@,
    ).insert(
        51,
        "jpn_chou4_90x205mm"@,
    ).insert(
        52,
        "jpn_hagaki_100x148mm"@,
    ).insert(
        53,
        "jpn_kaku2_240x332mm"@,
    ).insert(
        54,
        "jpn_kaku3_216x277mm"@,
    ).insert(
        55,
        "jpn_you4_105x235mm"@,
    ).insert(
        56,
        "na_10x11_10x11in"@,
    ).insert(
        57,
        "na_10x14_10x14in"@,
    ).insert(
        58,
        "na_5x7_5x7in"@,
    ).insert(
        59,
        "na_9x11_9x11in"@,
    )
}
/// The media table's first 72 forward entries.
pub open spec fn media_fwd_f() -> Map<Seq<char>, u64> {
    media_fwd_e().insert(
        "na_arch-a_9x12in"@,
        60,
    ).insert(
        "na_arch-b_12x18in"@,
        61,
    ).insert(
        "na_arch-c_18x24in"@,
        62,
    ).insert(
        "na_arch-d_24x36in"@,
        63,
    ).insert(
        "na_arch-e_36x48in"@,
        64,
    ).insert(
        "na_c_17x22in"@,
        65,
    ).insert(
        "na_d_22x34in"@,
        66,
    ).insert(
        "na_e_34x44in"@,
        67,
    ).insert(
        "na_executive_7.25x10.5in"@,
        68,
    ).insert(
        "na_ledger_11x17in"@,
        69,
    ).insert(
        "na_legal-extra_9.5x15in"@,
        70,
    ).insert(
        "na_legal_8.5x14in"@,
        71,
    )
}

/// The media table's first 72 reverse entries.
pub open spec fn media_rev_f() -> Map<u64, Seq<char>> {
    media_rev_e().insert(
        60,
        "na_arch-a_9x12in"@,
    ).insert(
        61,
        "na_arch-b_12x18in"@,
    ).insert(
        62,
        "na_arch-c_18x24in"@,
    ).insert(
        63,
        "na_arch-d_24x36in"@,
    ).insert(
        64,
        "na_arch-e_36x48in"@,
    ).insert(
        65,
        "na_c_17x22in"@,
    ).insert(
        66,
        "na_d_22x34in"@,
    ).insert(
        67,
        "na_e_34x44in"@,
    ).insert(
        68,
        "na_executive_7.25x10.5in"@,
    ).insert(
        69,
        "na_ledger_11x17in"@,
    ).insert(
        70,
        "na_legal-extra_9.5x15in"@,
    ).insert(
        71,
        "na_legal_8.5x14in"@,
    )
}
/// The media table's first 84 forward entries.
pub open spec fn media_fwd_g() -> Map<Seq<char>, u64> {
    media_fwd_f().insert(
        "na_letter-extra_9.5x12in"@,
        72,
    ).insert(
        "na_letter-plus_8.5x12.69in"@,
        73,
    ).insert(
        "na_letter_8.5x11in"@,
        74,
    ).insert(
        "na_monarch_3.875x7.5in"@,
        75,
    ).insert(
        "na_number-10_4.125x9.5in"@,
        76,
    ).insert(
        "na_number-11_4.5x10.375in"@,
        77,
    ).insert(
        "na_number-12_4.75x11in"@,
        78,
    ).insert(
        "na_number-14_5x11.5in"@,
        79,
    ).insert(
        "na_number-9_3.875x8.875in"@,
        80,
    ).insert(
        "na_personal_3.625x6.5in"@,
        81,
    ).insert(
        "na_quarto_8.5x10.83in"@,
        82,
    ).insert(
        "na_super-a_8.94x14in"@,
        83,
    )
}

/// The media table's first 84 reverse entries.
pub open spec fn media_rev_g() -> Map<u64, Seq<char>> {
    media_rev_f().insert(
        72,
        "na_letter-extra_9.5x12in"@,
    ).insert(
        73,
        "na_letter-plus_8.5x12.69in"@,
    ).insert(
        74,
        "na_letter_8.5x11in"@,
    ).insert(
        75,
        "na_monarch_3.875x7.5in"@,
    ).insert(
        76,
        "na_number-10_4.125x9.5in"@,
    ).insert(
        77,
        "na_number-11_4.5x10.375in"@,
    ).insert(
        78,
        "na_number-12_4.75x11in"@,
    ).insert(
        79,
        "na_number-14_5x11.5in"@,
    ).insert(
        80,
        "na_number-9_3.875x8.875in"@,
    ).insert(
        81,
        "na_personal_3.625x6.5in"@,
    ).insert(
        82,
        "na_quarto_8.5x10.83in"@,
    ).insert(
        83,
        "na_super-a_8.94x14in"@,
    )
}
/// The media table's first 96 forward entries.
pub open spec fn media_fwd_h() -> Map<Seq<char>, u64> {
    media_fwd_g().insert(
        "na_super-b_13x19in"@,
        84,
    ).insert(
        "prc_10_324x458mm"@,
        85,
    ).insert(
        "prc_16k_146x215mm"@,
        86,
    ).insert(
        "prc_1_102x165mm"@,
        87,
    ).insert(
        "prc_2_102x176mm"@,
        88,
    ).insert(
        "prc_32k_97x151mm"@,
        89,
    ).insert(
        "prc_3_125x176mm"@,
        90,
    ).insert(
        "prc_4_110x208mm"@,
        91,
    ).insert(
        "prc_5_110x220mm"@,
        92,
    ).insert(
        "prc_6_120x320mm"@,
        93,
    ).insert(
        "prc_7_160x230mm"@,
        94,
    ).insert(
        "prc_8_120x309mm"@,
        95,
    )
}

/// The media table's first 96 reverse entries.
pub open spec fn media_rev_h() -> Map<u64, Seq<char>> {
    media_rev_g().insert(
        84,
        "na_super-b_13x19in"@,
    ).insert(
        85,
        "prc_10_324x458mm"@,
    ).insert(
        86,
        "prc_16k_146x215mm"@,
    ).insert(
        87,
        "prc_1_102x165mm"@,
    ).insert(
        88,
        "prc_2_102x176mm"@,
    ).insert(
        89,
        "prc_32k_97x151mm"@,
    ).insert(
        90,
        "prc_3_125x176mm"@,
    ).insert(
        91,
        "prc_4_110x208mm"@,
    ).insert(
        92,
        "prc_5_110x220mm"@,
    ).insert(
        93,
        "prc_6_120x320mm"@,
    ).insert(
        94,
        "prc_7_160x230mm"@,
    ).insert(
        95,
        "prc_8_120x309mm"@,
    )
}

/// The media table, key to native identity: all of its entries.
pub open spec fn media_fwd() -> Map<Seq<char>, u64> {
    media_fwd_h()
}

/// The media table, native identity to key.
pub open spec fn media_rev() -> Map<u64, Seq<char>> {
    media_rev_h()
}

/// Insert the media entries up to the first 12.
#[verifier::rlimit(100)]
fn media_push_a(t: &mut StrKeyTable)
    requires
        str_table_empty(*old(t)),
    ensures
        str_fwd(*final(t)) == media_fwd_a(),
        str_rev(*final(t)) == media_rev_a(),
{
    proof {
        reveal_strlit("iso_a0_841x1189mm");
        reveal_strlit("iso_a1_594x841mm");
        reveal_strlit("iso_a10_26x37mm");
        reveal_strlit("iso_a2_420x594mm");
        reveal_strlit("iso_a3_297x420mm");
        reveal_strlit("iso_a3-extra_322x445mm");
        reveal_strlit("iso_a4_210x297mm");
        reveal_strlit("iso_a4-extra_235.5x322.3mm");
        reveal_strlit("iso_a5_148x210mm");
        reveal_strlit("iso_a5-extra_174x235mm");
        reveal_strlit("iso_a6_105x148mm");
        reveal_strlit("iso_a7_74x105mm");
        assert("iso_a0_841x1189mm"@.len() == 17);
        assert("iso_a1_594x841mm"@.len() == 16);
        assert("iso_a10_26x37mm"@.len() == 15);
        assert("iso_a2_420x594mm"@.len() == 16);
        assert("iso_a3_297x420mm"@.len() == 16);
        assert("iso_a3-extra_322x445mm"@.len() == 22);
        assert("iso_a4_210x297mm"@.len() == 16);
        assert("iso_a4-extra_235.5x322.3mm"@.len() == 26);
        assert("iso_a5_148x210mm"@.len() == 16);
        assert("iso_a5-extra_174x235mm"@.len() == 22);
        assert("iso_a6_105x148mm"@.len() == 16);
        assert("iso_a7_74x105mm"@.len() == 15);
        assert("iso_a1_594x841mm"@[5] != "iso_a2_420x594mm"@[5]);
        assert("iso_a1_594x841mm"@ != "iso_a2_420x594mm"@);
        assert("iso_a1_594x841mm"@[5] != "iso_a3_297x420mm"@[5]);
        assert("iso_a1_594x841mm"@ != "iso_a3_297x420mm"@);
        assert("iso_a2_420x594mm"@[5] != "iso_a3_297x420mm"@[5]);
        assert("iso_a2_420x594mm"@ != "iso_a3_297x420mm"@);
        assert("iso_a1_594x841mm"@[5] != "iso_a4_210x297mm"@[5]);
        assert("iso_a1_594x841mm"@ != "iso_a4_210x297mm"@);
        assert("iso_a2_420x594mm"@[5] != "iso_a4_210x297mm"@[5]);
        assert("iso_a2_420x594mm"@ != "iso_a4_210x297mm"@);
        assert("iso_a3_297x420mm"@[5] != "iso_a4_210x297mm"@[5]);
        assert("iso_a3_297x420mm"@ != "iso_a4_210x297mm"@);
        assert("iso_a1_594x841mm"@[5] != "iso_a5_148x210mm"@[5]);
        assert("iso_a1_594x841mm"@ != "iso_a5_148x210mm"@);
        assert("iso_a2_420x594mm"@[5] != "iso_a5_148x210mm"@[5]);
        assert("iso_a2_420x594mm"@ != "iso_a5_148x210mm"@);
        assert("iso_a3_297x420mm"@[5] != "iso_a5_148x210mm"@[5]);
        assert("iso_a3_297x420mm"@ != "iso_a5_148x210mm"@);
        assert("iso_a4_210x297mm"@[5] != "iso_a5_148x210mm"@[5]);
        assert("iso_a4_210x297mm"@ != "iso_a5_148x210mm"@);
        assert("iso_a3-extra_322x445mm"@[5] != "iso_a5-extra_174x235mm"@[5]);
        assert("iso_a3-extra_322x445mm"@ != "iso_a5-extra_174x235mm"@);
        assert("iso_a1_594x841mm"@[5] != "iso_a6_105x148mm"@[5]);
        assert("iso_a1_594x841mm"@ != "iso_a6_105x148mm"@);
        assert("iso_a2_420x594mm"@[5] != "iso_a6_105x148mm"@[5]);
        assert("iso_a2_420x594mm"@ != "iso_a6_105x148mm"@);
        assert("iso_a3_297x420mm"@[5] != "iso_a6_105x148mm"@[5]);
        assert("iso_a3_297x420mm"@ != "iso_a6_105x148mm"@);
        assert("iso_a4_210x297mm"@[5] != "iso_a6_105x148mm"@[5]);
        assert("iso_a4_210x297mm"@ != "iso_a6_105x148mm"@);
        assert("iso_a5_148x210mm"@[5] != "iso_a6_105x148mm"@[5]);
        assert("iso_a5_148x210mm"@ != "iso_a6_105x148mm"@);
        assert("iso_a10_26x37mm"@[5] != "iso_a7_74x105mm"@[5]);
        assert("iso_a10_26x37mm"@ != "iso_a7_74x105mm"@);
    }
    let ok0 = str_table_insert(t, "iso_a0_841x1189mm", 0);
    proof {
        assert(ok0);
    }
    let ok1 = str_table_insert(t, "iso_a1_594x841mm", 1);
    proof {
        assert(ok1);
    }
    let ok2 = str_table_insert(t, "iso_a10_26x37mm", 2);
    proof {
        assert(ok2);
    }
    let ok3 = str_table_insert(t, "iso_a2_420x594mm", 3);
    proof {
        assert(ok3);
    }
    let ok4 = str_table_insert(t, "iso_a3_297x420mm", 4);
    proof {
        assert(ok4);
    }
    let ok5 = str_table_insert(t, "iso_a3-extra_322x445mm", 5);
    proof {
        assert(ok5);
    }
    let ok6 = str_table_insert(t, "iso_a4_210x297mm", 6);
    proof {
        assert(ok6);
    }
    let ok7 = str_table_insert(t, "iso_a4-extra_235.5x322.3mm", 7);
    proof {
        assert(ok7);
    }
    let ok8 = str_table_insert(t, "iso_a5_148x210mm", 8);
    proof {
        assert(ok8);
    }
    let ok9 = str_table_insert(t, "iso_a5-extra_174x235mm", 9);
    proof {
        assert(ok9);
    }
    let ok10 = str_table_insert(t, "iso_a6_105x148mm", 10);
    proof {
        assert(ok10);
    }
    let ok11 = str_table_insert(t, "iso_a7_74x105mm", 11);
    proof {
        assert(ok11);
    }
}
/// Insert the media entries up to the first 24.
#[verifier::rlimit(100)]
fn media_push_b(t: &mut StrKeyTable)
    requires
        str_fwd(*old(t)) == media_fwd_a(),
        str_rev(*old(t)) == media_rev_a(),
    ensures
        str_fwd(*final(t)) == media_fwd_b(),
        str_rev(*final(t)) == media_rev_b(),
{
    proof {
        reveal_strlit("iso_a0_841x1189mm");
        reveal_strlit("iso_a1_594x841mm");
        reveal_strlit("iso_a10_26x37mm");
        reveal_strlit("iso_a2_420x594mm");
        reveal_strlit("iso_a3_297x420mm");
        reveal_strlit("iso_a3-extra_322x445mm");
        reveal_strlit("iso_a4_210x297mm");
        reveal_strlit("iso_a4-extra_235.5x322.3mm");
        reveal_strlit("iso_a5_148x210mm");
        reveal_strlit("iso_a5-extra_174x235mm");
        reveal_strlit("iso_a6_105x148mm");
        reveal_strlit("iso_a7_74x105mm");
        reveal_strlit("iso_a8_52x74mm");
        reveal_strlit("iso_a9_37x52mm");
        reveal_strlit("iso_b0_1000x1414mm");
        reveal_strlit("iso_b1_707x1000mm");
        reveal_strlit("iso_b10_31x44mm");
        reveal_strlit("iso_b2_500x707mm");
        reveal_strlit("iso_b3_353x500mm");
        reveal_strlit("iso_b4_250x353mm");
        reveal_strlit("iso_b5-extra_201x276mm");
        reveal_strlit("iso_b5_176x250mm");
        reveal_strlit("iso_b7_88x125mm");
        reveal_strlit("iso_b8_62x88mm");
        assert("iso_a0_841x1189mm"@.len() == 17);
        assert("iso_a1_594x841mm"@.len() == 16);
        assert("iso_a10_26x37mm"@.len() == 15);
        assert("iso_a2_420x594mm"@.len() == 16);
        assert("iso_a3_297x420mm"@.len() == 16);
        assert("iso_a3-extra_322x445mm"@.len() == 22);
        assert("iso_a4_210x297mm"@.len() == 16);
        assert("iso_a4-extra_235.5x322.3mm"@.len() == 26);
        assert("iso_a5_148x210mm"@.len() == 16);
        assert("iso_a5-extra_174x235mm"@.len() == 22);
        assert("iso_a6_105x148mm"@.len() == 16);
        assert("iso_a7_74x105mm"@.len() == 15);
        assert("iso_a8_52x74mm"@.len() == 14);
        assert("iso_a9_37x52mm"@.len() == 14);
        assert("iso_b0_1000x1414mm"@.len() == 18);
        assert("iso_b1_707x1000mm"@.len() == 17);
        assert("iso_b10_31x44mm"@.len() == 15);
        assert("iso_b2_500x707mm"@.len() == 16);
        assert("iso_b3_353x500mm"@.len() == 16);
        assert("iso_b4_250x353mm"@.len() == 16);
        assert("iso_b5-extra_201x276mm"@.len() == 22);
        assert("iso_b5_176x250mm"@.len() == 16);
        assert("iso_b7_88x125mm"@.len() == 15);
        assert("iso_b8_62x88mm"@.len() == 14);
        assert("iso_a8_52x74mm"@[5] != "iso_a9_37x52mm"@[5]);
        assert("iso_a8_52x74mm"@ != "iso_a9_37x52mm"@);
        assert("iso_a0_841x1189mm"@[4] != "iso_b1_707x1000mm"@[4]);
        assert("iso_a0_841x1189mm"@ != "iso_b1_707x1000mm"@);
        assert("iso_a10_26x37mm"@[4] != "iso_b10_31x44mm"@[4]);
        assert("iso_a10_26x37mm"@ != "iso_b10_31x44mm"@);
        assert("iso_a7_74x105mm"@[4] != "iso_b10_31x44mm"@[4]);
        assert("iso_a7_74x105mm"@ != "iso_b10_31x44mm"@);
        assert("iso_a1_594x841mm"@[4] != "iso_b2_500x707mm"@[4]);
        assert("iso_a1_594x841mm"@ != "iso_b2_500x707mm"@);
        assert("iso_a2_420x594mm"@[4] != "iso_b2_500x707mm"@[4]);
        assert("iso_a2_420x594mm"@ != "iso_b2_500x707mm"@);
        assert("iso_a3_297x420mm"@[4] != "iso_b2_500x707mm"@[4]);
        assert("iso_a3_297x420mm"@ != "iso_b2_500x707mm"@);
        assert("iso_a4_210x297mm"@[4] != "iso_b2_500x707mm"@[4]);
        assert("iso_a4_210x297mm"@ != "iso_b2_500x707mm"@);
        assert("iso_a5_148x210mm"@[4] != "iso_b2_500x707mm"@[4]);
        assert("iso_a5_148x210mm"@ != "iso_b2_500x707mm"@);
        assert("iso_a6_105x148mm"@[4] != "iso_b2_500x707mm"@[4]);
        assert("iso_a6_105x148mm"@ != "iso_b2_500x707mm"@);
        assert("iso_a1_594x841mm"@[4] != "iso_b3_353x500mm"@[4]);
        assert("iso_a1_594x841mm"@ != "iso_b3_353x500mm"@);
        assert("iso_a2_420x594mm"@[4] != "iso_b3_353x500mm"@[4]);
        assert("iso_a2_420x594mm"@ != "iso_b3_353x500mm"@);
        assert("iso_a3_297x420mm"@[4] != "iso_b3_353x500mm"@[4]);
        assert("iso_a3_297x420mm"@ != "iso_b3_353x500mm"@);
        assert("iso_a4_210x297mm"@[4] != "iso_b3_353x500mm"@[4]);
        assert("iso_a4_210x297mm"@ != "iso_b3_353x500mm"@);
        assert("iso_a5_148x210mm"@[4] != "iso_b3_353x500mm"@[4]);
        assert("iso_a5_148x210mm"@ != "iso_b3_353x500mm"@);
        assert("iso_a6_105x148mm"@[4] != "iso_b3_353x500mm"@[4]);
        assert("iso_a6_105x148mm"@ != "iso_b3_353x500mm"@);
        assert("iso_b2_500x707mm"@[5] != "iso_b3_353x500mm"@[5]);
        assert("iso_b2_500x707mm"@ != "iso_b3_353x500mm"@);
        assert("iso_a1_594x841mm"@[4] != "iso_b4_250x353mm"@[4]);
        assert("iso_a1_594x841mm"@ != "iso_b4_250x353mm"@);
        assert("iso_a2_420x594mm"@[4] != "iso_b4_250x353mm"@[4]);
        assert("iso_a2_420x594mm"@ != "iso_b4_250x353mm"@);
        assert("iso_a3_297x420mm"@[4] != "iso_b4_250x353mm"@[4]);
        assert("iso_a3_297x420mm"@ != "iso_b4_250x353mm"@);
        assert("iso_a4_210x297mm"@[4] != "iso_b4_250x353mm"@[4]);
        assert("iso_a4_210x297mm"@ != "iso_b4_250x353mm"@);
        assert("iso_a5_148x210mm"@[4] != "iso_b4_250x353mm"@[4]);
        assert("iso_a5_148x210mm"@ != "iso_b4_250x353mm"@);
        assert("iso_a6_105x148mm"@[4] != "iso_b4_250x353mm"@[4]);
        assert("iso_a6_105x148mm"@ != "iso_b4_250x353mm"@);
        assert("iso_b2_500x707mm"@[5] != "iso_b4_250x353mm"@[5]);
        assert("iso_b2_500x707mm"@ != "iso_b4_250x353mm"@);
        assert("iso_b3_353x500mm"@[5] != "iso_b4_250x353mm"@[5]);
        assert("iso_b3_353x500mm"@ != "iso_b4_250x353mm"@);
        assert("iso_a3-extra_322x445mm"@[4] != "iso_b5-extra_201x276mm"@[4]);
        assert("iso_a3-extra_322x445mm"@ != "iso_b5-extra_201x276mm"@);
        assert("iso_a5-extra_174x235mm"@[4] != "iso_b5-extra_201x276mm"@[4]);
        assert("iso_a5-extra_174x235mm"@ != "iso_b5-extra_201x276mm"@);
        assert("iso_a1_594x841mm"@[4] != "iso_b5_176x250mm"@[4]);
        assert("iso_a1_594x841mm"@ != "iso_b5_176x250mm"@);
        assert("iso_a2_420x594mm"@[4] != "iso_b5_176x250mm"@[4]);
        assert("iso_a2_420x594mm"@ != "iso_b5_176x250mm"@);
        assert("iso_a3_297x420mm"@[4] != "iso_b5_176x250mm"@[4]);
        assert("iso_a3_297x420mm"@ != "iso_b5_176x250mm"@);
        assert("iso_a4_210x297mm"@[4] != "iso_b5_176x250mm"@[4]);
        assert("iso_a4_210x297mm"@ != "iso_b5_176x250mm"@);
        assert("iso_a5_148x210mm"@[4] != "iso_b5_176x250mm"@[4]);
        assert("iso_a5_148x210mm"@ != "iso_b5_176x250mm"@);
        assert("iso_a6_105x148mm"@[4] != "iso_b5_176x250mm"@[4]);
        assert("iso_a6_105x148mm"@ != "iso_b5_176x250mm"@);
        assert("iso_b2_500x707mm"@[5] != "iso_b5_176x250mm"@[5]);
        assert("iso_b2_500x707mm"@ != "iso_b5_176x250mm"@);
        assert("iso_b3_353x500mm"@[5] != "iso_b5_176x250mm"@[5]);
        assert("iso_b3_353x500mm"@ != "iso_b5_176x250mm"@);
        assert("iso_b4_250x353mm"@[5] != "iso_b5_176x250mm"@[5]);
        assert("iso_b4_250x353mm"@ != "iso_b5_176x250mm"@);
        assert("iso_a10_26x37mm"@[4] != "iso_b7_88x125mm"@[4]);
        assert("iso_a10_26x37mm"@ != "iso_b7_88x125mm"@);
        assert("iso_a7_74x105mm"@[4] != "iso_b7_88x125mm"@[4]);
        assert("iso_a7_74x105mm"@ != "iso_b7_88x125mm"@);
        assert("iso_b10_31x44mm"@[5] != "iso_b7_88x125mm"@[5]);
        assert("iso_b10_31x44mm"@ != "iso_b7_88x125mm"@);
        assert("iso_a8_52x74mm"@[4] != "iso_b8_62x88mm"@[4]);
        assert("iso_a8_52x74mm"@ != "iso_b8_62x88mm"@);
        assert("iso_a9_37x52mm"@[4] != "iso_b8_62x88mm"@[4]);
        assert("iso_a9_37x52mm"@ != "iso_b8_62x88mm"@);
    }
    let ok12 = str_table_insert(t, "iso_a8_52x74mm", 12);
    proof {
        assert(ok12);
    }
    let ok13 = str_table_insert(t, "iso_a9_37x52mm", 13);
    proof {
        assert(ok13);
    }
    let ok14 = str_table_insert(t, "iso_b0_1000x1414mm", 14);
    proof {
        assert(ok14);
    }
    let ok15 = str_table_insert(t, "iso_b1_707x1000mm", 15);
    proof {
        assert(ok15);
    }
    let ok16 = str_table_insert(t, "iso_b10_31x44mm", 16);
    proof {
        assert(ok16);
    }
    let ok17 = str_table_insert(t, "iso_b2_500x707mm", 17);
    proof {
        assert(ok17);
    }
    let ok18 = str_table_insert(t, "iso_b3_353x500mm", 18);
    proof {
        assert(ok18);
    }
    let ok19 = str_table_insert(t, "iso_b4_250x353mm", 19);
    proof {
        assert(ok19);
    }
    let ok20 = str_table_insert(t, "iso_b5-extra_201x276mm", 20);
    proof {
        assert(ok20);
    }
    let ok21 = str_table_insert(t, "iso_b5_176x250mm", 21);
    proof {
        assert(ok21);
    }
    let ok22 = str_table_insert(t, "iso_b7_88x125mm", 22);
    proof {
        assert(ok22);
    }
    let ok23 = str_table_insert(t, "iso_b8_62x88mm", 23);
    proof {
        assert(ok23);
    }
}
/// Insert the media entries up to the first 36.
#[verifier::rlimit(100)]
fn media_push_c(t: &mut StrKeyTable)
    requires
        str_fwd(*old(t)) == media_fwd_b(),
        str_rev(*old(t)) == media_rev_b(),
    ensures
        str_fwd(*final(t)) == media_fwd_c(),
        str_rev(*final(t)) == media_rev_c(),
{
    proof {
        reveal_strlit("iso_a0_841x1189mm");
        reveal_strlit("iso_a1_594x841mm");
        reveal_strlit("iso_a10_26x37mm");
        reveal_strlit("iso_a2_420x594mm");
        reveal_strlit("iso_a3_297x420mm");
        reveal_strlit("iso_a3-extra_322x445mm");
        reveal_strlit("iso_a4_210x297mm");
        reveal_strlit("iso_a4-extra_235.5x322.3mm");
        reveal_strlit("iso_a5_148x210mm");
        reveal_strlit("iso_a5-extra_174x235mm");
        reveal_strlit("iso_a6_105x148mm");
        reveal_strlit("iso_a7_74x105mm");
        reveal_strlit("iso_a8_52x74mm");
        reveal_strlit("iso_a9_37x52mm");
        reveal_strlit("iso_b0_1000x1414mm");
        reveal_strlit("iso_b1_707x1000mm");
        reveal_strlit("iso_b10_31x44mm");
        reveal_strlit("iso_b2_500x707mm");
        reveal_strlit("iso_b3_353x500mm");
        reveal_strlit("iso_b4_250x353mm");
        reveal_strlit("iso_b5-extra_201x276mm");
        reveal_strlit("iso_b5_176x250mm");
        reveal_strlit("iso_b7_88x125mm");
        reveal_strlit("iso_b8_62x88mm");
        reveal_strlit("iso_b9_44x62mm");
        reveal_strlit("iso_c0_917x1297mm");
        reveal_strlit("iso_c1_648x917mm");
        reveal_strlit("iso_c10_28x40mm");
        reveal_strlit("iso_c2_458x648mm");
        reveal_strlit("iso_c3_324x458mm");
        reveal_strlit("iso_c4_229x324mm");
        reveal_strlit("iso_c5_162x229mm");
        reveal_strlit("iso_c6_114x162mm");
        reveal_strlit("iso_c6c5_114x229mm");
        reveal_strlit("iso_c7_81x114mm");
        reveal_strlit("iso_c8_57x81mm");
        assert("iso_a0_841x1189mm"@.len() == 17);
        assert("iso_a1_594x841mm"@.len() == 16);
        assert("iso_a10_26x37mm"@.len() == 15);
        assert("iso_a2_420x594mm"@.len() == 16);
        assert("iso_a3_297x420mm"@.len() == 16);
        assert("iso_a3-extra_322x445mm"@.len() == 22);
        assert("iso_a4_210x297mm"@.len() == 16);
        assert("iso_a4-extra_235.5x322.3mm"@.len() == 26);
        assert("iso_a5_148x210mm"@.len() == 16);
        assert("iso_a5-extra_174x235mm"@.len() == 22);
        assert("iso_a6_105x148mm"@.len() == 16);
        assert("iso_a7_74x105mm"@.len() == 15);
        assert("iso_a8_52x74mm"@.len() == 14);
        assert("iso_a9_37x52mm"@.len() == 14);
        assert("iso_b0_1000x1414mm"@.len() == 18);
        assert("iso_b1_707x1000mm"@.len() == 17);
        assert("iso_b10_31x44mm"@.len() == 15);
        assert("iso_b2_500x707mm"@.len() == 16);
        assert("iso_b3_353x500mm"@.len() == 16);
        assert("iso_b4_250x353mm"@.len() == 16);
        assert("iso_b5-extra_201x276mm"@.len() == 22);
        assert("iso_b5_176x250mm"@.len() == 16);
        assert("iso_b7_88x125mm"@.len() == 15);
        assert("iso_b8_62x88mm"@.len() == 14);
        assert("iso_b9_44x62mm"@.len() == 14);
        assert("iso_c0_917x1297mm"@.len() == 17);
        assert("iso_c1_648x917mm"@.len() == 16);
        assert("iso_c10_28x40mm"@.len() == 15);
        assert("iso_c2_458x648mm"@.len() == 16);
        assert("iso_c3_324x458mm"@.len() == 16);
        assert("iso_c4_229x324mm"@.len() == 16);
        assert("iso_c5_162x229mm"@.len() == 16);
        assert("iso_c6_114x162mm"@.len() == 16);
        assert("iso_c6c5_114x229mm"@.len() == 18);
        assert("iso_c7_81x114mm"@.len() == 15);
        assert("iso_c8_57x81mm"@.len() == 14);
        assert("iso_a8_52x74mm"@[4] != "iso_b9_44x62mm"@[4]);
        assert("iso_a8_52x74mm"@ != "iso_b9_44x62mm"@);
        assert("iso_a9_37x52mm"@[4] != "iso_b9_44x62mm"@[4]);
        assert("iso_a9_37x52mm"@ != "iso_b9_44x62mm"@);
        assert("iso_b8_62x88mm"@[5] != "iso_b9_44x62mm"@[5]);
        assert("iso_b8_62x88mm"@ != "iso_b9_44x62mm"@);
        assert("iso_a0_841x1189mm"@[4] != "iso_c0_917x1297mm"@[4]);
        assert("iso_a0_841x1189mm"@ != "iso_c0_917x1297mm"@);
        assert("iso_b1_707x1000mm"@[4] != "iso_c0_917x1297mm"@[4]);
        assert("iso_b1_707x1000mm"@ != "iso_c0_917x1297mm"@);
        assert("iso_a1_594x841mm"@[4] != "iso_c1_648x917mm"@[4]);
        assert("iso_a1_594x841mm"@ != "iso_c1_648x917mm"@);
        assert("iso_a2_420x594mm"@[4] != "iso_c1_648x917mm"@[4]);
        assert("iso_a2_420x594mm"@ != "iso_c1_648x917mm"@);
        assert("iso_a3_297x420mm"@[4] != "iso_c1_648x917mm"@[4]);
        assert("iso_a3_297x420mm"@ != "iso_c1_648x917mm"@);
        assert("iso_a4_210x297mm"@[4] != "iso_c1_648x917mm"@[4]);
        assert("iso_a4_210x297mm"@ != "iso_c1_648x917mm"@);
        assert("iso_a5_148x210mm"@[4] != "iso_c1_648x917mm"@[4]);
        assert("iso_a5_148x210mm"@ != "iso_c1_648x917mm"@);
        assert("iso_a6_105x148mm"@[4] != "iso_c1_648x917mm"@[4]);
        assert("iso_a6_105x148mm"@ != "iso_c1_648x917mm"@);
        assert("iso_b2_500x707mm"@[4] != "iso_c1_648x917mm"@[4]);
        assert("iso_b2_500x707mm"@ != "iso_c1_648x917mm"@);
        assert("iso_b3_353x500mm"@[4] != "iso_c1_648x917mm"@[4]);
        assert("iso_b3_353x500mm"@ != "iso_c1_648x917mm"@);
        assert("iso_b4_250x353mm"@[4] != "iso_c1_648x917mm"@[4]);
        assert("iso_b4_250x353mm"@ != "iso_c1_648x917mm"@);
        assert("iso_b5_176x250mm"@[4] != "iso_c1_648x917mm"@[4]);
        assert("iso_b5_176x250mm"@ != "iso_c1_648x917mm"@);
        assert("iso_a10_26x37mm"@[4] != "iso_c10_28x40mm"@[4]);
        assert("iso_a10_26x37mm"@ != "iso_c10_28x40mm"@);
        assert("iso_a7_74x105mm"@[4] != "iso_c10_28x40mm"@[4]);
        assert("iso_a7_74x105mm"@ != "iso_c10_28x40mm"@);
        assert("iso_b10_31x44mm"@[4] != "iso_c10_28x40mm"@[4]);
        assert("iso_b10_31x44mm"@ != "iso_c10_28x40mm"@);
        assert("iso_b7_88x125mm"@[4] != "iso_c10_28x40mm"@[4]);
        assert("iso_b7_88x125mm"@ != "iso_c10_28x40mm"@);
        assert("iso_a1_594x841mm"@[4] != "iso_c2_458x648mm"@[4]);
        assert("iso_a1_594x841mm"@ != "iso_c2_458x648mm"@);
        assert("iso_a2_420x594mm"@[4] != "iso_c2_458x648mm"@[4]);
        assert("iso_a2_420x594mm"@ != "iso_c2_458x648mm"@);
        assert("iso_a3_297x420mm"@[4] != "iso_c2_458x648mm"@[4]);
        assert("iso_a3_297x420mm"@ != "iso_c2_458x648mm"@);
        assert("iso_a4_210x297mm"@[4] != "iso_c2_458x648mm"@[4]);
        assert("iso_a4_210x297mm"@ != "iso_c2_458x648mm"@);
        assert("iso_a5_148x210mm"@[4] != "iso_c2_458x648mm"@[4]);
        assert("iso_a5_148x210mm"@ != "iso_c2_458x648mm"@);
        assert("iso_a6_105x148mm"@[4] != "iso_c2_458x648mm"@[4]);
        assert("iso_a6_105x148mm"@ != "iso_c2_458x648mm"@);
        assert("iso_b2_500x707mm"@[4] != "iso_c2_458x648mm"@[4]);
        assert("iso_b2_500x707mm"@ != "iso_c2_458x648mm"@);
        assert("iso_b3_353x500mm"@[4] != "iso_c2_458x648mm"@[4]);
        assert("iso_b3_353x500mm"@ != "iso_c2_458x648mm"@);
        assert("iso_b4_250x353mm"@[4] != "iso_c2_458x648mm"@[4]);
        assert("iso_b4_250x353mm"@ != "iso_c2_458x648mm"@);
        assert("iso_b5_176x250mm"@[4] != "iso_c2_458x648mm"@[4]);
        assert("iso_b5_176x250mm"@ != "iso_c2_458x648mm"@);
        assert("iso_c1_648x917mm"@[5] != "iso_c2_458x648mm"@[5]);
        assert("iso_c1_648x917mm"@ != "iso_c2_458x648mm"@);
        assert("iso_a1_594x841mm"@[4] != "iso_c3_324x458mm"@[4]);
        assert("iso_a1_594x841mm"@ != "iso_c3_324x458mm"@);
        assert("iso_a2_420x594mm"@[4] != "iso_c3_324x458mm"@[4]);
        assert("iso_a2_420x594mm"@ != "iso_c3_324x458mm"@);
        assert("iso_a3_297x420mm"@[4] != "iso_c3_324x458mm"@[4]);
        assert("iso_a3_297x420mm"@ != "iso_c3_324x458mm"@);
        assert("iso_a4_210x297mm"@[4] != "iso_c3_324x458mm"@[4]);
        assert("iso_a4_210x297mm"@ != "iso_c3_324x458mm"@);
        assert("iso_a5_148x210mm"@[4] != "iso_c3_324x458mm"@[4]);
        assert("iso_a5_148x210mm"@ != "iso_c3_324x458mm"@);
        assert("iso_a6_105x148mm"@[4] != "iso_c3_324x458mm"@[4]);
        assert("iso_a6_105x148mm"@ != "iso_c3_324x458mm"@);
        assert("iso_b2_500x707mm"@[4] != "iso_c3_324x458mm"@[4]);
        assert("iso_b2_500x707mm"@ != "iso_c3_324x458mm"@);
        assert("iso_b3_353x500mm"@[4] != "iso_c3_324x458mm"@[4]);
        assert("iso_b3_353x500mm"@ != "iso_c3_324x458mm"@);
        assert("iso_b4_250x353mm"@[4] != "iso_c3_324x458mm"@[4]);
        assert("iso_b4_250x353mm"@ != "iso_c3_324x458mm"@);
        assert("iso_b5_176x250mm"@[4] != "iso_c3_324x458mm"@[4]);
        assert("iso_b5_176x250mm"@ != "iso_c3_324x458mm"@);
        assert("iso_c1_648x917mm"@[5] != "iso_c3_324x458mm"@[5]);
        assert("iso_c1_648x917mm"@ != "iso_c3_324x458mm"@);
        assert("iso_c2_458x648mm"@[5] != "iso_c3_324x458mm"@[5]);
        assert("iso_c2_458x648mm"@ != "iso_c3_324x458mm"@);
        assert("iso_a1_594x841mm"@[4] != "iso_c4_229x324mm"@[4]);
        assert("iso_a1_594x841mm"@ != "iso_c4_229x324mm"@);
        assert("iso_a2_420x594mm"@[4] != "iso_c4_229x324mm"@[4]);
        assert("iso_a2_420x594mm"@ != "iso_c4_229x324mm"@);
        assert("iso_a3_297x420mm"@[4] != "iso_c4_229x324mm"@[4]);
        assert("iso_a3_297x420mm"@ != "iso_c4_229x324mm"@);
        assert("iso_a4_210x297mm"@[4] != "iso_c4_229x324mm"@[4]);
        assert("iso_a4_210x297mm"@ != "iso_c4_229x324mm"@);
        assert("iso_a5_148x210mm"@[4] != "iso_c4_229x324mm"@[4]);
        assert("iso_a5_148x210mm"@ != "iso_c4_229x324mm"@);
        assert("iso_a6_105x148mm"@[4] != "iso_c4_229x324mm"@[4]);
        assert("iso_a6_105x148mm"@ != "iso_c4_229x324mm"@);
        assert("iso_b2_500x707mm"@[4] != "iso_c4_229x324mm"@[4]);
        assert("iso_b2_500x707mm"@ != "iso_c4_229x324mm"@);
        assert("iso_b3_353x500mm"@[4] != "iso_c4_229x324mm"@[4]);
        assert("iso_b3_353x500mm"@ != "iso_c4_229x324mm"@);
        assert("iso_b4_250x353mm"@[4] != "iso_c4_229x324mm"@[4]);
        assert("iso_b4_250x353mm"@ != "iso_c4_229x324mm"@);
        assert("iso_b5_176x250mm"@[4] != "iso_c4_229x324mm"@[4]);
        assert("iso_b5_176x250mm"@ != "iso_c4_229x324mm"@);
        assert("iso_c1_648x917mm"@[5] != "iso_c4_229x324mm"@[5]);
        assert("iso_c1_648x917mm"@ != "iso_c4_229x324mm"@);
        assert("iso_c2_458x648mm"@[5] != "iso_c4_229x324mm"@[5]);
        assert("iso_c2_458x648mm"@ != "iso_c4_229x324mm"@);
        assert("iso_c3_324x458mm"@[5] != "iso_c4_229x324mm"@[5]);
        assert("iso_c3_324x458mm"@ != "iso_c4_229x324mm"@);
        assert("iso_a1_594x841mm"@[4] != "iso_c5_162x229mm"@[4]);
        assert("iso_a1_594x841mm"@ != "iso_c5_162x229mm"@);
        assert("iso_a2_420x594mm"@[4] != "iso_c5_162x229mm"@[4]);
        assert("iso_a2_420x594mm"@ != "iso_c5_162x229mm"@);
        assert("iso_a3_297x420mm"@[4] != "iso_c5_162x229mm"@[4]);
        assert("iso_a3_297x420mm"@ != "iso_c5_162x229mm"@);
        assert("iso_a4_210x297mm"@[4] != "iso_c5_162x229mm"@[4]);
        assert("iso_a4_210x297mm"@ != "iso_c5_162x229mm"@);
        assert("iso_a5_148x210mm"@[4] != "iso_c5_162x229mm"@[4]);
        assert("iso_a5_148x210mm"@ != "iso_c5_162x229mm"@);
        assert("iso_a6_105x148mm"@[4] != "iso_c5_162x229mm"@[4]);
        assert("iso_a6_105x148mm"@ != "iso_c5_162x229mm"@);
        assert("iso_b2_500x707mm"@[4] != "iso_c5_162x229mm"@[4]);
        assert("iso_b2_500x707mm"@ != "iso_c5_162x229mm"@);
        assert("iso_b3_353x500mm"@[4] != "iso_c5_162x229mm"@[4]);
        assert("iso_b3_353x500mm"@ != "iso_c5_162x229mm"@);
        assert("iso_b4_250x353mm"@[4] != "iso_c5_162x229mm"@[4]);
        assert("iso_b4_250x353mm"@ != "iso_c5_162x229mm"@);
        assert("iso_b5_176x250mm"@[4] != "iso_c5_162x229mm"@[4]);
        assert("iso_b5_176x250mm"@ != "iso_c5_162x229mm"@);
        assert("iso_c1_648x917mm"@[5] != "iso_c5_162x229mm"@[5]);
        assert("iso_c1_648x917mm"@ != "iso_c5_162x229mm"@);
        assert("iso_c2_458x648mm"@[5] != "iso_c5_162x229mm"@[5]);
        assert("iso_c2_458x648mm"@ != "iso_c5_162x229mm"@);
        assert("iso_c3_324x458mm"@[5] != "iso_c5_162x229mm"@[5]);
        assert("iso_c3_324x458mm"@ != "iso_c5_162x229mm"@);
        assert("iso_c4_229x324mm"@[5] != "iso_c5_162x229mm"@[5]);
        assert("iso_c4_229x324mm"@ != "iso_c5_162x229mm"@);
        assert("iso_a1_594x841mm"@[4] != "iso_c6_114x162mm"@[4]);
        assert("iso_a1_594x841mm"@ != "iso_c6_114x162mm"@);
        assert("iso_a2_420x594mm"@[4] != "iso_c6_114x162mm"@[4]);
        assert("iso_a2_420x594mm"@ != "iso_c6_114x162mm"@);
        assert("iso_a3_297x420mm"@[4] != "iso_c6_114x162mm"@[4]);
        assert("iso_a3_297x420mm"@ != "iso_c6_114x162mm"@);
        assert("iso_a4_210x297mm"@[4] != "iso_c6_114x162mm"@[4]);
        assert("iso_a4_210x297mm"@ != "iso_c6_114x162mm"@);
        assert("iso_a5_148x210mm"@[4] != "iso_c6_114x162mm"@[4]);
        assert("iso_a5_148x210mm"@ != "iso_c6_114x162mm"@);
        assert("iso_a6_105x148mm"@[4] != "iso_c6_114x162mm"@[4]);
        assert("iso_a6_105x148mm"@ != "iso_c6_114x162mm"@);
        assert("iso_b2_500x707mm"@[4] != "iso_c6_114x162mm"@[4]);
        assert("iso_b2_500x707mm"@ != "iso_c6_114x162mm"@);
        assert("iso_b3_353x500mm"@[4] != "iso_c6_114x162mm"@[4]);
        assert("iso_b3_353x500mm"@ != "iso_c6_114x162mm"@);
        assert("iso_b4_250x353mm"@[4] != "iso_c6_114x162mm"@[4]);
        assert("iso_b4_250x353mm"@ != "iso_c6_114x162mm"@);
        assert("iso_b5_176x250mm"@[4] != "iso_c6_114x162mm"@[4]);
        assert("iso_b5_176x250mm"@ != "iso_c6_114x162mm"@);
        assert("iso_c1_648x917mm"@[5] != "iso_c6_114x162mm"@[5]);
        assert("iso_c1_648x917mm"@ != "iso_c6_114x162mm"@);
        assert("iso_c2_458x648mm"@[5] != "iso_c6_114x162mm"@[5]);
        assert("iso_c2_458x648mm"@ != "iso_c6_114x162mm"@);
        assert("iso_c3_324x458mm"@[5] != "iso_c6_114x162mm"@[5]);
        assert("iso_c3_324x458mm"@ != "iso_c6_114x162mm"@);
        assert("iso_c4_229x324mm"@[5] != "iso_c6_114x162mm"@[5]);
        assert("iso_c4_229x324mm"@ != "iso_c6_114x162mm"@);
        assert("iso_c5_162x229mm"@[5] != "iso_c6_114x162mm"@[5]);
        assert("iso_c5_162x229mm"@ != "iso_c6_114x162mm"@);
        assert("iso_b0_1000x1414mm"@[4] != "iso_c6c5_114x229mm"@[4]);
        assert("iso_b0_1000x1414mm"@ != "iso_c6c5_114x229mm"@);
        assert("iso_a10_26x37mm"@[4] != "iso_c7_81x114mm"@[4]);
        assert("iso_a10_26x37mm"@ != "iso_c7_81x114mm"@);
        assert("iso_a7_74x105mm"@[4] != "iso_c7_81x114mm"@[4]);
        assert("iso_a7_74x105mm"@ != "iso_c7_81x114mm"@);
        assert("iso_b10_31x44mm"@[4] != "iso_c7_81x114mm"@[4]);
        assert("iso_b10_31x44mm"@ != "iso_c7_81x114mm"@);
        assert("iso_b7_88x125mm"@[4] != "iso_c7_81x114mm"@[4]);
        assert("iso_b7_88x125mm"@ != "iso_c7_81x114mm"@);
        assert("iso_c10_28x40mm"@[5] != "iso_c7_81x114mm"@[5]);
        assert("iso_c10_28x40mm"@ != "iso_c7_81x114mm"@);
        assert("iso_a8_52x74mm"@[4] != "iso_c8_57x81mm"@[4]);
        assert("iso_a8_52x74mm"@ != "iso_c8_57x81mm"@);
        assert("iso_a9_37x52mm"@[4] != "iso_c8_57x81mm"@[4]);
        assert("iso_a9_37x52mm"@ != "iso_c8_57x81mm"@);
        assert("iso_b8_62x88mm"@[4] != "iso_c8_57x81mm"@[4]);
        assert("iso_b8_62x88mm"@ != "iso_c8_57x81mm"@);
        assert("iso_b9_44x62mm"@[4] != "iso_c8_57x81mm"@[4]);
        assert("iso_b9_44x62mm"@ != "iso_c8_57x81mm"@);
    }
    let ok24 = str_table_insert(t, "iso_b9_44x62mm", 24);
    proof {
        assert(ok24);
    }
    let ok25 = str_table_insert(t, "iso_c0_917x1297mm", 25);
    proof {
        assert(ok25);
    }
    let ok26 = str_table_insert(t, "iso_c1_648x917mm", 26);
    proof {
        assert(ok26);
    }
    let ok27 = str_table_insert(t, "iso_c10_28x40mm", 27);
    proof {
        assert(ok27);
    }
    let ok28 = str_table_insert(t, "iso_c2_458x648mm", 28);
    proof {
        assert(ok28);
    }
    let ok29 = str_table_insert(t, "iso_c3_324x458mm", 29);
    proof {
        assert(ok29);
    }
    let ok30 = str_table_insert(t, "iso_c4_229x324mm", 30);
    proof {
        assert(ok30);
    }
    let ok31 = str_table_insert(t, "iso_c5_162x229mm", 31);
    proof {
        assert(ok31);
    }
    let ok32 = str_table_insert(t, "iso_c6_114x162mm", 32);
    proof {
        assert(ok32);
    }
    let ok33 = str_table_insert(t, "iso_c6c5_114x229mm", 33);
    proof {
        assert(ok33);
    }
    let ok34 = str_table_insert(t, "iso_c7_81x114mm", 34);
    proof {
        assert(ok34);
    }
    let ok35 = str_table_insert(t, "iso_c8_57x81mm", 35);
    proof {
        assert(ok35);
    }
}
/// Insert the media entries up to the first 48.
#[verifier::rlimit(100)]
fn media_push_d(t: &mut StrKeyTable)
    requires
        str_fwd(*old(t)) == media_fwd_c(),
        str_rev(*old(t)) == media_rev_c(),
    ensures
        str_fwd(*final(t)) == media_fwd_d(),
        str_rev(*final(t)) == media_rev_d(),
{
    proof {
        reveal_strlit("iso_a0_841x1189mm");
        reveal_strlit("iso_a1_594x841mm");
        reveal_strlit("iso_a10_26x37mm");
        reveal_strlit("iso_a2_420x594mm");
        reveal_strlit("iso_a3_297x420mm");
        reveal_strlit("iso_a3-extra_322x445mm");
        reveal_strlit("iso_a4_210x297mm");
        reveal_strlit("iso_a4-extra_235.5x322.3mm");
        reveal_strlit("iso_a5_148x210mm");
        reveal_strlit("iso_a5-extra_174x235mm");
        reveal_strlit("iso_a6_105x148mm");
        reveal_strlit("iso_a7_74x105mm");
        reveal_strlit("iso_a8_52x74mm");
        reveal_strlit("iso_a9_37x52mm");
        reveal_strlit("iso_b0_1000x1414mm");
        reveal_strlit("iso_b1_707x1000mm");
        reveal_strlit("iso_b10_31x44mm");
        reveal_strlit("iso_b2_500x707mm");
        reveal_strlit("iso_b3_353x500mm");
        reveal_strlit("iso_b4_250x353mm");
        reveal_strlit("iso_b5-extra_201x276mm");
        reveal_strlit("iso_b5_176x250mm");
        reveal_strlit("iso_b7_88x125mm");
        reveal_strlit("iso_b8_62x88mm");
        reveal_strlit("iso_b9_44x62mm");
        reveal_strlit("iso_c0_917x1297mm");
        reveal_strlit("iso_c1_648x917mm");
        reveal_strlit("iso_c10_28x40mm");
        reveal_strlit("iso_c2_458x648mm");
        reveal_strlit("iso_c3_324x458mm");
        reveal_strlit("iso_c4_229x324mm");
        reveal_strlit("iso_c5_162x229mm");
        reveal_strlit("iso_c6_114x162mm");
        reveal_strlit("iso_c6c5_114x229mm");
        reveal_strlit("iso_c7_81x114mm");
        reveal_strlit("iso_c8_57x81mm");
        reveal_strlit("iso_c9_40x57mm");
        reveal_strlit("iso_dl_110x220mm");
        reveal_strlit("iso_sra2_450x640mm");
        reveal_strlit("jis_b0_1030x1456mm");
        reveal_strlit("jis_b1_728x1030mm");
        reveal_strlit("jis_b10_32x45mm");
        reveal_strlit("jis_b2_515x728mm");
        reveal_strlit("jis_b3_364x515mm");
        reveal_strlit("jis_b4_257x364mm");
        reveal_strlit("jis_b5_182x257mm");
        reveal_strlit("jis_b6_128x182mm");
        reveal_strlit("jis_b7_91x128mm");
        assert("iso_a0_841x1189mm"@.len() == 17);
        assert("iso_a1_594x841mm"@.len() == 16);
        assert("iso_a10_26x37mm"@.len() == 15);
        assert("iso_a2_420x594mm"@.len() == 16);
        assert("iso_a3_297x420mm"@.len() == 16);
        assert("iso_a3-extra_322x445mm"@.len() == 22);
        assert("iso_a4_210x297mm"@.len() == 16);
        assert("iso_a4-extra_235.5x322.3mm"@.len() == 26);
        assert("iso_a5_148x210mm"@.len() == 16);
        assert("iso_a5-extra_174x235mm"@.len() == 22);
        assert("iso_a6_105x148mm"@.len() == 16);
        assert("iso_a7_74x105mm"@.len() == 15);
        assert("iso_a8_52x74mm"@.len() == 14);
        assert("iso_a9_37x52mm"@.len() == 14);
        assert("iso_b0_1000x1414mm"@.len() == 18);
        assert("iso_b1_707x1000mm"@.len() == 17);
        assert("iso_b10_31x44mm"@.len() == 15);
        assert("iso_b2_500x707mm"@.len() == 16);
        assert("iso_b3_353x500mm"@.len() == 16);
        assert("iso_b4_250x353mm"@.len() == 16);
        assert("iso_b5-extra_201x276mm"@.len() == 22);
        assert("iso_b5_176x250mm"@.len() == 16);
        assert("iso_b7_88x125mm"@.len() == 15);
        assert("iso_b8_62x88mm"@.len() == 14);
        assert("iso_b9_44x62mm"@.len() == 14);
        assert("iso_c0_917x1297mm"@.len() == 17);
        assert("iso_c1_648x917mm"@.len() == 16);
        assert("iso_c10_28x40mm"@.len() == 15);
        assert("iso_c2_458x648mm"@.len() == 16);
        assert("iso_c3_324x458mm"@.len() == 16);
        assert("iso_c4_229x324mm"@.len() == 16);
        assert("iso_c5_162x229mm"@.len() == 16);
        assert("iso_c6_114x162mm"@.len() == 16);
        assert("iso_c6c5_114x229mm"@.len() == 18);
        assert("iso_c7_81x114mm"@.len() == 15);
        assert("iso_c8_57x81mm"@.len() == 14);
        assert("iso_c9_40x57mm"@.len() == 14);
        assert("iso_dl_110x220mm"@.len() == 16);
        assert("iso_sra2_450x640mm"@.len() == 18);
        assert("jis_b0_1030x1456mm"@.len() == 18);
        assert("jis_b1_728x1030mm"@.len() == 17);
        assert("jis_b10_32x45mm"@.len() == 15);
        assert("jis_b2_515x728mm"@.len() == 16);
        assert("jis_b3_364x515mm"@.len() == 16);
        assert("jis_b4_257x364mm"@.len() == 16);
        assert("jis_b5_182x257mm"@.len() == 16);
        assert("jis_b6_128x182mm"@.len() == 16);
        assert("jis_b7_91x128mm"@.len() == 15);
        assert("iso_a8_52x74mm"@[4] != "iso_c9_40x57mm"@[4]);
        assert("iso_a8_52x74mm"@ != "iso_c9_40x57mm"@);
        assert("iso_a9_37x52mm"@[4] != "iso_c9_40x57mm"@[4]);
        assert("iso_a9_37x52mm"@ != "iso_c9_40x57mm"@);
        assert("iso_b8_62x88mm"@[4] != "iso_c9_40x57mm"@[4]);
        assert("iso_b8_62x88mm"@ != "iso_c9_40x57mm"@);
        assert("iso_b9_44x62mm"@[4] != "iso_c9_40x57mm"@[4]);
        assert("iso_b9_44x62mm"@ != "iso_c9_40x57mm"@);
        assert("iso_c8_57x81mm"@[5] != "iso_c9_40x57mm"@[5]);
        assert("iso_c8_57x81mm"@ != "iso_c9_40x57mm"@);
        assert("iso_a1_594x841mm"@[4] != "iso_dl_110x220mm"@[4]);
        assert("iso_a1_594x841mm"@ != "iso_dl_110x220mm"@);
        assert("iso_a2_420x594mm"@[4] != "iso_dl_110x220mm"@[4]);
        assert("iso_a2_420x594mm"@ != "iso_dl_110x220mm"@);
        assert("iso_a3_297x420mm"@[4] != "iso_dl_110x220mm"@[4]);
        assert("iso_a3_297x420mm"@ != "iso_dl_110x220mm"@);
        assert("iso_a4_210x297mm"@[4] != "iso_dl_110x220mm"@[4]);
        assert("iso_a4_210x297mm"@ != "iso_dl_110x220mm"@);
        assert("iso_a5_148x210mm"@[4] != "iso_dl_110x220mm"@[4]);
        assert("iso_a5_148x210mm"@ != "iso_dl_110x220mm"@);
        assert("iso_a6_105x148mm"@[4] != "iso_dl_110x220mm"@[4]);
        assert("iso_a6_105x148mm"@ != "iso_dl_110x220mm"@);
        assert("iso_b2_500x707mm"@[4] != "iso_dl_110x220mm"@[4]);
        assert("iso_b2_500x707mm"@ != "iso_dl_110x220mm"@);
        assert("iso_b3_353x500mm"@[4] != "iso_dl_110x220mm"@[4]);
        assert("iso_b3_353x500mm"@ != "iso_dl_110x220mm"@);
        assert("iso_b4_250x353mm"@[4] != "iso_dl_110x220mm"@[4]);
        assert("iso_b4_250x353mm"@ != "iso_dl_110x220mm"@);
        assert("iso_b5_176x250mm"@[4] != "iso_dl_110x220mm"@[4]);
        assert("iso_b5_176x250mm"@ != "iso_dl_110x220mm"@);
        assert("iso_c1_648x917mm"@[4] != "iso_dl_110x220mm"@[4]);
        assert("iso_c1_648x917mm"@ != "iso_dl_110x220mm"@);
        assert("iso_c2_458x648mm"@[4] != "iso_dl_110x220mm"@[4]);
        assert("iso_c2_458x648mm"@ != "iso_dl_110x220mm"@);
        assert("iso_c3_324x458mm"@[4] != "iso_dl_110x220mm"@[4]);
        assert("iso_c3_324x458mm"@ != "iso_dl_110x220mm"@);
        assert("iso_c4_229x324mm"@[4] != "iso_dl_110x220mm"@[4]);
        assert("iso_c4_229x324mm"@ != "iso_dl_110x220mm"@);
        assert("iso_c5_162x229mm"@[4] != "iso_dl_110x220mm"@[4]);
        assert("iso_c5_162x229mm"@ != "iso_dl_110x220mm"@);
        assert("iso_c6_114x162mm"@[4] != "iso_dl_110x220mm"@[4]);
        assert("iso_c6_114x162mm"@ != "iso_dl_110x220mm"@);
        assert("iso_b0_1000x1414mm"@[4] != "iso_sra2_450x640mm"@[4]);
        assert("iso_b0_1000x1414mm"@ != "iso_sra2_450x640mm"@);
        assert("iso_c6c5_114x229mm"@[4] != "iso_sra2_450x640mm"@[4]);
        assert("iso_c6c5_114x229mm"@ != "iso_sra2_450x640mm"@);
        assert("iso_b0_1000x1414mm"@[0] != "jis_b0_1030x1456mm"@[0]);
        assert("iso_b0_1000x1414mm"@ != "jis_b0_1030x1456mm"@);
        assert("iso_c6c5_114x229mm"@[0] != "jis_b0_1030x1456mm"@[0]);
        assert("iso_c6c5_114x229mm"@ != "jis_b0_1030x1456mm"@);
        assert("iso_sra2_450x640mm"@[0] != "jis_b0_1030x1456mm"@[0]);
        assert("iso_sra2_450x640mm"@ != "jis_b0_1030x1456mm"@);
        assert("iso_a0_841x1189mm"@[0] != "jis_b1_728x1030mm"@[0]);
        assert("iso_a0_841x1189mm"@ != "jis_b1_728x1030mm"@);
        assert("iso_b1_707x1000mm"@[0] != "jis_b1_728x1030mm"@[0]);
        assert("iso_b1_707x1000mm"@ != "jis_b1_728x1030mm"@);
        assert("iso_c0_917x1297mm"@[0] != "jis_b1_728x1030mm"@[0]);
        assert("iso_c0_917x1297mm"@ != "jis_b1_728x1030mm"@);
        assert("iso_a10_26x37mm"@[0] != "jis_b10_32x45mm"@[0]);
        assert("iso_a10_26x37mm"@ != "jis_b10_32x45mm"@);
        assert("iso_a7_74x105mm"@[0] != "jis_b10_32x45mm"@[0]);
        assert("iso_a7_74x105mm"@ != "jis_b10_32x45mm"@);
        assert("iso_b10_31x44mm"@[0] != "jis_b10_32x45mm"@[0]);
        assert("iso_b10_31x44mm"@ != "jis_b10_32x45mm"@);
        assert("iso_b7_88x125mm"@[0] != "jis_b10_32x45mm"@[0]);
        assert("iso_b7_88x125mm"@ != "jis_b10_32x45mm"@);
        assert("iso_c10_28x40mm"@[0] != "jis_b10_32x45mm"@[0]);
        assert("iso_c10_28x40mm"@ != "jis_b10_32x45mm"@);
        assert("iso_c7_81x114mm"@[0] != "jis_b10_32x45mm"@[0]);
        assert("iso_c7_81x114mm"@ != "jis_b10_32x45mm"@);
        assert("iso_a1_594x841mm"@[0] != "jis_b2_515x728mm"@[0]);
        assert("iso_a1_594x841mm"@ != "jis_b2_515x728mm"@);
        assert("iso_a2_420x594mm"@[0] != "jis_b2_515x728mm"@[0]);
        assert("iso_a2_420x594mm"@ != "jis_b2_515x728mm"@);
        assert("iso_a3_297x420mm"@[0] != "jis_b2_515x728mm"@[0]);
        assert("iso_a3_297x420mm"@ != "jis_b2_515x728mm"@);
        assert("iso_a4_210x297mm"@[0] != "jis_b2_515x728mm"@[0]);
        assert("iso_a4_210x297mm"@ != "jis_b2_515x728mm"@);
        assert("iso_a5_148x210mm"@[0] != "jis_b2_515x728mm"@[0]);
        assert("iso_a5_148x210mm"@ != "jis_b2_515x728mm"@);
        assert("iso_a6_105x148mm"@[0] != "jis_b2_515x728mm"@[0]);
        assert("iso_a6_105x148mm"@ != "jis_b2_515x728mm"@);
        assert("iso_b2_500x707mm"@[0] != "jis_b2_515x728mm"@[0]);
        assert("iso_b2_500x707mm"@ != "jis_b2_515x728mm"@);
        assert("iso_b3_353x500mm"@[0] != "jis_b2_515x728mm"@[0]);
        assert("iso_b3_353x500mm"@ != "jis_b2_515x728mm"@);
        assert("iso_b4_250x353mm"@[0] != "jis_b2_515x728mm"@[0]);
        assert("iso_b4_250x353mm"@ != "jis_b2_515x728mm"@);
        assert("iso_b5_176x250mm"@[0] != "jis_b2_515x728mm"@[0]);
        assert("iso_b5_176x250mm"@ != "jis_b2_515x728mm"@);
        assert("iso_c1_648x917mm"@[0] != "jis_b2_515x728mm"@[0]);
        assert("iso_c1_648x917mm"@ != "jis_b2_515x728mm"@);
        assert("iso_c2_458x648mm"@[0] != "jis_b2_515x728mm"@[0]);
        assert("iso_c2_458x648mm"@ != "jis_b2_515x728mm"@);
        assert("iso_c3_324x458mm"@[0] != "jis_b2_515x728mm"@[0]);
        assert("iso_c3_324x458mm"@ != "jis_b2_515x728mm"@);
        assert("iso_c4_229x324mm"@[0] != "jis_b2_515x728mm"@[0]);
        assert("iso_c4_229x324mm"@ != "jis_b2_515x728mm"@);
        assert("iso_c5_162x229mm"@[0] != "jis_b2_515x728mm"@[0]);
        assert("iso_c5_162x229mm"@ != "jis_b2_515x728mm"@);
        assert("iso_c6_114x162mm"@[0] != "jis_b2_515x728mm"@[0]);
        assert("iso_c6_114x162mm"@ != "jis_b2_515x728mm"@);
        assert("iso_dl_110x220mm"@[0] != "jis_b2_515x728mm"@[0]);
        assert("iso_dl_110x220mm"@ != "jis_b2_515x728mm"@);
        assert("iso_a1_594x841mm"@[0] != "jis_b3_364x515mm"@[0]);
        assert("iso_a1_594x841mm"@ != "jis_b3_364x515mm"@);
        assert("iso_a2_420x594mm"@[0] != "jis_b3_364x515mm"@[0]);
        assert("iso_a2_420x594mm"@ != "jis_b3_364x515mm"@);
        assert("iso_a3_297x420mm"@[0] != "jis_b3_364x515mm"@[0]);
        assert("iso_a3_297x420mm"@ != "jis_b3_364x515mm"@);
        assert("iso_a4_210x297mm"@[0] != "jis_b3_364x515mm"@[0]);
        assert("iso_a4_210x297mm"@ != "jis_b3_364x515mm"@);
        assert("iso_a5_148x210mm"@[0] != "jis_b3_364x515mm"@[0]);
        assert("iso_a5_148x210mm"@ != "jis_b3_364x515mm"@);
        assert("iso_a6_105x148mm"@[0] != "jis_b3_364x515mm"@[0]);
        assert("iso_a6_105x148mm"@ != "jis_b3_364x515mm"@);
        assert("iso_b2_500x707mm"@[0] != "jis_b3_364x515mm"@[0]);
        assert("iso_b2_500x707mm"@ != "jis_b3_364x515mm"@);
        assert("iso_b3_353x500mm"@[0] != "jis_b3_364x515mm"@[0]);
        assert("iso_b3_353x500mm"@ != "jis_b3_364x515mm"@);
        assert("iso_b4_250x353mm"@[0] != "jis_b3_364x515mm"@[0]);
        assert("iso_b4_250x353mm"@ != "jis_b3_364x515mm"@);
        assert("iso_b5_176x250mm"@[0] != "jis_b3_364x515mm"@[0]);
        assert("iso_b5_176x250mm"@ != "jis_b3_364x515mm"@);
        assert("iso_c1_648x917mm"@[0] != "jis_b3_364x515mm"@[0]);
        assert("iso_c1_648x917mm"@ != "jis_b3_364x515mm"@);
        assert("iso_c2_458x648mm"@[0] != "jis_b3_364x515mm"@[0]);
        assert("iso_c2_458x648mm"@ != "jis_b3_364x515mm"@);
        assert("iso_c3_324x458mm"@[0] != "jis_b3_364x515mm"@[0]);
        assert("iso_c3_324x458mm"@ != "jis_b3_364x515mm"@);
        assert("iso_c4_229x324mm"@[0] != "jis_b3_364x515mm"@[0]);
        assert("iso_c4_229x324mm"@ != "jis_b3_364x515mm"@);
        assert("iso_c5_162x229mm"@[0] != "jis_b3_364x515mm"@[0]);
        assert("iso_c5_162x229mm"@ != "jis_b3_364x515mm"@);
        assert("iso_c6_114x162mm"@[0] != "jis_b3_364x515mm"@[0]);
        assert("iso_c6_114x162mm"@ != "jis_b3_364x515mm"@);
        assert("iso_dl_110x220mm"@[0] != "jis_b3_364x515mm"@[0]);
        assert("iso_dl_110x220mm"@ != "jis_b3_364x515mm"@);
        assert("jis_b2_515x728mm"@[5] != "jis_b3_364x515mm"@[5]);
        assert("jis_b2_515x728mm"@ != "jis_b3_364x515mm"@);
        assert("iso_a1_594x841mm"@[0] != "jis_b4_257x364mm"@[0]);
        assert("iso_a1_594x841mm"@ != "jis_b4_257x364mm"@);
        assert("iso_a2_420x594mm"@[0] != "jis_b4_257x364mm"@[0]);
        assert("iso_a2_420x594mm"@ != "jis_b4_257x364mm"@);
        assert("iso_a3_297x420mm"@[0] != "jis_b4_257x364mm"@[0]);
        assert("iso_a3_297x420mm"@ != "jis_b4_257x364mm"@);
        assert("iso_a4_210x297mm"@[0] != "jis_b4_257x364mm"@[0]);
        assert("iso_a4_210x297mm"@ != "jis_b4_257x364mm"@);
        assert("iso_a5_148x210mm"@[0] != "jis_b4_257x364mm"@[0]);
        assert("iso_a5_148x210mm"@ != "jis_b4_257x364mm"@);
        assert("iso_a6_105x148mm"@[0] != "jis_b4_257x364mm"@[0]);
        assert("iso_a6_105x148mm"@ != "jis_b4_257x364mm"@);
        assert("iso_b2_500x707mm"@[0] != "jis_b4_257x364mm"@[0]);
        assert("iso_b2_500x707mm"@ != "jis_b4_257x364mm"@);
        assert("iso_b3_353x500mm"@[0] != "jis_b4_257x364mm"@[0]);
        assert("iso_b3_353x500mm"@ != "jis_b4_257x364mm"@);
        assert("iso_b4_250x353mm"@[0] != "jis_b4_257x364mm"@[0]);
        assert("iso_b4_250x353mm"@ != "jis_b4_257x364mm"@);
        assert("iso_b5_176x250mm"@[0] != "jis_b4_257x364mm"@[0]);
        assert("iso_b5_176x250mm"@ != "jis_b4_257x364mm"@);
        assert("iso_c1_648x917mm"@[0] != "jis_b4_257x364mm"@[0]);
        assert("iso_c1_648x917mm"@ != "jis_b4_257x364mm"@);
        assert("iso_c2_458x648mm"@[0] != "jis_b4_257x364mm"@[0]);
        assert("iso_c2_458x648mm"@ != "jis_b4_257x364mm"@);
        assert("iso_c3_324x458mm"@[0] != "jis_b4_257x364mm"@[0]);
        assert("iso_c3_324x458mm"@ != "jis_b4_257x364mm"@);
        assert("iso_c4_229x324mm"@[0] != "jis_b4_257x364mm"@[0]);
        assert("iso_c4_229x324mm"@ != "jis_b4_257x364mm"@);
        assert("iso_c5_162x229mm"@[0] != "jis_b4_257x364mm"@[0]);
        assert("iso_c5_162x229mm"@ != "jis_b4_257x364mm"@);
        assert("iso_c6_114x162mm"@[0] != "jis_b4_257x364mm"@[0]);
        assert("iso_c6_114x162mm"@ != "jis_b4_257x364mm"@);
        assert("iso_dl_110x220mm"@[0] != "jis_b4_257x364mm"@[0]);
        assert("iso_dl_110x220mm"@ != "jis_b4_257x364mm"@);
        assert("jis_b2_515x728mm"@[5] != "jis_b4_257x364mm"@[5]);
        assert("jis_b2_515x728mm"@ != "jis_b4_257x364mm"@);
        assert("jis_b3_364x515mm"@[5] != "jis_b4_257x364mm"@[5]);
        assert("jis_b3_364x515mm"@ != "jis_b4_257x364mm"@);
        assert("iso_a1_594x841mm"@[0] != "jis_b5_182x257mm"@[0]);
        assert("iso_a1_594x841mm"@ != "jis_b5_182x257mm"@);
        assert("iso_a2_420x594mm"@[0] != "jis_b5_182x257mm"@[0]);
        assert("iso_a2_420x594mm"@ != "jis_b5_182x257mm"@);
        assert("iso_a3_297x420mm"@[0] != "jis_b5_182x257mm"@[0]);
        assert("iso_a3_297x420mm"@ != "jis_b5_182x257mm"@);
        assert("iso_a4_210x297mm"@[0] != "jis_b5_182x257mm"@[0]);
        assert("iso_a4_210x297mm"@ != "jis_b5_182x257mm"@);
        assert("iso_a5_148x210mm"@[0] != "jis_b5_182x257mm"@[0]);
        assert("iso_a5_148x210mm"@ != "jis_b5_182x257mm"@);
        assert("iso_a6_105x148mm"@[0] != "jis_b5_182x257mm"@[0]);
        assert("iso_a6_105x148mm"@ != "jis_b5_182x257mm"@);
        assert("iso_b2_500x707mm"@[0] != "jis_b5_182x257mm"@[0]);
        assert("iso_b2_500x707mm"@ != "jis_b5_182x257mm"@);
        assert("iso_b3_353x500mm"@[0] != "jis_b5_182x257mm"@[0]);
        assert("iso_b3_353x500mm"@ != "jis_b5_182x257mm"@);
        assert("iso_b4_250x353mm"@[0] != "jis_b5_182x257mm"@[0]);
        assert("iso_b4_250x353mm"@ != "jis_b5_182x257mm"@);
        assert("iso_b5_176x250mm"@[0] != "jis_b5_182x257mm"@[0]);
        assert("iso_b5_176x250mm"@ != "jis_b5_182x257mm"@);
        assert("iso_c1_648x917mm"@[0] != "jis_b5_182x257mm"@[0]);
        assert("iso_c1_648x917mm"@ != "jis_b5_182x257mm"@);
        assert("iso_c2_458x648mm"@[0] != "jis_b5_182x257mm"@[0]);
        assert("iso_c2_458x648mm"@ != "jis_b5_182x257mm"@);
        assert("iso_c3_324x458mm"@[0] != "jis_b5_182x257mm"@[0]);
        assert("iso_c3_324x458mm"@ != "jis_b5_182x257mm"@);
        assert("iso_c4_229x324mm"@[0] != "jis_b5_182x257mm"@[0]);
        assert("iso_c4_229x324mm"@ != "jis_b5_182x257mm"@);
        assert("iso_c5_162x229mm"@[0] != "jis_b5_182x257mm"@[0]);
        assert("iso_c5_162x229mm"@ != "jis_b5_182x257mm"@);
        assert("iso_c6_114x162mm"@[0] != "jis_b5_182x257mm"@[0]);
        assert("iso_c6_114x162mm"@ != "jis_b5_182x257mm"@);
        assert("iso_dl_110x220mm"@[0] != "jis_b5_182x257mm"@[0]);
        assert("iso_dl_110x220mm"@ != "jis_b5_182x257mm"@);
        assert("jis_b2_515x728mm"@[5] != "jis_b5_182x257mm"@[5]);
        assert("jis_b2_515x728mm"@ != "jis_b5_182x257mm"@);
        assert("jis_b3_364x515mm"@[5] != "jis_b5_182x257mm"@[5]);
        assert("jis_b3_364x515mm"@ != "jis_b5_182x257mm"@);
        assert("jis_b4_257x364mm"@[5] != "jis_b5_182x257mm"@[5]);
        assert("jis_b4_257x364mm"@ != "jis_b5_182x257mm"@);
        assert("iso_a1_594x841mm"@[0] != "jis_b6_128x182mm"@[0]);
        assert("iso_a1_594x841mm"@ != "jis_b6_128x182mm"@);
        assert("iso_a2_420x594mm"@[0] != "jis_b6_128x182mm"@[0]);
        assert("iso_a2_420x594mm"@ != "jis_b6_128x182mm"@);
        assert("iso_a3_297x420mm"@[0] != "jis_b6_128x182mm"@[0]);
        assert("iso_a3_297x420mm"@ != "jis_b6_128x182mm"@);
        assert("iso_a4_210x297mm"@[0] != "jis_b6_128x182mm"@[0]);
        assert("iso_a4_210x297mm"@ != "jis_b6_128x182mm"@);
        assert("iso_a5_148x210mm"@[0] != "jis_b6_128x182mm"@[0]);
        assert("iso_a5_148x210mm"@ != "jis_b6_128x182mm"@);
        assert("iso_a6_105x148mm"@[0] != "jis_b6_128x182mm"@[0]);
        assert("iso_a6_105x148mm"@ != "jis_b6_128x182mm"@);
        assert("iso_b2_500x707mm"@[0] != "jis_b6_128x182mm"@[0]);
        assert("iso_b2_500x707mm"@ != "jis_b6_128x182mm"@);
        assert("iso_b3_353x500mm"@[0] != "jis_b6_128x182mm"@[0]);
        assert("iso_b3_353x500mm"@ != "jis_b6_128x182mm"@);
        assert("iso_b4_250x353mm"@[0] != "jis_b6_128x182mm"@[0]);
        assert("iso_b4_250x353mm"@ != "jis_b6_128x182mm"@);
        assert("iso_b5_176x250mm"@[0] != "jis_b6_128x182mm"@[0]);
        assert("iso_b5_176x250mm"@ != "jis_b6_128x182mm"@);
        assert("iso_c1_648x917mm"@[0] != "jis_b6_128x182mm"@[0]);
        assert("iso_c1_648x917mm"@ != "jis_b6_128x182mm"@);
        assert("iso_c2_458x648mm"@[0] != "jis_b6_128x182mm"@[0]);
        assert("iso_c2_458x648mm"@ != "jis_b6_128x182mm"@);
        assert("iso_c3_324x458mm"@[0] != "jis_b6_128x182mm"@[0]);
        assert("iso_c3_324x458mm"@ != "jis_b6_128x182mm"@);
        assert("iso_c4_229x324mm"@[0] != "jis_b6_128x182mm"@[0]);
        assert("iso_c4_229x324mm"@ != "jis_b6_128x182mm"@);
        assert("iso_c5_162x229mm"@[0] != "jis_b6_128x182mm"@[0]);
        assert("iso_c5_162x229mm"@ != "jis_b6_128x182mm"@);
        assert("iso_c6_114x162mm"@[0] != "jis_b6_128x182mm"@[0]);
        assert("iso_c6_114x162mm"@ != "jis_b6_128x182mm"@);
        assert("iso_dl_110x220mm"@[0] != "jis_b6_128x182mm"@[0]);
        assert("iso_dl_110x220mm"@ != "jis_b6_128x182mm"@);
        assert("jis_b2_515x728mm"@[5] != "jis_b6_128x182mm"@[5]);
        assert("jis_b2_515x728mm"@ != "jis_b6_128x182mm"@);
        assert("jis_b3_364x515mm"@[5] != "jis_b6_128x182mm"@[5]);
        assert("jis_b3_364x515mm"@ != "jis_b6_128x182mm"@);
        assert("jis_b4_257x364mm"@[5] != "jis_b6_128x182mm"@[5]);
        assert("jis_b4_257x364mm"@ != "jis_b6_128x182mm"@);
        assert("jis_b5_182x257mm"@[5] != "jis_b6_128x182mm"@[5]);
        assert("jis_b5_182x257mm"@ != "jis_b6_128x182mm"@);
        assert("iso_a10_26x37mm"@[0] != "jis_b7_91x128mm"@[0]);
        assert("iso_a10_26x37mm"@ != "jis_b7_91x128mm"@);
        assert("iso_a7_74x105mm"@[0] != "jis_b7_91x128mm"@[0]);
        assert("iso_a7_74x105mm"@ != "jis_b7_91x128mm"@);
        assert("iso_b10_31x44mm"@[0] != "jis_b7_91x128mm"@[0]);
        assert("iso_b10_31x44mm"@ != "jis_b7_91x128mm"@);
        assert("iso_b7_88x125mm"@[0] != "jis_b7_91x128mm"@[0]);
        assert("iso_b7_88x125mm"@ != "jis_b7_91x128mm"@);
        assert("iso_c10_28x40mm"@[0] != "jis_b7_91x128mm"@[0]);
        assert("iso_c10_28x40mm"@ != "jis_b7_91x128mm"@);
        assert("iso_c7_81x114mm"@[0] != "jis_b7_91x128mm"@[0]);
        assert("iso_c7_81x114mm"@ != "jis_b7_91x128mm"@);
        assert("jis_b10_32x45mm"@[5] != "jis_b7_91x128mm"@[5]);
        assert("jis_b10_32x45mm"@ != "jis_b7_91x128mm"@);
    }
    let ok36 = str_table_insert(t, "iso_c9_40x57mm", 36);
    proof {
        assert(ok36);
    }
    let ok37 = str_table_insert(t, "iso_dl_110x220mm", 37);
    proof {
        assert(ok37);
    }
    let ok38 = str_table_insert(t, "iso_sra2_450x640mm", 38);
    proof {
        assert(ok38);
    }
    let ok39 = str_table_insert(t, "jis_b0_1030x1456mm", 39);
    proof {
        assert(ok39);
    }
    let ok40 = str_table_insert(t, "jis_b1_728x1030mm", 40);
    proof {
        assert(ok40);
    }
    let ok41 = str_table_insert(t, "jis_b10_32x45mm", 41);
    proof {
        assert(ok41);
    }
    let ok42 = str_table_insert(t, "jis_b2_515x728mm", 42);
    proof {
        assert(ok42);
    }
    let ok43 = str_table_insert(t, "jis_b3_364x515mm", 43);
    proof {
        assert(ok43);
    }
    let ok44 = str_table_insert(t, "jis_b4_257x364mm", 44);
    proof {
        assert(ok44);
    }
    let ok45 = str_table_insert(t, "jis_b5_182x257mm", 45);
    proof {
        assert(ok45);
    }
    let ok46 = str_table_insert(t, "jis_b6_128x182mm", 46);
    proof {
        assert(ok46);
    }
    let ok47 = str_table_insert(t, "jis_b7_91x128mm", 47);
    proof {
        assert(ok47);
    }
}
/// Insert the media entries up to the first 60.
#[verifier::rlimit(100)]
fn media_push_e(t: &mut StrKeyTable)
    requires
        str_fwd(*old(t)) == media_fwd_d(),
        str_rev(*old(t)) == media_rev_d(),
    ensures
        str_fwd(*final(t)) == media_fwd_e(),
        str_rev(*final(t)) == media_rev_e(),
{
    proof {
        reveal_strlit("iso_a0_841x1189mm");
        reveal_strlit("iso_a1_594x841mm");
        reveal_strlit("iso_a10_26x37mm");
        reveal_strlit("iso_a2_420x594mm");
        reveal_strlit("iso_a3_297x420mm");
        reveal_strlit("iso_a3-extra_322x445mm");
        reveal_strlit("iso_a4_210x297mm");
        reveal_strlit("iso_a4-extra_235.5x322.3mm");
        reveal_strlit("iso_a5_148x210mm");
        reveal_strlit("iso_a5-extra_174x235mm");
        reveal_strlit("iso_a6_105x148mm");
        reveal_strlit("iso_a7_74x105mm");
        reveal_strlit("iso_a8_52x74mm");
        reveal_strlit("iso_a9_37x52mm");
        reveal_strlit("iso_b0_1000x1414mm");
        reveal_strlit("iso_b1_707x1000mm");
        reveal_strlit("iso_b10_31x44mm");
        reveal_strlit("iso_b2_500x707mm");
        reveal_strlit("iso_b3_353x500mm");
        reveal_strlit("iso_b4_250x353mm");
        reveal_strlit("iso_b5-extra_201x276mm");
        reveal_strlit("iso_b5_176x250mm");
        reveal_strlit("iso_b7_88x125mm");
        reveal_strlit("iso_b8_62x88mm");
        reveal_strlit("iso_b9_44x62mm");
        reveal_strlit("iso_c0_917x1297mm");
        reveal_strlit("iso_c1_648x917mm");
        reveal_strlit("iso_c10_28x40mm");
        reveal_strlit("iso_c2_458x648mm");
        reveal_strlit("iso_c3_324x458mm");
        reveal_strlit("iso_c4_229x324mm");
        reveal_strlit("iso_c5_162x229mm");
        reveal_strlit("iso_c6_114x162mm");
        reveal_strlit("iso_c6c5_114x229mm");
        reveal_strlit("iso_c7_81x114mm");
        reveal_strlit("iso_c8_57x81mm");
        reveal_strlit("iso_c9_40x57mm");
        reveal_strlit("iso_dl_110x220mm");
        reveal_strlit("iso_sra2_450x640mm");
        reveal_strlit("jis_b0_1030x1456mm");
        reveal_strlit("jis_b1_728x1030mm");
        reveal_strlit("jis_b10_32x45mm");
        reveal_strlit("jis_b2_515x728mm");
        reveal_strlit("jis_b3_364x515mm");
        reveal_strlit("jis_b4_257x364mm");
        reveal_strlit("jis_b5_182x257mm");
        reveal_strlit("jis_b6_128x182mm");
        reveal_strlit("jis_b7_91x128mm");
        reveal_strlit("jis_b8_64x91mm");
        reveal_strlit("jis_b9_45x64mm");
        reveal_strlit("jpn_chou3_120x235mm");
        reveal_strlit("jpn_chou4_90x205mm");
        reveal_strlit("jpn_hagaki_100x148mm");
        reveal_strlit("jpn_kaku2_240x332mm");
        reveal_strlit("jpn_kaku3_216x277mm");
        reveal_strlit("jpn_you4_105x235mm");
        reveal_strlit("na_10x11_10x11in");
        reveal_strlit("na_10x14_10x14in");
        reveal_strlit("na_5x7_5x7in");
        reveal_strlit("na_9x11_9x11in");
        assert("iso_a0_841x1189mm"@.len() == 17);
        assert("iso_a1_594x841mm"@.len() == 16);
        assert("iso_a10_26x37mm"@.len() == 15);
        assert("iso_a2_420x594mm"@.len() == 16);
        assert("iso_a3_297x420mm"@.len() == 16);
        assert("iso_a3-extra_322x445mm"@.len() == 22);
        assert("iso_a4_210x297mm"@.len() == 16);
        assert("iso_a4-extra_235.5x322.3mm"@.len() == 26);
        assert("iso_a5_148x210mm"@.len() == 16);
        assert("iso_a5-extra_174x235mm"@.len() == 22);
        assert("iso_a6_105x148mm"@.len() == 16);
        assert("iso_a7_74x105mm"@.len() == 15);
        assert("iso_a8_52x74mm"@.len() == 14);
        assert("iso_a9_37x52mm"@.len() == 14);
        assert("iso_b0_1000x1414mm"@.len() == 18);
        assert("iso_b1_707x1000mm"@.len() == 17);
        assert("iso_b10_31x44mm"@.len() == 15);
        assert("iso_b2_500x707mm"@.len() == 16);
        assert("iso_b3_353x500mm"@.len() == 16);
        assert("iso_b4_250x353mm"@.len() == 16);
        assert("iso_b5-extra_201x276mm"@.len() == 22);
        assert("iso_b5_176x250mm"@.len() == 16);
        assert("iso_b7_88x125mm"@.len() == 15);
        assert("iso_b8_62x88mm"@.len() == 14);
        assert("iso_b9_44x62mm"@.len() == 14);
        assert("iso_c0_917x1297mm"@.len() == 17);
        assert("iso_c1_648x917mm"@.len() == 16);
        assert("iso_c10_28x40mm"@.len() == 15);
        assert("iso_c2_458x648mm"@.len() == 16);
        assert("iso_c3_324x458mm"@.len() == 16);
        assert("iso_c4_229x324mm"@.len() == 16);
        assert("iso_c5_162x229mm"@.len() == 16);
        assert("iso_c6_114x162mm"@.len() == 16);
        assert("iso_c6c5_114x229mm"@.len() == 18);
        assert("iso_c7_81x114mm"@.len() == 15);
        assert("iso_c8_57x81mm"@.len() == 14);
        assert("iso_c9_40x57mm"@.len() == 14);
        assert("iso_dl_110x220mm"@.len() == 16);
        assert("iso_sra2_450x640mm"@.len() == 18);
        assert("jis_b0_1030x1456mm"@.len() == 18);
        assert("jis_b1_728x1030mm"@.len() == 17);
        assert("jis_b10_32x45mm"@.len() == 15);
        assert("jis_b2_515x728mm"@.len() == 16);
        assert("jis_b3_364x515mm"@.len() == 16);
        assert("jis_b4_257x364mm"@.len() == 16);
        assert("jis_b5_182x257mm"@.len() == 16);
        assert("jis_b6_128x182mm"@.len() == 16);
        assert("jis_b7_91x128mm"@.len() == 15);
        assert("jis_b8_64x91mm"@.len() == 14);
        assert("jis_b9_45x64mm"@.len() == 14);
        assert("jpn_chou3_120x235mm"@.len() == 19);
        assert("jpn_chou4_90x205mm"@.len() == 18);
        assert("jpn_hagaki_100x148mm"@.len() == 20);
        assert("jpn_kaku2_240x332mm"@.len() == 19);
        assert("jpn_kaku3_216x277mm"@.len() == 19);
        assert("jpn_you4_105x235mm"@.len() == 18);
        assert("na_10x11_10x11in"@.len() == 16);
        assert("na_10x14_10x14in"@.len() == 16);
        assert("na_5x7_5x7in"@.len() == 12);
        assert("na_9x11_9x11in"@.len() == 14);
        assert("iso_a8_52x74mm"@[0] != "jis_b8_64x91mm"@[0]);
        assert("iso_a8_52x74mm"@ != "jis_b8_64x91mm"@);
        assert("iso_a9_37x52mm"@[0] != "jis_b8_64x91mm"@[0]);
        assert("iso_a9_37x52mm"@ != "jis_b8_64x91mm"@);
        assert("iso_b8_62x88mm"@[0] != "jis_b8_64x91mm"@[0]);
        assert("iso_b8_62x88mm"@ != "jis_b8_64x91mm"@);
        assert("iso_b9_44x62mm"@[0] != "jis_b8_64x91mm"@[0]);
        assert("iso_b9_44x62mm"@ != "jis_b8_64x91mm"@);
        assert("iso_c8_57x81mm"@[0] != "jis_b8_64x91mm"@[0]);
        assert("iso_c8_57x81mm"@ != "jis_b8_64x91mm"@);
        assert("iso_c9_40x57mm"@[0] != "jis_b8_64x91mm"@[0]);
        assert("iso_c9_40x57mm"@ != "jis_b8_64x91mm"@);
        assert("iso_a8_52x74mm"@[0] != "jis_b9_45x64mm"@[0]);
        assert("iso_a8_52x74mm"@ != "jis_b9_45x64mm"@);
        assert("iso_a9_37x52mm"@[0] != "jis_b9_45x64mm"@[0]);
        assert("iso_a9_37x52mm"@ != "jis_b9_45x64mm"@);
        assert("iso_b8_62x88mm"@[0] != "jis_b9_45x64mm"@[0]);
        assert("iso_b8_62x88mm"@ != "jis_b9_45x64mm"@);
        assert("iso_b9_44x62mm"@[0] != "jis_b9_45x64mm"@[0]);
        assert("iso_b9_44x62mm"@ != "jis_b9_45x64mm"@);
        assert("iso_c8_57x81mm"@[0] != "jis_b9_45x64mm"@[0]);
        assert("iso_c8_57x81mm"@ != "jis_b9_45x64mm"@);
        assert("iso_c9_40x57mm"@[0] != "jis_b9_45x64mm"@[0]);
        assert("iso_c9_40x57mm"@ != "jis_b9_45x64mm"@);
        assert("jis_b8_64x91mm"@[5] != "jis_b9_45x64mm"@[5]);
        assert("jis_b8_64x91mm"@ != "jis_b9_45x64mm"@);
        assert("iso_b0_1000x1414mm"@[0] != "jpn_chou4_90x205mm"@[0]);
        assert("iso_b0_1000x1414mm"@ != "jpn_chou4_90x205mm"@);
        assert("iso_c6c5_114x229mm"@[0] != "jpn_chou4_90x205mm"@[0]);
        assert("iso_c6c5_114x229mm"@ != "jpn_chou4_90x205mm"@);
        assert("iso_sra2_450x640mm"@[0] != "jpn_chou4_90x205mm"@[0]);
        assert("iso_sra2_450x640mm"@ != "jpn_chou4_90x205mm"@);
        assert("jis_b0_1030x1456mm"@[1] != "jpn_chou4_90x205mm"@[1]);
        assert("jis_b0_1030x1456mm"@ != "jpn_chou4_90x205mm"@);
        assert("jpn_chou3_120x235mm"@[4] != "jpn_kaku2_240x332mm"@[4]);
        assert("jpn_chou3_120x235mm"@ != "jpn_kaku2_240x332mm"@);
        assert("jpn_chou3_120x235mm"@[4] != "jpn_kaku3_216x277mm"@[4]);
        assert("jpn_chou3_120x235mm"@ != "jpn_kaku3_216x277mm"@);
        assert("jpn_kaku2_240x332mm"@[8] != "jpn_kaku3_216x277mm"@[8]);
        assert("jpn_kaku2_240x332mm"@ != "jpn_kaku3_216x277mm"@);
        assert("iso_b0_1000x1414mm"@[0] != "jpn_you4_105x235mm"@[0]);
        assert("iso_b0_1000x1414mm"@ != "jpn_you4_105x235mm"@);
        assert("iso_c6c5_114x229mm"@[0] != "jpn_you4_105x235mm"@[0]);
        assert("iso_c6c5_114x229mm"@ != "jpn_you4_105x235mm"@);
        assert("iso_sra2_450x640mm"@[0] != "jpn_you4_105x235mm"@[0]);
        assert("iso_sra2_450x640mm"@ != "jpn_you4_105x235mm"@);
        assert("jis_b0_1030x1456mm"@[1] != "jpn_you4_105x235mm"@[1]);
        assert("jis_b0_1030x1456mm"@ != "jpn_you4_105x235mm"@);
        assert("jpn_chou4_90x205mm"@[4] != "jpn_you4_105x235mm"@[4]);
        assert("jpn_chou4_90x205mm"@ != "jpn_you4_105x235mm"@);
        assert("iso_a1_594x841mm"@[0] != "na_10x11_10x11in"@[0]);
        assert("iso_a1_594x841mm"@ != "na_10x11_10x11in"@);
        assert("iso_a2_420x594mm"@[0] != "na_10x11_10x11in"@[0]);
        assert("iso_a2_420x594mm"@ != "na_10x11_10x11in"@);
        assert("iso_a3_297x420mm"@[0] != "na_10x11_10x11in"@[0]);
        assert("iso_a3_297x420mm"@ != "na_10x11_10x11in"@);
        assert("iso_a4_210x297mm"@[0] != "na_10x11_10x11in"@[0]);
        assert("iso_a4_210x297mm"@ != "na_10x11_10x11in"@);
        assert("iso_a5_148x210mm"@[0] != "na_10x11_10x11in"@[0]);
        assert("iso_a5_148x210mm"@ != "na_10x11_10x11in"@);
        assert("iso_a6_105x148mm"@[0] != "na_10x11_10x11in"@[0]);
        assert("iso_a6_105x148mm"@ != "na_10x11_10x11in"@);
        assert("iso_b2_500x707mm"@[0] != "na_10x11_10x11in"@[0]);
        assert("iso_b2_500x707mm"@ != "na_10x11_10x11in"@);
        assert("iso_b3_353x500mm"@[0] != "na_10x11_10x11in"@[0]);
        assert("iso_b3_353x500mm"@ != "na_10x11_10x11in"@);
        assert("iso_b4_250x353mm"@[0] != "na_10x11_10x11in"@[0]);
        assert("iso_b4_250x353mm"@ != "na_10x11_10x11in"@);
        assert("iso_b5_176x250mm"@[0] != "na_10x11_10x11in"@[0]);
        assert("iso_b5_176x250mm"@ != "na_10x11_10x11in"@);
        assert("iso_c1_648x917mm"@[0] != "na_10x11_10x11in"@[0]);
        assert("iso_c1_648x917mm"@ != "na_10x11_10x11in"@);
        assert("iso_c2_458x648mm"@[0] != "na_10x11_10x11in"@[0]);
        assert("iso_c2_458x648mm"@ != "na_10x11_10x11in"@);
        assert("iso_c3_324x458mm"@[0] != "na_10x11_10x11in"@[0]);
        assert("iso_c3_324x458mm"@ != "na_10x11_10x11in"@);
        assert("iso_c4_229x324mm"@[0] != "na_10x11_10x11in"@[0]);
        assert("iso_c4_229x324mm"@ != "na_10x11_10x11in"@);
        assert("iso_c5_162x229mm"@[0] != "na_10x11_10x11in"@[0]);
        assert("iso_c5_162x229mm"@ != "na_10x11_10x11in"@);
        assert("iso_c6_114x162mm"@[0] != "na_10x11_10x11in"@[0]);
        assert("iso_c6_114x162mm"@ != "na_10x11_10x11in"@);
        assert("iso_dl_110x220mm"@[0] != "na_10x11_10x11in"@[0]);
        assert("iso_dl_110x220mm"@ != "na_10x11_10x11in"@);
        assert("jis_b2_515x728mm"@[0] != "na_10x11_10x11in"@[0]);
        assert("jis_b2_515x728mm"@ != "na_10x11_10x11in"@);
        assert("jis_b3_364x515mm"@[0] != "na_10x11_10x11in"@[0]);
        assert("jis_b3_364x515mm"@ != "na_10x11_10x11in"@);
        assert("jis_b4_257x364mm"@[0] != "na_10x11_10x11in"@[0]);
        assert("jis_b4_257x364mm"@ != "na_10x11_10x11in"@);
        assert("jis_b5_182x257mm"@[0] != "na_10x11_10x11in"@[0]);
        assert("jis_b5_182x257mm"@ != "na_10x11_10x11in"@);
        assert("jis_b6_128x182mm"@[0] != "na_10x11_10x11in"@[0]);
        assert("jis_b6_128x182mm"@ != "na_10x11_10x11in"@);
        assert("iso_a1_594x841mm"@[0] != "na_10x14_10x14in"@[0]);
        assert("iso_a1_594x841mm"@ != "na_10x14_10x14in"@);
        assert("iso_a2_420x594mm"@[0] != "na_10x14_10x14in"@[0]);
        assert("iso_a2_420x594mm"@ != "na_10x14_10x14in"@);
        assert("iso_a3_297x420mm"@[0] != "na_10x14_10x14in"@[0]);
        assert("iso_a3_297x420mm"@ != "na_10x14_10x14in"@);
        assert("iso_a4_210x297mm"@[0] != "na_10x14_10x14in"@[0]);
        assert("iso_a4_210x297mm"@ != "na_10x14_10x14in"@);
        assert("iso_a5_148x210mm"@[0] != "na_10x14_10x14in"@[0]);
        assert("iso_a5_148x210mm"@ != "na_10x14_10x14in"@);
        assert("iso_a6_105x148mm"@[0] != "na_10x14_10x14in"@[0]);
        assert("iso_a6_105x148mm"@ != "na_10x14_10x14in"@);
        assert("iso_b2_500x707mm"@[0] != "na_10x14_10x14in"@[0]);
        assert("iso_b2_500x707mm"@ != "na_10x14_10x14in"@);
        assert("iso_b3_353x500mm"@[0] != "na_10x14_10x14in"@[0]);
        assert("iso_b3_353x500mm"@ != "na_10x14_10x14in"@);
        assert("iso_b4_250x353mm"@[0] != "na_10x14_10x14in"@[0]);
        assert("iso_b4_250x353mm"@ != "na_10x14_10x14in"@);
        assert("iso_b5_176x250mm"@[0] != "na_10x14_10x14in"@[0]);
        assert("iso_b5_176x250mm"@ != "na_10x14_10x14in"@);
        assert("iso_c1_648x917mm"@[0] != "na_10x14_10x14in"@[0]);
        assert("iso_c1_648x917mm"@ != "na_10x14_10x14in"@);
        assert("iso_c2_458x648mm"@[0] != "na_10x14_10x14in"@[0]);
        assert("iso_c2_458x648mm"@ != "na_10x14_10x14in"@);
        assert("iso_c3_324x458mm"@[0] != "na_10x14_10x14in"@[0]);
        assert("iso_c3_324x458mm"@ != "na_10x14_10x14in"@);
        assert("iso_c4_229x324mm"@[0] != "na_10x14_10x14in"@[0]);
        assert("iso_c4_229x324mm"@ != "na_10x14_10x14in"@);
        assert("iso_c5_162x229mm"@[0] != "na_10x14_10x14in"@[0]);
        assert("iso_c5_162x229mm"@ != "na_10x14_10x14in"@);
        assert("iso_c6_114x162mm"@[0] != "na_10x14_10x14in"@[0]);
        assert("iso_c6_114x162mm"@ != "na_10x14_10x14in"@);
        assert("iso_dl_110x220mm"@[0] != "na_10x14_10x14in"@[0]);
        assert("iso_dl_110x220mm"@ != "na_10x14_10x14in"@);
        assert("jis_b2_515x728mm"@[0] != "na_10x14_10x14in"@[0]);
        assert("jis_b2_515x728mm"@ != "na_10x14_10x14in"@);
        assert("jis_b3_364x515mm"@[0] != "na_10x14_10x14in"@[0]);
        assert("jis_b3_364x515mm"@ != "na_10x14_10x14in"@);
        assert("jis_b4_257x364mm"@[0] != "na_10x14_10x14in"@[0]);
        assert("jis_b4_257x364mm"@ != "na_10x14_10x14in"@);
        assert("jis_b5_182x257mm"@[0] != "na_10x14_10x14in"@[0]);
        assert("jis_b5_182x257mm"@ != "na_10x14_10x14in"@);
        assert("jis_b6_128x182mm"@[0] != "na_10x14_10x14in"@[0]);
        assert("jis_b6_128x182mm"@ != "na_10x14_10x14in"@);
        assert("na_10x11_10x11in"@[7] != "na_10x14_10x14in"@[7]);
        assert("na_10x11_10x11in"@ != "na_10x14_10x14in"@);
        assert("iso_a8_52x74mm"@[0] != "na_9x11_9x11in"@[0]);
        assert("iso_a8_52x74mm"@ != "na_9x11_9x11in"@);
        assert("iso_a9_37x52mm"@[0] != "na_9x11_9x11in"@[0]);
        assert("iso_a9_37x52mm"@ != "na_9x11_9x11in"@);
        assert("iso_b8_62x88mm"@[0] != "na_9x11_9x11in"@[0]);
        assert("iso_b8_62x88mm"@ != "na_9x11_9x11in"@);
        assert("iso_b9_44x62mm"@[0] != "na_9x11_9x11in"@[0]);
        assert("iso_b9_44x62mm"@ != "na_9x11_9x11in"@);
        assert("iso_c8_57x81mm"@[0] != "na_9x11_9x11in"@[0]);
        assert("iso_c8_57x81mm"@ != "na_9x11_9x11in"@);
        assert("iso_c9_40x57mm"@[0] != "na_9x11_9x11in"@[0]);
        assert("iso_c9_40x57mm"@ != "na_9x11_9x11in"@);
        assert("jis_b8_64x91mm"@[0] != "na_9x11_9x11in"@[0]);
        assert("jis_b8_64x91mm"@ != "na_9x11_9x11in"@);
        assert("jis_b9_45x64mm"@[0] != "na_9x11_9x11in"@[0]);
        assert("jis_b9_45x64mm"@ != "na_9x11_9x11in"@);
    }
    let ok48 = str_table_insert(t, "jis_b8_64x91mm", 48);
    proof {
        assert(ok48);
    }
    let ok49 = str_table_insert(t, "jis_b9_45x64mm", 49);
    proof {
        assert(ok49);
    }
    let ok50 = str_table_insert(t, "jpn_chou3_120x235mm", 50);
    proof {
        assert(ok50);
    }
    let ok51 = str_table_insert(t, "jpn_chou4_90x205mm", 51);
    proof {
        assert(ok51);
    }
    let ok52 = str_table_insert(t, "jpn_hagaki_100x148mm", 52);
    proof {
        assert(ok52);
    }
    let ok53 = str_table_insert(t, "jpn_kaku2_240x332mm", 53);
    proof {
        assert(ok53);
    }
    let ok54 = str_table_insert(t, "jpn_kaku3_216x277mm", 54);
    proof {
        assert(ok54);
    }
    let ok55 = str_table_insert(t, "jpn_you4_105x235mm", 55);
    proof {
        assert(ok55);
    }
    let ok56 = str_table_insert(t, "na_10x11_10x11in", 56);
    proof {
        assert(ok56);
    }
    let ok57 = str_table_insert(t, "na_10x14_10x14in", 57);
    proof {
        assert(ok57);
    }
    let ok58 = str_table_insert(t, "na_5x7_5x7in", 58);
    proof {
        assert(ok58);
    }
    let ok59 = str_table_insert(t, "na_9x11_9x11in", 59);
    proof {
        assert(ok59);
    }
}
/// Insert the media entries up to the first 72.
#[verifier::rlimit(100)]
fn media_push_f(t: &mut StrKeyTable)
    requires
        str_fwd(*old(t)) == media_fwd_e(),
        str_rev(*old(t)) == media_rev_e(),
    ensures
        str_fwd(*final(t)) == media_fwd_f(),
        str_rev(*final(t)) == media_rev_f(),
{
    proof {
        reveal_strlit("iso_a0_841x1189mm");
        reveal_strlit("iso_a1_594x841mm");
        reveal_strlit("iso_a10_26x37mm");
        reveal_strlit("iso_a2_420x594mm");
        reveal_strlit("iso_a3_297x420mm");
        reveal_strlit("iso_a3-extra_322x445mm");
        reveal_strlit("iso_a4_210x297mm");
        reveal_strlit("iso_a4-extra_235.5x322.3mm");
        reveal_strlit("iso_a5_148x210mm");
        reveal_strlit("iso_a5-extra_174x235mm");
        reveal_strlit("iso_a6_105x148mm");
        reveal_strlit("iso_a7_74x105mm");
        reveal_strlit("iso_a8_52x74mm");
        reveal_strlit("iso_a9_37x52mm");
        reveal_strlit("iso_b0_1000x1414mm");
        reveal_strlit("iso_b1_707x1000mm");
        reveal_strlit("iso_b10_31x44mm");
        reveal_strlit("iso_b2_500x707mm");
        reveal_strlit("iso_b3_353x500mm");
        reveal_strlit("iso_b4_250x353mm");
        reveal_strlit("iso_b5-extra_201x276mm");
        reveal_strlit("iso_b5_176x250mm");
        reveal_strlit("iso_b7_88x125mm");
        reveal_strlit("iso_b8_62x88mm");
        reveal_strlit("iso_b9_44x62mm");
        reveal_strlit("iso_c0_917x1297mm");
        reveal_strlit("iso_c1_648x917mm");
        reveal_strlit("iso_c10_28x40mm");
        reveal_strlit("iso_c2_458x648mm");
        reveal_strlit("iso_c3_324x458mm");
        reveal_strlit("iso_c4_229x324mm");
        reveal_strlit("iso_c5_162x229mm");
        reveal_strlit("iso_c6_114x162mm");
        reveal_strlit("iso_c6c5_114x229mm");
        reveal_strlit("iso_c7_81x114mm");
        reveal_strlit("iso_c8_57x81mm");
        reveal_strlit("iso_c9_40x57mm");
        reveal_strlit("iso_dl_110x220mm");
        reveal_strlit("iso_sra2_450x640mm");
        reveal_strlit("jis_b0_1030x1456mm");
        reveal_strlit("jis_b1_728x1030mm");
        reveal_strlit("jis_b10_32x45mm");
        reveal_strlit("jis_b2_515x728mm");
        reveal_strlit("jis_b3_364x515mm");
        reveal_strlit("jis_b4_257x364mm");
        reveal_strlit("jis_b5_182x257mm");
        reveal_strlit("jis_b6_128x182mm");
        reveal_strlit("jis_b7_91x128mm");
        reveal_strlit("jis_b8_64x91mm");
        reveal_strlit("jis_b9_45x64mm");
        reveal_strlit("jpn_chou3_120x235mm");
        reveal_strlit("jpn_chou4_90x205mm");
        reveal_strlit("jpn_hagaki_100x148mm");
        reveal_strlit("jpn_kaku2_240x332mm");
        reveal_strlit("jpn_kaku3_216x277mm");
        reveal_strlit("jpn_you4_105x235mm");
        reveal_strlit("na_10x11_10x11in");
        reveal_strlit("na_10x14_10x14in");
        reveal_strlit("na_5x7_5x7in");
        reveal_strlit("na_9x11_9x11in");
        reveal_strlit("na_arch-a_9x12in");
        reveal_strlit("na_arch-b_12x18in");
        reveal_strlit("na_arch-c_18x24in");
        reveal_strlit("na_arch-d_24x36in");
        reveal_strlit("na_arch-e_36x48in");
        reveal_strlit("na_c_17x22in");
        reveal_strlit("na_d_22x34in");
        reveal_strlit("na_e_34x44in");
        reveal_strlit("na_executive_7.25x10.5in");
        reveal_strlit("na_ledger_11x17in");
        reveal_strlit("na_legal-extra_9.5x15in");
        reveal_strlit("na_legal_8.5x14in");
        assert("iso_a0_841x1189mm"@.len() == 17);
        assert("iso_a1_594x841mm"@.len() == 16);
        assert("iso_a10_26x37mm"@.len() == 15);
        assert("iso_a2_420x594mm"@.len() == 16);
        assert("iso_a3_297x420mm"@.len() == 16);
        assert("iso_a3-extra_322x445mm"@.len() == 22);
        assert("iso_a4_210x297mm"@.len() == 16);
        assert("iso_a4-extra_235.5x322.3mm"@.len() == 26);
        assert("iso_a5_148x210mm"@.len() == 16);
        assert("iso_a5-extra_174x235mm"@.len() == 22);
        assert("iso_a6_105x148mm"@.len() == 16);
        assert("iso_a7_74x105mm"@.len() == 15);
        assert("iso_a8_52x74mm"@.len() == 14);
        assert("iso_a9_37x52mm"@.len() == 14);
        assert("iso_b0_1000x1414mm"@.len() == 18);
        assert("iso_b1_707x1000mm"@.len() == 17);
        assert("iso_b10_31x44mm"@.len() == 15);
        assert("iso_b2_500x707mm"@.len() == 16);
        assert("iso_b3_353x500mm"@.len() == 16);
        assert("iso_b4_250x353mm"@.len() == 16);
        assert("iso_b5-extra_201x276mm"@.len() == 22);
        assert("iso_b5_176x250mm"@.len() == 16);
        assert("iso_b7_88x125mm"@.len() == 15);
        assert("iso_b8_62x88mm"@.len() == 14);
        assert("iso_b9_44x62mm"@.len() == 14);
        assert("iso_c0_917x1297mm"@.len() == 17);
        assert("iso_c1_648x917mm"@.len() == 16);
        assert("iso_c10_28x40mm"@.len() == 15);
        assert("iso_c2_458x648mm"@.len() == 16);
        assert("iso_c3_324x458mm"@.len() == 16);
        assert("iso_c4_229x324mm"@.len() == 16);
        assert("iso_c5_162x229mm"@.len() == 16);
        assert("iso_c6_114x162mm"@.len() == 16);
        assert("iso_c6c5_114x229mm"@.len() == 18);
        assert("iso_c7_81x114mm"@.len() == 15);
        assert("iso_c8_57x81mm"@.len() == 14);
        assert("iso_c9_40x57mm"@.len() == 14);
        assert("iso_dl_110x220mm"@.len() == 16);
        assert("iso_sra2_450x640mm"@.len() == 18);
        assert("jis_b0_1030x1456mm"@.len() == 18);
        assert("jis_b1_728x1030mm"@.len() == 17);
        assert("jis_b10_32x45mm"@.len() == 15);
        assert("jis_b2_515x728mm"@.len() == 16);
        assert("jis_b3_364x515mm"@.len() == 16);
        assert("jis_b4_257x364mm"@.len() == 16);
        assert("jis_b5_182x257mm"@.len() == 16);
        assert("jis_b6_128x182mm"@.len() == 16);
        assert("jis_b7_91x128mm"@.len() == 15);
        assert("jis_b8_64x91mm"@.len() == 14);
        assert("jis_b9_45x64mm"@.len() == 14);
        assert("jpn_chou3_120x235mm"@.len() == 19);
        assert("jpn_chou4_90x205mm"@.len() == 18);
        assert("jpn_hagaki_100x148mm"@.len() == 20);
        assert("jpn_kaku2_240x332mm"@.len() == 19);
        assert("jpn_kaku3_216x277mm"@.len() == 19);
        assert("jpn_you4_105x235mm"@.len() == 18);
        assert("na_10x11_10x11in"@.len() == 16);
        assert("na_10x14_10x14in"@.len() == 16);
        assert("na_5x7_5x7in"@.len() == 12);
        assert("na_9x11_9x11in"@.len() == 14);
        assert("na_arch-a_9x12in"@.len() == 16);
        assert("na_arch-b_12x18in"@.len() == 17);
        assert("na_arch-c_18x24in"@.len() == 17);
        assert("na_arch-d_24x36in"@.len() == 17);
        assert("na_arch-e_36x48in"@.len() == 17);
        assert("na_c_17x22in"@.len() == 12);
        assert("na_d_22x34in"@.len() == 12);
        assert("na_e_34x44in"@.len() == 12);
        assert("na_executive_7.25x10.5in"@.len() == 24);
        assert("na_ledger_11x17in"@.len() == 17);
        assert("na_legal-extra_9.5x15in"@.len() == 23);
        assert("na_legal_8.5x14in"@.len() == 17);
        assert("iso_a1_594x841mm"@[0] != "na_arch-a_9x12in"@[0]);
        assert("iso_a1_594x841mm"@ != "na_arch-a_9x12in"@);
        assert("iso_a2_420x594mm"@[0] != "na_arch-a_9x12in"@[0]);
        assert("iso_a2_420x594mm"@ != "na_arch-a_9x12in"@);
        assert("iso_a3_297x420mm"@[0] != "na_arch-a_9x12in"@[0]);
        assert("iso_a3_297x420mm"@ != "na_arch-a_9x12in"@);
        assert("iso_a4_210x297mm"@[0] != "na_arch-a_9x12in"@[0]);
        assert("iso_a4_210x297mm"@ != "na_arch-a_9x12in"@);
        assert("iso_a5_148x210mm"@[0] != "na_arch-a_9x12in"@[0]);
        assert("iso_a5_148x210mm"@ != "na_arch-a_9x12in"@);
        assert("iso_a6_105x148mm"@[0] != "na_arch-a_9x12in"@[0]);
        assert("iso_a6_105x148mm"@ != "na_arch-a_9x12in"@);
        assert("iso_b2_500x707mm"@[0] != "na_arch-a_9x12in"@[0]);
        assert("iso_b2_500x707mm"@ != "na_arch-a_9x12in"@);
        assert("iso_b3_353x500mm"@[0] != "na_arch-a_9x12in"@[0]);
        assert("iso_b3_353x500mm"@ != "na_arch-a_9x12in"@);
        assert("iso_b4_250x353mm"@[0] != "na_arch-a_9x12in"@[0]);
        assert("iso_b4_250x353mm"@ != "na_arch-a_9x12in"@);
        assert("iso_b5_176x250mm"@[0] != "na_arch-a_9x12in"@[0]);
        assert("iso_b5_176x250mm"@ != "na_arch-a_9x12in"@);
        assert("iso_c1_648x917mm"@[0] != "na_arch-a_9x12in"@[0]);
        assert("iso_c1_648x917mm"@ != "na_arch-a_9x12in"@);
        assert("iso_c2_458x648mm"@[0] != "na_arch-a_9x12in"@[0]);
        assert("iso_c2_458x648mm"@ != "na_arch-a_9x12in"@);
        assert("iso_c3_324x458mm"@[0] != "na_arch-a_9x12in"@[0]);
        assert("iso_c3_324x458mm"@ != "na_arch-a_9x12in"@);
        assert("iso_c4_229x324mm"@[0] != "na_arch-a_9x12in"@[0]);
        assert("iso_c4_229x324mm"@ != "na_arch-a_9x12in"@);
        assert("iso_c5_162x229mm"@[0] != "na_arch-a_9x12in"@[0]);
        assert("iso_c5_162x229mm"@ != "na_arch-a_9x12in"@);
        assert("iso_c6_114x162mm"@[0] != "na_arch-a_9x12in"@[0]);
        assert("iso_c6_114x162mm"@ != "na_arch-a_9x12in"@);
        assert("iso_dl_110x220mm"@[0] != "na_arch-a_9x12in"@[0]);
        assert("iso_dl_110x220mm"@ != "na_arch-a_9x12in"@);
        assert("jis_b2_515x728mm"@[0] != "na_arch-a_9x12in"@[0]);
        assert("jis_b2_515x728mm"@ != "na_arch-a_9x12in"@);
        assert("jis_b3_364x515mm"@[0] != "na_arch-a_9x12in"@[0]);
        assert("jis_b3_364x515mm"@ != "na_arch-a_9x12in"@);
        assert("jis_b4_257x364mm"@[0] != "na_arch-a_9x12in"@[0]);
        assert("jis_b4_257x364mm"@ != "na_arch-a_9x12in"@);
        assert("jis_b5_182x257mm"@[0] != "na_arch-a_9x12in"@[0]);
        assert("jis_b5_182x257mm"@ != "na_arch-a_9x12in"@);
        assert("jis_b6_128x182mm"@[0] != "na_arch-a_9x12in"@[0]);
        assert("jis_b6_128x182mm"@ != "na_arch-a_9x12in"@);
        assert("na_10x11_10x11in"@[3] != "na_arch-a_9x12in"@[3]);
        assert("na_10x11_10x11in"@ != "na_arch-a_9x12in"@);
        assert("na_10x14_10x14in"@[3] != "na_arch-a_9x12in"@[3]);
        assert("na_10x14_10x14in"@ != "na_arch-a_9x12in"@);
        assert("iso_a0_841x1189mm"@[0] != "na_arch-b_12x18in"@[0]);
        assert("iso_a0_841x1189mm"@ != "na_arch-b_12x18in"@);
        assert("iso_b1_707x1000mm"@[0] != "na_arch-b_12x18in"@[0]);
        assert("iso_b1_707x1000mm"@ != "na_arch-b_12x18in"@);
        assert("iso_c0_917x1297mm"@[0] != "na_arch-b_12x18in"@[0]);
        assert("iso_c0_917x1297mm"@ != "na_arch-b_12x18in"@);
        assert("jis_b1_728x1030mm"@[0] != "na_arch-b_12x18in"@[0]);
        assert("jis_b1_728x1030mm"@ != "na_arch-b_12x18in"@);
        assert("iso_a0_841x1189mm"@[0] != "na_arch-c_18x24in"@[0]);
        assert("iso_a0_841x1189mm"@ != "na_arch-c_18x24in"@);
        assert("iso_b1_707x1000mm"@[0] != "na_arch-c_18x24in"@[0]);
        assert("iso_b1_707x1000mm"@ != "na_arch-c_18x24in"@);
        assert("iso_c0_917x1297mm"@[0] != "na_arch-c_18x24in"@[0]);
        assert("iso_c0_917x1297mm"@ != "na_arch-c_18x24in"@);
        assert("jis_b1_728x1030mm"@[0] != "na_arch-c_18x24in"@[0]);
        assert("jis_b1_728x1030mm"@ != "na_arch-c_18x24in"@);
        assert("na_arch-b_12x18in"@[8] != "na_arch-c_18x24in"@[8]);
        assert("na_arch-b_12x18in"@ != "na_arch-c_18x24in"@);
        assert("iso_a0_841x1189mm"@[0] != "na_arch-d_24x36in"@[0]);
        assert("iso_a0_841x1189mm"@ != "na_arch-d_24x36in"@);
        assert("iso_b1_707x1000mm"@[0] != "na_arch-d_24x36in"@[0]);
        assert("iso_b1_707x1000mm"@ != "na_arch-d_24x36in"@);
        assert("iso_c0_917x1297mm"@[0] != "na_arch-d_24x36in"@[0]);
        assert("iso_c0_917x1297mm"@ != "na_arch-d_24x36in"@);
        assert("jis_b1_728x1030mm"@[0] != "na_arch-d_24x36in"@[0]);
        assert("jis_b1_728x1030mm"@ != "na_arch-d_24x36in"@);
        assert("na_arch-b_12x18in"@[8] != "na_arch-d_24x36in"@[8]);
        assert("na_arch-b_12x18in"@ != "na_arch-d_24x36in"@);
        assert("na_arch-c_18x24in"@[8] != "na_arch-d_24x36in"@[8]);
        assert("na_arch-c_18x24in"@ != "na_arch-d_24x36in"@);
        assert("iso_a0_841x1189mm"@[0] != "na_arch-e_36x48in"@[0]);
        assert("iso_a0_841x1189mm"@ != "na_arch-e_36x48in"@);
        assert("iso_b1_707x1000mm"@[0] != "na_arch-e_36x48in"@[0]);
        assert("iso_b1_707x1000mm"@ != "na_arch-e_36x48in"@);
        assert("iso_c0_917x1297mm"@[0] != "na_arch-e_36x48in"@[0]);
        assert("iso_c0_917x1297mm"@ != "na_arch-e_36x48in"@);
        assert("jis_b1_728x1030mm"@[0] != "na_arch-e_36x48in"@[0]);
        assert("jis_b1_728x1030mm"@ != "na_arch-e_36x48in"@);
        assert("na_arch-b_12x18in"@[8] != "na_arch-e_36x48in"@[8]);
        assert("na_arch-b_12x18in"@ != "na_arch-e_36x48in"@);
        assert("na_arch-c_18x24in"@[8] != "na_arch-e_36x48in"@[8]);
        assert("na_arch-c_18x24in"@ != "na_arch-e_36x48in"@);
        assert("na_arch-d_24x36in"@[8] != "na_arch-e_36x48in"@[8]);
        assert("na_arch-d_24x36in"@ != "na_arch-e_36x48in"@);
        assert("na_5x7_5x7in"@[3] != "na_c_17x22in"@[3]);
        assert("na_5x7_5x7in"@ != "na_c_17x22in"@);
        assert("na_5x7_5x7in"@[3] != "na_d_22x34in"@[3]);
        assert("na_5x7_5x7in"@ != "na_d_22x34in"@);
        assert("na_c_17x22in"@[3] != "na_d_22x34in"@[3]);
        assert("na_c_17x22in"@ != "na_d_22x34in"@);
        assert("na_5x7_5x7in"@[3] != "na_e_34x44in"@[3]);
        assert("na_5x7_5x7in"@ != "na_e_34x44in"@);
        assert("na_c_17x22in"@[3] != "na_e_34x44in"@[3]);
        assert("na_c_17x22in"@ != "na_e_34x44in"@);
        assert("na_d_22x34in"@[3] != "na_e_34x44in"@[3]);
        assert("na_d_22x34in"@ != "na_e_34x44in"@);
        assert("iso_a0_841x1189mm"@[0] != "na_ledger_11x17in"@[0]);
        assert("iso_a0_841x1189mm"@ != "na_ledger_11x17in"@);
        assert("iso_b1_707x1000mm"@[0] != "na_ledger_11x17in"@[0]);
        assert("iso_b1_707x1000mm"@ != "na_ledger_11x17in"@);
        assert("iso_c0_917x1297mm"@[0] != "na_ledger_11x17in"@[0]);
        assert("iso_c0_917x1297mm"@ != "na_ledger_11x17in"@);
        assert("jis_b1_728x1030mm"@[0] != "na_ledger_11x17in"@[0]);
        assert("jis_b1_728x1030mm"@ != "na_ledger_11x17in"@);
        assert("na_arch-b_12x18in"@[3] != "na_ledger_11x17in"@[3]);
        assert("na_arch-b_12x18in"@ != "na_ledger_11x17in"@);
        assert("na_arch-c_18x24in"@[3] != "na_ledger_11x17in"@[3]);
        assert("na_arch-c_18x24in"@ != "na_ledger_11x17in"@);
        assert("na_arch-d_24x36in"@[3] != "na_ledger_11x17in"@[3]);
        assert("na_arch-d_24x36in"@ != "na_ledger_11x17in"@);
        assert("na_arch-e_36x48in"@[3] != "na_ledger_11x17in"@[3]);
        assert("na_arch-e_36x48in"@ != "na_ledger_11x17in"@);
        assert("iso_a0_841x1189mm"@[0] != "na_legal_8.5x14in"@[0]);
        assert("iso_a0_841x1189mm"@ != "na_legal_8.5x14in"@);
        assert("iso_b1_707x1000mm"@[0] != "na_legal_8.5x14in"@[0]);
        assert("iso_b1_707x1000mm"@ != "na_legal_8.5x14in"@);
        assert("iso_c0_917x1297mm"@[0] != "na_legal_8.5x14in"@[0]);
        assert("iso_c0_917x1297mm"@ != "na_legal_8.5x14in"@);
        assert("jis_b1_728x1030mm"@[0] != "na_legal_8.5x14in"@[0]);
        assert("jis_b1_728x1030mm"@ != "na_legal_8.5x14in"@);
        assert("na_arch-b_12x18in"@[3] != "na_legal_8.5x14in"@[3]);
        assert("na_arch-b_12x18in"@ != "na_legal_8.5x14in"@);
        assert("na_arch-c_18x24in"@[3] != "na_legal_8.5x14in"@[3]);
        assert("na_arch-c_18x24in"@ != "na_legal_8.5x14in"@);
        assert("na_arch-d_24x36in"@[3] != "na_legal_8.5x14in"@[3]);
        assert("na_arch-d_24x36in"@ != "na_legal_8.5x14in"@);
        assert("na_arch-e_36x48in"@[3] != "na_legal_8.5x14in"@[3]);
        assert("na_arch-e_36x48in"@ != "na_legal_8.5x14in"@);
        assert("na_ledger_11x17in"@[5] != "na_legal_8.5x14in"@[5]);
        assert("na_ledger_11x17in"@ != "na_legal_8.5x14in"@);
    }
    let ok60 = str_table_insert(t, "na_arch-a_9x12in", 60);
    proof {
        assert(ok60);
    }
    let ok61 = str_table_insert(t, "na_arch-b_12x18in", 61);
    proof {
        assert(ok61);
    }
    let ok62 = str_table_insert(t, "na_arch-c_18x24in", 62);
    proof {
        assert(ok62);
    }
    let ok63 = str_table_insert(t, "na_arch-d_24x36in", 63);
    proof {
        assert(ok63);
    }
    let ok64 = str_table_insert(t, "na_arch-e_36x48in", 64);
    proof {
        assert(ok64);
    }
    let ok65 = str_table_insert(t, "na_c_17x22in", 65);
    proof {
        assert(ok65);
    }
    let ok66 = str_table_insert(t, "na_d_22x34in", 66);
    proof {
        assert(ok66);
    }
    let ok67 = str_table_insert(t, "na_e_34x44in", 67);
    proof {
        assert(ok67);
    }
    let ok68 = str_table_insert(t, "na_executive_7.25x10.5in", 68);
    proof {
        assert(ok68);
    }
    let ok69 = str_table_insert(t, "na_ledger_11x17in", 69);
    proof {
        assert(ok69);
    }
    let ok70 = str_table_insert(t, "na_legal-extra_9.5x15in", 70);
    proof {
        assert(ok70);
    }
    let ok71 = str_table_insert(t, "na_legal_8.5x14in", 71);
    proof {
        assert(ok71);
    }
}
/// Insert the media entries up to the first 84.
#[verifier::rlimit(100)]
fn media_push_g(t: &mut StrKeyTable)
    requires
        str_fwd(*old(t)) == media_fwd_f(),
        str_rev(*old(t)) == media_rev_f(),
    ensures
        str_fwd(*final(t)) == media_fwd_g(),
        str_rev(*final(t)) == media_rev_g(),
{
    proof {
        reveal_strlit("iso_a0_841x1189mm");
        reveal_strlit("iso_a1_594x841mm");
        reveal_strlit("iso_a10_26x37mm");
        reveal_strlit("iso_a2_420x594mm");
        reveal_strlit("iso_a3_297x420mm");
        reveal_strlit("iso_a3-extra_322x445mm");
        reveal_strlit("iso_a4_210x297mm");
        reveal_strlit("iso_a4-extra_235.5x322.3mm");
        reveal_strlit("iso_a5_148x210mm");
        reveal_strlit("iso_a5-extra_174x235mm");
        reveal_strlit("iso_a6_105x148mm");
        reveal_strlit("iso_a7_74x105mm");
        reveal_strlit("iso_a8_52x74mm");
        reveal_strlit("iso_a9_37x52mm");
        reveal_strlit("iso_b0_1000x1414mm");
        reveal_strlit("iso_b1_707x1000mm");
        reveal_strlit("iso_b10_31x44mm");
        reveal_strlit("iso_b2_500x707mm");
        reveal_strlit("iso_b3_353x500mm");
        reveal_strlit("iso_b4_250x353mm");
        reveal_strlit("iso_b5-extra_201x276mm");
        reveal_strlit("iso_b5_176x250mm");
        reveal_strlit("iso_b7_88x125mm");
        reveal_strlit("iso_b8_62x88mm");
        reveal_strlit("iso_b9_44x62mm");
        reveal_strlit("iso_c0_917x1297mm");
        reveal_strlit("iso_c1_648x917mm");
        reveal_strlit("iso_c10_28x40mm");
        reveal_strlit("iso_c2_458x648mm");
        reveal_strlit("iso_c3_324x458mm");
        reveal_strlit("iso_c4_229x324mm");
        reveal_strlit("iso_c5_162x229mm");
        reveal_strlit("iso_c6_114x162mm");
        reveal_strlit("iso_c6c5_114x229mm");
        reveal_strlit("iso_c7_81x114mm");
        reveal_strlit("iso_c8_57x81mm");
        reveal_strlit("iso_c9_40x57mm");
        reveal_strlit("iso_dl_110x220mm");
        reveal_strlit("iso_sra2_450x640mm");
        reveal_strlit("jis_b0_1030x1456mm");
        reveal_strlit("jis_b1_728x1030mm");
        reveal_strlit("jis_b10_32x45mm");
        reveal_strlit("jis_b2_515x728mm");
        reveal_strlit("jis_b3_364x515mm");
        reveal_strlit("jis_b4_257x364mm");
        reveal_strlit("jis_b5_182x257mm");
        reveal_strlit("jis_b6_128x182mm");
        reveal_strlit("jis_b7_91x128mm");
        reveal_strlit("jis_b8_64x91mm");
        reveal_strlit("jis_b9_45x64mm");
        reveal_strlit("jpn_chou3_120x235mm");
        reveal_strlit("jpn_chou4_90x205mm");
        reveal_strlit("jpn_hagaki_100x148mm");
        reveal_strlit("jpn_kaku2_240x332mm");
        reveal_strlit("jpn_kaku3_216x277mm");
        reveal_strlit("jpn_you4_105x235mm");
        reveal_strlit("na_10x11_10x11in");
        reveal_strlit("na_10x14_10x14in");
        reveal_strlit("na_5x7_5x7in");
        reveal_strlit("na_9x11_9x11in");
        reveal_strlit("na_arch-a_9x12in");
        reveal_strlit("na_arch-b_12x18in");
        reveal_strlit("na_arch-c_18x24in");
        reveal_strlit("na_arch-d_24x36in");
        reveal_strlit("na_arch-e_36x48in");
        reveal_strlit("na_c_17x22in");
        reveal_strlit("na_d_22x34in");
        reveal_strlit("na_e_34x44in");
        reveal_strlit("na_executive_7.25x10.5in");
        reveal_strlit("na_ledger_11x17in");
        reveal_strlit("na_legal-extra_9.5x15in");
        reveal_strlit("na_legal_8.5x14in");
        reveal_strlit("na_letter-extra_9.5x12in");
        reveal_strlit("na_letter-plus_8.5x12.69in");
        reveal_strlit("na_letter_8.5x11in");
        reveal_strlit("na_monarch_3.875x7.5in");
        reveal_strlit("na_number-10_4.125x9.5in");
        reveal_strlit("na_number-11_4.5x10.375in");
        reveal_strlit("na_number-12_4.75x11in");
        reveal_strlit("na_number-14_5x11.5in");
        reveal_strlit("na_number-9_3.875x8.875in");
        reveal_strlit("na_personal_3.625x6.5in");
        reveal_strlit("na_quarto_8.5x10.83in");
        reveal_strlit("na_super-a_8.94x14in");
        assert("iso_a0_841x1189mm"@.len() == 17);
        assert("iso_a1_594x841mm"@.len() == 16);
        assert("iso_a10_26x37mm"@.len() == 15);
        assert("iso_a2_420x594mm"@.len() == 16);
        assert("iso_a3_297x420mm"@.len() == 16);
        assert("iso_a3-extra_322x445mm"@.len() == 22);
        assert("iso_a4_210x297mm"@.len() == 16);
        assert("iso_a4-extra_235.5x322.3mm"@.len() == 26);
        assert("iso_a5_148x210mm"@.len() == 16);
        assert("iso_a5-extra_174x235mm"@.len() == 22);
        assert("iso_a6_105x148mm"@.len() == 16);
        assert("iso_a7_74x105mm"@.len() == 15);
        assert("iso_a8_52x74mm"@.len() == 14);
        assert("iso_a9_37x52mm"@.len() == 14);
        assert("iso_b0_1000x1414mm"@.len() == 18);
        assert("iso_b1_707x1000mm"@.len() == 17);
        assert("iso_b10_31x44mm"@.len() == 15);
        assert("iso_b2_500x707mm"@.len() == 16);
        assert("iso_b3_353x500mm"@.len() == 16);
        assert("iso_b4_250x353mm"@.len() == 16);
        assert("iso_b5-extra_201x276mm"@.len() == 22);
        assert("iso_b5_176x250mm"@.len() == 16);
        assert("iso_b7_88x125mm"@.len() == 15);
        assert("iso_b8_62x88mm"@.len() == 14);
        assert("iso_b9_44x62mm"@.len() == 14);
        assert("iso_c0_917x1297mm"@.len() == 17);
        assert("iso_c1_648x917mm"@.len() == 16);
        assert("iso_c10_28x40mm"@.len() == 15);
        assert("iso_c2_458x648mm"@.len() == 16);
        assert("iso_c3_324x458mm"@.len() == 16);
        assert("iso_c4_229x324mm"@.len() == 16);
        assert("iso_c5_162x229mm"@.len() == 16);
        assert("iso_c6_114x162mm"@.len() == 16);
        assert("iso_c6c5_114x229mm"@.len() == 18);
        assert("iso_c7_81x114mm"@.len() == 15);
        assert("iso_c8_57x81mm"@.len() == 14);
        assert("iso_c9_40x57mm"@.len() == 14);
        assert("iso_dl_110x220mm"@.len() == 16);
        assert("iso_sra2_450x640mm"@.len() == 18);
        assert("jis_b0_1030x1456mm"@.len() == 18);
        assert("jis_b1_728x1030mm"@.len() == 17);
        assert("jis_b10_32x45mm"@.len() == 15);
        assert("jis_b2_515x728mm"@.len() == 16);
        assert("jis_b3_364x515mm"@.len() == 16);
        assert("jis_b4_257x364mm"@.len() == 16);
        assert("jis_b5_182x257mm"@.len() == 16);
        assert("jis_b6_128x182mm"@.len() == 16);
        assert("jis_b7_91x128mm"@.len() == 15);
        assert("jis_b8_64x91mm"@.len() == 14);
        assert("jis_b9_45x64mm"@.len() == 14);
        assert("jpn_chou3_120x235mm"@.len() == 19);
        assert("jpn_chou4_90x205mm"@.len() == 18);
        assert("jpn_hagaki_100x148mm"@.len() == 20);
        assert("jpn_kaku2_240x332mm"@.len() == 19);
        assert("jpn_kaku3_216x277mm"@.len() == 19);
        assert("jpn_you4_105x235mm"@.len() == 18);
        assert("na_10x11_10x11in"@.len() == 16);
        assert("na_10x14_10x14in"@.len() == 16);
        assert("na_5x7_5x7in"@.len() == 12);
        assert("na_9x11_9x11in"@.len() == 14);
        assert("na_arch-a_9x12in"@.len() == 16);
        assert("na_arch-b_12x18in"@.len() == 17);
        assert("na_arch-c_18x24in"@.len() == 17);
        assert("na_arch-d_24x36in"@.len() == 17);
        assert("na_arch-e_36x48in"@.len() == 17);
        assert("na_c_17x22in"@.len() == 12);
        assert("na_d_22x34in"@.len() == 12);
        assert("na_e_34x44in"@.len() == 12);
        assert("na_executive_7.25x10.5in"@.len() == 24);
        assert("na_ledger_11x17in"@.len() == 17);
        assert("na_legal-extra_9.5x15in"@.len() == 23);
        assert("na_legal_8.5x14in"@.len() == 17);
        assert("na_letter-extra_9.5x12in"@.len() == 24);
        assert("na_letter-plus_8.5x12.69in"@.len() == 26);
        assert("na_letter_8.5x11in"@.len() == 18);
        assert("na_monarch_3.875x7.5in"@.len() == 22);
        assert("na_number-10_4.125x9.5in"@.len() == 24);
        assert("na_number-11_4.5x10.375in"@.len() == 25);
        assert("na_number-12_4.75x11in"@.len() == 22);
        assert("na_number-14_5x11.5in"@.len() == 21);
        assert("na_number-9_3.875x8.875in"@.len() == 25);
        assert("na_personal_3.625x6.5in"@.len() == 23);
        assert("na_quarto_8.5x10.83in"@.len() == 21);
        assert("na_super-a_8.94x14in"@.len() == 20);
        assert("na_executive_7.25x10.5in"@[3] != "na_letter-extra_9.5x12in"@[3]);
        assert("na_executive_7.25x10.5in"@ != "na_letter-extra_9.5x12in"@);
        assert("iso_a4-extra_235.5x322.3mm"@[0] != "na_letter-plus_8.5x12.69in"@[0]);
        assert("iso_a4-extra_235.5x322.3mm"@ != "na_letter-plus_8.5x12.69in"@);
        assert("iso_b0_1000x1414mm"@[0] != "na_letter_8.5x11in"@[0]);
        assert("iso_b0_1000x1414mm"@ != "na_letter_8.5x11in"@);
        assert("iso_c6c5_114x229mm"@[0] != "na_letter_8.5x11in"@[0]);
        assert("iso_c6c5_114x229mm"@ != "na_letter_8.5x11in"@);
        assert("iso_sra2_450x640mm"@[0] != "na_letter_8.5x11in"@[0]);
        assert("iso_sra2_450x640mm"@ != "na_letter_8.5x11in"@);
        assert("jis_b0_1030x1456mm"@[0] != "na_letter_8.5x11in"@[0]);
        assert("jis_b0_1030x1456mm"@ != "na_letter_8.5x11in"@);
        assert("jpn_chou4_90x205mm"@[0] != "na_letter_8.5x11in"@[0]);
        assert("jpn_chou4_90x205mm"@ != "na_letter_8.5x11in"@);
        assert("jpn_you4_105x235mm"@[0] != "na_letter_8.5x11in"@[0]);
        assert("jpn_you4_105x235mm"@ != "na_letter_8.5x11in"@);
        assert("iso_a3-extra_322x445mm"@[0] != "na_monarch_3.875x7.5in"@[0]);
        assert("iso_a3-extra_322x445mm"@ != "na_monarch_3.875x7.5in"@);
        assert("iso_a5-extra_174x235mm"@[0] != "na_monarch_3.875x7.5in"@[0]);
        assert("iso_a5-extra_174x235mm"@ != "na_monarch_3.875x7.5in"@);
        assert("iso_b5-extra_201x276mm"@[0] != "na_monarch_3.875x7.5in"@[0]);
        assert("iso_b5-extra_201x276mm"@ != "na_monarch_3.875x7.5in"@);
        assert("na_executive_7.25x10.5in"@[3] != "na_number-10_4.125x9.5in"@[3]);
        assert("na_executive_7.25x10.5in"@ != "na_number-10_4.125x9.5in"@);
        assert("na_letter-extra_9.5x12in"@[3] != "na_number-10_4.125x9.5in"@[3]);
        assert("na_letter-extra_9.5x12in"@ != "na_number-10_4.125x9.5in"@);
        assert("iso_a3-extra_322x445mm"@[0] != "na_number-12_4.75x11in"@[0]);
        assert("iso_a3-extra_322x445mm"@ != "na_number-12_4.75x11in"@);
        assert("iso_a5-extra_174x235mm"@[0] != "na_number-12_4.75x11in"@[0]);
        assert("iso_a5-extra_174x235mm"@ != "na_number-12_4.75x11in"@);
        assert("iso_b5-extra_201x276mm"@[0] != "na_number-12_4.75x11in"@[0]);
        assert("iso_b5-extra_201x276mm"@ != "na_number-12_4.75x11in"@);
        assert("na_monarch_3.875x7.5in"@[3] != "na_number-12_4.75x11in"@[3]);
        assert("na_monarch_3.875x7.5in"@ != "na_number-12_4.75x11in"@);
        assert("na_number-11_4.5x10.375in"@[10] != "na_number-9_3.875x8.875in"@[10]);
        assert("na_number-11_4.5x10.375in"@ != "na_number-9_3.875x8.875in"@);
        assert("na_legal-extra_9.5x15in"@[3] != "na_personal_3.625x6.5in"@[3]);
        assert("na_legal-extra_9.5x15in"@ != "na_personal_3.625x6.5in"@);
        assert("na_number-14_5x11.5in"@[3] != "na_quarto_8.5x10.83in"@[3]);
        assert("na_number-14_5x11.5in"@ != "na_quarto_8.5x10.83in"@);
        assert("jpn_hagaki_100x148mm"@[0] != "na_super-a_8.94x14in"@[0]);
        assert("jpn_hagaki_100x148mm"@ != "na_super-a_8.94x14in"@);
    }
    let ok72 = str_table_insert(t, "na_letter-extra_9.5x12in", 72);
    proof {
        assert(ok72);
    }
    let ok73 = str_table_insert(t, "na_letter-plus_8.5x12.69in", 73);
    proof {
        assert(ok73);
    }
    let ok74 = str_table_insert(t, "na_letter_8.5x11in", 74);
    proof {
        assert(ok74);
    }
    let ok75 = str_table_insert(t, "na_monarch_3.875x7.5in", 75);
    proof {
        assert(ok75);
    }
    let ok76 = str_table_insert(t, "na_number-10_4.125x9.5in", 76);
    proof {
        assert(ok76);
    }
    let ok77 = str_table_insert(t, "na_number-11_4.5x10.375in", 77);
    proof {
        assert(ok77);
    }
    let ok78 = str_table_insert(t, "na_number-12_4.75x11in", 78);
    proof {
        assert(ok78);
    }
    let ok79 = str_table_insert(t, "na_number-14_5x11.5in", 79);
    proof {
        assert(ok79);
    }
    let ok80 = str_table_insert(t, "na_number-9_3.875x8.875in", 80);
    proof {
        assert(ok80);
    }
    let ok81 = str_table_insert(t, "na_personal_3.625x6.5in", 81);
    proof {
        assert(ok81);
    }
    let ok82 = str_table_insert(t, "na_quarto_8.5x10.83in", 82);
    proof {
        assert(ok82);
    }
    let ok83 = str_table_insert(t, "na_super-a_8.94x14in", 83);
    proof {
        assert(ok83);
    }
}
/// Insert the media entries up to the first 96.
#[verifier::rlimit(100)]
fn media_push_h(t: &mut StrKeyTable)
    requires
        str_fwd(*old(t)) == media_fwd_g(),
        str_rev(*old(t)) == media_rev_g(),
    ensures
        str_fwd(*final(t)) == media_fwd_h(),
        str_rev(*final(t)) == media_rev_h(),
{
    proof {
        reveal_strlit("iso_a0_841x1189mm");
        reveal_strlit("iso_a1_594x841mm");
        reveal_strlit("iso_a10_26x37mm");
        reveal_strlit("iso_a2_420x594mm");
        reveal_strlit("iso_a3_297x420mm");
        reveal_strlit("iso_a3-extra_322x445mm");
        reveal_strlit("iso_a4_210x297mm");
        reveal_strlit("iso_a4-extra_235.5x322.3mm");
        reveal_strlit("iso_a5_148x210mm");
        reveal_strlit("iso_a5-extra_174x235mm");
        reveal_strlit("iso_a6_105x148mm");
        reveal_strlit("iso_a7_74x105mm");
        reveal_strlit("iso_a8_52x74mm");
        reveal_strlit("iso_a9_37x52mm");
        reveal_strlit("iso_b0_1000x1414mm");
        reveal_strlit("iso_b1_707x1000mm");
        reveal_strlit("iso_b10_31x44mm");
        reveal_strlit("iso_b2_500x707mm");
        reveal_strlit("iso_b3_353x500mm");
        reveal_strlit("iso_b4_250x353mm");
        reveal_strlit("iso_b5-extra_201x276mm");
        reveal_strlit("iso_b5_176x250mm");
        reveal_strlit("iso_b7_88x125mm");
        reveal_strlit("iso_b8_62x88mm");
        reveal_strlit("iso_b9_44x62mm");
        reveal_strlit("iso_c0_917x1297mm");
        reveal_strlit("iso_c1_648x917mm");
        reveal_strlit("iso_c10_28x40mm");
        reveal_strlit("iso_c2_458x648mm");
        reveal_strlit("iso_c3_324x458mm");
        reveal_strlit("iso_c4_229x324mm");
        reveal_strlit("iso_c5_162x229mm");
        reveal_strlit("iso_c6_114x162mm");
        reveal_strlit("iso_c6c5_114x229mm");
        reveal_strlit("iso_c7_81x114mm");
        reveal_strlit("iso_c8_57x81mm");
        reveal_strlit("iso_c9_40x57mm");
        reveal_strlit("iso_dl_110x220mm");
        reveal_strlit("iso_sra2_450x640mm");
        reveal_strlit("jis_b0_1030x1456mm");
        reveal_strlit("jis_b1_728x1030mm");
        reveal_strlit("jis_b10_32x45mm");
        reveal_strlit("jis_b2_515x728mm");
        reveal_strlit("jis_b3_364x515mm");
        reveal_strlit("jis_b4_257x364mm");
        reveal_strlit("jis_b5_182x257mm");
        reveal_strlit("jis_b6_128x182mm");
        reveal_strlit("jis_b7_91x128mm");
        reveal_strlit("jis_b8_64x91mm");
        reveal_strlit("jis_b9_45x64mm");
        reveal_strlit("jpn_chou3_120x235mm");
        reveal_strlit("jpn_chou4_90x205mm");
        reveal_strlit("jpn_hagaki_100x148mm");
        reveal_strlit("jpn_kaku2_240x332mm");
        reveal_strlit("jpn_kaku3_216x277mm");
        reveal_strlit("jpn_you4_105x235mm");
        reveal_strlit("na_10x11_10x11in");
        reveal_strlit("na_10x14_10x14in");
        reveal_strlit("na_5x7_5x7in");
        reveal_strlit("na_9x11_9x11in");
        reveal_strlit("na_arch-a_9x12in");
        reveal_strlit("na_arch-b_12x18in");
        reveal_strlit("na_arch-c_18x24in");
        reveal_strlit("na_arch-d_24x36in");
        reveal_strlit("na_arch-e_36x48in");
        reveal_strlit("na_c_17x22in");
        reveal_strlit("na_d_22x34in");
        reveal_strlit("na_e_34x44in");
        reveal_strlit("na_executive_7.25x10.5in");
        reveal_strlit("na_ledger_11x17in");
        reveal_strlit("na_legal-extra_9.5x15in");
        reveal_strlit("na_legal_8.5x14in");
        reveal_strlit("na_letter-extra_9.5x12in");
        reveal_strlit("na_letter-plus_8.5x12.69in");
        reveal_strlit("na_letter_8.5x11in");
        reveal_strlit("na_monarch_3.875x7.5in");
        reveal_strlit("na_number-10_4.125x9.5in");
        reveal_strlit("na_number-11_4.5x10.375in");
        reveal_strlit("na_number-12_4.75x11in");
        reveal_strlit("na_number-14_5x11.5in");
        reveal_strlit("na_number-9_3.875x8.875in");
        reveal_strlit("na_personal_3.625x6.5in");
        reveal_strlit("na_quarto_8.5x10.83in");
        reveal_strlit("na_super-a_8.94x14in");
        reveal_strlit("na_super-b_13x19in");
        reveal_strlit("prc_10_324x458mm");
        reveal_strlit("prc_16k_146x215mm");
        reveal_strlit("prc_1_102x165mm");
        reveal_strlit("prc_2_102x176mm");
        reveal_strlit("prc_32k_97x151mm");
        reveal_strlit("prc_3_125x176mm");
        reveal_strlit("prc_4_110x208mm");
        reveal_strlit("prc_5_110x220mm");
        reveal_strlit("prc_6_120x320mm");
        reveal_strlit("prc_7_160x230mm");
        reveal_strlit("prc_8_120x309mm");
        assert("iso_a0_841x1189mm"@.len() == 17);
        assert("iso_a1_594x841mm"@.len() == 16);
        assert("iso_a10_26x37mm"@.len() == 15);
        assert("iso_a2_420x594mm"@.len() == 16);
        assert("iso_a3_297x420mm"@.len() == 16);
        assert("iso_a3-extra_322x445mm"@.len() == 22);
        assert("iso_a4_210x297mm"@.len() == 16);
        assert("iso_a4-extra_235.5x322.3mm"@.len() == 26);
        assert("iso_a5_148x210mm"@.len() == 16);
        assert("iso_a5-extra_174x235mm"@.len() == 22);
        assert("iso_a6_105x148mm"@.len() == 16);
        assert("iso_a7_74x105mm"@.len() == 15);
        assert("iso_a8_52x74mm"@.len() == 14);
        assert("iso_a9_37x52mm"@.len() == 14);
        assert("iso_b0_1000x1414mm"@.len() == 18);
        assert("iso_b1_707x1000mm"@.len() == 17);
        assert("iso_b10_31x44mm"@.len() == 15);
        assert("iso_b2_500x707mm"@.len() == 16);
        assert("iso_b3_353x500mm"@.len() == 16);
        assert("iso_b4_250x353mm"@.len() == 16);
        assert("iso_b5-extra_201x276mm"@.len() == 22);
        assert("iso_b5_176x250mm"@.len() == 16);
        assert("iso_b7_88x125mm"@.len() == 15);
        assert("iso_b8_62x88mm"@.len() == 14);
        assert("iso_b9_44x62mm"@.len() == 14);
        assert("iso_c0_917x1297mm"@.len() == 17);
        assert("iso_c1_648x917mm"@.len() == 16);
        assert("iso_c10_28x40mm"@.len() == 15);
        assert("iso_c2_458x648mm"@.len() == 16);
        assert("iso_c3_324x458mm"@.len() == 16);
        assert("iso_c4_229x324mm"@.len() == 16);
        assert("iso_c5_162x229mm"@.len() == 16);
        assert("iso_c6_114x162mm"@.len() == 16);
        assert("iso_c6c5_114x229mm"@.len() == 18);
        assert("iso_c7_81x114mm"@.len() == 15);
        assert("iso_c8_57x81mm"@.len() == 14);
        assert("iso_c9_40x57mm"@.len() == 14);
        assert("iso_dl_110x220mm"@.len() == 16);
        assert("iso_sra2_450x640mm"@.len() == 18);
        assert("jis_b0_1030x1456mm"@.len() == 18);
        assert("jis_b1_728x1030mm"@.len() == 17);
        assert("jis_b10_32x45mm"@.len() == 15);
        assert("jis_b2_515x728mm"@.len() == 16);
        assert("jis_b3_364x515mm"@.len() == 16);
        assert("jis_b4_257x364mm"@.len() == 16);
        assert("jis_b5_182x257mm"@.len() == 16);
        assert("jis_b6_128x182mm"@.len() == 16);
        assert("jis_b7_91x128mm"@.len() == 15);
        assert("jis_b8_64x91mm"@.len() == 14);
        assert("jis_b9_45x64mm"@.len() == 14);
        assert("jpn_chou3_120x235mm"@.len() == 19);
        assert("jpn_chou4_90x205mm"@.len() == 18);
        assert("jpn_hagaki_100x148mm"@.len() == 20);
        assert("jpn_kaku2_240x332mm"@.len() == 19);
        assert("jpn_kaku3_216x277mm"@.len() == 19);
        assert("jpn_you4_105x235mm"@.len() == 18);
        assert("na_10x11_10x11in"@.len() == 16);
        assert("na_10x14_10x14in"@.len() == 16);
        assert("na_5x7_5x7in"@.len() == 12);
        assert("na_9x11_9x11in"@.len() == 14);
        assert("na_arch-a_9x12in"@.len() == 16);
        assert("na_arch-b_12x18in"@.len() == 17);
        assert("na_arch-c_18x24in"@.len() == 17);
        assert("na_arch-d_24x36in"@.len() == 17);
        assert("na_arch-e_36x48in"@.len() == 17);
        assert("na_c_17x22in"@.len() == 12);
        assert("na_d_22x34in"@.len() == 12);
        assert("na_e_34x44in"@.len() == 12);
        assert("na_executive_7.25x10.5in"@.len() == 24);
        assert("na_ledger_11x17in"@.len() == 17);
        assert("na_legal-extra_9.5x15in"@.len() == 23);
        assert("na_legal_8.5x14in"@.len() == 17);
        assert("na_letter-extra_9.5x12in"@.len() == 24);
        assert("na_letter-plus_8.5x12.69in"@.len() == 26);
        assert("na_letter_8.5x11in"@.len() == 18);
        assert("na_monarch_3.875x7.5in"@.len() == 22);
        assert("na_number-10_4.125x9.5in"@.len() == 24);
        assert("na_number-11_4.5x10.375in"@.len() == 25);
        assert("na_number-12_4.75x11in"@.len() == 22);
        assert("na_number-14_5x11.5in"@.len() == 21);
        assert("na_number-9_3.875x8.875in"@.len() == 25);
        assert("na_personal_3.625x6.5in"@.len() == 23);
        assert("na_quarto_8.5x10.83in"@.len() == 21);
        assert("na_super-a_8.94x14in"@.len() == 20);
        assert("na_super-b_13x19in"@.len() == 18);
        assert("prc_10_324x458mm"@.len() == 16);
        assert("prc_16k_146x215mm"@.len() == 17);
        assert("prc_1_102x165mm"@.len() == 15);
        assert("prc_2_102x176mm"@.len() == 15);
        assert("prc_32k_97x151mm"@.len() == 16);
        assert("prc_3_125x176mm"@.len() == 15);
        assert("prc_4_110x208mm"@.len() == 15);
        assert("prc_5_110x220mm"@.len() == 15);
        assert("prc_6_120x320mm"@.len() == 15);
        assert("prc_7_160x230mm"@.len() == 15);
        assert("prc_8_120x309mm"@.len() == 15);
        assert("iso_b0_1000x1414mm"@[0] != "na_super-b_13x19in"@[0]);
        assert("iso_b0_1000x1414mm"@ != "na_super-b_13x19in"@);
        assert("iso_c6c5_114x229mm"@[0] != "na_super-b_13x19in"@[0]);
        assert("iso_c6c5_114x229mm"@ != "na_super-b_13x19in"@);
        assert("iso_sra2_450x640mm"@[0] != "na_super-b_13x19in"@[0]);
        assert("iso_sra2_450x640mm"@ != "na_super-b_13x19in"@);
        assert("jis_b0_1030x1456mm"@[0] != "na_super-b_13x19in"@[0]);
        assert("jis_b0_1030x1456mm"@ != "na_super-b_13x19in"@);
        assert("jpn_chou4_90x205mm"@[0] != "na_super-b_13x19in"@[0]);
        assert("jpn_chou4_90x205mm"@ != "na_super-b_13x19in"@);
        assert("jpn_you4_105x235mm"@[0] != "na_super-b_13x19in"@[0]);
        assert("jpn_you4_105x235mm"@ != "na_super-b_13x19in"@);
        assert("na_letter_8.5x11in"@[3] != "na_super-b_13x19in"@[3]);
        assert("na_letter_8.5x11in"@ != "na_super-b_13x19in"@);
        assert("iso_a1_594x841mm"@[0] != "prc_10_324x458mm"@[0]);
        assert("iso_a1_594x841mm"@ != "prc_10_324x458mm"@);
        assert("iso_a2_420x594mm"@[0] != "prc_10_324x458mm"@[0]);
        assert("iso_a2_420x594mm"@ != "prc_10_324x458mm"@);
        assert("iso_a3_297x420mm"@[0] != "prc_10_324x458mm"@[0]);
        assert("iso_a3_297x420mm"@ != "prc_10_324x458mm"@);
        assert("iso_a4_210x297mm"@[0] != "prc_10_324x458mm"@[0]);
        assert("iso_a4_210x297mm"@ != "prc_10_324x458mm"@);
        assert("iso_a5_148x210mm"@[0] != "prc_10_324x458mm"@[0]);
        assert("iso_a5_148x210mm"@ != "prc_10_324x458mm"@);
        assert("iso_a6_105x148mm"@[0] != "prc_10_324x458mm"@[0]);
        assert("iso_a6_105x148mm"@ != "prc_10_324x458mm"@);
        assert("iso_b2_500x707mm"@[0] != "prc_10_324x458mm"@[0]);
        assert("iso_b2_500x707mm"@ != "prc_10_324x458mm"@);
        assert("iso_b3_353x500mm"@[0] != "prc_10_324x458mm"@[0]);
        assert("iso_b3_353x500mm"@ != "prc_10_324x458mm"@);
        assert("iso_b4_250x353mm"@[0] != "prc_10_324x458mm"@[0]);
        assert("iso_b4_250x353mm"@ != "prc_10_324x458mm"@);
        assert("iso_b5_176x250mm"@[0] != "prc_10_324x458mm"@[0]);
        assert("iso_b5_176x250mm"@ != "prc_10_324x458mm"@);
        assert("iso_c1_648x917mm"@[0] != "prc_10_324x458mm"@[0]);
        assert("iso_c1_648x917mm"@ != "prc_10_324x458mm"@);
        assert("iso_c2_458x648mm"@[0] != "prc_10_324x458mm"@[0]);
        assert("iso_c2_458x648mm"@ != "prc_10_324x458mm"@);
        assert("iso_c3_324x458mm"@[0] != "prc_10_324x458mm"@[0]);
        assert("iso_c3_324x458mm"@ != "prc_10_324x458mm"@);
        assert("iso_c4_229x324mm"@[0] != "prc_10_324x458mm"@[0]);
        assert("iso_c4_229x324mm"@ != "prc_10_324x458mm"@);
        assert("iso_c5_162x229mm"@[0] != "prc_10_324x458mm"@[0]);
        assert("iso_c5_162x229mm"@ != "prc_10_324x458mm"@);
        assert("iso_c6_114x162mm"@[0] != "prc_10_324x458mm"@[0]);
        assert("iso_c6_114x162mm"@ != "prc_10_324x458mm"@);
        assert("iso_dl_110x220mm"@[0] != "prc_10_324x458mm"@[0]);
        assert("iso_dl_110x220mm"@ != "prc_10_324x458mm"@);
        assert("jis_b2_515x728mm"@[0] != "prc_10_324x458mm"@[0]);
        assert("jis_b2_515x728mm"@ != "prc_10_324x458mm"@);
        assert("jis_b3_364x515mm"@[0] != "prc_10_324x458mm"@[0]);
        assert("jis_b3_364x515mm"@ != "prc_10_324x458mm"@);
        assert("jis_b4_257x364mm"@[0] != "prc_10_324x458mm"@[0]);
        assert("jis_b4_257x364mm"@ != "prc_10_324x458mm"@);
        assert("jis_b5_182x257mm"@[0] != "prc_10_324x458mm"@[0]);
        assert("jis_b5_182x257mm"@ != "prc_10_324x458mm"@);
        assert("jis_b6_128x182mm"@[0] != "prc_10_324x458mm"@[0]);
        assert("jis_b6_128x182mm"@ != "prc_10_324x458mm"@);
        assert("na_10x11_10x11in"@[0] != "prc_10_324x458mm"@[0]);
        assert("na_10x11_10x11in"@ != "prc_10_324x458mm"@);
        assert("na_10x14_10x14in"@[0] != "prc_10_324x458mm"@[0]);
        assert("na_10x14_10x14in"@ != "prc_10_324x458mm"@);
        assert("na_arch-a_9x12in"@[0] != "prc_10_324x458mm"@[0]);
        assert("na_arch-a_9x12in"@ != "prc_10_324x458mm"@);
        assert("iso_a0_841x1189mm"@[0] != "prc_16k_146x215mm"@[0]);
        assert("iso_a0_841x1189mm"@ != "prc_16k_146x215mm"@);
        assert("iso_b1_707x1000mm"@[0] != "prc_16k_146x215mm"@[0]);
        assert("iso_b1_707x1000mm"@ != "prc_16k_146x215mm"@);
        assert("iso_c0_917x1297mm"@[0] != "prc_16k_146x215mm"@[0]);
        assert("iso_c0_917x1297mm"@ != "prc_16k_146x215mm"@);
        assert("jis_b1_728x1030mm"@[0] != "prc_16k_146x215mm"@[0]);
        assert("jis_b1_728x1030mm"@ != "prc_16k_146x215mm"@);
        assert("na_arch-b_12x18in"@[0] != "prc_16k_146x215mm"@[0]);
        assert("na_arch-b_12x18in"@ != "prc_16k_146x215mm"@);
        assert("na_arch-c_18x24in"@[0] != "prc_16k_146x215mm"@[0]);
        assert("na_arch-c_18x24in"@ != "prc_16k_146x215mm"@);
        assert("na_arch-d_24x36in"@[0] != "prc_16k_146x215mm"@[0]);
        assert("na_arch-d_24x36in"@ != "prc_16k_146x215mm"@);
        assert("na_arch-e_36x48in"@[0] != "prc_16k_146x215mm"@[0]);
        assert("na_arch-e_36x48in"@ != "prc_16k_146x215mm"@);
        assert("na_ledger_11x17in"@[0] != "prc_16k_146x215mm"@[0]);
        assert("na_ledger_11x17in"@ != "prc_16k_146x215mm"@);
        assert("na_legal_8.5x14in"@[0] != "prc_16k_146x215mm"@[0]);
        assert("na_legal_8.5x14in"@ != "prc_16k_146x215mm"@);
        assert("iso_a10_26x37mm"@[0] != "prc_1_102x165mm"@[0]);
        assert("iso_a10_26x37mm"@ != "prc_1_102x165mm"@);
        assert("iso_a7_74x105mm"@[0] != "prc_1_102x165mm"@[0]);
        assert("iso_a7_74x105mm"@ != "prc_1_102x165mm"@);
        assert("iso_b10_31x44mm"@[0] != "prc_1_102x165mm"@[0]);
        assert("iso_b10_31x44mm"@ != "prc_1_102x165mm"@);
        assert("iso_b7_88x125mm"@[0] != "prc_1_102x165mm"@[0]);
        assert("iso_b7_88x125mm"@ != "prc_1_102x165mm"@);
        assert("iso_c10_28x40mm"@[0] != "prc_1_102x165mm"@[0]);
        assert("iso_c10_28x40mm"@ != "prc_1_102x165mm"@);
        assert("iso_c7_81x114mm"@[0] != "prc_1_102x165mm"@[0]);
        assert("iso_c7_81x114mm"@ != "prc_1_102x165mm"@);
        assert("jis_b10_32x45mm"@[0] != "prc_1_102x165mm"@[0]);
        assert("jis_b10_32x45mm"@ != "prc_1_102x165mm"@);
        assert("jis_b7_91x128mm"@[0] != "prc_1_102x165mm"@[0]);
        assert("jis_b7_91x128mm"@ != "prc_1_102x165mm"@);
        assert("iso_a10_26x37mm"@[0] != "prc_2_102x176mm"@[0]);
        assert("iso_a10_26x37mm"@ != "prc_2_102x176mm"@);
        assert("iso_a7_74x105mm"@[0] != "prc_2_102x176mm"@[0]);
        assert("iso_a7_74x105mm"@ != "prc_2_102x176mm"@);
        assert("iso_b10_31x44mm"@[0] != "prc_2_102x176mm"@[0]);
        assert("iso_b10_31x44mm"@ != "prc_2_102x176mm"@);
        assert("iso_b7_88x125mm"@[0] != "prc_2_102x176mm"@[0]);
        assert("iso_b7_88x125mm"@ != "prc_2_102x176mm"@);
        assert("iso_c10_28x40mm"@[0] != "prc_2_102x176mm"@[0]);
        assert("iso_c10_28x40mm"@ != "prc_2_102x176mm"@);
        assert("iso_c7_81x114mm"@[0] != "prc_2_102x176mm"@[0]);
        assert("iso_c7_81x114mm"@ != "prc_2_102x176mm"@);
        assert("jis_b10_32x45mm"@[0] != "prc_2_102x176mm"@[0]);
        assert("jis_b10_32x45mm"@ != "prc_2_102x176mm"@);
        assert("jis_b7_91x128mm"@[0] != "prc_2_102x176mm"@[0]);
        assert("jis_b7_91x128mm"@ != "prc_2_102x176mm"@);
        assert("prc_1_102x165mm"@[4] != "prc_2_102x176mm"@[4]);
        assert("prc_1_102x165mm"@ != "prc_2_102x176mm"@);
        assert("iso_a1_594x841mm"@[0] != "prc_32k_97x151mm"@[0]);
        assert("iso_a1_594x841mm"@ != "prc_32k_97x151mm"@);
        assert("iso_a2_420x594mm"@[0] != "prc_32k_97x151mm"@[0]);
        assert("iso_a2_420x594mm"@ != "prc_32k_97x151mm"@);
        assert("iso_a3_297x420mm"@[0] != "prc_32k_97x151mm"@[0]);
        assert("iso_a3_297x420mm"@ != "prc_32k_97x151mm"@);
        assert("iso_a4_210x297mm"@[0] != "prc_32k_97x151mm"@[0]);
        assert("iso_a4_210x297mm"@ != "prc_32k_97x151mm"@);
        assert("iso_a5_148x210mm"@[0] != "prc_32k_97x151mm"@[0]);
        assert("iso_a5_148x210mm"@ != "prc_32k_97x151mm"@);
        assert("iso_a6_105x148mm"@[0] != "prc_32k_97x151mm"@[0]);
        assert("iso_a6_105x148mm"@ != "prc_32k_97x151mm"@);
        assert("iso_b2_500x707mm"@[0] != "prc_32k_97x151mm"@[0]);
        assert("iso_b2_500x707mm"@ != "prc_32k_97x151mm"@);
        assert("iso_b3_353x500mm"@[0] != "prc_32k_97x151mm"@[0]);
        assert("iso_b3_353x500mm"@ != "prc_32k_97x151mm"@);
        assert("iso_b4_250x353mm"@[0] != "prc_32k_97x151mm"@[0]);
        assert("iso_b4_250x353mm"@ != "prc_32k_97x151mm"@);
        assert("iso_b5_176x250mm"@[0] != "prc_32k_97x151mm"@[0]);
        assert("iso_b5_176x250mm"@ != "prc_32k_97x151mm"@);
        assert("iso_c1_648x917mm"@[0] != "prc_32k_97x151mm"@[0]);
        assert("iso_c1_648x917mm"@ != "prc_32k_97x151mm"@);
        assert("iso_c2_458x648mm"@[0] != "prc_32k_97x151mm"@[0]);
        assert("iso_c2_458x648mm"@ != "prc_32k_97x151mm"@);
        assert("iso_c3_324x458mm"@[0] != "prc_32k_97x151mm"@[0]);
        assert("iso_c3_324x458mm"@ != "prc_32k_97x151mm"@);
        assert("iso_c4_229x324mm"@[0] != "prc_32k_97x151mm"@[0]);
        assert("iso_c4_229x324mm"@ != "prc_32k_97x151mm"@);
        assert("iso_c5_162x229mm"@[0] != "prc_32k_97x151mm"@[0]);
        assert("iso_c5_162x229mm"@ != "prc_32k_97x151mm"@);
        assert("iso_c6_114x162mm"@[0] != "prc_32k_97x151mm"@[0]);
        assert("iso_c6_114x162mm"@ != "prc_32k_97x151mm"@);
        assert("iso_dl_110x220mm"@[0] != "prc_32k_97x151mm"@[0]);
        assert("iso_dl_110x220mm"@ != "prc_32k_97x151mm"@);
        assert("jis_b2_515x728mm"@[0] != "prc_32k_97x151mm"@[0]);
        assert("jis_b2_515x728mm"@ != "prc_32k_97x151mm"@);
        assert("jis_b3_364x515mm"@[0] != "prc_32k_97x151mm"@[0]);
        assert("jis_b3_364x515mm"@ != "prc_32k_97x151mm"@);
        assert("jis_b4_257x364mm"@[0] != "prc_32k_97x151mm"@[0]);
        assert("jis_b4_257x364mm"@ != "prc_32k_97x151mm"@);
        assert("jis_b5_182x257mm"@[0] != "prc_32k_97x151mm"@[0]);
        assert("jis_b5_182x257mm"@ != "prc_32k_97x151mm"@);
        assert("jis_b6_128x182mm"@[0] != "prc_32k_97x151mm"@[0]);
        assert("jis_b6_128x182mm"@ != "prc_32k_97x151mm"@);
        assert("na_10x11_10x11in"@[0] != "prc_32k_97x151mm"@[0]);
        assert("na_10x11_10x11in"@ != "prc_32k_97x151mm"@);
        assert("na_10x14_10x14in"@[0] != "prc_32k_97x151mm"@[0]);
        assert("na_10x14_10x14in"@ != "prc_32k_97x151mm"@);
        assert("na_arch-a_9x12in"@[0] != "prc_32k_97x151mm"@[0]);
        assert("na_arch-a_9x12in"@ != "prc_32k_97x151mm"@);
        assert("prc_10_324x458mm"@[4] != "prc_32k_97x151mm"@[4]);
        assert("prc_10_324x458mm"@ != "prc_32k_97x151mm"@);
        assert("iso_a10_26x37mm"@[0] != "prc_3_125x176mm"@[0]);
        assert("iso_a10_26x37mm"@ != "prc_3_125x176mm"@);
        assert("iso_a7_74x105mm"@[0] != "prc_3_125x176mm"@[0]);
        assert("iso_a7_74x105mm"@ != "prc_3_125x176mm"@);
        assert("iso_b10_31x44mm"@[0] != "prc_3_125x176mm"@[0]);
        assert("iso_b10_31x44mm"@ != "prc_3_125x176mm"@);
        assert("iso_b7_88x125mm"@[0] != "prc_3_125x176mm"@[0]);
        assert("iso_b7_88x125mm"@ != "prc_3_125x176mm"@);
        assert("iso_c10_28x40mm"@[0] != "prc_3_125x176mm"@[0]);
        assert("iso_c10_28x40mm"@ != "prc_3_125x176mm"@);
        assert("iso_c7_81x114mm"@[0] != "prc_3_125x176mm"@[0]);
        assert("iso_c7_81x114mm"@ != "prc_3_125x176mm"@);
        assert("jis_b10_32x45mm"@[0] != "prc_3_125x176mm"@[0]);
        assert("jis_b10_32x45mm"@ != "prc_3_125x176mm"@);
        assert("jis_b7_91x128mm"@[0] != "prc_3_125x176mm"@[0]);
        assert("jis_b7_91x128mm"@ != "prc_3_125x176mm"@);
        assert("prc_1_102x165mm"@[4] != "prc_3_125x176mm"@[4]);
        assert("prc_1_102x165mm"@ != "prc_3_125x176mm"@);
        assert("prc_2_102x176mm"@[4] != "prc_3_125x176mm"@[4]);
        assert("prc_2_102x176mm"@ != "prc_3_125x176mm"@);
        assert("iso_a10_26x37mm"@[0] != "prc_4_110x208mm"@[0]);
        assert("iso_a10_26x37mm"@ != "prc_4_110x208mm"@);
        assert("iso_a7_74x105mm"@[0] != "prc_4_110x208mm"@[0]);
        assert("iso_a7_74x105mm"@ != "prc_4_110x208mm"@);
        assert("iso_b10_31x44mm"@[0] != "prc_4_110x208mm"@[0]);
        assert("iso_b10_31x44mm"@ != "prc_4_110x208mm"@);
        assert("iso_b7_88x125mm"@[0] != "prc_4_110x208mm"@[0]);
        assert("iso_b7_88x125mm"@ != "prc_4_110x208mm"@);
        assert("iso_c10_28x40mm"@[0] != "prc_4_110x208mm"@[0]);
        assert("iso_c10_28x40mm"@ != "prc_4_110x208mm"@);
        assert("iso_c7_81x114mm"@[0] != "prc_4_110x208mm"@[0]);
        assert("iso_c7_81x114mm"@ != "prc_4_110x208mm"@);
        assert("jis_b10_32x45mm"@[0] != "prc_4_110x208mm"@[0]);
        assert("jis_b10_32x45mm"@ != "prc_4_110x208mm"@);
        assert("jis_b7_91x128mm"@[0] != "prc_4_110x208mm"@[0]);
        assert("jis_b7_91x128mm"@ != "prc_4_110x208mm"@);
        assert("prc_1_102x165mm"@[4] != "prc_4_110x208mm"@[4]);
        assert("prc_1_102x165mm"@ != "prc_4_110x208mm"@);
        assert("prc_2_102x176mm"@[4] != "prc_4_110x208mm"@[4]);
        assert("prc_2_102x176mm"@ != "prc_4_110x208mm"@);
        assert("prc_3_125x176mm"@[4] != "prc_4_110x208mm"@[4]);
        assert("prc_3_125x176mm"@ != "prc_4_110x208mm"@);
        assert("iso_a10_26x37mm"@[0] != "prc_5_110x220mm"@[0]);
        assert("iso_a10_26x37mm"@ != "prc_5_110x220mm"@);
        assert("iso_a7_74x105mm"@[0] != "prc_5_110x220mm"@[0]);
        assert("iso_a7_74x105mm"@ != "prc_5_110x220mm"@);
        assert("iso_b10_31x44mm"@[0] != "prc_5_110x220mm"@[0]);
        assert("iso_b10_31x44mm"@ != "prc_5_110x220mm"@);
        assert("iso_b7_88x125mm"@[0] != "prc_5_110x220mm"@[0]);
        assert("iso_b7_88x125mm"@ != "prc_5_110x220mm"@);
        assert("iso_c10_28x40mm"@[0] != "prc_5_110x220mm"@[0]);
        assert("iso_c10_28x40mm"@ != "prc_5_110x220mm"@);
        assert("iso_c7_81x114mm"@[0] != "prc_5_110x220mm"@[0]);
        assert("iso_c7_81x114mm"@ != "prc_5_110x220mm"@);
        assert("jis_b10_32x45mm"@[0] != "prc_5_110x220mm"@[0]);
        assert("jis_b10_32x45mm"@ != "prc_5_110x220mm"@);
        assert("jis_b7_91x128mm"@[0] != "prc_5_110x220mm"@[0]);
        assert("jis_b7_91x128mm"@ != "prc_5_110x220mm"@);
        assert("prc_1_102x165mm"@[4] != "prc_5_110x220mm"@[4]);
        assert("prc_1_102x165mm"@ != "prc_5_110x220mm"@);
        assert("prc_2_102x176mm"@[4] != "prc_5_110x220mm"@[4]);
        assert("prc_2_102x176mm"@ != "prc_5_110x220mm"@);
        assert("prc_3_125x176mm"@[4] != "prc_5_110x220mm"@[4]);
        assert("prc_3_125x176mm"@ != "prc_5_110x220mm"@);
        assert("prc_4_110x208mm"@[4] != "prc_5_110x220mm"@[4]);
        assert("prc_4_110x208mm"@ != "prc_5_110x220mm"@);
        assert("iso_a10_26x37mm"@[0] != "prc_6_120x320mm"@[0]);
        assert("iso_a10_26x37mm"@ != "prc_6_120x320mm"@);
        assert("iso_a7_74x105mm"@[0] != "prc_6_120x320mm"@[0]);
        assert("iso_a7_74x105mm"@ != "prc_6_120x320mm"@);
        assert("iso_b10_31x44mm"@[0] != "prc_6_120x320mm"@[0]);
        assert("iso_b10_31x44mm"@ != "prc_6_120x320mm"@);
        assert("iso_b7_88x125mm"@[0] != "prc_6_120x320mm"@[0]);
        assert("iso_b7_88x125mm"@ != "prc_6_120x320mm"@);
        assert("iso_c10_28x40mm"@[0] != "prc_6_120x320mm"@[0]);
        assert("iso_c10_28x40mm"@ != "prc_6_120x320mm"@);
        assert("iso_c7_81x114mm"@[0] != "prc_6_120x320mm"@[0]);
        assert("iso_c7_81x114mm"@ != "prc_6_120x320mm"@);
        assert("jis_b10_32x45mm"@[0] != "prc_6_120x320mm"@[0]);
        assert("jis_b10_32x45mm"@ != "prc_6_120x320mm"@);
        assert("jis_b7_91x128mm"@[0] != "prc_6_120x320mm"@[0]);
        assert("jis_b7_91x128mm"@ != "prc_6_120x320mm"@);
        assert("prc_1_102x165mm"@[4] != "prc_6_120x320mm"@[4]);
        assert("prc_1_102x165mm"@ != "prc_6_120x320mm"@);
        assert("prc_2_102x176mm"@[4] != "prc_6_120x320mm"@[4]);
        assert("prc_2_102x176mm"@ != "prc_6_120x320mm"@);
        assert("prc_3_125x176mm"@[4] != "prc_6_120x320mm"@[4]);
        assert("prc_3_125x176mm"@ != "prc_6_120x320mm"@);
        assert("prc_4_110x208mm"@[4] != "prc_6_120x320mm"@[4]);
        assert("prc_4_110x208mm"@ != "prc_6_120x320mm"@);
        assert("prc_5_110x220mm"@[4] != "prc_6_120x320mm"@[4]);
        assert("prc_5_110x220mm"@ != "prc_6_120x320mm"@);
        assert("iso_a10_26x37mm"@[0] != "prc_7_160x230mm"@[0]);
        assert("iso_a10_26x37mm"@ != "prc_7_160x230mm"@);
        assert("iso_a7_74x105mm"@[0] != "prc_7_160x230mm"@[0]);
        assert("iso_a7_74x105mm"@ != "prc_7_160x230mm"@);
        assert("iso_b10_31x44mm"@[0] != "prc_7_160x230mm"@[0]);
        assert("iso_b10_31x44mm"@ != "prc_7_160x230mm"@);
        assert("iso_b7_88x125mm"@[0] != "prc_7_160x230mm"@[0]);
        assert("iso_b7_88x125mm"@ != "prc_7_160x230mm"@);
        assert("iso_c10_28x40mm"@[0] != "prc_7_160x230mm"@[0]);
        assert("iso_c10_28x40mm"@ != "prc_7_160x230mm"@);
        assert("iso_c7_81x114mm"@[0] != "prc_7_160x230mm"@[0]);
        assert("iso_c7_81x114mm"@ != "prc_7_160x230mm"@);
        assert("jis_b10_32x45mm"@[0] != "prc_7_160x230mm"@[0]);
        assert("jis_b10_32x45mm"@ != "prc_7_160x230mm"@);
        assert("jis_b7_91x128mm"@[0] != "prc_7_160x230mm"@[0]);
        assert("jis_b7_91x128mm"@ != "prc_7_160x230mm"@);
        assert("prc_1_102x165mm"@[4] != "prc_7_160x230mm"@[4]);
        assert("prc_1_102x165mm"@ != "prc_7_160x230mm"@);
        assert("prc_2_102x176mm"@[4] != "prc_7_160x230mm"@[4]);
        assert("prc_2_102x176mm"@ != "prc_7_160x230mm"@);
        assert("prc_3_125x176mm"@[4] != "prc_7_160x230mm"@[4]);
        assert("prc_3_125x176mm"@ != "prc_7_160x230mm"@);
        assert("prc_4_110x208mm"@[4] != "prc_7_160x230mm"@[4]);
        assert("prc_4_110x208mm"@ != "prc_7_160x230mm"@);
        assert("prc_5_110x220mm"@[4] != "prc_7_160x230mm"@[4]);
        assert("prc_5_110x220mm"@ != "prc_7_160x230mm"@);
        assert("prc_6_120x320mm"@[4] != "prc_7_160x230mm"@[4]);
        assert("prc_6_120x320mm"@ != "prc_7_160x230mm"@);
        assert("iso_a10_26x37mm"@[0] != "prc_8_120x309mm"@[0]);
        assert("iso_a10_26x37mm"@ != "prc_8_120x309mm"@);
        assert("iso_a7_74x105mm"@[0] != "prc_8_120x309mm"@[0]);
        assert("iso_a7_74x105mm"@ != "prc_8_120x309mm"@);
        assert("iso_b10_31x44mm"@[0] != "prc_8_120x309mm"@[0]);
        assert("iso_b10_31x44mm"@ != "prc_8_120x309mm"@);
        assert("iso_b7_88x125mm"@[0] != "prc_8_120x309mm"@[0]);
        assert("iso_b7_88x125mm"@ != "prc_8_120x309mm"@);
        assert("iso_c10_28x40mm"@[0] != "prc_8_120x309mm"@[0]);
        assert("iso_c10_28x40mm"@ != "prc_8_120x309mm"@);
        assert("iso_c7_81x114mm"@[0] != "prc_8_120x309mm"@[0]);
        assert("iso_c7_81x114mm"@ != "prc_8_120x309mm"@);
        assert("jis_b10_32x45mm"@[0] != "prc_8_120x309mm"@[0]);
        assert("jis_b10_32x45mm"@ != "prc_8_120x309mm"@);
        assert("jis_b7_91x128mm"@[0] != "prc_8_120x309mm"@[0]);
        assert("jis_b7_91x128mm"@ != "prc_8_120x309mm"@);
        assert("prc_1_102x165mm"@[4] != "prc_8_120x309mm"@[4]);
        assert("prc_1_102x165mm"@ != "prc_8_120x309mm"@);
        assert("prc_2_102x176mm"@[4] != "prc_8_120x309mm"@[4]);
        assert("prc_2_102x176mm"@ != "prc_8_120x309mm"@);
        assert("prc_3_125x176mm"@[4] != "prc_8_120x309mm"@[4]);
        assert("prc_3_125x176mm"@ != "prc_8_120x309mm"@);
        assert("prc_4_110x208mm"@[4] != "prc_8_120x309mm"@[4]);
        assert("prc_4_110x208mm"@ != "prc_8_120x309mm"@);
        assert("prc_5_110x220mm"@[4] != "prc_8_120x309mm"@[4]);
        assert("prc_5_110x220mm"@ != "prc_8_120x309mm"@);
        assert("prc_6_120x320mm"@[4] != "prc_8_120x309mm"@[4]);
        assert("prc_6_120x320mm"@ != "prc_8_120x309mm"@);
        assert("prc_7_160x230mm"@[4] != "prc_8_120x309mm"@[4]);
        assert("prc_7_160x230mm"@ != "prc_8_120x309mm"@);
    }
    let ok84 = str_table_insert(t, "na_super-b_13x19in", 84);
    proof {
        assert(ok84);
    }
    let ok85 = str_table_insert(t, "prc_10_324x458mm", 85);
    proof {
        assert(ok85);
    }
    let ok86 = str_table_insert(t, "prc_16k_146x215mm", 86);
    proof {
        assert(ok86);
    }
    let ok87 = str_table_insert(t, "prc_1_102x165mm", 87);
    proof {
        assert(ok87);
    }
    let ok88 = str_table_insert(t, "prc_2_102x176mm", 88);
    proof {
        assert(ok88);
    }
    let ok89 = str_table_insert(t, "prc_32k_97x151mm", 89);
    proof {
        assert(ok89);
    }
    let ok90 = str_table_insert(t, "prc_3_125x176mm", 90);
    proof {
        assert(ok90);
    }
    let ok91 = str_table_insert(t, "prc_4_110x208mm", 91);
    proof {
        assert(ok91);
    }
    let ok92 = str_table_insert(t, "prc_5_110x220mm", 92);
    proof {
        assert(ok92);
    }
    let ok93 = str_table_insert(t, "prc_6_120x320mm", 93);
    proof {
        assert(ok93);
    }
    let ok94 = str_table_insert(t, "prc_7_160x230mm", 94);
    proof {
        assert(ok94);
    }
    let ok95 = str_table_insert(t, "prc_8_120x309mm", 95);
    proof {
        assert(ok95);
    }
}

/// Build the media table, holding exactly the pairs of `media_fwd`.
pub fn media_table() -> (t: StrKeyTable)
    ensures
        str_fwd(t) == media_fwd(),
        str_rev(t) == media_rev(),
{
    let mut t = str_table_new();
    media_push_a(&mut t);
    media_push_b(&mut t);
    media_push_c(&mut t);
    media_push_d(&mut t);
    media_push_e(&mut t);
    media_push_f(&mut t);
    media_push_g(&mut t);
    media_push_h(&mut t);
    t
}

/// The protocol media keys the device supports: one key per device pack
/// whose native identity the media table maps back, in device order,
/// without deduplication.
pub fn all_supported_media(t: &StrKeyTable, packs: &Vec<OptionPack>) -> (r: Vec<String>)
    ensures
        r@.map_values(|s: String| s@) == supported_keys(str_rev(*t), packs@),
{
    all_supported_str(t, packs)
}

/// The first device pack matching the requested protocol media key, if the
/// key is in the media table and such a pack exists.
pub fn get_media_by_ipp(t: &StrKeyTable, packs: &Vec<OptionPack>, ipp_key: &str) -> (r: Option<
    OptionPack,
>)
    ensures
        r == find_spec(str_fwd(*t), packs@, ipp_key@),
{
    find_by_ipp_str(t, packs, ipp_key)
}

} // verus!
