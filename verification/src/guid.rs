//! Interface identifiers: 128-bit values, their canonical text, the
//! identifiers the platform assigns to its generic interfaces, and the
//! name-based identifier of a type signature.
use vstd::prelude::*;
use vstd::string::StringExecFns;
use vstd::utf8::encode_utf8;

verus! {

/// An interface identifier. The most significant bits hold the first group of
/// its text.
pub type Guid = u128;

pub const IUNKNOWN: Guid = 0x00000000_0000_0000_c000_000000000046;

pub const IAGILE_OBJECT: Guid = 0x94ea2b94_e9cc_49e0_c0ff_ee64ca8f5b90;

pub const IASYNC_INFO: Guid = 0x00000036_0000_0000_c000_000000000046;

pub const IASYNC_ACTION: Guid = 0x5a648006_843a_4da9_865b_9d26e5dfad7b;

pub const IASYNC_ACTION_WITH_PROGRESS: Guid = 0x1f6db258_e803_48a1_9546_eb7353398884;

pub const IASYNC_OPERATION: Guid = 0x9fc2b0bb_e446_44e2_aa61_9cab8f636af2;

pub const IASYNC_OPERATION_WITH_PROGRESS: Guid = 0xb5d036d7_e297_498f_ba60_0289e76e23dd;

pub const IVECTOR: Guid = 0x913337e9_11a1_4345_a3a2_4e7f956e222d;

pub const IVECTOR_VIEW: Guid = 0xbbe1fa4c_b0e3_4583_baef_1f1b2e483e56;

pub const IITERABLE: Guid = 0xfaa585ea_6214_4217_afda_7f46de5869b3;

pub const IITERATOR: Guid = 0x6a79e863_4300_459a_9966_cbb660963ee1;

pub const IMAP: Guid = 0x3c2925fe_8519_45c1_aa79_197b6718c1c1;

pub const IMAP_VIEW: Guid = 0xe480ce40_a338_4ada_adcf_272272e48cb9;

pub const IKEY_VALUE_PAIR: Guid = 0x02b51929_c1c4_4a7e_8940_0312b5c18500;

pub const IOBSERVABLE_VECTOR: Guid = 0x5917eb53_50b4_4a0d_b309_65862b3f1dbc;

pub const IREFERENCE: Guid = 0x61c17706_2d65_11e0_9ae8_d48564015472;

/// The handler of a plain action; not generic, so this is the identifier itself.
pub const ASYNC_ACTION_COMPLETED_HANDLER: Guid = 0xa4ed5c81_76c9_40bd_8be6_b1d90fb20ae7;

pub const ASYNC_OPERATION_COMPLETED_HANDLER: Guid = 0xfcdcf02c_e5d8_4478_915a_4d90b74b83a5;

pub const ASYNC_ACTION_WITH_PROGRESS_COMPLETED_HANDLER: Guid = 0x9c029f91_cc84_44fd_ac26_0a6c4e555281;

pub const ASYNC_OPERATION_WITH_PROGRESS_COMPLETED_HANDLER: Guid = 0xe85df41d_6aa7_46e3_a8e2_f009d840c627;

/// The longest signature, in bytes, that an identifier can be derived from.
pub const MAX_SIGNATURE_BYTES: usize = 1008;

/// The `i`-th of the 32 hexadecimal digits of `guid`, most significant first.
pub open spec fn nibble(guid: Guid, i: int) -> u8 {
    ((guid >> ((4 * (31 - i)) as u128)) & 0xf) as u8
}

/// The lower-case hexadecimal digit for a value below 16.
pub open spec fn hex_digit(n: u8) -> char {
    if n == 0 {
        '0'
    } else if n == 1 {
        '1'
    } else if n == 2 {
        '2'
    } else if n == 3 {
        '3'
    } else if n == 4 {
        '4'
    } else if n == 5 {
        '5'
    } else if n == 6 {
        '6'
    } else if n == 7 {
        '7'
    } else if n == 8 {
        '8'
    } else if n == 9 {
        '9'
    } else if n == 10 {
        'a'
    } else if n == 11 {
        'b'
    } else if n == 12 {
        'c'
    } else if n == 13 {
        'd'
    } else if n == 14 {
        'e'
    } else {
        'f'
    }
}

/// Whether position `k` of the 36-character text holds a dash.
pub open spec fn is_dash_position(k: int) -> bool {
    k == 8 || k == 13 || k == 18 || k == 23
}

/// How many dashes stand before position `k` of the text.
pub open spec fn dashes_before(k: int) -> int {
    if k < 8 {
        0
    } else if k < 13 {
        1
    } else if k < 18 {
        2
    } else if k < 23 {
        3
    } else {
        4
    }
}

/// The character at position `k` of the text `xxxxxxxx-xxxx-xxxx-xxxx-xxxxxxxxxxxx`.
pub open spec fn guid_text_char(guid: Guid, k: int) -> char {
    if is_dash_position(k) {
        '-'
    } else {
        hex_digit(nibble(guid, k - dashes_before(k)))
    }
}

/// The 36 characters `xxxxxxxx-xxxx-xxxx-xxxx-xxxxxxxxxxxx`, lower case.
pub open spec fn guid_text(guid: Guid) -> Seq<char> {
    Seq::new(36, |k: int| guid_text_char(guid, k))
}

/// The text of `guid` between braces.
pub open spec fn guid_braced(guid: Guid) -> Seq<char> {
    seq!['{'] + guid_text(guid) + seq!['}']
}

/// The text of one hexadecimal digit.
pub(crate) fn hex_digit_str(n: u8) -> (s: &'static str)
    requires
        n < 16,
    ensures
        s@ == seq![hex_digit(n)],
{
    proof {
        reveal_strlit("0");
        reveal_strlit("1");
        reveal_strlit("2");
        reveal_strlit("3");
        reveal_strlit("4");
        reveal_strlit("5");
        reveal_strlit("6");
        reveal_strlit("7");
        reveal_strlit("8");
        reveal_strlit("9");
        reveal_strlit("a");
        reveal_strlit("b");
        reveal_strlit("c");
        reveal_strlit("d");
        reveal_strlit("e");
        reveal_strlit("f");
    }
    let s = match n {
        0 => "0",
        1 => "1",
        2 => "2",
        3 => "3",
        4 => "4",
        5 => "5",
        6 => "6",
        7 => "7",
        8 => "8",
        9 => "9",
        10 => "a",
        11 => "b",
        12 => "c",
        13 => "d",
        14 => "e",
        _ => "f",
    };
    assert(s@ =~= seq![hex_digit(n)]);
    s
}

/// Formats `guid` as `{xxxxxxxx-xxxx-xxxx-xxxx-xxxxxxxxxxxx}`, lower case.
pub fn format_guid_braced(guid: &Guid) -> (s: String)
    ensures
        s@ == guid_braced(*guid),
{
    let value: u128 = *guid;
    let mut s = String::from_str("{");
    proof {
        reveal_strlit("{");
        reveal_strlit("-");
        reveal_strlit("}");
        assert(s@ =~= seq!['{'] + guid_text(value).subrange(0, 0));
    }
    let mut k: u32 = 0;
    while k < 36
        invariant
            k <= 36,
            s@ == seq!['{'] + guid_text(value).subrange(0, k as int),
            "-"@ == seq!['-'],
        decreases 36 - k,
    {
        if k == 8 || k == 13 || k == 18 || k == 23 {
            s.append("-");
        } else {
            let dashes: u32 = if k < 8 {
                0
            } else if k < 13 {
                1
            } else if k < 18 {
                2
            } else if k < 23 {
                3
            } else {
                4
            };
            let shift: u32 = 4 * (31 - (k - dashes));
            let digit: u128 = (value >> shift) & 0xf;
            assert(digit < 16) by (bit_vector)
                requires
                    digit == (value >> shift) & 0xf,
            ;
            assert(digit as u8 == nibble(value, k - dashes_before(k as int)));
            s.append(hex_digit_str(digit as u8));
        }
        proof {
            assert(s@ =~= seq!['{'] + guid_text(value).subrange(0, k + 1));
        }
        k += 1;
    }
    s.append("}");
    proof {
        assert(guid_text(value).subrange(0, 36) =~= guid_text(value));
    }
    s
}

/// The identifier that the platform derives from a type signature.
pub uninterp spec fn signature_guid(signature: Seq<char>) -> u128;

/// `GUID::from_signature` of windows-core, applied to the UTF-8 bytes of
/// `signature`: the name-based identifier of that signature. The result is a
/// function of the bytes alone; its version digit is 5 and its variant bits
/// are `10`. The outside function holds the signature in a fixed buffer
/// behind a 16-byte prefix, hence the limit on the length.
#[verifier::external_body]
pub(crate) fn guid_of_signature(signature: &str) -> (guid: Guid)
    requires
        encode_utf8(signature@).len() <= MAX_SIGNATURE_BYTES,
    ensures
        guid == signature_guid(signature@),
        (guid >> 76) & 0xf == 5,
        (guid >> 62) & 0x3 == 2,
{
    let buffer = windows_core::imp::ConstBuffer::from_slice(signature.as_bytes());
    windows_core::GUID::from_signature(buffer).to_u128()
}

/// The identifier of the generic instantiation with the given signature, or
/// `None` where the signature is too long to derive one from.
pub fn checked_iid_of_signature(signature: &str) -> (guid: Option<Guid>)
    ensures
        guid == (if encode_utf8(signature@).len() <= MAX_SIGNATURE_BYTES {
            Some(signature_guid(signature@))
        } else {
            None
        }),
{
    if signature.as_bytes().len() <= MAX_SIGNATURE_BYTES {
        Some(guid_of_signature(signature))
    } else {
        None
    }
}

/// The first group of the identifier's text, as a number.
pub fn data1(guid: &Guid) -> (v: u32)
    ensures
        v == (*guid >> 96) & 0xffff_ffff,
{
    let g: u128 = *guid;
    let v: u128 = (g >> 96u32) & 0xffff_ffff;
    assert(v <= 0xffff_ffff) by (bit_vector)
        requires
            v == (g >> 96u32) & 0xffff_ffff,
    ;
    v as u32
}

/// The second group of the identifier's text, as a number.
pub fn data2(guid: &Guid) -> (v: u16)
    ensures
        v == (*guid >> 80) & 0xffff,
{
    let g: u128 = *guid;
    let v: u128 = (g >> 80u32) & 0xffff;
    assert(v <= 0xffff) by (bit_vector)
        requires
            v == (g >> 80u32) & 0xffff,
    ;
    v as u16
}

/// The third group of the identifier's text, as a number.
pub fn data3(guid: &Guid) -> (v: u16)
    ensures
        v == (*guid >> 64) & 0xffff,
{
    let g: u128 = *guid;
    let v: u128 = (g >> 64u32) & 0xffff;
    assert(v <= 0xffff) by (bit_vector)
        requires
            v == (g >> 64u32) & 0xffff,
    ;
    v as u16
}

/// Byte `i` of the last two groups of the identifier's text.
pub fn data4(guid: &Guid, i: usize) -> (v: u8)
    requires
        i < 8,
    ensures
        v == (*guid >> ((8 * (7 - i)) as u128)) & 0xff,
{
    let g: u128 = *guid;
    let shift: u32 = 8 * (7 - i as u32);
    let v: u128 = (g >> shift) & 0xff;
    assert(v <= 0xff) by (bit_vector)
        requires
            v == (g >> shift) & 0xff,
    ;
    v as u8
}

} // verus!
