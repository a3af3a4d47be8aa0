//! What registering the COM server writes to the registry: the GUID of the text
//! service in registry form, the keys built from it, and the `REG_SZ` values
//! (NUL-terminated UTF-16) written under them.
use vstd::prelude::*;

use crate::strings::push_char;

verus! {

/// A GUID, field by field as Windows lays it out.
#[derive(Debug, Clone, Copy, PartialEq, Eq)]
pub struct Guid {
    pub data1: u32,
    pub data2: u16,
    pub data3: u16,
    pub data4: [u8; 8],
}

/// The upper-case hexadecimal digit of `d` (below 16).
pub open spec fn hex_digit(d: nat) -> char
    recommends
        d < 16,
{
    if d < 10 {
        ('0' as int + d) as char
    } else {
        ('A' as int + (d - 10)) as char
    }
}

/// The lowest `width` hexadecimal digits of `v`, most significant first, in upper
/// case: `v` written with `width` digits, padded with zeros.
pub open spec fn hex_upper(v: nat, width: nat) -> Seq<char>
    decreases width,
{
    if width == 0 {
        seq![]
    } else {
        hex_upper(v / 16, (width - 1) as nat).push(hex_digit(v % 16))
    }
}

/// The registry form of a GUID: `{XXXXXXXX-XXXX-XXXX-XXXX-XXXXXXXXXXXX}`, in upper
/// case, each field padded with zeros to its full width.
pub open spec fn guid_text(g: Guid) -> Seq<char> {
    seq!['{'] + hex_upper(g.data1 as nat, 8) + seq!['-'] + hex_upper(g.data2 as nat, 4) + seq![
        '-',
    ] + hex_upper(g.data3 as nat, 4) + seq!['-'] + hex_upper(g.data4[0] as nat, 2) + hex_upper(
        g.data4[1] as nat,
        2,
    ) + seq!['-'] + hex_upper(g.data4[2] as nat, 2) + hex_upper(g.data4[3] as nat, 2) + hex_upper(
        g.data4[4] as nat,
        2,
    ) + hex_upper(g.data4[5] as nat, 2) + hex_upper(g.data4[6] as nat, 2) + hex_upper(
        g.data4[7] as nat,
        2,
    ) + seq!['}']
}

/// The registry key of a CLSID: `CLSID\<clsid>`.
pub open spec fn clsid_key_text(clsid: Seq<char>) -> Seq<char> {
    "CLSID\\"@ + clsid
}

/// The key that names the DLL serving a CLSID: `CLSID\<clsid>\InProcServer32`.
pub open spec fn inproc_server_key_text(clsid: Seq<char>) -> Seq<char> {
    "CLSID\\"@ + clsid + "\\InProcServer32"@
}

/// The hexadecimal digit of `d`.
fn hex_char(d: u32) -> (c: char)
    requires
        d < 16,
    ensures
        c == hex_digit(d as nat),
{
    if d < 10 {
        (48u8 + d as u8) as char
    } else {
        (65u8 + (d - 10) as u8) as char
    }
}

/// Appends the lowest `width` hexadecimal digits of `v` to `s`.
fn push_hex(s: &mut String, v: u32, width: usize)
    ensures
        final(s)@ == old(s)@ + hex_upper(v as nat, width as nat),
    decreases width,
{
    if width > 0 {
        push_hex(s, v / 16, width - 1);
        push_char(s, hex_char(v % 16));
        assert(hex_upper(v as nat, width as nat) == hex_upper((v / 16) as nat, (width - 1) as nat).push(
            hex_digit((v % 16) as nat),
        ));
    } else {
        assert(old(s)@ + hex_upper(v as nat, 0) =~= old(s)@);
    }
}

/// Writes a GUID in registry form, `{XXXXXXXX-XXXX-XXXX-XXXX-XXXXXXXXXXXX}`.
pub fn guid_to_string(guid: &Guid) -> (r: String)
    ensures
        r@ == guid_text(*guid),
{
    let mut s = String::new();
    push_char(&mut s, '{');
    push_hex(&mut s, guid.data1, 8);
    push_char(&mut s, '-');
    push_hex(&mut s, guid.data2 as u32, 4);
    push_char(&mut s, '-');
    push_hex(&mut s, guid.data3 as u32, 4);
    push_char(&mut s, '-');
    push_hex(&mut s, guid.data4[0] as u32, 2);
    push_hex(&mut s, guid.data4[1] as u32, 2);
    push_char(&mut s, '-');
    push_hex(&mut s, guid.data4[2] as u32, 2);
    push_hex(&mut s, guid.data4[3] as u32, 2);
    push_hex(&mut s, guid.data4[4] as u32, 2);
    push_hex(&mut s, guid.data4[5] as u32, 2);
    push_hex(&mut s, guid.data4[6] as u32, 2);
    push_hex(&mut s, guid.data4[7] as u32, 2);
    push_char(&mut s, '}');
    assert(s@ =~= guid_text(*guid));
    s
}

/// The registry key of a CLSID, `CLSID\<clsid>`, which unregistering deletes.
pub fn clsid_key_path(clsid_str: &str) -> (r: String)
    ensures
        r@ == clsid_key_text(clsid_str@),
{
    let mut r = String::from_str("CLSID\\");
    r.append(clsid_str);
    r
}

/// The key `CLSID\<clsid>\InProcServer32`, whose default value names the DLL.
pub fn inproc_server_key_path(clsid_str: &str) -> (r: String)
    ensures
        r@ == inproc_server_key_text(clsid_str@),
{
    let mut r = String::from_str("CLSID\\");
    r.append(clsid_str);
    r.append("\\InProcServer32");
    r
}


// === Values written under the server's key ===
/// The language of the input profile: Japanese.
pub const LANGID_JAPANESE: u16 = 0x0411;

/// The name under which the input method is shown.
pub const IME_DISPLAY_NAME: &'static str = "Enpitsu";

/// The threading model of the COM server.
pub const THREADING_MODEL: &'static str = "Apartment";

/// The UTF-16 code units of one character: one unit below U+10000, else a
/// surrogate pair.
pub open spec fn utf16_char(c: char) -> Seq<u16> {
    let v = c as int;
    if v < 0x10000 {
        seq![v as u16]
    } else {
        seq![(0xD800 + (v - 0x10000) / 0x400) as u16, (0xDC00 + (v - 0x10000) % 0x400) as u16]
    }
}

/// The UTF-16 encoding of a text.
pub open spec fn utf16(s: Seq<char>) -> Seq<u16>
    decreases s.len(),
{
    if s.len() == 0 {
        seq![]
    } else {
        utf16(s.drop_last()) + utf16_char(s.last())
    }
}

/// The UTF-16 encoding of a text followed by a NUL unit, as a `REG_SZ` value holds it.
pub open spec fn utf16z(s: Seq<char>) -> Seq<u16> {
    utf16(s).push(0)
}

/// Appends the UTF-16 code units of `c` to `out`.
fn push_utf16(out: &mut Vec<u16>, c: char)
    ensures
        final(out)@ == old(out)@ + utf16_char(c),
{
    let v = c as u32;
    if v < 0x10000 {
        out.push(v as u16);
    } else {
        let w = v - 0x10000;
        out.push((0xD800 + w / 0x400) as u16);
        out.push((0xDC00 + w % 0x400) as u16);
    }
    assert(final(out)@ =~= old(out)@ + utf16_char(c));
}

/// Encodes a text as UTF-16.
pub fn encode_utf16(s: &str) -> (r: Vec<u16>)
    ensures
        r@ == utf16(s@),
{
    let n = s.unicode_len();
    let mut out: Vec<u16> = Vec::new();
    let mut i: usize = 0;
    while i < n
        invariant
            n == s@.len(),
            i <= n,
            out@ == utf16(s@.subrange(0, i as int)),
        decreases n - i,
    {
        let c = s.get_char(i);
        push_utf16(&mut out, c);
        assert(s@.subrange(0, i + 1).drop_last() =~= s@.subrange(0, i as int));
        i = i + 1;
    }
    assert(s@.subrange(0, n as int) =~= s@);
    out
}

/// Encodes a text as UTF-16 followed by a NUL unit (`REG_SZ` data).
pub fn encode_utf16z(s: &str) -> (r: Vec<u16>)
    ensures
        r@ == utf16z(s@),
{
    let mut r = encode_utf16(s);
    r.push(0);
    r
}

/// A `REG_SZ` value: its name (`None` for the key's default value) and its data
/// as NUL-terminated UTF-16.
#[derive(Debug, Clone, PartialEq, Eq)]
pub struct RegistryValue {
    pub name: Option<String>,
    pub data: Vec<u16>,
}

/// The values written under `CLSID\<clsid>\InProcServer32`: the default value
/// names the DLL, and `ThreadingModel` is `Apartment`.
pub fn inproc_server_values(dll_path: &str) -> (r: Vec<RegistryValue>)
    ensures
        r@.len() == 2,
        r@[0].name is None,
        r@[0].data@ == utf16z(dll_path@),
        r@[1].name is Some && r@[1].name->0@ == "ThreadingModel"@,
        r@[1].data@ == utf16z(THREADING_MODEL@),
{
    let mut r: Vec<RegistryValue> = Vec::new();
    r.push(RegistryValue { name: None, data: encode_utf16z(dll_path) });
    r.push(
        RegistryValue {
            name: Some(String::from_str("ThreadingModel")),
            data: encode_utf16z(THREADING_MODEL),
        },
    );
    r
}

/// The description of the input profile: the display name in UTF-16, without NUL.
pub fn profile_description() -> (r: Vec<u16>)
    ensures
        r@ == utf16(IME_DISPLAY_NAME@),
{
    encode_utf16(IME_DISPLAY_NAME)
}

// === Laws ===
/// The encoding of two texts put together is the two encodings put together.
pub proof fn lemma_utf16_concat(a: Seq<char>, b: Seq<char>)
    ensures
        utf16(a + b) == utf16(a) + utf16(b),
    decreases b.len(),
{
    if b.len() == 0 {
        assert(a + b =~= a);
        assert(utf16(a) + utf16(b) =~= utf16(a));
    } else {
        lemma_utf16_concat(a, b.drop_last());
        assert((a + b).drop_last() =~= a + b.drop_last());
        assert((a + b).last() == b.last());
        assert(utf16(a + b.drop_last()) + utf16_char(b.last()) =~= utf16(a) + (utf16(b.drop_last())
            + utf16_char(b.last())));
    }
}

/// `REG_SZ` data ends with exactly one NUL, and a text of characters below U+10000
/// takes as many units as it has characters, plus the NUL.
pub proof fn lemma_utf16z_shape(s: Seq<char>)
    ensures
        utf16z(s).last() == 0u16,
        (forall|i: int| 0 <= i < s.len() ==> (s[i] as int) < 0x10000) ==> utf16z(s).len() == s.len()
            + 1,
    decreases s.len(),
{
    if s.len() > 0 && (forall|i: int| 0 <= i < s.len() ==> (s[i] as int) < 0x10000) {
        let p = s.drop_last();
        assert forall|i: int| 0 <= i < p.len() implies (p[i] as int) < 0x10000 by {
            assert(p[i] == s[i]);
        }
        lemma_utf16z_shape(p);
        assert((s.last() as int) < 0x10000) by {
            assert(s.last() == s[s.len() - 1]);
        }
    }
}

/// `hex_upper` writes exactly `width` digits, each of them a hexadecimal digit.
pub proof fn lemma_hex_upper_shape(v: nat, width: nat)
    ensures
        hex_upper(v, width).len() == width,
        forall|i: int|
            0 <= i < width ==> {
                let c = #[trigger] hex_upper(v, width)[i];
                ('0' <= c <= '9') || ('A' <= c <= 'F')
            },
    decreases width,
{
    if width > 0 {
        lemma_hex_upper_shape(v / 16, (width - 1) as nat);
    }
}

/// The registry form of a GUID has 38 characters: braces at both ends and dashes
/// at positions 9, 14, 19 and 24.
pub proof fn lemma_guid_text_shape(g: Guid)
    ensures
        guid_text(g).len() == 38,
        guid_text(g)[0] == '{',
        guid_text(g)[9] == '-',
        guid_text(g)[14] == '-',
        guid_text(g)[19] == '-',
        guid_text(g)[24] == '-',
        guid_text(g)[37] == '}',
{
    lemma_hex_upper_shape(g.data1 as nat, 8);
    lemma_hex_upper_shape(g.data2 as nat, 4);
    lemma_hex_upper_shape(g.data3 as nat, 4);
    lemma_hex_upper_shape(g.data4[0] as nat, 2);
    lemma_hex_upper_shape(g.data4[1] as nat, 2);
    lemma_hex_upper_shape(g.data4[2] as nat, 2);
    lemma_hex_upper_shape(g.data4[3] as nat, 2);
    lemma_hex_upper_shape(g.data4[4] as nat, 2);
    lemma_hex_upper_shape(g.data4[5] as nat, 2);
    lemma_hex_upper_shape(g.data4[6] as nat, 2);
    lemma_hex_upper_shape(g.data4[7] as nat, 2);
}

/// The value of a hexadecimal digit.
pub open spec fn hex_digit_value(c: char) -> nat {
    if '0' <= c <= '9' {
        (c as int - '0' as int) as nat
    } else {
        (c as int - 'A' as int + 10) as nat
    }
}

/// The value of a string of hexadecimal digits, most significant first.
pub open spec fn hex_value(s: Seq<char>) -> nat
    decreases s.len(),
{
    if s.len() == 0 {
        0
    } else {
        16 * hex_value(s.drop_last()) + hex_digit_value(s.last())
    }
}

/// Sixteen to the power `width`: how many values `width` hexadecimal digits can hold.
pub open spec fn hex_span(width: nat) -> nat
    decreases width,
{
    if width == 0 {
        1
    } else {
        16 * hex_span((width - 1) as nat)
    }
}

proof fn lemma_hex_span_positive(width: nat)
    ensures
        hex_span(width) > 0,
    decreases width,
{
    if width > 0 {
        lemma_hex_span_positive((width - 1) as nat);
    }
}

/// The digits `hex_upper` writes stand for the value modulo `16^width`; for a value
/// that fits in `width` digits, for the value itself.
pub proof fn lemma_hex_upper_value(v: nat, width: nat)
    ensures
        hex_value(hex_upper(v, width)) == v % hex_span(width),
        v < hex_span(width) ==> hex_value(hex_upper(v, width)) == v,
    decreases width,
{
    lemma_hex_span_positive(width);
    if width == 0 {
        assert(v % 1 == 0) by (nonlinear_arith);
    } else {
        let w1 = (width - 1) as nat;
        lemma_hex_upper_value(v / 16, w1);
        lemma_hex_span_positive(w1);
        let s = hex_upper(v, width);
        assert(s.drop_last() =~= hex_upper(v / 16, w1));
        assert(hex_digit_value(hex_digit(v % 16)) == v % 16);
        vstd::arithmetic::div_mod::lemma_mod_breakdown(v as int, 16, hex_span(w1) as int);
    }
    if v < hex_span(width) {
        vstd::arithmetic::div_mod::lemma_small_mod(v, hex_span(width));
    }
}

/// Two GUIDs with the same registry form are the same GUID: distinct text services
/// get distinct registry keys.
pub proof fn lemma_guid_text_injective(a: Guid, b: Guid)
    requires
        guid_text(a) == guid_text(b),
    ensures
        a == b,
{
    lemma_guid_text_shape(a);
    lemma_guid_text_shape(b);
    lemma_hex_upper_shape(a.data1 as nat, 8);
    lemma_hex_upper_shape(b.data1 as nat, 8);
    lemma_hex_upper_shape(a.data2 as nat, 4);
    lemma_hex_upper_shape(b.data2 as nat, 4);
    lemma_hex_upper_shape(a.data3 as nat, 4);
    lemma_hex_upper_shape(b.data3 as nat, 4);
    assert forall|i: int| 0 <= i < 8 implies #[trigger] hex_upper(a.data4[i] as nat, 2).len() == 2
        && hex_upper(b.data4[i] as nat, 2).len() == 2 by {
        lemma_hex_upper_shape(a.data4[i] as nat, 2);
        lemma_hex_upper_shape(b.data4[i] as nat, 2);
    }
    assert(hex_span(2) == 256) by {
        reveal_with_fuel(hex_span, 3);
    }
    assert(hex_span(4) == 65536) by {
        reveal_with_fuel(hex_span, 5);
    }
    assert(hex_span(8) == 4294967296) by {
        reveal_with_fuel(hex_span, 9);
    }
    let ta = guid_text(a);
    let tb = guid_text(b);
    assert(ta.subrange(1, 9) =~= hex_upper(a.data1 as nat, 8));
    assert(tb.subrange(1, 9) =~= hex_upper(b.data1 as nat, 8));
    lemma_hex_upper_value(a.data1 as nat, 8);
    lemma_hex_upper_value(b.data1 as nat, 8);
    assert(ta.subrange(10, 14) =~= hex_upper(a.data2 as nat, 4));
    assert(tb.subrange(10, 14) =~= hex_upper(b.data2 as nat, 4));
    lemma_hex_upper_value(a.data2 as nat, 4);
    lemma_hex_upper_value(b.data2 as nat, 4);
    assert(ta.subrange(15, 19) =~= hex_upper(a.data3 as nat, 4));
    assert(tb.subrange(15, 19) =~= hex_upper(b.data3 as nat, 4));
    lemma_hex_upper_value(a.data3 as nat, 4);
    lemma_hex_upper_value(b.data3 as nat, 4);
    assert forall|i: int| 0 <= i < 8 implies a.data4[i] == b.data4[i] by {
        let start = if i < 2 {
            20 + 2 * i
        } else {
            21 + 2 * i
        };
        assert(ta.subrange(start, start + 2) =~= hex_upper(a.data4[i] as nat, 2));
        assert(tb.subrange(start, start + 2) =~= hex_upper(b.data4[i] as nat, 2));
        lemma_hex_upper_value(a.data4[i] as nat, 2);
        lemma_hex_upper_value(b.data4[i] as nat, 2);
    }
    assert(a.data4 =~= b.data4);
}

/// Each character is encoded so that it can be read back: a character below U+10000
/// is one unit equal to its code point, which is never a surrogate; any other is a
/// high surrogate (D800 to DBFF) followed by a low surrogate (DC00 to DFFF) that
/// together give back the code point.
pub proof fn lemma_utf16_char_decodes(c: char)
    ensures
        (c as int) < 0x10000 ==> utf16_char(c).len() == 1 && utf16_char(c)[0] as int == c as int
            && !(0xD800 <= utf16_char(c)[0] < 0xE000),
        (c as int) >= 0x10000 ==> {
            let u = utf16_char(c);
            &&& u.len() == 2
            &&& 0xD800 <= u[0] < 0xDC00
            &&& 0xDC00 <= u[1] < 0xE000
            &&& (u[0] - 0xD800) * 0x400 + (u[1] - 0xDC00) + 0x10000 == c as int
        },
{
    let v = c as int;
    if v >= 0x10000 {
        let w = v - 0x10000;
        assert(w < 0x100000);
        let q = w / 0x400;
        let r = w % 0x400;
        assert(0 <= r < 0x400);
        assert(q * 0x400 + r == w);
        assert(0 <= q < 0x400) by (nonlinear_arith)
            requires
                q * 0x400 + r == w,
                0 <= r < 0x400,
                0 <= w < 0x100000,
        ;
    }
}

} // verus!
