//! Line endings and UTF-16, the two things in which a text on the Windows clipboard differs
//! from a Rust string.
use vstd::prelude::*;

verus! {

/// `s` with each `"\r\n"` replaced by `"\n"`, from the left.
pub open spec fn to_lf(s: Seq<char>) -> Seq<char>
    decreases s.len(),
{
    if s.len() == 0 {
        s
    } else if s.len() >= 2 && s[0] == '\r' && s[1] == '\n' {
        seq!['\n'] + to_lf(s.skip(2))
    } else {
        seq![s[0]] + to_lf(s.skip(1))
    }
}

/// `s` with each `'\n'` replaced by `"\r\n"`.
pub open spec fn to_crlf(s: Seq<char>) -> Seq<char>
    decreases s.len(),
{
    if s.len() == 0 {
        s
    } else if s[0] == '\n' {
        seq!['\r', '\n'] + to_crlf(s.skip(1))
    } else {
        seq![s[0]] + to_crlf(s.skip(1))
    }
}

/// The part of `s` before the first `stop`, or all of `s` where there is none.
pub open spec fn until<T>(s: Seq<T>, stop: T) -> Seq<T>
    decreases s.len(),
{
    if s.len() == 0 || s[0] == stop {
        Seq::empty()
    } else {
        seq![s[0]] + until(s.skip(1), stop)
    }
}

pub open spec fn is_high_surrogate(unit: u16) -> bool {
    0xD800 <= unit < 0xDC00
}

pub open spec fn is_low_surrogate(unit: u16) -> bool {
    0xDC00 <= unit < 0xE000
}

/// The UTF-16 code units of one character.
pub open spec fn char_units(c: char) -> Seq<u16> {
    if (c as int) < 0x10000 {
        seq![c as u16]
    } else {
        let offset = c as int - 0x10000;
        seq![(0xD800 + offset / 0x400) as u16, (0xDC00 + offset % 0x400) as u16]
    }
}

/// The UTF-16 code units of a string.
pub open spec fn utf16_units(s: Seq<char>) -> Seq<u16>
    decreases s.len(),
{
    if s.len() == 0 {
        Seq::empty()
    } else {
        char_units(s[0]) + utf16_units(s.skip(1))
    }
}

/// The character that a surrogate pair stands for.
pub open spec fn pair_char(high: u16, low: u16) -> char {
    (0x10000 + (high - 0xD800) * 0x400 + (low - 0xDC00)) as char
}

/// The string that code units stand for. A surrogate without its other half becomes U+FFFD.
pub open spec fn utf16_chars(units: Seq<u16>) -> Seq<char>
    decreases units.len(),
{
    if units.len() == 0 {
        Seq::empty()
    } else if is_high_surrogate(units[0]) && units.len() >= 2 && is_low_surrogate(units[1]) {
        seq![pair_char(units[0], units[1])] + utf16_chars(units.skip(2))
    } else if is_high_surrogate(units[0]) || is_low_surrogate(units[0]) {
        seq!['\u{FFFD}'] + utf16_chars(units.skip(1))
    } else {
        seq![units[0] as char] + utf16_chars(units.skip(1))
    }
}

/// The bytes of code units, the low byte of each first.
pub open spec fn le_bytes(units: Seq<u16>) -> Seq<u8> {
    Seq::new(
        2 * units.len(),
        |i: int|
            if i % 2 == 0 {
                (units[i / 2] % 256) as u8
            } else {
                (units[i / 2] / 256) as u8
            },
    )
}

/// The code units of bytes. A last odd byte belongs to none.
pub open spec fn le_units(bytes: Seq<u8>) -> Seq<u16> {
    Seq::new(
        (bytes.len() / 2) as nat,
        |i: int| (bytes[2 * i] + 256 * bytes[2 * i + 1]) as u16,
    )
}

/// Specification of `String::push`: the character is appended.
pub assume_specification[ String::push ](s: &mut String, c: char)
    ensures
        final(s)@ == old(s)@.push(c),
;

/// Specification of `char::from_u32`: the character of that code point, if it is a Unicode
/// scalar value.
pub assume_specification[ char::from_u32 ](i: u32) -> (r: Option<char>)
    ensures
        i < 0xD800 || 0xE000 <= i < 0x110000 ==> r == Some(i as char),
        0xD800 <= i < 0xE000 || i >= 0x110000 ==> r is None,
;

/// The characters of a string, one by one.
pub fn chars_of(s: &str) -> (r: Vec<char>)
    ensures
        r@ == s@,
{
    let mut chars: Vec<char> = Vec::new();
    for c in iter: s.chars()
        invariant
            iter.seq() == s@,
            chars@ == s@.take(iter.index() as int),
    {
        chars.push(c);
    }
    chars
}

/// The string of these characters.
pub fn string_of(chars: &Vec<char>) -> (r: String)
    ensures
        r@ == chars@,
{
    let mut s = String::new();
    for i in 0..chars.len()
        invariant
            s@ == chars@.take(i as int),
    {
        s.push(chars[i]);
    }
    s
}

/// Replaces each `"\r\n"` by `"\n"`.
pub fn replace_crlf(chars: &Vec<char>) -> (r: Vec<char>)
    ensures
        r@ == to_lf(chars@),
{
    let mut out: Vec<char> = Vec::new();
    let mut i: usize = 0;
    assert(chars@.skip(0) == chars@);
    while i < chars.len()
        invariant
            i <= chars.len(),
            out@ + to_lf(chars@.skip(i as int)) == to_lf(chars@),
        decreases chars.len() - i,
    {
        let ghost rest = chars@.skip(i as int);
        if chars.len() - i >= 2 && chars[i] == '\r' && chars[i + 1] == '\n' {
            assert(rest.skip(2) == chars@.skip(i + 2));
            out.push('\n');
            i = i + 2;
        } else {
            assert(rest.skip(1) == chars@.skip(i + 1));
            out.push(chars[i]);
            i = i + 1;
        }
        assert(out@ + to_lf(chars@.skip(i as int)) == to_lf(chars@));
    }
    assert(chars@.skip(i as int).len() == 0);
    assert(out@ + to_lf(chars@.skip(i as int)) == out@);
    out
}

/// Replaces each `'\n'` by `"\r\n"`.
pub fn replace_lf(chars: &Vec<char>) -> (r: Vec<char>)
    ensures
        r@ == to_crlf(chars@),
{
    let mut out: Vec<char> = Vec::new();
    assert(chars@.skip(0) == chars@);
    for i in 0..chars.len()
        invariant
            out@ + to_crlf(chars@.skip(i as int)) == to_crlf(chars@),
    {
        assert(chars@.skip(i as int).skip(1) == chars@.skip(i + 1));
        if chars[i] == '\n' {
            out.push('\r');
        }
        out.push(chars[i]);
        assert(out@ + to_crlf(chars@.skip(i + 1)) == to_crlf(chars@));
    }
    assert(chars@.skip(chars@.len() as int).len() == 0);
    assert(out@ + to_crlf(chars@.skip(chars@.len() as int)) == out@);
    out
}

proof fn lemma_char_range(c: char)
    ensures
        0 <= c as int,
        (c as int) < 0x110000,
        !(0xD800 <= c as int && (c as int) < 0xE000),
{
}

/// Encodes characters as UTF-16.
pub fn encode_utf16(chars: &Vec<char>) -> (r: Vec<u16>)
    ensures
        r@ == utf16_units(chars@),
{
    let mut units: Vec<u16> = Vec::new();
    assert(chars@.skip(0) == chars@);
    for i in 0..chars.len()
        invariant
            units@ + utf16_units(chars@.skip(i as int)) == utf16_units(chars@),
    {
        assert(chars@.skip(i as int).skip(1) == chars@.skip(i + 1));
        let c: char = chars[i];
        proof {
            lemma_char_range(c);
        }
        let code: u32 = c as u32;
        if code < 0x10000 {
            units.push(code as u16);
        } else {
            let offset: u32 = code - 0x10000;
            units.push((0xD800 + offset / 0x400) as u16);
            units.push((0xDC00 + offset % 0x400) as u16);
        }
        assert(units@ + utf16_units(chars@.skip(i + 1)) == utf16_units(chars@));
    }
    assert(chars@.skip(chars@.len() as int).len() == 0);
    assert(units@ + utf16_units(chars@.skip(chars@.len() as int)) == units@);
    units
}

/// Decodes UTF-16, with U+FFFD in place of each unpaired surrogate.
pub fn decode_utf16_lossy(units: &Vec<u16>) -> (r: Vec<char>)
    ensures
        r@ == utf16_chars(units@),
{
    let mut chars: Vec<char> = Vec::new();
    let mut i: usize = 0;
    assert(units@.skip(0) == units@);
    while i < units.len()
        invariant
            i <= units.len(),
            chars@ + utf16_chars(units@.skip(i as int)) == utf16_chars(units@),
        decreases units.len() - i,
    {
        let ghost rest = units@.skip(i as int);
        let unit: u16 = units[i];
        if 0xD800 <= unit && unit < 0xDC00 && units.len() - i >= 2 && 0xDC00 <= units[i + 1]
            && units[i + 1] < 0xE000 {
            assert(rest.skip(2) == units@.skip(i + 2));
            let code: u32 = 0x10000 + (unit as u32 - 0xD800) * 0x400 + (units[i + 1] as u32 - 0xDC00);
            match char::from_u32(code) {
                Some(c) => chars.push(c),
                None => chars.push('\u{FFFD}'),
            }
            i = i + 2;
        } else {
            assert(rest.skip(1) == units@.skip(i + 1));
            match char::from_u32(unit as u32) {
                Some(c) => chars.push(c),
                None => chars.push('\u{FFFD}'),
            }
            i = i + 1;
        }
        assert(chars@ + utf16_chars(units@.skip(i as int)) == utf16_chars(units@));
    }
    assert(units@.skip(i as int).len() == 0);
    assert(chars@ + utf16_chars(units@.skip(i as int)) == chars@);
    chars
}

/// The units before the first zero unit.
pub fn units_before_nul(units: &Vec<u16>) -> (r: Vec<u16>)
    ensures
        r@ == until(units@, 0u16),
{
    let mut out: Vec<u16> = Vec::new();
    assert(units@.skip(0) == units@);
    for i in 0..units.len()
        invariant
            out@ + until(units@.skip(i as int), 0u16) == until(units@, 0u16),
    {
        assert(units@.skip(i as int).skip(1) == units@.skip(i + 1));
        if units[i] == 0 {
            assert(out@ + until(units@.skip(i as int), 0u16) == out@);
            return out;
        }
        out.push(units[i]);
        assert(out@ + until(units@.skip(i + 1), 0u16) == until(units@, 0u16));
    }
    assert(out@ + until(units@.skip(units@.len() as int), 0u16) == out@);
    out
}

/// Writes code units as bytes, the low byte of each first.
pub fn encode_le(units: &Vec<u16>) -> (r: Vec<u8>)
    ensures
        r@ == le_bytes(units@),
{
    let mut bytes: Vec<u8> = Vec::new();
    for i in 0..units.len()
        invariant
            bytes@ == le_bytes(units@.take(i as int)),
    {
        bytes.push((units[i] % 256) as u8);
        bytes.push((units[i] / 256) as u8);
        assert(bytes@ =~= le_bytes(units@.take(i + 1)));
    }
    assert(units@.take(units@.len() as int) == units@);
    bytes
}

/// Reads bytes as code units, the low byte of each first.
pub fn decode_le(bytes: &[u8]) -> (r: Vec<u16>)
    ensures
        r@ == le_units(bytes@),
{
    let mut units: Vec<u16> = Vec::new();
    let count: usize = bytes.len() / 2;
    for i in 0..count
        invariant
            count == bytes@.len() / 2,
            bytes@.len() <= usize::MAX,
            units@ == le_units(bytes@).take(i as int),
    {
        units.push(bytes[2 * i] as u16 + 256 * (bytes[2 * i + 1] as u16));
        assert(units@ =~= le_units(bytes@).take(i + 1));
    }
    assert(le_units(bytes@).take(count as int) == le_units(bytes@));
    units
}

/// Bytes give back the code units that they were written from.
pub proof fn lemma_le_round_trip(units: Seq<u16>)
    ensures
        le_units(le_bytes(units)) == units,
{
    assert forall|i: int| 0 <= i < units.len() implies le_units(le_bytes(units))[i] == units[i] by {
        assert((2 * i) / 2 == i && (2 * i + 1) / 2 == i);
        assert((2 * i) % 2 == 0 && (2 * i + 1) % 2 == 1);
    }
    assert(le_units(le_bytes(units)) =~= units);
}

/// UTF-16 gives back the string that it encodes.
pub proof fn lemma_utf16_round_trip(s: Seq<char>)
    ensures
        utf16_chars(utf16_units(s)) == s,
    decreases s.len(),
{
    if s.len() > 0 {
        let c = s[0];
        let tail = utf16_units(s.skip(1));
        lemma_char_range(c);
        lemma_utf16_round_trip(s.skip(1));
        let units = utf16_units(s);
        if (c as int) < 0x10000 {
            assert(units.skip(1) =~= tail);
            assert(units[0] as char == c);
        } else {
            assert(units.skip(2) =~= tail);
            let offset = c as int - 0x10000;
            assert(offset == (offset / 0x400) * 0x400 + offset % 0x400);
            assert(pair_char(units[0], units[1]) == c);
        }
        assert(seq![c] + s.skip(1) =~= s);
    } else {
        assert(s =~= Seq::empty());
    }
}

/// The code units of a string with one character more.
pub proof fn lemma_utf16_push(s: Seq<char>, c: char)
    ensures
        utf16_units(s.push(c)) == utf16_units(s) + char_units(c),
    decreases s.len(),
{
    if s.len() == 0 {
        reveal_with_fuel(utf16_units, 2);
        assert(s.push(c).skip(1) =~= Seq::empty());
        assert(utf16_units(s.push(c)) =~= char_units(c));
    } else {
        lemma_utf16_push(s.skip(1), c);
        assert(s.push(c).skip(1) =~= s.skip(1).push(c));
        assert(utf16_units(s.push(c)) =~= utf16_units(s) + char_units(c));
    }
}

/// What stands before `stop` is not touched by what is appended to a part without it.
pub proof fn lemma_until_append<T>(a: Seq<T>, b: Seq<T>, stop: T)
    requires
        !a.contains(stop),
    ensures
        until(a + b, stop) == a + until(b, stop),
    decreases a.len(),
{
    if a.len() == 0 {
        assert(a + b =~= b);
        assert(a + until(b, stop) =~= until(b, stop));
    } else {
        assert(a.contains(a[0]));
        assert forall|x: T| a.skip(1).contains(x) implies a.contains(x) by {
            let i = choose|i: int| 0 <= i < a.skip(1).len() && a.skip(1)[i] == x;
            assert(a[i + 1] == x);
        }
        lemma_until_append(a.skip(1), b, stop);
        assert((a + b).skip(1) =~= a.skip(1) + b);
        assert(seq![a[0]] + (a.skip(1) + until(b, stop)) =~= a + until(b, stop));
    }
}

/// A zero unit ends the code units where a NUL ends the string.
pub proof fn lemma_until_utf16(s: Seq<char>)
    ensures
        until(utf16_units(s).push(0u16), 0u16) == utf16_units(until(s, '\0')),
    decreases s.len(),
{
    if s.len() == 0 {
    } else {
        let c = s[0];
        let tail = utf16_units(s.skip(1));
        lemma_char_range(c);
        lemma_until_utf16(s.skip(1));
        assert(utf16_units(s).push(0u16) =~= char_units(c) + tail.push(0u16));
        if c == '\0' {
            assert(until(utf16_units(s).push(0u16), 0u16) =~= Seq::empty());
        } else {
            assert(!char_units(c).contains(0u16));
            lemma_until_append(char_units(c), tail.push(0u16), 0u16);
            let kept = until(s, '\0');
            assert(kept.skip(1) =~= until(s.skip(1), '\0'));
        }
    }
}

/// Line endings do not move a NUL.
pub proof fn lemma_until_crlf(s: Seq<char>)
    ensures
        until(to_crlf(s), '\0') == to_crlf(until(s, '\0')),
    decreases s.len(),
{
    if s.len() > 0 {
        let rest = s.skip(1);
        lemma_until_crlf(rest);
        let kept = until(s, '\0');
        if s[0] == '\0' {
        } else if s[0] == '\n' {
            assert(!seq!['\r', '\n'].contains('\0'));
            lemma_until_append(seq!['\r', '\n'], to_crlf(rest), '\0');
            assert(kept.skip(1) =~= until(rest, '\0'));
        } else {
            assert(!seq![s[0]].contains('\0'));
            lemma_until_append(seq![s[0]], to_crlf(rest), '\0');
            assert(kept.skip(1) =~= until(rest, '\0'));
        }
    }
}

/// Line endings do not move a NUL.
pub proof fn lemma_until_lf(s: Seq<char>)
    ensures
        until(to_lf(s), '\0') == to_lf(until(s, '\0')),
    decreases s.len(),
{
    if s.len() > 0 {
        let kept = until(s, '\0');
        if s[0] == '\0' {
        } else if s.len() >= 2 && s[0] == '\r' && s[1] == '\n' {
            lemma_until_lf(s.skip(2));
            assert(!seq!['\n'].contains('\0'));
            lemma_until_append(seq!['\n'], to_lf(s.skip(2)), '\0');
            assert(s =~= seq!['\r', '\n'] + s.skip(2));
            assert(!seq!['\r', '\n'].contains('\0'));
            lemma_until_append(seq!['\r', '\n'], s.skip(2), '\0');
            assert(kept.skip(2) =~= until(s.skip(2), '\0'));
        } else {
            lemma_until_lf(s.skip(1));
            assert(!seq![s[0]].contains('\0'));
            lemma_until_append(seq![s[0]], to_lf(s.skip(1)), '\0');
            assert(kept.skip(1) =~= until(s.skip(1), '\0'));
            if kept.len() >= 2 {
                assert(kept[1] == until(s.skip(1), '\0')[0]);
                assert(kept[1] == s[1]);
            }
        }
    }
}

/// Undoing the CRLF line endings gives back the string, whatever it holds.
pub proof fn lemma_lf_of_crlf(s: Seq<char>)
    ensures
        to_lf(to_crlf(s)) == s,
    decreases s.len(),
{
    if s.len() > 0 {
        let rest = s.skip(1);
        let t = to_crlf(s);
        lemma_lf_of_crlf(rest);
        assert(seq![s[0]] + rest =~= s);
        if s[0] == '\n' {
            assert(t.skip(2) =~= to_crlf(rest));
        } else {
            assert(t.skip(1) =~= to_crlf(rest));
            if t.len() >= 2 {
                assert(t[1] == to_crlf(rest)[0]);
                assert(t[1] != '\n');
            }
        }
    }
}

/// In a text with CRLF line endings no line feed stands alone.
pub proof fn lemma_crlf_pairs(s: Seq<char>, i: int)
    requires
        0 <= i < to_crlf(s).len(),
        to_crlf(s)[i] == '\n',
    ensures
        i > 0,
        to_crlf(s)[i - 1] == '\r',
    decreases s.len(),
{
    if s.len() > 0 {
        let rest = s.skip(1);
        let width: int = if s[0] == '\n' { 2 } else { 1 };
        if i >= width {
            assert(to_crlf(s)[i] == to_crlf(rest)[i - width]);
            lemma_crlf_pairs(rest, i - width);
        }
    }
}

/// A string without CRLF line endings stays as it is.
pub proof fn lemma_lf_unchanged(s: Seq<char>)
    requires
        forall|i: int| 0 < i < s.len() && #[trigger] s[i] == '\n' ==> s[i - 1] != '\r',
    ensures
        to_lf(s) == s,
    decreases s.len(),
{
    if s.len() > 0 {
        let rest = s.skip(1);
        assert forall|i: int| 0 < i < rest.len() && #[trigger] rest[i] == '\n' implies rest[i - 1]
            != '\r' by {
            assert(s[i + 1] == '\n');
        }
        lemma_lf_unchanged(rest);
        assert(seq![s[0]] + rest =~= s);
    }
}

/// A string without `stop` stays as it is.
pub proof fn lemma_until_unchanged<T>(s: Seq<T>, stop: T)
    requires
        !s.contains(stop),
    ensures
        until(s, stop) == s,
{
    lemma_until_append(s, Seq::empty(), stop);
    assert(s + Seq::empty() =~= s);
    assert(s + until(Seq::empty(), stop) =~= s);
}

/// Law: each code unit is its low byte and 256 times its high byte, the low byte first, and
/// nothing else is written.
pub proof fn law_bytes_are_little_endian(units: Seq<u16>, k: int)
    requires
        0 <= k < units.len(),
    ensures
        le_bytes(units).len() == 2 * units.len(),
        le_bytes(units)[2 * k] + 256 * le_bytes(units)[2 * k + 1] == units[k],
{
    assert((2 * k) / 2 == k && (2 * k + 1) / 2 == k);
    assert((2 * k) % 2 == 0 && (2 * k + 1) % 2 == 1);
}

/// Law: each two bytes are read as one code unit, the low byte first, and a last odd byte as
/// none.
pub proof fn law_units_are_little_endian(bytes: Seq<u8>, k: int)
    requires
        0 <= k,
        2 * k + 1 < bytes.len(),
    ensures
        2 * le_units(bytes).len() <= bytes.len() <= 2 * le_units(bytes).len() + 1,
        le_units(bytes)[k] == bytes[2 * k] + 256 * bytes[2 * k + 1],
{
}

/// Law: the bytes of two runs of code units are the bytes of the one, then of the other, and
/// are read back in the same way.
pub proof fn law_little_endian_splits(a: Seq<u16>, b: Seq<u16>, bytes: Seq<u8>)
    ensures
        le_bytes(a + b) == le_bytes(a) + le_bytes(b),
        le_units(le_bytes(a) + bytes) == a + le_units(bytes),
{
    assert forall|i: int| 0 <= i < 2 * (a.len() + b.len()) implies #[trigger] le_bytes(a + b)[i]
        == (le_bytes(a) + le_bytes(b))[i] by {
        if i >= 2 * a.len() {
            assert((i - 2 * a.len()) / 2 == i / 2 - a.len());
            assert((i - 2 * a.len()) % 2 == i % 2);
        }
    }
    assert(le_bytes(a + b) =~= le_bytes(a) + le_bytes(b));
    let joined = le_bytes(a) + bytes;
    assert forall|i: int| 0 <= i < le_units(joined).len() implies #[trigger] le_units(joined)[i]
        == (a + le_units(bytes))[i] by {
        if i < a.len() {
            law_bytes_are_little_endian(a, i);
        } else {
            assert(joined[2 * i] == bytes[2 * (i - a.len())]);
            assert(joined[2 * i + 1] == bytes[2 * (i - a.len()) + 1]);
        }
    }
    assert(le_units(joined) =~= a + le_units(bytes));
}

/// Law: a character of the basic plane is one code unit, its code. Any other is a high surrogate
/// and a low one, whose ten bits each are the code less 0x10000.
pub proof fn law_utf16_of_a_character(c: char)
    ensures
        (c as int) < 0x10000 ==> utf16_units(seq![c]).len() == 1 && utf16_units(seq![c])[0] as int
            == c as int,
        (c as int) >= 0x10000 ==> ({
            let units = utf16_units(seq![c]);
            &&& units.len() == 2
            &&& 0xD800 <= units[0] < 0xDC00
            &&& 0xDC00 <= units[1] < 0xE000
            &&& 0x10000 + 0x400 * (units[0] - 0xD800) + (units[1] - 0xDC00) == c as int
        }),
{
    lemma_char_range(c);
    reveal_with_fuel(utf16_units, 2);
    assert(seq![c].skip(1) =~= Seq::empty());
    assert(utf16_units(seq![c]) =~= char_units(c));
    let offset = c as int - 0x10000;
    assert(offset == (offset / 0x400) * 0x400 + offset % 0x400);
}

/// Law: the code units of two texts in a row are those of the one, then of the other.
pub proof fn law_utf16_splits(a: Seq<char>, b: Seq<char>)
    ensures
        utf16_units(a + b) == utf16_units(a) + utf16_units(b),
    decreases a.len(),
{
    if a.len() == 0 {
        assert(a + b =~= b);
        assert(utf16_units(a) + utf16_units(b) =~= utf16_units(b));
    } else {
        assert((a + b).skip(1) =~= a.skip(1) + b);
        law_utf16_splits(a.skip(1), b);
        assert(utf16_units(a + b) =~= utf16_units(a) + utf16_units(b));
    }
}

/// Law: code units that begin with a text are read as that text and what the rest is read as.
pub proof fn law_utf16_is_read_from_the_left(s: Seq<char>, rest: Seq<u16>)
    ensures
        utf16_chars(utf16_units(s) + rest) == s + utf16_chars(rest),
    decreases s.len(),
{
    if s.len() == 0 {
        assert(utf16_units(s) + rest =~= rest);
        assert(s + utf16_chars(rest) =~= utf16_chars(rest));
    } else {
        let c = s[0];
        let units = utf16_units(s) + rest;
        let tail = utf16_units(s.skip(1)) + rest;
        lemma_char_range(c);
        law_utf16_is_read_from_the_left(s.skip(1), rest);
        if (c as int) < 0x10000 {
            assert(units.skip(1) =~= tail);
            assert(units[0] as char == c);
        } else {
            assert(units.skip(2) =~= tail);
            let offset = c as int - 0x10000;
            assert(offset == (offset / 0x400) * 0x400 + offset % 0x400);
            assert(pair_char(units[0], units[1]) == c);
        }
        assert(seq![c] + (s.skip(1) + utf16_chars(rest)) =~= s + utf16_chars(rest));
    }
}

/// Law: a low surrogate that no high one precedes, and a high one that no low one follows, is
/// read as U+FFFD, and the rest as if it stood alone.
pub proof fn law_lone_surrogate_is_replaced(unit: u16, rest: Seq<u16>)
    requires
        0xD800 <= unit < 0xE000,
        unit < 0xDC00 && rest.len() > 0 ==> rest[0] < 0xDC00 || rest[0] >= 0xE000,
    ensures
        utf16_chars(seq![unit] + rest) == seq!['\u{FFFD}'] + utf16_chars(rest),
{
    assert((seq![unit] + rest).skip(1) =~= rest);
}

/// Law: a CRLF becomes a LF wherever it stands, and what is before and after it is treated as if
/// it stood alone.
pub proof fn law_each_crlf_becomes_lf(a: Seq<char>, b: Seq<char>)
    ensures
        to_lf(a + seq!['\r', '\n'] + b) == to_lf(a) + seq!['\n'] + to_lf(b),
    decreases a.len(),
{
    let whole = a + seq!['\r', '\n'] + b;
    if a.len() == 0 {
        assert(whole.skip(2) =~= b);
        assert(to_lf(a) + seq!['\n'] + to_lf(b) =~= seq!['\n'] + to_lf(b));
    } else if a.len() >= 2 && a[0] == '\r' && a[1] == '\n' {
        law_each_crlf_becomes_lf(a.skip(2), b);
        assert(whole.skip(2) =~= a.skip(2) + seq!['\r', '\n'] + b);
        assert(to_lf(whole) =~= to_lf(a) + seq!['\n'] + to_lf(b));
    } else {
        law_each_crlf_becomes_lf(a.skip(1), b);
        assert(whole.skip(1) =~= a.skip(1) + seq!['\r', '\n'] + b);
        if a.len() >= 2 {
            assert(whole[1] == a[1]);
        } else {
            assert(whole[1] == '\r');
        }
        assert(to_lf(whole) =~= to_lf(a) + seq!['\n'] + to_lf(b));
    }
}

/// Law: two texts in a row get LF line endings each for itself, unless the break between them is
/// inside a CRLF.
pub proof fn law_lf_splits(a: Seq<char>, b: Seq<char>)
    requires
        a.len() > 0 && b.len() > 0 && a.last() == '\r' ==> b[0] != '\n',
    ensures
        to_lf(a + b) == to_lf(a) + to_lf(b),
    decreases a.len(),
{
    let whole = a + b;
    if a.len() == 0 {
        assert(whole =~= b);
        assert(to_lf(a) + to_lf(b) =~= to_lf(b));
    } else if a.len() >= 2 && a[0] == '\r' && a[1] == '\n' {
        if a.len() > 2 {
            assert(a.skip(2).last() == a.last());
        }
        law_lf_splits(a.skip(2), b);
        assert(whole.skip(2) =~= a.skip(2) + b);
        assert(to_lf(whole) =~= to_lf(a) + to_lf(b));
    } else {
        if a.len() > 1 {
            assert(a.skip(1).last() == a.last());
        }
        law_lf_splits(a.skip(1), b);
        assert(whole.skip(1) =~= a.skip(1) + b);
        if whole.len() >= 2 {
            assert(whole[1] == if a.len() >= 2 { a[1] } else { b[0] });
        }
        assert(to_lf(whole) =~= to_lf(a) + to_lf(b));
    }
}

/// Law: each LF becomes a CRLF, every other character stays, and each is treated for itself.
pub proof fn law_each_lf_becomes_crlf(a: Seq<char>, c: char, b: Seq<char>)
    ensures
        to_crlf(a + b) == to_crlf(a) + to_crlf(b),
        to_crlf(seq!['\n']) == seq!['\r', '\n'],
        c != '\n' ==> to_crlf(seq![c]) == seq![c],
    decreases a.len(),
{
    reveal_with_fuel(to_crlf, 2);
    assert(seq!['\n'].skip(1) =~= Seq::empty());
    assert(seq![c].skip(1) =~= Seq::empty());
    assert(seq!['\r', '\n'] + Seq::<char>::empty() =~= seq!['\r', '\n']);
    assert(seq![c] + Seq::<char>::empty() =~= seq![c]);
    if a.len() == 0 {
        assert(a + b =~= b);
        assert(to_crlf(a) + to_crlf(b) =~= to_crlf(b));
    } else {
        law_each_lf_becomes_crlf(a.skip(1), c, b);
        assert((a + b).skip(1) =~= a.skip(1) + b);
        assert(to_crlf(a + b) =~= to_crlf(a) + to_crlf(b));
    }
}

/// Law: what is kept is what stands before the first `stop`, whatever follows, or everything
/// where there is none.
pub proof fn law_nothing_is_kept_from_the_stop_on<T>(a: Seq<T>, stop: T, b: Seq<T>)
    requires
        !a.contains(stop),
    ensures
        until(a + seq![stop] + b, stop) == a,
        until(a, stop) == a,
{
    assert(a + seq![stop] + b =~= a + (seq![stop] + b));
    lemma_until_append(a, seq![stop] + b, stop);
    assert(a + Seq::empty() =~= a);
    lemma_until_unchanged(a, stop);
}

} // verus!
