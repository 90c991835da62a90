//! Bidirectional text clipboard (Unicode text only).
//!
//! The clipboard channel runs beside the session and must not wait for the user interface. So
//! the frontend writes what the local clipboard holds to a [`ClipboardBridge`] whenever it
//! changes, and the channel's callbacks only read that cache and answer with a
//! [`ClipboardBackendMsg`] for the session to act on.
use crate::text::{
    chars_of, decode_le, decode_utf16_lossy, encode_le, encode_utf16, replace_crlf, replace_lf,
    string_of, units_before_nul,
};
use ironrdp_cliprdr::pdu::ClipboardFormatId;
use vstd::prelude::*;

verus! {

use crate::text::{
    le_bytes,
    le_units,
    lemma_crlf_pairs,
    lemma_le_round_trip,
    lemma_lf_of_crlf,
    lemma_lf_unchanged,
    lemma_until_crlf,
    lemma_until_lf,
    lemma_until_unchanged,
    lemma_until_utf16,
    lemma_utf16_push,
    lemma_utf16_round_trip,
    law_bytes_are_little_endian,
    law_each_crlf_becomes_lf,
    law_each_lf_becomes_crlf,
    law_lf_splits,
    law_little_endian_splits,
    law_lone_surrogate_is_replaced,
    law_nothing_is_kept_from_the_stop_on,
    law_units_are_little_endian,
    law_utf16_is_read_from_the_left,
    law_utf16_of_a_character,
    law_utf16_splits,
    to_crlf,
    to_lf,
    until,
    utf16_chars,
    utf16_units,
};

/// What is on the local clipboard, as the frontend last reported it.
pub struct ClipboardBridge {
    local_text: Option<String>,
}

impl View for ClipboardBridge {
    type V = Option<Seq<char>>;

    closed spec fn view(&self) -> Option<Seq<char>> {
        match self.local_text {
            Some(text) => Some(text@),
            None => None,
        }
    }
}

impl Default for ClipboardBridge {
    /// A bridge to which nothing has been written.
    fn default() -> (r: ClipboardBridge)
        ensures
            r@ is None,
    {
        ClipboardBridge { local_text: None }
    }
}

impl ClipboardBridge {
    /// Replaces the cached text.
    pub fn set_local_text(&mut self, text: String)
        ensures
            final(self)@ == Some(text@),
    {
        self.local_text = Some(text);
    }

    /// The cached text, if the local clipboard holds any.
    pub fn get_local_text(&self) -> (r: Option<String>)
        ensures
            r is Some <==> self@ is Some,
            r matches Some(text) ==> self@ == Some(text@),
    {
        match &self.local_text {
            Some(text) => Some(text.clone()),
            None => None,
        }
    }
}

/// What the clipboard channel asks of the session.
pub enum ClipboardBackendMsg {
    /// The local clipboard has text ready; advertise it to the remote.
    InitiateCopy,
    /// The remote clipboard changed and offers text; go fetch it.
    InitiatePaste,
    /// The remote asked for the local clipboard; here it is, ready to submit.
    SendFormatData(Vec<u8>),
    /// Text arrived from the remote clipboard; forward it to the frontend.
    TextReceived(String),
}

/// The contents of a [`ClipboardBackendMsg`].
pub enum ClipboardBackendMsgView {
    InitiateCopy,
    InitiatePaste,
    SendFormatData(Seq<u8>),
    TextReceived(Seq<char>),
}

impl View for ClipboardBackendMsg {
    type V = ClipboardBackendMsgView;

    open spec fn view(&self) -> ClipboardBackendMsgView {
        match self {
            ClipboardBackendMsg::InitiateCopy => ClipboardBackendMsgView::InitiateCopy,
            ClipboardBackendMsg::InitiatePaste => ClipboardBackendMsgView::InitiatePaste,
            ClipboardBackendMsg::SendFormatData(bytes) => ClipboardBackendMsgView::SendFormatData(
                bytes@,
            ),
            ClipboardBackendMsg::TextReceived(text) => ClipboardBackendMsgView::TextReceived(text@),
        }
    }
}

/// The bytes of a text as Unicode clipboard text: UTF-16LE with CRLF line endings, ended by
/// a NUL.
pub open spec fn cf_unicodetext(text: Seq<char>) -> Seq<u8> {
    le_bytes(utf16_units(to_crlf(to_lf(text))).push(0u16))
}

/// The text that Unicode clipboard text holds: what stands before the first NUL, with LF line
/// endings.
pub open spec fn text_of_cf_unicodetext(data: Seq<u8>) -> Seq<char> {
    to_lf(utf16_chars(until(le_units(data), 0u16)))
}

/// Encodes a text as Unicode clipboard text.
pub fn text_to_cf_unicodetext(text: &str) -> (r: Vec<u8>)
    ensures
        r@ == cf_unicodetext(text@),
{
    let normalized = replace_lf(&replace_crlf(&chars_of(text)));
    let mut units = encode_utf16(&normalized);
    units.push(0);
    encode_le(&units)
}

/// Decodes Unicode clipboard text. A last odd byte is dropped, and an unpaired surrogate
/// becomes U+FFFD.
pub fn cf_unicodetext_to_text(data: &[u8]) -> (r: String)
    ensures
        r@ == text_of_cf_unicodetext(data@),
{
    let units = units_before_nul(&decode_le(data));
    string_of(&replace_crlf(&decode_utf16_lossy(&units)))
}

/// The number of the Unicode text format on the clipboard channel.
pub open spec fn unicode_text_format() -> u32 {
    13
}

/// The number of the ANSI text format on the clipboard channel.
pub open spec fn ansi_text_format() -> u32 {
    1
}

/// Wraps the constant `ClipboardFormatId::CF_UNICODETEXT` and claims that its value is that of
/// [`unicode_text_format`].
#[verifier::external_body]
pub(crate) fn unicode_text_format_id() -> (r: u32)
    ensures
        r == unicode_text_format(),
{
    ClipboardFormatId::CF_UNICODETEXT.value()
}

/// Wraps the constant `ClipboardFormatId::CF_TEXT` and claims that its value is that of
/// [`ansi_text_format`].
#[verifier::external_body]
fn ansi_text_format_id() -> (r: u32)
    ensures
        r == ansi_text_format(),
{
    ClipboardFormatId::CF_TEXT.value()
}

/// Whether some of the offered formats is text.
pub open spec fn offers_text(formats: Seq<u32>) -> bool {
    formats.contains(unicode_text_format()) || formats.contains(ansi_text_format())
}

/// The channel asks for the initial format list: text that is already on the local clipboard
/// is advertised.
pub fn on_request_format_list(bridge: &ClipboardBridge) -> (r: Option<ClipboardBackendMsg>)
    ensures
        bridge@ is Some ==> r == Some(ClipboardBackendMsg::InitiateCopy),
        bridge@ is None ==> r is None,
{
    if bridge.get_local_text().is_some() {
        Some(ClipboardBackendMsg::InitiateCopy)
    } else {
        None
    }
}

/// The remote clipboard changed and offers these formats: text is fetched, anything else is
/// left alone.
pub fn on_remote_copy(available_formats: &[u32]) -> (r: Option<ClipboardBackendMsg>)
    ensures
        offers_text(available_formats@) ==> r == Some(ClipboardBackendMsg::InitiatePaste),
        !offers_text(available_formats@) ==> r is None,
{
    let unicode: u32 = unicode_text_format_id();
    let ansi: u32 = ansi_text_format_id();
    for i in 0..available_formats.len()
        invariant
            unicode == unicode_text_format(),
            ansi == ansi_text_format(),
            forall|j: int|
                0 <= j < i ==> available_formats@[j] != unicode && available_formats@[j] != ansi,
    {
        if available_formats[i] == unicode || available_formats[i] == ansi {
            assert(available_formats@.contains(available_formats@[i as int]));
            return Some(ClipboardBackendMsg::InitiatePaste);
        }
    }
    None
}

/// The remote asks for the local clipboard: it gets the cached text, or an empty text where
/// there is none.
pub fn on_format_data_request(bridge: &ClipboardBridge) -> (r: ClipboardBackendMsg)
    ensures
        r@ == ClipboardBackendMsgView::SendFormatData(
            cf_unicodetext(
                match bridge@ {
                    Some(text) => text,
                    None => Seq::empty(),
                },
            ),
        ),
{
    let text = match bridge.get_local_text() {
        Some(text) => text,
        None => String::new(),
    };
    ClipboardBackendMsg::SendFormatData(text_to_cf_unicodetext(text.as_str()))
}

/// The remote answered a request for its clipboard: a refusal is dropped, data is decoded.
pub fn on_format_data_response(is_error: bool, data: &[u8]) -> (r: Option<ClipboardBackendMsg>)
    ensures
        r is None <==> is_error,
        r matches Some(msg) ==> msg@ == ClipboardBackendMsgView::TextReceived(
            text_of_cf_unicodetext(data@),
        ),
{
    if is_error {
        None
    } else {
        Some(ClipboardBackendMsg::TextReceived(cf_unicodetext_to_text(data)))
    }
}

/// Law: a text that crosses the clipboard comes back as it was, up to its first NUL and with
/// CRLF line endings turned into LF.
pub proof fn law_clipboard_round_trip(text: Seq<char>)
    ensures
        text_of_cf_unicodetext(cf_unicodetext(text)) == to_lf(until(text, '\0')),
{
    let plain = to_lf(text);
    let normalized = to_crlf(plain);
    lemma_le_round_trip(utf16_units(normalized).push(0u16));
    lemma_until_utf16(normalized);
    lemma_utf16_round_trip(until(normalized, '\0'));
    lemma_until_crlf(plain);
    lemma_lf_of_crlf(until(plain, '\0'));
    lemma_until_lf(text);
}

/// Law: a text with LF line endings and without NUL crosses the clipboard unchanged.
pub proof fn law_plain_text_is_unchanged(text: Seq<char>)
    requires
        !text.contains('\0'),
        forall|i: int| 0 < i < text.len() && #[trigger] text[i] == '\n' ==> text[i - 1] != '\r',
    ensures
        text_of_cf_unicodetext(cf_unicodetext(text)) == text,
{
    law_clipboard_round_trip(text);
    lemma_until_unchanged(text, '\0');
    lemma_lf_unchanged(text);
}

/// Law: the encoded text is whole UTF-16 code units, and the last of them is the NUL.
pub proof fn law_encoded_text_is_terminated(text: Seq<char>)
    ensures
        cf_unicodetext(text).len() >= 2,
        cf_unicodetext(text).len() % 2 == 0,
        cf_unicodetext(text)[cf_unicodetext(text).len() - 2] == 0,
        cf_unicodetext(text)[cf_unicodetext(text).len() - 1] == 0,
{
    let units = utf16_units(to_crlf(to_lf(text))).push(0u16);
    let n = units.len();
    assert((2 * n - 2) % 2 == 0 && (2 * n - 1) % 2 == 1);
    assert((2 * n - 2) / 2 == n - 1 && (2 * n - 1) / 2 == n - 1);
}

/// Law: whatever line endings a text has, each line feed that goes out follows a carriage
/// return.
pub proof fn law_encoded_text_has_crlf(text: Seq<char>, i: int)
    requires
        0 <= i < utf16_chars(le_units(cf_unicodetext(text))).len(),
        utf16_chars(le_units(cf_unicodetext(text)))[i] == '\n',
    ensures
        i > 0,
        utf16_chars(le_units(cf_unicodetext(text)))[i - 1] == '\r',
{
    let normalized = to_crlf(to_lf(text));
    lemma_le_round_trip(utf16_units(normalized).push(0u16));
    lemma_utf16_push(normalized, '\0');
    assert(utf16_units(normalized).push(0u16) =~= utf16_units(normalized.push('\0')));
    lemma_utf16_round_trip(normalized.push('\0'));
    lemma_crlf_pairs(to_lf(text), i);
}

/// Law: two texts in a row are encoded one after the other, with one NUL at the end, unless the
/// break between them is inside a CRLF.
pub proof fn law_encoding_splits(a: Seq<char>, b: Seq<char>)
    requires
        a.len() > 0 && b.len() > 0 && a.last() == '\r' ==> b[0] != '\n',
    ensures
        cf_unicodetext(a + b) == cf_unicodetext(a).drop_last().drop_last() + cf_unicodetext(b),
{
    let (x, y) = (to_crlf(to_lf(a)), to_crlf(to_lf(b)));
    law_lf_splits(a, b);
    law_each_lf_becomes_crlf(to_lf(a), 'a', to_lf(b));
    law_utf16_splits(x, y);
    assert(utf16_units(x + y).push(0u16) =~= utf16_units(x) + utf16_units(y).push(0u16));
    law_little_endian_splits(utf16_units(x), utf16_units(y).push(0u16), Seq::empty());
    assert(utf16_units(x).push(0u16) =~= utf16_units(x) + seq![0u16]);
    law_little_endian_splits(utf16_units(x), seq![0u16], Seq::empty());
    assert(cf_unicodetext(a).drop_last().drop_last() =~= le_bytes(utf16_units(x)));
}

/// Law: a character of the basic plane that is no LF is encoded as the two bytes of its code, the
/// low one first, then the NUL. So a text of such characters has its codes in its bytes, two by
/// two; of ASCII each first byte is the code and each second byte is zero.
pub proof fn law_encoded_codes_are_in_the_bytes(text: Seq<char>, k: int)
    requires
        forall|i: int| 0 <= i < text.len() ==> (#[trigger] text[i] as int) < 0x10000,
        forall|i: int| 0 <= i < text.len() ==> #[trigger] text[i] != '\n',
        0 <= k < text.len(),
    ensures
        cf_unicodetext(text).len() == 2 * text.len() + 2,
        cf_unicodetext(text)[2 * k] + 256 * cf_unicodetext(text)[2 * k + 1] == text[k] as int,
        (text[k] as int) < 0x80 ==> cf_unicodetext(text)[2 * k] == text[k] as int && cf_unicodetext(
            text,
        )[2 * k + 1] == 0,
    decreases text.len(),
{
    let c = text.last();
    let before = text.drop_last();
    assert(text =~= before + seq![c]);
    assert(seq![c][0] == c);
    law_encoding_splits(before, seq![c]);
    law_encoded_character(c);
    if before.len() > 0 {
        law_encoded_codes_are_in_the_bytes(before, if k < before.len() { k } else { 0 });
    } else {
        assert(before =~= Seq::empty());
        law_encoded_breaks();
    }
}

/// Law: what one character is encoded as: a LF as CRLF, any other as its UTF-16 in little-endian
/// order, and then the NUL.
pub proof fn law_encoded_character(c: char)
    ensures
        c == '\n' ==> cf_unicodetext(seq![c]) == seq![13u8, 0, 10, 0, 0, 0],
        c != '\n' && (c as int) < 0x10000 ==> ({
            let bytes = cf_unicodetext(seq![c]);
            bytes.len() == 4 && bytes[0] + 256 * bytes[1] == c as int && bytes[2] == 0 && bytes[3]
                == 0
        }),
        (c as int) >= 0x10000 ==> ({
            let bytes = cf_unicodetext(seq![c]);
            let high = bytes[0] + 256 * bytes[1];
            let low = bytes[2] + 256 * bytes[3];
            &&& bytes.len() == 6
            &&& 0xD800 <= high < 0xDC00
            &&& 0xDC00 <= low < 0xE000
            &&& 0x10000 + 0x400 * (high - 0xD800) + (low - 0xDC00) == c as int
            &&& bytes[4] == 0
            &&& bytes[5] == 0
        }),
{
    lemma_lf_unchanged(seq![c]);
    law_each_lf_becomes_crlf(Seq::empty(), c, Seq::empty());
    law_utf16_of_a_character(c);
    law_utf16_of_a_character('\r');
    law_utf16_of_a_character('\n');
    law_utf16_splits(seq!['\r'], seq!['\n']);
    assert(seq!['\r'] + seq!['\n'] =~= seq!['\r', '\n']);
    let units = utf16_units(to_crlf(seq![c])).push(0u16);
    assert(units.len() == 2 || units.len() == 3);
    law_bytes_are_little_endian(units, 0);
    law_bytes_are_little_endian(units, 1);
    if units.len() == 3 {
        law_bytes_are_little_endian(units, 2);
    }
    if c == '\n' {
        assert(cf_unicodetext(seq![c]) =~= seq![13u8, 0, 10, 0, 0, 0]);
    }
}

/// Law: an empty text is encoded as the NUL alone, and a CRLF as one CRLF.
pub proof fn law_encoded_breaks()
    ensures
        cf_unicodetext(Seq::empty()) == seq![0u8, 0],
        cf_unicodetext(seq!['\r', '\n']) == seq![13u8, 0, 10, 0, 0, 0],
{
    law_bytes_are_little_endian(seq![0u16], 0);
    assert(utf16_units(to_crlf(to_lf(Seq::empty()))).push(0u16) =~= seq![0u16]);
    assert(cf_unicodetext(Seq::empty()) =~= seq![0u8, 0]);
    law_each_crlf_becomes_lf(Seq::empty(), Seq::empty());
    assert(Seq::<char>::empty() + seq!['\r', '\n'] + Seq::<char>::empty() =~= seq!['\r', '\n']);
    assert(to_lf(Seq::empty()) + seq!['\n'] + to_lf(Seq::empty()) =~= seq!['\n']);
    lemma_lf_unchanged(seq!['\n']);
    law_encoded_character('\n');
}

proof fn lemma_decoded_prefix(s: Seq<char>, data: Seq<u8>)
    requires
        !utf16_units(s).contains(0u16),
    ensures
        utf16_chars(until(le_units(le_bytes(utf16_units(s)) + data), 0u16)) == s + utf16_chars(
            until(le_units(data), 0u16),
        ),
{
    law_little_endian_splits(utf16_units(s), Seq::empty(), data);
    crate::text::lemma_until_append(utf16_units(s), le_units(data), 0u16);
    law_utf16_is_read_from_the_left(s, until(le_units(data), 0u16));
}

/// Law: data that begins with a character, in UTF-16 and little-endian order, is decoded as that
/// character and what the rest is decoded as. The NUL is no such character, nor is a CR before
/// a LF.
pub proof fn law_decoded_character(c: char, data: Seq<u8>)
    requires
        c != '\0',
        c == '\r' && data.len() >= 2 ==> !(data[0] == 10 && data[1] == 0),
    ensures
        text_of_cf_unicodetext(le_bytes(utf16_units(seq![c])) + data) == seq![c]
            + text_of_cf_unicodetext(data),
{
    let units = until(le_units(data), 0u16);
    let rest = utf16_chars(units);
    law_utf16_of_a_character(c);
    assert(!utf16_units(seq![c]).contains(0u16));
    lemma_decoded_prefix(seq![c], data);
    lemma_lf_unchanged(seq![c]);
    if c == '\r' && rest.len() > 0 {
        if data.len() >= 2 {
            law_units_are_little_endian(data, 0);
        }
        assert(units.len() > 0);
        assert(le_units(data).len() > 0 && units[0] == le_units(data)[0]);
        assert(rest[0] != '\n');
    }
    law_lf_splits(seq![c], rest);
}

/// Law: data that begins with a CRLF is decoded as a LF and what the rest is decoded as.
pub proof fn law_decoded_crlf(data: Seq<u8>)
    ensures
        text_of_cf_unicodetext(seq![13u8, 0, 10, 0] + data) == seq!['\n'] + text_of_cf_unicodetext(
            data,
        ),
{
    let s = seq!['\r', '\n'];
    law_utf16_of_a_character('\r');
    law_utf16_of_a_character('\n');
    law_utf16_splits(seq!['\r'], seq!['\n']);
    assert(seq!['\r'] + seq!['\n'] =~= s);
    assert(utf16_units(s) =~= seq![13u16, 10u16]);
    law_bytes_are_little_endian(utf16_units(s), 0);
    law_bytes_are_little_endian(utf16_units(s), 1);
    assert(le_bytes(utf16_units(s)) =~= seq![13u8, 0, 10, 0]);
    assert(!utf16_units(s).contains(0u16));
    lemma_decoded_prefix(s, data);
    let rest = utf16_chars(until(le_units(data), 0u16));
    law_each_crlf_becomes_lf(Seq::empty(), rest);
    assert(Seq::<char>::empty() + s + rest =~= s + rest);
    assert(to_lf(Seq::empty()) + seq!['\n'] + to_lf(rest) =~= seq!['\n'] + to_lf(rest));
}

/// Law: data that begins with a low surrogate, or with a high one that no low one follows, is
/// decoded as U+FFFD and what the rest is decoded as.
pub proof fn law_decoded_lone_surrogate(unit: u16, data: Seq<u8>)
    requires
        0xD800 <= unit < 0xE000,
        unit < 0xDC00 && data.len() >= 2 ==> !(0xDC00 <= data[0] + 256 * data[1] < 0xE000),
    ensures
        text_of_cf_unicodetext(le_bytes(seq![unit]) + data) == seq!['\u{FFFD}']
            + text_of_cf_unicodetext(data),
{
    let rest = until(le_units(data), 0u16);
    assert(!seq![unit].contains(0u16));
    law_little_endian_splits(seq![unit], Seq::empty(), data);
    crate::text::lemma_until_append(seq![unit], le_units(data), 0u16);
    if rest.len() > 0 {
        law_units_are_little_endian(data, 0);
        assert(rest[0] == le_units(data)[0]);
    }
    law_lone_surrogate_is_replaced(unit, rest);
    lemma_lf_unchanged(seq!['\u{FFFD}']);
    law_lf_splits(seq!['\u{FFFD}'], utf16_chars(rest));
}

/// Law: decoding ends at the first NUL, whatever follows it, and at a last odd byte. Of no data
/// the text is empty.
pub proof fn law_decoding_ends(before: Seq<u8>, odd: u8, after: Seq<u8>)
    requires
        before.len() % 2 == 0,
    ensures
        text_of_cf_unicodetext(before + seq![0u8, 0u8] + after) == text_of_cf_unicodetext(before),
        text_of_cf_unicodetext(before.push(odd)) == text_of_cf_unicodetext(before),
        text_of_cf_unicodetext(Seq::empty()).len() == 0,
{
    let units = le_units(before);
    assert(le_units(before.push(odd)) =~= units);
    assert(le_units(Seq::empty()) =~= Seq::empty());
    assert(le_bytes(units) =~= before) by {
        assert forall|i: int| 0 <= i < before.len() implies #[trigger] le_bytes(units)[i]
            == before[i] by {
            law_units_are_little_endian(before, i / 2);
            law_bytes_are_little_endian(units, i / 2);
        }
    }
    law_bytes_are_little_endian(seq![0u16], 0);
    assert(le_bytes(seq![0u16]) =~= seq![0u8, 0u8]);
    law_little_endian_splits(units, seq![0u16], Seq::empty());
    law_little_endian_splits(units + seq![0u16], Seq::empty(), after);
    lemma_until_ends(units, le_units(after));
}

proof fn lemma_until_ends(a: Seq<u16>, b: Seq<u16>)
    ensures
        until(a + seq![0u16] + b, 0u16) == until(a, 0u16),
    decreases a.len(),
{
    if a.len() > 0 && a[0] != 0 {
        lemma_until_ends(a.skip(1), b);
        assert((a + seq![0u16] + b).skip(1) =~= a.skip(1) + seq![0u16] + b);
    }
}

/// Law: data that holds the codes of a text's characters, two bytes each and the low one first, is
/// decoded as that text, where it holds neither NUL nor LF. Of ASCII each first byte is the code
/// and each second byte is zero.
pub proof fn law_decoded_codes_are_those_of_the_bytes(data: Seq<u8>, text: Seq<char>)
    requires
        data.len() == 2 * text.len(),
        forall|i: int|
            0 <= i < text.len() ==> data[2 * i] + 256 * data[2 * i + 1] == #[trigger] text[i] as int,
        forall|i: int| 0 <= i < text.len() ==> #[trigger] text[i] != '\0' && text[i] != '\n',
    ensures
        text_of_cf_unicodetext(data) == text,
    decreases text.len(),
{
    if text.len() == 0 {
        assert(data =~= Seq::empty());
        law_decoding_ends(Seq::empty(), 0, Seq::empty());
        assert(text_of_cf_unicodetext(data) =~= text);
    } else {
        let c = text[0];
        let rest = data.skip(2);
        law_utf16_of_a_character(c);
        law_bytes_are_little_endian(utf16_units(seq![c]), 0);
        assert(le_bytes(utf16_units(seq![c])) =~= data.take(2));
        assert(data =~= data.take(2) + rest);
        assert forall|i: int| 0 <= i < text.skip(1).len() implies rest[2 * i] + 256 * rest[2 * i
            + 1] == #[trigger] text.skip(1)[i] as int by {
            assert(text.skip(1)[i] == text[i + 1]);
            assert(rest[2 * i] == data[2 * (i + 1)] && rest[2 * i + 1] == data[2 * (i + 1) + 1]);
        }
        if rest.len() > 0 {
            assert(text[1] != '\n');
        }
        law_decoded_character(c, rest);
        law_decoded_codes_are_those_of_the_bytes(rest, text.skip(1));
        assert(seq![c] + text.skip(1) =~= text);
    }
}

/// Law: the channel is asked for the remote text just where a format with the number 13, Unicode
/// text, or 1, ANSI text, is on offer.
pub proof fn law_text_has_two_numbers(formats: Seq<u32>)
    ensures
        offers_text(formats) <==> exists|i: int|
            0 <= i < formats.len() && (#[trigger] formats[i] == 13 || formats[i] == 1),
        unicode_text_format() == 13,
{
    if formats.contains(unicode_text_format()) {
        let i = choose|i: int| 0 <= i < formats.len() && formats[i] == unicode_text_format();
        assert(formats[i] == 13);
    }
    if formats.contains(ansi_text_format()) {
        let i = choose|i: int| 0 <= i < formats.len() && formats[i] == ansi_text_format();
        assert(formats[i] == 1);
    }
}

/// Law: the contents of a message are what it holds.
pub proof fn law_messages_hold_their_contents(bytes: Vec<u8>, text: String)
    ensures
        ClipboardBackendMsg::InitiateCopy@ == ClipboardBackendMsgView::InitiateCopy,
        ClipboardBackendMsg::InitiatePaste@ == ClipboardBackendMsgView::InitiatePaste,
        ClipboardBackendMsg::SendFormatData(bytes)@ == ClipboardBackendMsgView::SendFormatData(
            bytes@,
        ),
        ClipboardBackendMsg::TextReceived(text)@ == ClipboardBackendMsgView::TextReceived(text@),
{
}

} // verus!
