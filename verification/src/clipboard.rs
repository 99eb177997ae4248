//! Clipboard passthrough for RDP sessions. Only plain text (Unicode) is supported.
//!
//! The server and the local system each own a clipboard. [`AppClipboardBackend`] decides what to
//! tell the server, and what to put into the local clipboard, as the two change.
use ironrdp_cliprdr::pdu::{FormatDataResponse, OwnedFormatDataResponse};
use vstd::prelude::*;

verus! {

/// The identifier of a clipboard format.
#[derive(Debug, Clone, Copy, PartialEq, Eq, Structural)]
pub struct ClipboardFormatId(pub u32);

/// The format of Unicode text.
pub const CF_UNICODETEXT: u32 = 13;

/// The capability of sending format names of any length.
pub const USE_LONG_FORMAT_NAMES: u32 = 0x2;

/// The answer to a request for clipboard data.
#[derive(Debug)]
pub struct FormatData {
    /// There is no data to give.
    pub is_error: bool,
    pub data: Vec<u8>,
}

/// What the session does on the clipboard channel on behalf of the backend.
#[derive(Debug)]
pub enum ClipboardEvent {
    /// Announce the formats in which local data is available.
    InitiateCopy(Vec<ClipboardFormatId>),
    /// Send local clipboard data.
    SubmitFormatData(FormatData),
    /// Ask for remote clipboard data in the given format.
    RequestFormatData(ClipboardFormatId),
}

/// The UTF-16 code units of one character.
pub open spec fn char_units(c: char) -> Seq<u16> {
    let n = c as int;
    if n < 0x10000 {
        seq![n as u16]
    } else {
        seq![
            (0xD800 + (n - 0x10000) / 0x400) as u16,
            (0xDC00 + (n - 0x10000) % 0x400) as u16,
        ]
    }
}

/// The UTF-16 code units of a text.
pub open spec fn utf16_units(text: Seq<char>) -> Seq<u16>
    decreases text.len(),
{
    if text.len() == 0 {
        seq![]
    } else {
        utf16_units(text.drop_last()) + char_units(text.last())
    }
}

/// Code units as bytes, each with its low byte first.
pub open spec fn little_endian(units: Seq<u16>) -> Seq<u8>
    decreases units.len(),
{
    if units.len() == 0 {
        seq![]
    } else {
        little_endian(units.drop_last()) + seq![
            (units.last() % 256) as u8,
            (units.last() / 256) as u8,
        ]
    }
}

/// Bytes as code units, each with its low byte first. A last byte that stands alone is left out.
pub open spec fn units_of(data: Seq<u8>) -> Seq<u16> {
    Seq::new(data.len() / 2, |i: int| (data[2 * i] + 256 * data[2 * i + 1]) as u16)
}

/// The code units before the first zero.
pub open spec fn before_zero(units: Seq<u16>) -> Seq<u16>
    decreases units.len(),
{
    if units.len() == 0 || units[0] == 0 {
        seq![]
    } else {
        seq![units[0]] + before_zero(units.skip(1))
    }
}

/// The code units of the text that clipboard data holds.
pub open spec fn text_units(data: Seq<u8>) -> Seq<u16> {
    before_zero(units_of(data))
}

/// The clipboard data for a text: its code units and a zero.
pub open spec fn text_data(text: Seq<char>) -> Seq<u8> {
    little_endian(utf16_units(text)) + seq![0u8, 0u8]
}

/// The data of `OwnedFormatDataResponse::new_unicode_string`: the text in UTF-16, low byte
/// first, and a terminating zero unit.
#[verifier::external_body]
fn encode_text(text: &str) -> (data: Vec<u8>)
    ensures
        data@ == text_data(text@),
{
    OwnedFormatDataResponse::new_unicode_string(text).into_data().into_owned()
}

/// `FormatDataResponse::to_unicode_string`: the text whose UTF-16 form stands in the data before
/// the first zero unit, or before the end where there is none. `None` stands for its error, which
/// comes where no text has that form.
#[verifier::external_body]
fn decode_text(data: &Vec<u8>) -> (result: Option<String>)
    ensures
        result is Some ==> utf16_units(result->0@) == text_units(data@),
        result is None ==> forall|text: Seq<char>| #[trigger]
            utf16_units(text) != text_units(data@),
{
    FormatDataResponse::new_data(data.as_slice()).to_unicode_string().ok()
}

/// The clipboard side of a session.
#[derive(Debug)]
pub struct AppClipboardBackend {
    /// Temporary directory advertised to the server (not used for text).
    pub temp_dir: String,
    /// Negotiated capability flags.
    pub capabilities: u32,
}

impl AppClipboardBackend {
    /// A backend that has negotiated nothing yet.
    pub fn new(temp_dir: String) -> (backend: AppClipboardBackend)
        ensures
            backend.temp_dir == temp_dir,
            backend.capabilities == 0,
    {
        AppClipboardBackend { temp_dir, capabilities: 0 }
    }

    /// The temporary directory that the server is told of.
    pub fn temporary_directory(&self) -> (dir: &str)
        ensures
            dir@ == self.temp_dir@,
    {
        self.temp_dir.as_str()
    }

    /// The capabilities that are offered: long format names, and no file transfer.
    pub fn client_capabilities(&self) -> (flags: u32)
        ensures
            flags == USE_LONG_FORMAT_NAMES,
    {
        USE_LONG_FORMAT_NAMES
    }

    /// The clipboard channel is ready: announce Unicode text, so that the server can ask for it.
    pub fn on_ready(&self) -> (event: ClipboardEvent)
        ensures
            event is InitiateCopy,
            event->InitiateCopy_0@ == seq![ClipboardFormatId(CF_UNICODETEXT)],
    {
        let mut formats: Vec<ClipboardFormatId> = Vec::new();
        formats.push(ClipboardFormatId(CF_UNICODETEXT));
        ClipboardEvent::InitiateCopy(formats)
    }

    /// The server wants to know what is available: Unicode text.
    pub fn on_request_format_list(&self) -> (event: ClipboardEvent)
        ensures
            event is InitiateCopy,
            event->InitiateCopy_0@ == seq![ClipboardFormatId(CF_UNICODETEXT)],
    {
        self.on_ready()
    }

    /// Both sides have agreed on capabilities.
    pub fn on_process_negotiated_capabilities(&mut self, capabilities: u32)
        ensures
            final(self).capabilities == capabilities,
            final(self).temp_dir == old(self).temp_dir,
    {
        self.capabilities = capabilities;
    }

    /// The remote clipboard changed: ask for its content if that is Unicode text.
    pub fn on_remote_copy(&self, available_formats: &Vec<ClipboardFormatId>) -> (event: Option<
        ClipboardEvent,
    >)
        ensures
            match event {
                Some(event) => {
                    &&& event == ClipboardEvent::RequestFormatData(
                        ClipboardFormatId(CF_UNICODETEXT),
                    )
                    &&& available_formats@.contains(ClipboardFormatId(CF_UNICODETEXT))
                },
                None => !available_formats@.contains(ClipboardFormatId(CF_UNICODETEXT)),
            },
    {
        let mut i: usize = 0;
        while i < available_formats.len()
            invariant
                i <= available_formats.len(),
                forall|k: int|
                    0 <= k < i ==> available_formats@[k] != ClipboardFormatId(CF_UNICODETEXT),
            decreases available_formats.len() - i,
        {
            if available_formats[i].0 == CF_UNICODETEXT {
                assert(available_formats@[i as int] == ClipboardFormatId(CF_UNICODETEXT));
                return Some(ClipboardEvent::RequestFormatData(ClipboardFormatId(CF_UNICODETEXT)));
            }
            i = i + 1;
        }
        None
    }

    /// Whether the local clipboard has to be read to answer a request for the given format.
    pub fn needs_local_text(&self, format: ClipboardFormatId) -> (needed: bool)
        ensures
            needed == (format == ClipboardFormatId(CF_UNICODETEXT)),
    {
        format.0 == CF_UNICODETEXT
    }

    /// The server wants our clipboard content. `text` is the local clipboard's text, if it has
    /// one that could be read. Any format but Unicode text is refused.
    pub fn on_format_data_request(&self, format: ClipboardFormatId, text: Option<&str>) -> (event:
        ClipboardEvent)
        ensures
            event is SubmitFormatData,
            event->SubmitFormatData_0.is_error == (format != ClipboardFormatId(CF_UNICODETEXT)
                || text is None),
            event->SubmitFormatData_0.data@ == if format == ClipboardFormatId(CF_UNICODETEXT)
                && text is Some {
                text_data(text->0@)
            } else {
                seq![]
            },
    {
        let response = if format.0 == CF_UNICODETEXT {
            match text {
                Some(text) => FormatData { is_error: false, data: encode_text(text) },
                None => FormatData { is_error: true, data: Vec::new() },
            }
        } else {
            FormatData { is_error: true, data: Vec::new() }
        };
        ClipboardEvent::SubmitFormatData(response)
    }

    /// The server has sent clipboard data. Returns the text to put into the local clipboard:
    /// none where the answer is an error or does not hold text.
    pub fn on_format_data_response(&self, response: &FormatData) -> (text: Option<String>)
        ensures
            match text {
                Some(text) => {
                    &&& !response.is_error
                    &&& utf16_units(text@) == text_units(response.data@)
                },
                None => response.is_error || forall|text: Seq<char>| #[trigger]
                    utf16_units(text) != text_units(response.data@),
            },
    {
        if response.is_error {
            return None;
        }
        decode_text(&response.data)
    }
}

/// The characters of a text before the first NUL.
pub open spec fn before_nul(text: Seq<char>) -> Seq<char>
    decreases text.len(),
{
    if text.len() == 0 || text[0] == '\0' {
        seq![]
    } else {
        seq![text[0]] + before_nul(text.skip(1))
    }
}

/// One unit more appends its two bytes.
proof fn lemma_little_endian(units: Seq<u16>)
    ensures
        little_endian(units).len() == 2 * units.len(),
        forall|i: int|
            0 <= i < units.len() ==> little_endian(units)[2 * i] == #[trigger] units[i] % 256
                && little_endian(units)[2 * i + 1] == units[i] / 256,
    decreases units.len(),
{
    if units.len() > 0 {
        let front = units.drop_last();
        lemma_little_endian(front);
        assert forall|i: int| 0 <= i < units.len() implies little_endian(units)[2 * i]
            == #[trigger] units[i] % 256 && little_endian(units)[2 * i + 1] == units[i] / 256 by {
            if i < front.len() {
                assert(front[i] == units[i]);
            }
        }
    }
}

/// The units that clipboard data is read as are those it was written from, and the zero.
proof fn lemma_units_of_text_data(text: Seq<char>)
    ensures
        units_of(text_data(text)) == utf16_units(text).push(0u16),
{
    let units = utf16_units(text);
    let data = text_data(text);
    lemma_little_endian(units);
    assert forall|i: int| 0 <= i < units.len() + 1 implies #[trigger] units_of(data)[i]
        == units.push(0u16)[i] by {
        if i < units.len() {
            assert(data[2 * i] == units[i] % 256);
            assert(data[2 * i + 1] == units[i] / 256);
        } else {
            assert(data[2 * i] == 0 && data[2 * i + 1] == 0);
        }
    }
    assert(units_of(data) =~= units.push(0u16));
}

/// A character is one unit outside the surrogates, or a high surrogate and a low one. Only NUL
/// has a zero unit.
proof fn lemma_char_units(c: char)
    ensures
        char_units(c).len() == 1 || char_units(c).len() == 2,
        char_units(c).len() == 1 ==> char_units(c)[0] == c as int && !(0xD800 <= char_units(c)[0]
            <= 0xDFFF),
        char_units(c).len() == 2 ==> {
            &&& 0xD800 <= char_units(c)[0] < 0xDC00
            &&& 0xDC00 <= char_units(c)[1] < 0xE000
            &&& c as int == 0x10000 + 0x400 * (char_units(c)[0] - 0xD800) + (char_units(c)[1]
                - 0xDC00)
        },
        c != '\0' ==> !char_units(c).contains(0u16),
        c == '\0' ==> char_units(c) == seq![0u16],
{
}

/// The units of a text start with those of its first character.
proof fn lemma_utf16_cons(c: char, text: Seq<char>)
    ensures
        utf16_units(seq![c] + text) == char_units(c) + utf16_units(text),
    decreases text.len(),
{
    let whole = seq![c] + text;
    if text.len() == 0 {
        assert(whole.drop_last() == Seq::<char>::empty());
        assert(utf16_units(whole.drop_last()) == Seq::<u16>::empty());
        assert(utf16_units(text) == Seq::<u16>::empty());
        assert(utf16_units(whole) == Seq::<u16>::empty() + char_units(c));
        assert(Seq::<u16>::empty() + char_units(c) =~= char_units(c));
        assert(char_units(c) + Seq::<u16>::empty() =~= char_units(c));
    } else {
        assert(whole.drop_last() == seq![c] + text.drop_last());
        assert(whole.last() == text.last());
        lemma_utf16_cons(c, text.drop_last());
        let front = utf16_units(text.drop_last());
        let back = char_units(text.last());
        assert(utf16_units(text) == front + back);
        assert(utf16_units(whole) == utf16_units(whole.drop_last()) + back);
        assert((char_units(c) + front) + back =~= char_units(c) + (front + back));
    }
}

/// Units that are not zero stand before the first zero of whatever follows.
proof fn lemma_before_zero(front: Seq<u16>, back: Seq<u16>)
    requires
        !front.contains(0u16),
    ensures
        before_zero(front + back) == front + before_zero(back),
    decreases front.len(),
{
    if front.len() == 0 {
        assert(front + back == back);
        assert(front + before_zero(back) == before_zero(back));
    } else {
        assert(front[0] != 0);
        let rest = front.skip(1);
        assert forall|i: int| 0 <= i < rest.len() implies rest[i] != 0 by {
            assert(rest[i] == front[i + 1]);
        }
        lemma_before_zero(rest, back);
        assert((front + back).skip(1) == rest + back);
        assert(before_zero(front + back) =~= front + before_zero(back));
    }
}

/// The first zero unit of a text that was written is that of its first NUL, or the one behind it.
proof fn lemma_before_zero_of_text(text: Seq<char>)
    ensures
        before_zero(utf16_units(text).push(0u16)) == utf16_units(before_nul(text)),
    decreases text.len(),
{
    if text.len() == 0 {
        assert(utf16_units(text).push(0u16)[0] == 0);
    } else {
        let c = text[0];
        let rest = text.skip(1);
        assert(text == seq![c] + rest);
        lemma_utf16_cons(c, rest);
        lemma_char_units(c);
        let tail = utf16_units(rest).push(0u16);
        assert(utf16_units(text).push(0u16) =~= char_units(c) + tail);
        if c == '\0' {
            assert((char_units(c) + tail)[0] == 0);
        } else {
            lemma_before_zero(char_units(c), tail);
            lemma_before_zero_of_text(rest);
            lemma_utf16_cons(c, before_nul(rest));
        }
    }
}

/// Texts with the same code units are the same.
proof fn lemma_utf16_is_injective(first: Seq<char>, second: Seq<char>)
    requires
        utf16_units(first) == utf16_units(second),
    ensures
        first == second,
    decreases first.len(),
{
    let u = utf16_units(first);
    if first.len() == 0 {
        if second.len() > 0 {
            lemma_char_units(second.last());
        }
    } else if second.len() == 0 {
        lemma_char_units(first.last());
    } else {
        let c = first.last();
        let d = second.last();
        let p = utf16_units(first.drop_last());
        let q = utf16_units(second.drop_last());
        lemma_char_units(c);
        lemma_char_units(d);
        assert(u == p + char_units(c));
        assert(u == q + char_units(d));
        assert(u.last() == char_units(c).last());
        assert(u.last() == char_units(d).last());
        assert(char_units(c).len() == char_units(d).len());
        if char_units(c).len() == 2 {
            assert(u[u.len() - 2] == char_units(c)[0]);
            assert(u[u.len() - 2] == char_units(d)[0]);
        }
        assert(c as int == d as int);
        assert(p == u.take(p.len() as int));
        assert(q == u.take(p.len() as int));
        lemma_utf16_is_injective(first.drop_last(), second.drop_last());
        assert(first == first.drop_last().push(first.last()));
        assert(second == second.drop_last().push(second.last()));
    }
}

/// Text that goes through the clipboard channel arrives: the data for a text always reads as a
/// text, and the text that is read is the one that was written, up to its first NUL.
pub proof fn law_text_survives_the_clipboard(text: Seq<char>, received: Seq<char>)
    ensures
        utf16_units(before_nul(text)) == text_units(text_data(text)),
        utf16_units(received) == text_units(text_data(text)) ==> received == before_nul(text),
{
    lemma_units_of_text_data(text);
    lemma_before_zero_of_text(text);
    if utf16_units(received) == text_units(text_data(text)) {
        lemma_utf16_is_injective(received, before_nul(text));
    }
}

/// A text without NUL arrives whole.
pub proof fn law_text_without_nul_arrives_whole(text: Seq<char>)
    requires
        !text.contains('\0'),
    ensures
        before_nul(text) == text,
    decreases text.len(),
{
    if text.len() > 0 {
        assert(text[0] != '\0');
        let rest = text.skip(1);
        assert forall|i: int| 0 <= i < rest.len() implies rest[i] != '\0' by {
            assert(rest[i] == text[i + 1]);
        }
        law_text_without_nul_arrives_whole(rest);
        assert(text == seq![text[0]] + rest);
    }
}

} // verus!
