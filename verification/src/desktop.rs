//! Desktop sizes: what the user may choose and what the display protocol allows.
use vstd::prelude::*;

use crate::text::{
    decimal, decimal_string, is_digit, law_decimal_is_injective, law_decimal_reads_back,
    lemma_decimal_digits, parsed_u16,
};

verus! {

/// Desktop resolution selection for a connection.
#[derive(Debug, Clone, Copy, PartialEq, Eq, Structural)]
pub enum Resolution {
    /// Adapt the remote desktop to the size of the drawing area.
    FitToWindow,
    /// A fixed resolution.
    Fixed(u16, u16),
}

/// The smallest width and height that the display protocol allows.
pub const MIN_SIZE: u16 = 200;

/// The largest width and height that the display protocol allows.
pub const MAX_SIZE: u16 = 8192;

/// `value`, brought into the range that the display protocol allows.
pub open spec fn clamped(value: int) -> int {
    if value < MIN_SIZE {
        MIN_SIZE as int
    } else if value > MAX_SIZE {
        MAX_SIZE as int
    } else {
        value
    }
}

/// The largest even number that is at most `value`.
pub open spec fn even_part(value: int) -> int {
    value - value % 2
}

/// The size to ask for in place of `size`.
pub open spec fn clamped_desktop(size: (u16, u16)) -> (u16, u16) {
    (even_part(clamped(size.0 as int)) as u16, clamped(size.1 as int) as u16)
}

/// Whether the display protocol allows the size: both sides in range and the width even.
pub open spec fn is_valid_size(width: int, height: int) -> bool {
    &&& MIN_SIZE <= width <= MAX_SIZE
    &&& MIN_SIZE <= height <= MAX_SIZE
    &&& width % 2 == 0
}

/// What the display control channel makes of a size: the width is rounded down to an even
/// number and both sides are brought into range.
pub open spec fn adjusted_size(width: u32, height: u32) -> (u32, u32) {
    (clamped(even_part(width as int)) as u32, clamped(height as int) as u32)
}

impl Resolution {
    /// The text for the resolution in the list of choices.
    pub open spec fn text(self) -> Seq<char> {
        match self {
            Resolution::FitToWindow => "Fit to window"@,
            Resolution::Fixed(w, h) => decimal(w as nat) + " x "@ + decimal(h as nat),
        }
    }

    /// The choices that are offered, in order.
    pub open spec fn choices() -> Seq<Resolution> {
        seq![
            Resolution::FitToWindow,
            Resolution::Fixed(1920, 1080),
            Resolution::Fixed(1600, 900),
            Resolution::Fixed(1440, 900),
            Resolution::Fixed(1366, 768),
            Resolution::Fixed(1280, 800),
            Resolution::Fixed(1024, 768),
        ]
    }

    /// Preset options shown in the dropdown.
    pub fn presets() -> (presets: Vec<Resolution>)
        ensures
            presets@ == Resolution::choices(),
    {
        let mut presets: Vec<Resolution> = Vec::new();
        presets.push(Resolution::FitToWindow);
        presets.push(Resolution::Fixed(1920, 1080));
        presets.push(Resolution::Fixed(1600, 900));
        presets.push(Resolution::Fixed(1440, 900));
        presets.push(Resolution::Fixed(1366, 768));
        presets.push(Resolution::Fixed(1280, 800));
        presets.push(Resolution::Fixed(1024, 768));
        presets
    }

    /// The text for the resolution in the dropdown.
    pub fn label(self) -> (label: String)
        ensures
            label@ == self.text(),
    {
        match self {
            Resolution::FitToWindow => "Fit to window".to_owned(),
            Resolution::Fixed(w, h) => {
                let mut label = decimal_string(w);
                label.append(" x ");
                label.append(decimal_string(h).as_str());
                label
            },
        }
    }
}

/// Clamps a desired desktop size to the RDP-valid range (200..=8192) and makes
/// the width even, as required by the Display Control protocol.
pub fn clamp_desktop(size: (u16, u16)) -> (result: (u16, u16))
    ensures
        result == clamped_desktop(size),
        is_valid_size(result.0 as int, result.1 as int),
{
    let (width, height) = size;
    let w: u16 = if width < MIN_SIZE {
        MIN_SIZE
    } else if width > MAX_SIZE {
        MAX_SIZE
    } else {
        width
    };
    let h: u16 = if height < MIN_SIZE {
        MIN_SIZE
    } else if height > MAX_SIZE {
        MAX_SIZE
    } else {
        height
    };
    assert(w & !1u16 == w - w % 2) by (bit_vector);
    (w & !1, h)
}

/// Adjusts a size with `ironrdp_displaycontrol::pdu::MonitorLayoutEntry::adjust_display_size`,
/// which rounds the width down to an even number and then brings both sides into 200..=8192.
#[verifier::external_body]
fn adjust_display_size(width: u32, height: u32) -> (size: (u32, u32))
    ensures
        size == adjusted_size(width, height),
{
    ironrdp_displaycontrol::pdu::MonitorLayoutEntry::adjust_display_size(width, height)
}

/// The size to put into a resize request for a desktop of `width` by `height`.
pub fn resize_request(width: u16, height: u16) -> (size: (u32, u32))
    ensures
        size == adjusted_size(width as u32, height as u32),
        is_valid_size(size.0 as int, size.1 as int),
{
    adjust_display_size(width as u32, height as u32)
}

/// A size that was clamped is left alone by a second clamping and by the display control
/// channel: what the window asks for is what the server is asked for.
pub proof fn law_clamped_size_is_final(size: (u16, u16))
    ensures
        is_valid_size(clamped_desktop(size).0 as int, clamped_desktop(size).1 as int),
        clamped_desktop(clamped_desktop(size)) == clamped_desktop(size),
        adjusted_size(clamped_desktop(size).0 as u32, clamped_desktop(size).1 as u32) == (
            clamped_desktop(size).0 as u32,
            clamped_desktop(size).1 as u32,
        ),
{
}

/// A size that the display protocol allows is left as it is.
pub proof fn law_valid_size_is_kept(width: u16, height: u16)
    requires
        is_valid_size(width as int, height as int),
    ensures
        clamped_desktop((width, height)) == (width, height),
{
}

/// Different choices read differently in the dropdown.
pub proof fn law_labels_are_distinct(first: Resolution, second: Resolution)
    requires
        first.text() == second.text(),
    ensures
        first == second,
{
    reveal_strlit("Fit to window");
    reveal_strlit(" x ");
    let s = first.text();
    let t = second.text();
    match (first, second) {
        (Resolution::Fixed(w, h), Resolution::Fixed(v, g)) => {
            lemma_decimal_digits(w as nat);
            lemma_decimal_digits(v as nat);
            let m = decimal(w as nat).len() as int;
            let n = decimal(v as nat).len() as int;
            assert(s[m] == ' ' && t[n] == ' ');
            if m < n {
                assert(is_digit(decimal(v as nat)[m]));
                assert(t[m] == decimal(v as nat)[m]);
            } else if n < m {
                assert(is_digit(decimal(w as nat)[n]));
                assert(s[n] == decimal(w as nat)[n]);
            }
            assert(m == n);
            assert(decimal(w as nat) == s.take(m));
            assert(decimal(v as nat) == t.take(m));
            assert(decimal(h as nat) == s.skip(m + 3));
            assert(decimal(g as nat) == t.skip(m + 3));
            law_decimal_is_injective(w, v);
            law_decimal_is_injective(h, g);
        },
        (Resolution::Fixed(w, h), Resolution::FitToWindow) => {
            lemma_decimal_digits(w as nat);
            assert(is_digit(decimal(w as nat)[0]));
            assert(s[0] == decimal(w as nat)[0]);
            assert(t[0] == 'F');
        },
        (Resolution::FitToWindow, Resolution::Fixed(v, g)) => {
            lemma_decimal_digits(v as nat);
            assert(is_digit(decimal(v as nat)[0]));
            assert(t[0] == decimal(v as nat)[0]);
            assert(s[0] == 'F');
        },
        (Resolution::FitToWindow, Resolution::FitToWindow) => {},
    }
}

/// How far two lengths are apart.
pub open spec fn distance(a: int, b: int) -> int {
    if a < b {
        b - a
    } else {
        a - b
    }
}

/// The size that is asked for is the nearest one that the display protocol allows: no allowed width
/// and no allowed height is nearer. An odd width in range is rounded down.
pub proof fn law_clamped_size_is_the_nearest(size: (u16, u16), width: int, height: int)
    requires
        200 <= width <= 8192 && width % 2 == 0,
        200 <= height <= 8192,
    ensures
        ({
            let (w, h) = clamped_desktop(size);
            &&& 200 <= w <= 8192 && w % 2 == 0
            &&& 200 <= h <= 8192
            &&& distance(w as int, size.0 as int) <= distance(width, size.0 as int)
            &&& distance(h as int, size.1 as int) <= distance(height, size.1 as int)
            &&& size.0 >= 200 ==> w <= size.0
        }),
{
}

/// What the display control channel makes of a size is the nearest one that the protocol allows,
/// with an odd width in range rounded down.
pub proof fn law_adjusted_size_is_the_nearest(size: (u32, u32), width: int, height: int)
    requires
        200 <= width <= 8192 && width % 2 == 0,
        200 <= height <= 8192,
    ensures
        ({
            let (w, h) = adjusted_size(size.0, size.1);
            &&& 200 <= w <= 8192 && w % 2 == 0
            &&& 200 <= h <= 8192
            &&& distance(w as int, size.0 as int) <= distance(width, size.0 as int)
            &&& distance(h as int, size.1 as int) <= distance(height, size.1 as int)
            &&& size.0 >= 200 ==> w <= size.0
        }),
{
}

/// The label of a fixed resolution shows its width and its height, and can be read back.
pub proof fn law_label_shows_both_sides(width: u16, height: u16)
    ensures
        exists|w: Seq<char>, h: Seq<char>|
            {
                &&& Resolution::Fixed(width, height).text() == #[trigger] (w + " x "@ + h)
                &&& parsed_u16(w) == Some(width)
                &&& parsed_u16(h) == Some(height)
            },
{
    law_decimal_reads_back(width);
    law_decimal_reads_back(height);
    let w = decimal(width as nat);
    let h = decimal(height as nat);
    assert(Resolution::Fixed(width, height).text() == w + " x "@ + h);
}

} // verus!
