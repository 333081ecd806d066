//! Names for what the biometric subsystem reports as numbers, and text out of
//! its fixed-size character buffers.

use vstd::prelude::*;
use vstd::slice::slice_subrange;
use vstd::string::*;
use crate::text::{hex_digit_spec, hex_u8_text, join, joined, push_hex_u8, str_texts};

verus! {

/// Biometric type of a fingerprint sensor.
pub const WINBIO_TYPE_FINGERPRINT: u32 = 0x0000_0008;

/// Session flags for ordinary operations.
pub const WINBIO_FLAG_DEFAULT: u32 = 0x0000_0000;

/// Session flags for raw capture.
pub const WINBIO_FLAG_RAW: u32 = 0x2000_0000;

/// Purpose of a sample that is captured for no stated purpose.
pub const WINBIO_PURPOSE_NO_PURPOSE_AVAILABLE: u8 = 0x00;

/// Identity type of an account identifier.
pub const WINBIO_ID_TYPE_SID: u32 = 3;

/// Finger position that stands for any finger.
pub const SUBFACTOR_ANY: u8 = 0xFF;

/// Finger position that stands for an unknown finger.
pub const SUBFACTOR_UNKNOWN: u8 = 0;

/// The label of a finger position: the ten standard positions by name, the
/// two reserved values, and every other value as a vendor's own code.
pub open spec fn subfactor_text(subfactor: u8) -> Seq<char> {
    match subfactor {
        1u8 => "Right Thumb"@,
        2u8 => "Right Index"@,
        3u8 => "Right Middle"@,
        4u8 => "Right Ring"@,
        5u8 => "Right Little"@,
        6u8 => "Left Thumb"@,
        7u8 => "Left Index"@,
        8u8 => "Left Middle"@,
        9u8 => "Left Ring"@,
        10u8 => "Left Little"@,
        0xFFu8 => "Any Finger"@,
        0u8 => "Unknown"@,
        n => "Vendor-specific (0x"@ + hex_u8_text(n) + ")"@,
    }
}

/// The label of a finger position.
pub fn subfactor_name(subfactor: u8) -> (r: String)
    ensures
        r@ == subfactor_text(subfactor),
{
    match subfactor {
        1 => String::from_str("Right Thumb"),
        2 => String::from_str("Right Index"),
        3 => String::from_str("Right Middle"),
        4 => String::from_str("Right Ring"),
        5 => String::from_str("Right Little"),
        6 => String::from_str("Left Thumb"),
        7 => String::from_str("Left Index"),
        8 => String::from_str("Left Middle"),
        9 => String::from_str("Left Ring"),
        10 => String::from_str("Left Little"),
        0xFF => String::from_str("Any Finger"),
        0 => String::from_str("Unknown"),
        n => {
            let mut s = String::from_str("Vendor-specific (0x");
            push_hex_u8(&mut s, n);
            s.append(")");
            s
        },
    }
}

/// The text that a sequence of UTF-16 code units stands for, with the
/// replacement character for every unit that is not part of a valid pair, as
/// `String::from_utf16_lossy` computes it.
pub uninterp spec fn utf16_lossy_text(units: Seq<u16>) -> Seq<char>;

/// `String::from_utf16_lossy`: decodes the units, which depends on the
/// units alone.
#[verifier::external_body]
pub(crate) fn from_utf16_lossy(units: &[u16]) -> (r: String)
    ensures
        r@ == utf16_lossy_text(units@),
{
    String::from_utf16_lossy(units)
}

/// Where the text in a buffer ends: at the first zero unit, or at the end of
/// the buffer if it holds none.
pub open spec fn text_end(buf: Seq<u16>) -> int
    decreases buf.len(),
{
    if buf.len() == 0 || buf[0] == 0 {
        0
    } else {
        1 + text_end(buf.drop_first())
    }
}

/// The text of a buffer ends within the buffer, holds no zero unit, and is
/// followed by one unless it fills the buffer.
pub proof fn lemma_text_end(buf: Seq<u16>)
    ensures
        0 <= text_end(buf) <= buf.len(),
        forall|i: int| 0 <= i < text_end(buf) ==> buf[i] != 0,
        text_end(buf) < buf.len() ==> buf[text_end(buf)] == 0,
    decreases buf.len(),
{
    if buf.len() > 0 && buf[0] != 0 {
        let rest = buf.drop_first();
        lemma_text_end(rest);
        assert forall|i: int| 0 <= i < text_end(buf) implies buf[i] != 0 by {
            if i > 0 {
                assert(rest[i - 1] == buf[i]);
            }
        }
        if text_end(buf) < buf.len() {
            assert(rest[text_end(rest)] == buf[text_end(buf)]);
        }
    }
}

/// The first position that holds zero, or the length, is where the text
/// ends.
pub proof fn lemma_text_end_is(buf: Seq<u16>, end: int)
    requires
        0 <= end <= buf.len(),
        forall|i: int| 0 <= i < end ==> buf[i] != 0,
        end < buf.len() ==> buf[end] == 0,
    ensures
        text_end(buf) == end,
{
    lemma_text_end(buf);
    let e = text_end(buf);
    if e < end {
        assert(buf[e] == 0);
    } else if end < e {
        assert(buf[end] != 0);
    }
}

/// The text of a zero-terminated UTF-16 buffer: what stands before the
/// first zero unit, or the whole buffer if it holds none.
pub open spec fn wchar_text(buf: Seq<u16>) -> Seq<char> {
    utf16_lossy_text(buf.subrange(0, text_end(buf)))
}

/// Reads the text out of a zero-terminated UTF-16 buffer.
pub fn wchar_to_string(buf: &[u16]) -> (r: String)
    ensures
        r@ == wchar_text(buf@),
{
    let mut end: usize = 0;
    while end < buf.len() && buf[end] != 0
        invariant
            end <= buf.len(),
            forall|i: int| 0 <= i < end ==> buf@[i] != 0,
        decreases buf.len() - end,
    {
        end = end + 1;
    }
    proof {
        lemma_text_end_is(buf@, end as int);
    }
    from_utf16_lossy(slice_subrange(buf, 0, end))
}

/// Why the sensor rejected a sample.
pub open spec fn reject_text(detail: u32) -> Seq<char> {
    match detail {
        1u32 => "Too high"@,
        2u32 => "Too low"@,
        3u32 => "Too left"@,
        4u32 => "Too right"@,
        5u32 => "Too fast"@,
        6u32 => "Too slow"@,
        7u32 => "Poor quality"@,
        8u32 => "Too skewed"@,
        9u32 => "Too short"@,
        10u32 => "Merge failure"@,
        _ => "Unknown rejection reason"@,
    }
}

/// Says why the sensor rejected a sample.
pub fn reject_reason(detail: u32) -> (r: &'static str)
    ensures
        r@ == reject_text(detail),
{
    match detail {
        1 => "Too high",
        2 => "Too low",
        3 => "Too left",
        4 => "Too right",
        5 => "Too fast",
        6 => "Too slow",
        7 => "Poor quality",
        8 => "Too skewed",
        9 => "Too short",
        10 => "Merge failure",
        _ => "Unknown rejection reason",
    }
}

/// The kind of a sensor.
pub open spec fn sensor_subtype_text(subtype: u32) -> Seq<char> {
    match subtype {
        0u32 => "Unknown"@,
        1u32 => "Swipe"@,
        2u32 => "Touch"@,
        _ => "Other"@,
    }
}

/// Names the kind of a sensor.
pub fn sensor_subtype_name(subtype: u32) -> (r: &'static str)
    ensures
        r@ == sensor_subtype_text(subtype),
{
    match subtype {
        0x0000_0000 => "Unknown",
        0x0000_0001 => "Swipe",
        0x0000_0002 => "Touch",
        _ => "Other",
    }
}

/// The pool a sensor unit belongs to.
pub open spec fn pool_type_text(pool: u32) -> Seq<char> {
    match pool {
        1u32 => "System"@,
        2u32 => "Private"@,
        _ => "Unknown"@,
    }
}

/// Names the pool a sensor unit belongs to.
pub fn pool_type_name(pool: u32) -> (r: &'static str)
    ensures
        r@ == pool_type_text(pool),
{
    match pool {
        1 => "System",
        2 => "Private",
        _ => "Unknown",
    }
}

fn push_if(parts: &mut Vec<&'static str>, wanted: bool, name: &'static str)
    ensures
        str_texts(final(parts)@) == str_texts(old(parts)@) + (if wanted {
            seq![name@]
        } else {
            Seq::<Seq<char>>::empty()
        }),
{
    if wanted {
        parts.push(name);
    }
    assert(str_texts(parts@) =~= str_texts(old(parts)@) + (if wanted {
        seq![name@]
    } else {
        Seq::<Seq<char>>::empty()
    }));
}

/// The part of the list of names that one capability contributes.
pub open spec fn named_if(wanted: bool, name: Seq<char>) -> Seq<Seq<char>> {
    if wanted {
        seq![name]
    } else {
        Seq::empty()
    }
}

/// The names of the capabilities whose bits are set, lowest bit first.
pub open spec fn capability_names(caps: u32) -> Seq<Seq<char>> {
    Seq::<Seq<char>>::empty() + named_if(caps & 0x01 != 0, "Sensor"@) + named_if(
        caps & 0x02 != 0,
        "Matching"@,
    ) + named_if(caps & 0x04 != 0, "Database"@) + named_if(caps & 0x08 != 0, "Processing"@)
        + named_if(caps & 0x10 != 0, "Encryption"@) + named_if(caps & 0x20 != 0, "Navigation"@)
        + named_if(caps & 0x40 != 0, "Indicator"@) + named_if(caps & 0x80 != 0, "VirtualSensor"@)
}

/// The capabilities of a sensor unit in words: the names of the set bits
/// joined by a bar, or "None" when none of the known bits is set.
pub open spec fn capabilities_text(caps: u32) -> Seq<char> {
    if capability_names(caps).len() == 0 {
        "None"@
    } else {
        joined(capability_names(caps), " | "@)
    }
}

/// Puts the capabilities of a sensor unit in words.
pub fn capabilities_string(caps: u32) -> (r: String)
    ensures
        r@ == capabilities_text(caps),
{
    let mut parts: Vec<&'static str> = Vec::new();
    assert(str_texts(parts@) =~= Seq::<Seq<char>>::empty());
    push_if(&mut parts, caps & 0x01 != 0, "Sensor");
    push_if(&mut parts, caps & 0x02 != 0, "Matching");
    push_if(&mut parts, caps & 0x04 != 0, "Database");
    push_if(&mut parts, caps & 0x08 != 0, "Processing");
    push_if(&mut parts, caps & 0x10 != 0, "Encryption");
    push_if(&mut parts, caps & 0x20 != 0, "Navigation");
    push_if(&mut parts, caps & 0x40 != 0, "Indicator");
    push_if(&mut parts, caps & 0x80 != 0, "VirtualSensor");
    assert(str_texts(parts@) == capability_names(caps));
    if parts.len() == 0 {
        String::from_str("None")
    } else {
        join(&parts, " | ")
    }
}

/// Whether a finger position has a name of its own.
pub open spec fn is_named_subfactor(subfactor: u8) -> bool {
    subfactor <= 10 || subfactor == SUBFACTOR_ANY
}

proof fn lemma_hex_digits_differ(x: int, y: int)
    requires
        0 <= x < 16,
        0 <= y < 16,
        x != y,
    ensures
        hex_digit_spec(x) != hex_digit_spec(y),
{
}

/// The length of a label, and for a vendor's code the place of its two
/// digits.
pub proof fn lemma_subfactor_text_shape(subfactor: u8)
    ensures
        is_named_subfactor(subfactor) ==> 7 <= subfactor_text(subfactor).len() <= 12,
        !is_named_subfactor(subfactor) ==> {
            &&& subfactor_text(subfactor).len() == 22
            &&& subfactor_text(subfactor)[19] == hex_digit_spec(subfactor as int / 16)
            &&& subfactor_text(subfactor)[20] == hex_digit_spec(subfactor as int % 16)
        },
{
    reveal_strlit("Right Thumb");
    reveal_strlit("Right Index");
    reveal_strlit("Right Middle");
    reveal_strlit("Right Ring");
    reveal_strlit("Right Little");
    reveal_strlit("Left Thumb");
    reveal_strlit("Left Index");
    reveal_strlit("Left Middle");
    reveal_strlit("Left Ring");
    reveal_strlit("Left Little");
    reveal_strlit("Any Finger");
    reveal_strlit("Unknown");
    reveal_strlit("Vendor-specific (0x");
    reveal_strlit(")");
}

proof fn lemma_named_labels_differ(a: u8, b: u8)
    requires
        is_named_subfactor(a),
        is_named_subfactor(b),
        a != b,
    ensures
        subfactor_text(a) != subfactor_text(b),
{
    reveal_strlit("Right Thumb");
    reveal_strlit("Right Index");
    reveal_strlit("Right Middle");
    reveal_strlit("Right Ring");
    reveal_strlit("Right Little");
    reveal_strlit("Left Thumb");
    reveal_strlit("Left Index");
    reveal_strlit("Left Middle");
    reveal_strlit("Left Ring");
    reveal_strlit("Left Little");
    reveal_strlit("Any Finger");
    reveal_strlit("Unknown");
    let s = subfactor_text(a);
    let t = subfactor_text(b);
    if s.len() == t.len() {
        assert(s[0] != t[0] || s[5] != t[5] || s[6] != t[6] || s[8] != t[8]);
    }
}

/// No two finger positions share a label: the ten standard positions, the
/// two reserved values and every vendor's code are all told apart by name.
pub proof fn lemma_subfactor_labels_are_distinct(a: u8, b: u8)
    requires
        a != b,
    ensures
        subfactor_text(a) != subfactor_text(b),
{
    lemma_subfactor_text_shape(a);
    lemma_subfactor_text_shape(b);
    if is_named_subfactor(a) && is_named_subfactor(b) {
        lemma_named_labels_differ(a, b);
    } else if !is_named_subfactor(a) && !is_named_subfactor(b) {
        if a as int / 16 != b as int / 16 {
            lemma_hex_digits_differ(a as int / 16, b as int / 16);
        } else {
            lemma_hex_digits_differ(a as int % 16, b as int % 16);
        }
    }
}

/// The two reserved finger positions keep their own labels.
pub proof fn lemma_reserved_subfactor_labels()
    ensures
        subfactor_text(SUBFACTOR_ANY) == "Any Finger"@,
        subfactor_text(SUBFACTOR_UNKNOWN) == "Unknown"@,
{
}

} // verus!
