//! What the listing of the storage databases shows: attributes in words,
//! registry values as text, and the sensors that use each database.

use vstd::prelude::*;
use vstd::string::*;
use crate::text::{
    decimal_text, hex_u32_text, join, joined, push_decimal, push_hex_u32, same_text, str_texts,
    to_uppercase, uppercase_text,
};
use crate::winbio_helpers::{from_utf16_lossy, lemma_text_end_is, wchar_text};

verus! {

/// Registry type of a string value.
pub const REG_SZ: u32 = 1;

/// Registry type of a string value with references to the environment.
pub const REG_EXPAND_SZ: u32 = 2;

/// Registry type of a 32-bit number.
pub const REG_DWORD: u32 = 4;

/// The names of the attributes whose bits are set.
pub open spec fn attribute_names(attrs: u32) -> Seq<Seq<char>> {
    Seq::<Seq<char>>::empty() + (if attrs & 0x01 != 0 {
        seq!["OWNED"@]
    } else {
        Seq::empty()
    }) + (if attrs & 0x02 != 0 {
        seq!["REMOTE"@]
    } else {
        Seq::empty()
    })
}

/// The attributes of a database: the names of the known bits that are
/// set, if any, and the whole value as eight hexadecimal digits.
pub open spec fn attributes_text(attrs: u32) -> Seq<char> {
    if attribute_names(attrs).len() == 0 {
        "0x"@ + hex_u32_text(attrs)
    } else {
        joined(attribute_names(attrs), " | "@) + " (0x"@ + hex_u32_text(attrs) + ")"@
    }
}

/// Puts the attributes of a database in words.
pub fn attributes_string(attrs: u32) -> (r: String)
    ensures
        r@ == attributes_text(attrs),
{
    let mut parts: Vec<&'static str> = Vec::new();
    assert(str_texts(parts@) =~= Seq::<Seq<char>>::empty());
    if attrs & 0x01 != 0 {
        parts.push("OWNED");
    }
    if attrs & 0x02 != 0 {
        parts.push("REMOTE");
    }
    assert(str_texts(parts@) =~= attribute_names(attrs));
    if parts.len() == 0 {
        let mut s = String::from_str("0x");
        push_hex_u32(&mut s, attrs);
        s
    } else {
        let mut s = join(&parts, " | ");
        s.append(" (0x");
        push_hex_u32(&mut s, attrs);
        s.append(")");
        s
    }
}

/// The 16-bit units that bytes stand for, two bytes each, low byte first;
/// a last odd byte is left out.
pub open spec fn le_units(bytes: Seq<u8>) -> Seq<u16> {
    Seq::new(
        (bytes.len() / 2) as nat,
        |i: int| (bytes[2 * i] as int + 256 * (bytes[2 * i + 1] as int)) as u16,
    )
}

/// The 32-bit number in the first four bytes, low byte first.
pub open spec fn le_u32(bytes: Seq<u8>) -> u32 {
    (bytes[0] as int + 256 * (bytes[1] as int) + 65536 * (bytes[2] as int) + 16777216 * (
    bytes[3] as int)) as u32
}

/// The text of a registry value: a string value up to its first zero
/// unit, a 32-bit number in decimal; nothing for an empty value, for a number
/// of fewer than four bytes and for every other type.
pub open spec fn registry_value_text(data_type: u32, data: Seq<u8>) -> Option<Seq<char>> {
    if data.len() == 0 {
        None
    } else if data_type == REG_SZ || data_type == REG_EXPAND_SZ {
        Some(wchar_text(le_units(data)))
    } else if data_type == REG_DWORD && data.len() >= 4 {
        Some(decimal_text(le_u32(data) as nat))
    } else {
        None
    }
}

/// Reads a registry value of the given type as text.
pub fn decode_registry_value(data_type: u32, data: &[u8]) -> (r: Option<String>)
    ensures
        match r {
            Some(text) => registry_value_text(data_type, data@) == Some(text@),
            None => registry_value_text(data_type, data@) is None,
        },
{
    if data.len() == 0 {
        return None;
    }
    if data_type == REG_SZ || data_type == REG_EXPAND_SZ {
        let count = data.len() / 2;
        let ghost units = le_units(data@);
        let mut wide: Vec<u16> = Vec::new();
        let mut i: usize = 0;
        let mut ended = false;
        while i < count && !ended
            invariant
                i <= count,
                count == data.len() / 2,
                units == le_units(data@),
                wide.len() == (if ended {
                    i - 1
                } else {
                    i as int
                }),
                ended ==> i >= 1 && units[i - 1] == 0,
                forall|k: int| 0 <= k < wide.len() ==> wide[k] == units[k] && units[k] != 0,
            decreases count - i,
        {
            let unit: u16 = data[2 * i] as u16 + 256 * (data[2 * i + 1] as u16);
            if unit == 0 {
                ended = true;
            } else {
                wide.push(unit);
            }
            i = i + 1;
        }
        proof {
            lemma_text_end_is(units, wide.len() as int);
            assert(wide@ =~= units.subrange(0, wide.len() as int));
        }
        Some(from_utf16_lossy(wide.as_slice()))
    } else if data_type == REG_DWORD && data.len() >= 4 {
        let value: u32 = data[0] as u32 + 256 * (data[1] as u32) + 65536 * (data[2] as u32)
            + 16777216 * (data[3] as u32);
        let mut s = String::new();
        push_decimal(&mut s, value as u64);
        assert(s@ =~= decimal_text(le_u32(data@) as nat));
        Some(s)
    } else {
        None
    }
}

/// How a value of a database's registry entry is shown: the known codes
/// of the known values in words, everything else as it is.
pub open spec fn registry_display_text(name: Seq<char>, value: Seq<char>) -> Seq<char> {
    if name == "BiometricType"@ && value == "8"@ {
        "Fingerprint (0x08)"@
    } else if name == "SensorPool"@ && value == "1"@ {
        "System (1)"@
    } else if name == "SensorPool"@ && value == "2"@ {
        "Private (2)"@
    } else if (name == "AutoCreate"@ || name == "AutoName"@) && value == "1"@ {
        "Yes"@
    } else if (name == "AutoCreate"@ || name == "AutoName"@) && value == "0"@ {
        "No"@
    } else {
        value
    }
}

/// Says how a value of a database's registry entry is shown.
pub fn registry_display(name: &str, value: &str) -> (r: String)
    ensures
        r@ == registry_display_text(name@, value@),
{
    let flag = same_text(name, "AutoCreate") || same_text(name, "AutoName");
    if same_text(name, "BiometricType") && same_text(value, "8") {
        String::from_str("Fingerprint (0x08)")
    } else if same_text(name, "SensorPool") && same_text(value, "1") {
        String::from_str("System (1)")
    } else if same_text(name, "SensorPool") && same_text(value, "2") {
        String::from_str("Private (2)")
    } else if flag && same_text(value, "1") {
        String::from_str("Yes")
    } else if flag && same_text(value, "0") {
        String::from_str("No")
    } else {
        String::from_str(value)
    }
}

/// The mode of a sensor configuration in words.
pub open spec fn sensor_mode_text(value: Seq<char>) -> Seq<char> {
    if value == "1"@ {
        "Basic"@
    } else if value == "2"@ {
        "Advanced"@
    } else {
        "Unknown ("@ + value + ")"@
    }
}

/// Puts the mode of a sensor configuration in words.
pub fn sensor_mode_display(value: &str) -> (r: String)
    ensures
        r@ == sensor_mode_text(value@),
{
    if same_text(value, "1") {
        String::from_str("Basic")
    } else if same_text(value, "2") {
        String::from_str("Advanced")
    } else {
        let mut s = String::from_str("Unknown (");
        s.append(value);
        s.append(")");
        s
    }
}

/// The key under which the sensors of a database are kept: its
/// identifier in upper case and in braces.
pub open spec fn database_key_text(db_id: Seq<char>) -> Seq<char> {
    let upper = uppercase_text(db_id);
    if upper.len() > 0 && upper[0] == '{' {
        upper
    } else {
        "{"@ + upper + "}"@
    }
}

/// Makes the key under which the sensors of a database are kept.
pub fn database_key(db_id: &str) -> (r: String)
    ensures
        r@ == database_key_text(db_id@),
{
    let upper = to_uppercase(db_id);
    if upper.as_str().unicode_len() > 0 && upper.as_str().get_char(0) == '{' {
        upper
    } else {
        let mut s = String::from_str("{");
        s.append(upper.as_str());
        s.append("}");
        s
    }
}

/// Where the last semicolon of a text stands, if it has one.
pub open spec fn last_semicolon(name: Seq<char>) -> Option<int>
    decreases name.len(),
{
    if name.len() == 0 {
        None
    } else if name.last() == ';' {
        Some(name.len() - 1)
    } else {
        last_semicolon(name.drop_last())
    }
}

/// The name of a device without the reference to the driver store that
/// may stand before it: what follows the last semicolon, or all of it.
pub open spec fn display_name_text(name: Seq<char>) -> Seq<char> {
    match last_semicolon(name) {
        Some(at) => name.subrange(at + 1, name.len() as int),
        None => name,
    }
}

/// The last semicolon of a text lies before any position after which there is
/// none.
pub proof fn lemma_last_semicolon(name: Seq<char>, from: int)
    requires
        0 <= from <= name.len(),
        forall|i: int| from <= i < name.len() ==> name[i] != ';',
    ensures
        last_semicolon(name) == last_semicolon(name.take(from)),
    decreases name.len() - from,
{
    if from < name.len() {
        lemma_last_semicolon(name.drop_last(), from);
        assert(name.drop_last().take(from) =~= name.take(from));
    } else {
        assert(name.take(from) =~= name);
    }
}

/// Strips the reference to the driver store from the name of a device.
pub fn strip_driver_store_prefix(name: &str) -> (r: String)
    ensures
        r@ == display_name_text(name@),
{
    let len = name.unicode_len();
    let mut at: usize = len;
    while at > 0 && name.get_char(at - 1) != ';'
        invariant
            at <= len,
            len == name@.len(),
            forall|i: int| at <= i < len ==> name@[i] != ';',
        decreases at,
    {
        at = at - 1;
    }
    proof {
        lemma_last_semicolon(name@, at as int);
        if at == 0 {
            assert(name@.take(0) =~= Seq::<char>::empty());
        } else {
            assert(name@.take(at as int).last() == ';');
        }
    }
    if at == 0 {
        String::from_str(name)
    } else {
        String::from_str(name.substring_char(at, len))
    }
}

/// The name shown for a device: its friendly name if it has one, else its
/// description, else nothing; in each case without the reference to the
/// driver store.
pub open spec fn friendly_name_text(
    friendly: Option<Seq<char>>,
    description: Option<Seq<char>>,
) -> Seq<char> {
    match friendly {
        Some(name) => display_name_text(name),
        None => match description {
            Some(name) => display_name_text(name),
            None => Seq::empty(),
        },
    }
}

/// The text of a string that may be missing.
pub open spec fn optional_text(value: Option<String>) -> Option<Seq<char>> {
    match value {
        Some(s) => Some(s@),
        None => None,
    }
}

/// Picks the name shown for a device.
pub fn friendly_name(friendly: Option<String>, description: Option<String>) -> (r: String)
    ensures
        r@ == friendly_name_text(optional_text(friendly), optional_text(description)),
{
    match friendly {
        Some(name) => strip_driver_store_prefix(name.as_str()),
        None => match description {
            Some(name) => strip_driver_store_prefix(name.as_str()),
            None => {
                let empty = String::new();
                assert(display_name_text(Seq::<char>::empty()) =~= Seq::<char>::empty());
                empty
            },
        },
    }
}

} // verus!
