//! Database identifiers: the canonical braced text of a 128-bit identifier and
//! the registry subkey under which the biometric service keeps a database.

use vstd::prelude::*;
use vstd::string::*;
use crate::text::{
    hex_digit_spec, hex_u16_text, hex_u32_text, hex_u8_text, hex_value, is_upper_hex, push_hex_u16,
    push_hex_u32, push_hex_u8,
};

verus! {

/// A 128-bit identifier in its four-field layout.
#[derive(Clone, Copy, Debug, PartialEq, Eq)]
pub struct Guid {
    pub data1: u32,
    pub data2: u16,
    pub data3: u16,
    pub data4: [u8; 8],
}

/// The canonical text of an identifier: braces around five groups of
/// upper-case hexadecimal digits, 8-4-4-4-12, joined by hyphens.
pub open spec fn guid_text(g: Guid) -> Seq<char> {
    seq!['{'] + hex_u32_text(g.data1) + seq!['-'] + hex_u16_text(g.data2) + seq!['-']
        + hex_u16_text(g.data3) + seq!['-'] + hex_u8_text(g.data4[0]) + hex_u8_text(g.data4[1])
        + seq!['-'] + hex_u8_text(g.data4[2]) + hex_u8_text(g.data4[3]) + hex_u8_text(g.data4[4])
        + hex_u8_text(g.data4[5]) + hex_u8_text(g.data4[6]) + hex_u8_text(g.data4[7]) + seq!['}']
}

/// Formats an identifier in its canonical braced upper-case form.
pub fn format_guid(guid: &Guid) -> (r: String)
    ensures
        r@ == guid_text(*guid),
{
    let mut s = String::new();
    s.push('{');
    push_hex_u32(&mut s, guid.data1);
    s.push('-');
    push_hex_u16(&mut s, guid.data2);
    s.push('-');
    push_hex_u16(&mut s, guid.data3);
    s.push('-');
    push_hex_u8(&mut s, guid.data4[0]);
    push_hex_u8(&mut s, guid.data4[1]);
    s.push('-');
    push_hex_u8(&mut s, guid.data4[2]);
    push_hex_u8(&mut s, guid.data4[3]);
    push_hex_u8(&mut s, guid.data4[4]);
    push_hex_u8(&mut s, guid.data4[5]);
    push_hex_u8(&mut s, guid.data4[6]);
    push_hex_u8(&mut s, guid.data4[7]);
    s.push('}');
    assert(s@ =~= guid_text(*guid));
    s
}

/// The registry subkey, below the local-machine root, under which the
/// biometric service keeps the database with the given identifier text.
pub open spec fn database_subkey_text(db_id: Seq<char>) -> Seq<char> {
    "SYSTEM\\CurrentControlSet\\Services\\WbioSrvc\\Databases\\"@ + db_id
}

/// Builds the registry subkey of a database from its identifier text.
pub fn database_subkey(db_id: &str) -> (r: String)
    ensures
        r@ == database_subkey_text(db_id@),
{
    let mut s = String::from_str("SYSTEM\\CurrentControlSet\\Services\\WbioSrvc\\Databases\\");
    s.append(db_id);
    s
}

/// The number that a text of upper-case hexadecimal digits stands for.
pub open spec fn hex_number(digits: Seq<char>) -> nat
    decreases digits.len(),
{
    if digits.len() == 0 {
        0
    } else {
        (hex_number(digits.drop_last()) * 16 + hex_value(digits.last())) as nat
    }
}

/// Whether a text has the canonical form of an identifier: thirty-eight
/// characters, braces at the ends, hyphens after the eighth, twelfth,
/// sixteenth and twentieth digit, and upper-case hexadecimal digits
/// everywhere else.
pub open spec fn is_canonical_guid_text(text: Seq<char>) -> bool {
    &&& text.len() == 38
    &&& text[0] == '{'
    &&& text[37] == '}'
    &&& forall|i: int|
        1 <= i < 37 ==> if i == 9 || i == 14 || i == 19 || i == 24 {
            #[trigger] text[i] == '-'
        } else {
            is_upper_hex(text[i])
        }
}

/// Where the two digits of the `k`-th of the last eight bytes begin.
pub open spec fn data4_offset(k: int) -> int {
    if k < 2 {
        20 + 2 * k
    } else {
        21 + 2 * k
    }
}

/// The database identifier at the end of a subkey built by
/// `database_subkey`: what follows the path of the service's databases.
pub open spec fn subkey_database_id(subkey: Seq<char>) -> Seq<char> {
    subkey.subrange(database_subkey_text(Seq::empty()).len() as int, subkey.len() as int)
}

proof fn lemma_hex_digit_value(v: int)
    requires
        0 <= v < 16,
    ensures
        is_upper_hex(hex_digit_spec(v)),
        hex_value(hex_digit_spec(v)) == v,
{
}

/// Two digits stand for their byte.
pub proof fn lemma_hex_u8_round_trip(v: u8)
    ensures
        hex_u8_text(v).len() == 2,
        is_upper_hex(hex_u8_text(v)[0]),
        is_upper_hex(hex_u8_text(v)[1]),
        hex_number(hex_u8_text(v)) == v,
{
    let t = hex_u8_text(v);
    lemma_hex_digit_value(v as int / 16);
    lemma_hex_digit_value(v as int % 16);
    reveal_with_fuel(hex_number, 3);
    assert(t.drop_last() =~= seq![hex_digit_spec(v as int / 16)]);
    assert(t.drop_last().drop_last() =~= Seq::<char>::empty());
}

/// Digits after digits: the number of the whole is the number of the
/// front, shifted by two digits, plus the number of a two-digit back.
proof fn lemma_hex_number_append2(front: Seq<char>, back: Seq<char>)
    requires
        back.len() == 2,
        is_upper_hex(back[0]),
        is_upper_hex(back[1]),
    ensures
        hex_number(front + back) == hex_number(front) * 256 + hex_number(back),
{
    reveal_with_fuel(hex_number, 3);
    let whole = front + back;
    assert(whole.drop_last() =~= front + back.drop_last());
    assert(whole.drop_last().drop_last() =~= front);
    assert(back.drop_last().drop_last() =~= Seq::<char>::empty());
    assert(whole.last() == back[1]);
    assert(whole.drop_last().last() == back[0]);
}

/// Four digits stand for their 16-bit value.
pub proof fn lemma_hex_u16_round_trip(v: u16)
    ensures
        hex_u16_text(v).len() == 4,
        forall|i: int| 0 <= i < 4 ==> is_upper_hex(#[trigger] hex_u16_text(v)[i]),
        hex_number(hex_u16_text(v)) == v,
{
    lemma_hex_u8_round_trip((v / 256) as u8);
    lemma_hex_u8_round_trip((v % 256) as u8);
    lemma_hex_number_append2(hex_u8_text((v / 256) as u8), hex_u8_text((v % 256) as u8));
}

/// Eight digits stand for their 32-bit value.
pub proof fn lemma_hex_u32_round_trip(v: u32)
    ensures
        hex_u32_text(v).len() == 8,
        forall|i: int| 0 <= i < 8 ==> is_upper_hex(#[trigger] hex_u32_text(v)[i]),
        hex_number(hex_u32_text(v)) == v,
{
    let high = (v / 65536) as u16;
    let low = (v % 65536) as u16;
    lemma_hex_u16_round_trip(high);
    lemma_hex_u16_round_trip(low);
    let a = hex_u16_text(high);
    let b1 = hex_u8_text((low / 256) as u8);
    let b2 = hex_u8_text((low % 256) as u8);
    lemma_hex_u8_round_trip((low / 256) as u8);
    lemma_hex_u8_round_trip((low % 256) as u8);
    lemma_hex_number_append2(b1, b2);
    lemma_hex_number_append2(a, b1);
    lemma_hex_number_append2(a + b1, b2);
    assert(hex_u32_text(v) =~= (a + b1) + b2);
}

/// The fields of an identifier stand in its text at fixed places.
pub proof fn lemma_guid_text_parts(g: Guid)
    ensures
        guid_text(g).len() == 38,
        guid_text(g)[0] == '{',
        guid_text(g)[9] == '-',
        guid_text(g)[14] == '-',
        guid_text(g)[19] == '-',
        guid_text(g)[24] == '-',
        guid_text(g)[37] == '}',
        guid_text(g).subrange(1, 9) == hex_u32_text(g.data1),
        guid_text(g).subrange(10, 14) == hex_u16_text(g.data2),
        guid_text(g).subrange(15, 19) == hex_u16_text(g.data3),
        forall|k: int|
            0 <= k < 8 ==> #[trigger] guid_text(g).subrange(data4_offset(k), data4_offset(k) + 2)
                == hex_u8_text(g.data4[k]),
{
    let t = guid_text(g);
    lemma_hex_u32_round_trip(g.data1);
    lemma_hex_u16_round_trip(g.data2);
    lemma_hex_u16_round_trip(g.data3);
    assert(t.subrange(1, 9) =~= hex_u32_text(g.data1));
    assert(t.subrange(10, 14) =~= hex_u16_text(g.data2));
    assert(t.subrange(15, 19) =~= hex_u16_text(g.data3));
    assert(t.subrange(20, 22) =~= hex_u8_text(g.data4[0]));
    assert(t.subrange(22, 24) =~= hex_u8_text(g.data4[1]));
    assert(t.subrange(25, 27) =~= hex_u8_text(g.data4[2]));
    assert(t.subrange(27, 29) =~= hex_u8_text(g.data4[3]));
    assert(t.subrange(29, 31) =~= hex_u8_text(g.data4[4]));
    assert(t.subrange(31, 33) =~= hex_u8_text(g.data4[5]));
    assert(t.subrange(33, 35) =~= hex_u8_text(g.data4[6]));
    assert(t.subrange(35, 37) =~= hex_u8_text(g.data4[7]));
}

/// A text with the fields of an identifier at their places has the
/// canonical form.
proof fn lemma_parts_make_canonical(t: Seq<char>, g: Guid)
    requires
        t.len() == 38,
        t[0] == '{',
        t[9] == '-',
        t[14] == '-',
        t[19] == '-',
        t[24] == '-',
        t[37] == '}',
        t.subrange(1, 9) == hex_u32_text(g.data1),
        t.subrange(10, 14) == hex_u16_text(g.data2),
        t.subrange(15, 19) == hex_u16_text(g.data3),
        forall|k: int|
            0 <= k < 8 ==> #[trigger] t.subrange(data4_offset(k), data4_offset(k) + 2)
                == hex_u8_text(g.data4[k]),
    ensures
        is_canonical_guid_text(t),
{
    lemma_hex_u32_round_trip(g.data1);
    lemma_hex_u16_round_trip(g.data2);
    lemma_hex_u16_round_trip(g.data3);
    assert forall|i: int| 1 <= i < 37 implies if i == 9 || i == 14 || i == 19 || i == 24 {
        #[trigger] t[i] == '-'
    } else {
        is_upper_hex(t[i])
    } by {
        if 1 <= i < 9 {
            assert(t[i] == t.subrange(1, 9)[i - 1]);
        } else if 10 <= i < 14 {
            assert(t[i] == t.subrange(10, 14)[i - 10]);
        } else if 15 <= i < 19 {
            assert(t[i] == t.subrange(15, 19)[i - 15]);
        } else if 20 <= i < 24 || 25 <= i < 37 {
            let k = if i < 24 {
                (i - 20) / 2
            } else {
                (i - 21) / 2
            };
            let part = t.subrange(data4_offset(k), data4_offset(k) + 2);
            lemma_hex_u8_round_trip(g.data4[k]);
            assert(part == hex_u8_text(g.data4[k]));
            assert(t[i] == part[i - data4_offset(k)]);
        }
    }
}

/// The identifier text at the end of a subkey is the text the subkey was
/// built from.
pub proof fn lemma_subkey_keeps_database_id(db_id: Seq<char>)
    ensures
        subkey_database_id(database_subkey_text(db_id)) == db_id,
{
    let prefix = database_subkey_text(Seq::empty());
    assert(prefix =~= "SYSTEM\\CurrentControlSet\\Services\\WbioSrvc\\Databases\\"@);
    assert(subkey_database_id(database_subkey_text(db_id)) =~= db_id);
}

/// An identifier that is formatted and then handed to the builder of the
/// registry subkey arrives there unchanged and in canonical form: the subkey
/// ends with exactly the formatted text, that text is braced upper-case
/// hexadecimal in groups of 8-4-4-4-12, and every field of the identifier can
/// be read back from it.
pub proof fn lemma_guid_round_trip(g: Guid)
    ensures
        subkey_database_id(database_subkey_text(guid_text(g))) == guid_text(g),
        is_canonical_guid_text(guid_text(g)),
        hex_number(guid_text(g).subrange(1, 9)) == g.data1,
        hex_number(guid_text(g).subrange(10, 14)) == g.data2,
        hex_number(guid_text(g).subrange(15, 19)) == g.data3,
        forall|k: int|
            0 <= k < 8 ==> hex_number(
                #[trigger] guid_text(g).subrange(data4_offset(k), data4_offset(k) + 2),
            ) == g.data4[k],
{
    let t = guid_text(g);
    lemma_guid_text_parts(g);
    lemma_parts_make_canonical(t, g);
    lemma_subkey_keeps_database_id(t);
    lemma_hex_u32_round_trip(g.data1);
    lemma_hex_u16_round_trip(g.data2);
    lemma_hex_u16_round_trip(g.data3);
    assert forall|k: int| 0 <= k < 8 implies hex_number(
        #[trigger] t.subrange(data4_offset(k), data4_offset(k) + 2),
    ) == g.data4[k] by {
        lemma_hex_u8_round_trip(g.data4[k]);
    }
}

/// Two identifiers with the same text are the same identifier.
pub proof fn lemma_guid_text_is_injective(a: Guid, b: Guid)
    requires
        guid_text(a) == guid_text(b),
    ensures
        a.data1 == b.data1,
        a.data2 == b.data2,
        a.data3 == b.data3,
        a.data4@ == b.data4@,
{
    lemma_guid_round_trip(a);
    lemma_guid_round_trip(b);
    assert forall|k: int| 0 <= k < 8 implies a.data4[k] == b.data4[k] by {
        let part = guid_text(a).subrange(data4_offset(k), data4_offset(k) + 2);
        assert(hex_number(part) == a.data4[k]);
        assert(hex_number(guid_text(b).subrange(data4_offset(k), data4_offset(k) + 2))
            == b.data4[k]);
    }
    assert(a.data4@ =~= b.data4@);
}

} // verus!
