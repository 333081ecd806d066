use win_fp_debug::guid::{database_subkey, format_guid, Guid};

#[test]
fn an_identifier_is_braced_upper_case_hexadecimal() {
    let guid = Guid {
        data1: 0x1234_5678,
        data2: 0xABCD,
        data3: 0x00EF,
        data4: [0x01, 0x23, 0x45, 0x67, 0x89, 0xAB, 0xCD, 0xEF],
    };
    assert_eq!(format_guid(&guid), "{12345678-ABCD-00EF-0123-456789ABCDEF}");
}

#[test]
fn zero_and_all_ones_keep_every_digit() {
    let zero = Guid { data1: 0, data2: 0, data3: 0, data4: [0; 8] };
    assert_eq!(format_guid(&zero), "{00000000-0000-0000-0000-000000000000}");
    let ones = Guid { data1: u32::MAX, data2: u16::MAX, data3: u16::MAX, data4: [0xFF; 8] };
    assert_eq!(format_guid(&ones), "{FFFFFFFF-FFFF-FFFF-FFFF-FFFFFFFFFFFF}");
}

#[test]
fn a_formatted_identifier_arrives_unchanged_in_the_subkey() {
    let guid = Guid {
        data1: 0x0A1B_2C3D,
        data2: 0x4E5F,
        data3: 0x6071,
        data4: [0x82, 0x93, 0xA4, 0xB5, 0xC6, 0xD7, 0xE8, 0xF9],
    };
    let text = format_guid(&guid);
    let subkey = database_subkey(&text);
    assert_eq!(
        subkey,
        "SYSTEM\\CurrentControlSet\\Services\\WbioSrvc\\Databases\\{0A1B2C3D-4E5F-6071-8293-A4B5C6D7E8F9}"
    );
    let prefix = "SYSTEM\\CurrentControlSet\\Services\\WbioSrvc\\Databases\\";
    let back = &subkey[prefix.len()..];
    assert_eq!(back, text);
    assert_eq!(back.len(), 38);
    for (i, c) in back.chars().enumerate() {
        match i {
            0 => assert_eq!(c, '{'),
            37 => assert_eq!(c, '}'),
            9 | 14 | 19 | 24 => assert_eq!(c, '-'),
            _ => assert!(c.is_ascii_digit() || ('A'..='F').contains(&c)),
        }
    }
    assert_eq!(u32::from_str_radix(&back[1..9], 16), Ok(guid.data1));
    assert_eq!(u16::from_str_radix(&back[10..14], 16), Ok(guid.data2));
    assert_eq!(u16::from_str_radix(&back[15..19], 16), Ok(guid.data3));
    assert_eq!(u8::from_str_radix(&back[20..22], 16), Ok(guid.data4[0]));
    assert_eq!(u8::from_str_radix(&back[35..37], 16), Ok(guid.data4[7]));
}
