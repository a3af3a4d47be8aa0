use enpitsu::registry::{clsid_key_path, guid_to_string, inproc_server_key_path, Guid};

#[test]
fn guid_to_string_registry_form() {
    let guid = Guid {
        data1: 0x13A016DF,
        data2: 0x560B,
        data3: 0x46CD,
        data4: [0x94, 0x7A, 0x4C, 0x3A, 0xF1, 0xE0, 0xE3, 0x5D],
    };
    assert_eq!(guid_to_string(&guid), "{13A016DF-560B-46CD-947A-4C3AF1E0E35D}");
}

#[test]
fn guid_to_string_pads_with_zeros() {
    let guid = Guid { data1: 1, data2: 0x2, data3: 0xA, data4: [0, 1, 2, 3, 4, 5, 6, 0xFF] };
    assert_eq!(guid_to_string(&guid), "{00000001-0002-000A-0001-0203040506FF}");
}

#[test]
fn guid_to_string_extremes() {
    let zero = Guid { data1: 0, data2: 0, data3: 0, data4: [0; 8] };
    assert_eq!(guid_to_string(&zero), "{00000000-0000-0000-0000-000000000000}");
    let max = Guid { data1: u32::MAX, data2: u16::MAX, data3: u16::MAX, data4: [0xFF; 8] };
    let text = guid_to_string(&max);
    assert_eq!(text, "{FFFFFFFF-FFFF-FFFF-FFFF-FFFFFFFFFFFF}");
    assert_eq!(text.chars().count(), 38);
}

#[test]
fn registry_key_paths() {
    let clsid = "{25504FB4-7BAB-4BC1-9C69-CF81890F0EF5}";
    assert_eq!(clsid_key_path(clsid), r"CLSID\{25504FB4-7BAB-4BC1-9C69-CF81890F0EF5}");
    assert_eq!(
        inproc_server_key_path(clsid),
        r"CLSID\{25504FB4-7BAB-4BC1-9C69-CF81890F0EF5}\InProcServer32"
    );
}

#[test]
fn distinct_guids_have_distinct_text() {
    let a = Guid { data1: 0x10, data2: 0x20, data3: 0x30, data4: [1, 2, 3, 4, 5, 6, 7, 8] };
    let b = Guid { data4: [1, 2, 3, 4, 5, 6, 7, 9], ..a };
    let c = Guid { data1: 0x01, ..a };
    assert_ne!(guid_to_string(&a), guid_to_string(&b));
    assert_ne!(guid_to_string(&a), guid_to_string(&c));
    assert_eq!(guid_to_string(&a), guid_to_string(&a.clone()));
}

#[test]
fn inproc_server_values_name_dll_and_threading_model() {
    let values = enpitsu::registry::inproc_server_values(r"C:\Program Files\Enpitsu\enpitsu.dll");
    assert_eq!(values.len(), 2);
    assert_eq!(values[0].name, None);
    let expected: Vec<u16> = r"C:\Program Files\Enpitsu\enpitsu.dll"
        .encode_utf16()
        .chain(std::iter::once(0))
        .collect();
    assert_eq!(values[0].data, expected);
    assert_eq!(values[1].name.as_deref(), Some("ThreadingModel"));
    let apartment: Vec<u16> = "Apartment\0".encode_utf16().collect();
    assert_eq!(values[1].data, apartment);
}

#[test]
fn utf16_encoding_matches_std() {
    for text in ["", "abc", "かな漢字", "😀x", "\u{FFFF}\u{10000}\u{10FFFF}"] {
        let expected: Vec<u16> = text.encode_utf16().collect();
        assert_eq!(enpitsu::registry::encode_utf16(text), expected);
        let mut with_nul = expected.clone();
        with_nul.push(0);
        assert_eq!(enpitsu::registry::encode_utf16z(text), with_nul);
    }
}

#[test]
fn profile_description_is_display_name() {
    let expected: Vec<u16> = "Enpitsu".encode_utf16().collect();
    assert_eq!(enpitsu::registry::profile_description(), expected);
    assert_eq!(enpitsu::registry::LANGID_JAPANESE, 0x0411);
}
