use zksync_verify::link::{Library, LinkedObject, MissingLibrary};

fn address_bytes(hex: &str) -> [u8; 20] {
    let mut out = [0u8; 20];
    for i in 0..20 {
        out[i] = u8::from_str_radix(&hex[2 * i..2 * i + 2], 16).unwrap();
    }
    out
}

#[test]
fn missing_library_parses_path_and_name() {
    let m = MissingLibrary::try_from("src/Lib.sol:MathLib".to_string()).unwrap();
    assert_eq!(m.filename, "src/Lib.sol");
    assert_eq!(m.library, "MathLib");
}

#[test]
fn missing_library_ignores_later_segments() {
    let m = MissingLibrary::try_from("a.sol:L:extra:more".to_string()).unwrap();
    assert_eq!(m.filename, "a.sol");
    assert_eq!(m.library, "L");
}

#[test]
fn missing_library_without_colon_fails() {
    let e = MissingLibrary::try_from("contracts/Lib.sol".to_string()).unwrap_err();
    assert_eq!(e, "failed to parse unlinked library name");
    let e = MissingLibrary::try_from(String::new()).unwrap_err();
    assert_eq!(e, "failed to parse unlinked library name");
}

#[test]
fn missing_library_empty_segments() {
    let m = MissingLibrary::try_from(":".to_string()).unwrap();
    assert_eq!(m.filename, "");
    assert_eq!(m.library, "");
    let m = MissingLibrary::try_from("x.sol:".to_string()).unwrap();
    assert_eq!(m.filename, "x.sol");
    assert_eq!(m.library, "");
}

#[test]
fn missing_library_non_ascii() {
    let m = MissingLibrary::try_from("dé/ü.sol:Bibliothèque".to_string()).unwrap();
    assert_eq!(m.filename, "dé/ü.sol");
    assert_eq!(m.library, "Bibliothèque");
}

#[test]
fn missing_library_try_into() {
    let m: Result<MissingLibrary, _> = "p.sol:N".to_string().try_into();
    assert_eq!(m.unwrap(), MissingLibrary { filename: "p.sol".to_string(), library: "N".to_string() });
}

#[test]
fn library_is_written_with_checksummed_address() {
    let lib = Library {
        filename: "src/Lib.sol".to_string(),
        name: "MathLib".to_string(),
        address: address_bytes("5aaeb6053f3e94c9b9a09f33669435e7ef1beaed"),
    };
    let text: String = lib.into();
    assert_eq!(text, "src/Lib.sol:MathLib=0x5aAeb6053F3E94C9b9A09f33669435E7Ef1BeAed");
}

#[test]
fn library_zero_address() {
    let lib = Library { filename: String::new(), name: "L".to_string(), address: [0u8; 20] };
    let text = String::from(lib);
    assert_eq!(text, ":L=0x0000000000000000000000000000000000000000");
}

#[test]
fn library_text_reads_back_as_reference() {
    let lib = Library {
        filename: "a/b.sol".to_string(),
        name: "Foo".to_string(),
        address: address_bytes("fb6916095ca1df60bb79ce92ce3ea74c37c5d359"),
    };
    let text: String = lib.clone().into();
    let m = MissingLibrary::try_from(text).unwrap();
    assert_eq!(m.filename, lib.filename);
    assert_eq!(m.library, "Foo=0xfB6916095ca1df60bB79Ce92cE3Ea74c37c5d359");
}

#[test]
fn linked_object_holds_fields() {
    let o = LinkedObject { bytecode: "0x00".to_string(), hash: "ab".to_string() };
    assert_eq!(o.clone().bytecode, "0x00");
    assert_eq!(o.hash, "ab");
}
