use nova_loader::hwid::{
    fallback_machine_id, hex_string, machine_id_from_file, parse_ioreg_uuid, parse_wmic_uuid,
    sha256_hex, stable_hwid,
};

const ABC_SHA256: &str = "ba7816bf8f01cfea414140de5dae2223b00361a396177a9cb410ff61f20015ad";

#[test]
fn sha256_of_abc() {
    assert_eq!(sha256_hex(b"abc"), ABC_SHA256);
}

#[test]
fn hwid_hashes_trimmed_id() {
    assert_eq!(stable_hwid("  abc \n"), ABC_SHA256);
    assert_eq!(stable_hwid("abc").len(), 64);
    assert_ne!(stable_hwid("abd"), ABC_SHA256);
}

#[test]
fn hex_is_lower_case_two_digits() {
    assert_eq!(hex_string(&[0x00, 0x0f, 0xa0, 0xff]), "000fa0ff");
}

#[test]
fn fallback_joins_host_and_user() {
    assert_eq!(
        fallback_machine_id(Some(" box\n".to_owned()), Some("alice ".to_owned())),
        "box:alice"
    );
    assert_eq!(fallback_machine_id(None, None), "unknown-host:unknown-user");
}

#[test]
fn machine_id_file() {
    assert_eq!(machine_id_from_file(Some("abc123\n".to_owned())).as_deref(), Some("abc123"));
    assert_eq!(machine_id_from_file(Some("  \n".to_owned())), None);
    assert_eq!(machine_id_from_file(None), None);
}

#[test]
fn ioreg_uuid_line() {
    let out = "+-o Root\n    \"IOPlatformSerialNumber\" = \"X\"\r\n    \"IOPlatformUUID\" = \"1234-ABCD\"\n";
    // The text between the first two quotes after the key is ` = `.
    assert_eq!(parse_ioreg_uuid(out).as_deref(), Some("="));
    assert_eq!(parse_ioreg_uuid("nothing here"), None);
    assert_eq!(parse_ioreg_uuid("IOPlatformUUID\"  \"\nIOPlatformUUID \"Z\""), Some("Z".to_owned()));
    assert_eq!(parse_ioreg_uuid("IOPlatformUUID \"unterminated"), None);
}

#[test]
fn wmic_uuid_lines() {
    let out = "UUID  \r\n\r\n  4C4C4544-0042  \r\n\r\n";
    assert_eq!(parse_wmic_uuid(out).as_deref(), Some("4C4C4544-0042"));
    assert_eq!(parse_wmic_uuid("uuid\n\n"), None);
}
