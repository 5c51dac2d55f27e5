use cursor_guest::config::{
    backup_extension, config_path_components, generate_new_config, read_config_contents, retained_sqm_id,
    sqm_id_from_uuid, TargetOs,
};
use cursor_guest::models::{ConfigFile, StorageConfig};

fn file_with_sqm(sqm: &str) -> ConfigFile {
    ConfigFile {
        telemetry_machine_id: "m".to_string(),
        telemetry_mac_machine_id: "mac".to_string(),
        telemetry_dev_device_id: "dev".to_string(),
        telemetry_sqm_id: sqm.to_string(),
    }
}

fn is_lower_hex(s: &str) -> bool {
    s.chars().all(|c| c.is_ascii_digit() || ('a'..='f').contains(&c))
}

fn check_device_id(id: &str) {
    assert_eq!(id.len(), 36);
    for (i, c) in id.chars().enumerate() {
        if [8, 13, 18, 23].contains(&i) {
            assert_eq!(c, '-');
        } else {
            assert!(c.is_ascii_digit() || ('a'..='f').contains(&c));
        }
    }
    assert_eq!(id.chars().nth(14), Some('4'));
    assert!(['8', '9', 'a', 'b'].contains(&id.chars().nth(19).unwrap()));
}

fn check_sqm_id(id: &str) {
    assert_eq!(id.len(), 38);
    assert!(id.starts_with('{') && id.ends_with('}'));
    let inner = &id[1..37];
    assert_eq!(inner, inner.to_uppercase());
    check_device_id(&inner.to_lowercase());
}

#[test]
fn sqm_id_is_uppercase_uuid_in_braces() {
    let bytes = [
        0xa1, 0xa2, 0xa3, 0xa4, 0xb1, 0xb2, 0x4c, 0x2c, 0x9d, 0x12, 0xd3, 0xd4, 0xd5, 0xd6, 0xd7, 0xd8,
    ];
    assert_eq!(sqm_id_from_uuid(&bytes), "{A1A2A3A4-B1B2-4C2C-9D12-D3D4D5D6D7D8}");
}

#[test]
fn generated_ids_have_their_shapes() {
    let c = generate_new_config(None);
    assert_eq!(c.telemetry_machine_id.len(), 64);
    assert!(is_lower_hex(&c.telemetry_machine_id));
    assert_eq!(c.telemetry_mac_machine_id.len(), 64);
    assert!(is_lower_hex(&c.telemetry_mac_machine_id));
    assert_ne!(c.telemetry_machine_id, c.telemetry_mac_machine_id);
    check_device_id(&c.telemetry_dev_device_id);
    check_sqm_id(&c.telemetry_sqm_id);
}

#[test]
fn existing_sqm_id_is_kept() {
    let c = generate_new_config(Some(file_with_sqm("{KEEP-ME}")));
    assert_eq!(c.telemetry_sqm_id, "{KEEP-ME}");
    assert_ne!(c.telemetry_machine_id, "m");
    check_device_id(&c.telemetry_dev_device_id);
}

#[test]
fn empty_sqm_id_is_replaced() {
    let c = generate_new_config(Some(file_with_sqm("")));
    check_sqm_id(&c.telemetry_sqm_id);
}

#[test]
fn retained_sqm_id_only_when_not_empty() {
    assert_eq!(retained_sqm_id(&Some(file_with_sqm("x"))), Some("x".to_string()));
    assert_eq!(retained_sqm_id(&Some(file_with_sqm(""))), None);
    assert_eq!(retained_sqm_id(&None), None);
}

#[test]
fn config_paths_per_system() {
    assert_eq!(
        config_path_components(TargetOs::Windows),
        vec!["AppData", "Roaming", "Cursor", "User", "globalStorage", "storage.json"]
    );
    assert_eq!(
        config_path_components(TargetOs::MacOs),
        vec!["Library", "Application Support", "Cursor", "storage.json"]
    );
    assert_eq!(config_path_components(TargetOs::Other), vec![".config", "Cursor", "storage.json"]);
}

#[test]
fn blank_file_is_empty_config() {
    let c = read_config_contents(" \n\t").unwrap();
    assert_eq!(c.telemetry_machine_id, "");
    assert_eq!(c.telemetry_mac_machine_id, "");
    assert_eq!(c.telemetry_dev_device_id, "");
    assert_eq!(c.telemetry_sqm_id, "");
    assert!(read_config_contents("{}").is_none());
}

#[test]
fn backup_extension_prefixes_json() {
    assert_eq!(backup_extension("backup_20240102_030405"), "json.backup_20240102_030405");
}

#[test]
fn stored_form_keeps_every_identifier() {
    let s = StorageConfig {
        telemetry_machine_id: "a".to_string(),
        telemetry_mac_machine_id: "b".to_string(),
        telemetry_dev_device_id: "c".to_string(),
        telemetry_sqm_id: "d".to_string(),
    };
    let f = ConfigFile::from_storage(&s);
    assert_eq!(
        (f.telemetry_machine_id.as_str(), f.telemetry_mac_machine_id.as_str(), f.telemetry_dev_device_id.as_str(), f.telemetry_sqm_id.as_str()),
        ("a", "b", "c", "d")
    );
    let d = s.duplicate();
    assert_eq!(d.telemetry_sqm_id, "d");
    assert_eq!(ConfigFile::empty().telemetry_sqm_id, "");
}

#[test]
fn config_from_random_places_each_part() {
    let machine = [0xabu8; 32];
    let mac = [0x01u8; 32];
    let uuid = [
        0x12, 0x34, 0x56, 0x78, 0x9a, 0xbc, 0x4d, 0xef, 0x80, 0x01, 0x02, 0x03, 0x04, 0x05, 0x06, 0x07,
    ];
    let c = cursor_guest::config::config_from_random(&machine, &mac, &uuid, "{S}".to_string());
    assert_eq!(c.telemetry_machine_id, "ab".repeat(32));
    assert_eq!(c.telemetry_mac_machine_id, "01".repeat(32));
    assert_eq!(c.telemetry_dev_device_id, "12345678-9abc-4def-8001-020304050607");
    assert_eq!(c.telemetry_sqm_id, "{S}");
}
