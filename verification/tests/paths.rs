use trin_db::errors::DataDirError;
use trin_db::identity::NodeIdentity;
use trin_db::paths::{
    base_dir_from, build_session_path, needs_temp_data_dir, resolve_base_dir,
    resolve_session_path, DataDirectoryConfig,
};

fn identity_of(first: [u8; 4]) -> NodeIdentity {
    let mut bytes = first.to_vec();
    bytes.extend([0u8; 28]);
    NodeIdentity::new(bytes).unwrap()
}

#[test]
fn session_path_for_known_identity() {
    let id = identity_of([0xde, 0xad, 0xbe, 0xef]);
    let path = build_session_path("/data", &id);
    assert_eq!(path, "/data/Trin_deadbeef");
}

#[test]
fn session_suffix_is_lowercase_and_uses_first_four_bytes_only() {
    let mut bytes = vec![0xab, 0xcd, 0xef, 0x01];
    bytes.extend([0xff_u8; 28]);
    let id = NodeIdentity::new(bytes).unwrap();
    let path = build_session_path("/data", &id);
    assert_eq!(path, "/data/Trin_abcdef01");
}

#[test]
fn session_path_for_minimal_identity() {
    let id = NodeIdentity::new(vec![0x00, 0x01, 0x0a, 0xf0]).unwrap();
    let path = build_session_path("/srv/node", &id);
    assert_eq!(path, "/srv/node/Trin_00010af0");
}

#[test]
fn identity_shorter_than_four_bytes_is_rejected() {
    assert!(NodeIdentity::new(vec![]).is_none());
    assert!(NodeIdentity::new(vec![0xde, 0xad, 0xbe]).is_none());
    assert!(NodeIdentity::new(vec![0xde, 0xad, 0xbe, 0xef]).is_some());
}

#[test]
fn override_wins_base_dir_resolution() {
    let config = DataDirectoryConfig {
        override_path: Some("/custom/dir".to_string()),
        ephemeral: false,
    };
    let base = resolve_base_dir(&config).unwrap();
    assert_eq!(base, "/custom/dir");
}

#[test]
fn resolution_is_deterministic_across_repeated_calls() {
    let config = DataDirectoryConfig {
        override_path: Some("/custom/dir".to_string()),
        ephemeral: false,
    };
    let id = identity_of([0x12, 0x34, 0x56, 0x78]);
    let first = resolve_session_path(&config, &id).unwrap();
    let second = resolve_session_path(&config, &id).unwrap();
    assert_eq!(first, second);
    assert_eq!(first, "/custom/dir/Trin_12345678");
}

#[test]
fn base_dir_choice_prefers_override_then_platform() {
    let chosen = base_dir_from(Some("/a".to_string()), Some("/b".to_string()));
    assert_eq!(chosen.unwrap(), "/a");
    let chosen = base_dir_from(None, Some("/b".to_string()));
    assert_eq!(chosen.unwrap(), "/b");
}

#[test]
fn base_dir_without_any_source_is_unresolvable() {
    let chosen = base_dir_from(None, None);
    assert!(matches!(chosen, Err(DataDirError::UnresolvableBaseDir)));
}

#[test]
fn temp_data_dir_only_when_ephemeral_without_override() {
    let config = |override_path: Option<&str>, ephemeral: bool| DataDirectoryConfig {
        override_path: override_path.map(|s| s.to_string()),
        ephemeral,
    };
    assert!(needs_temp_data_dir(&config(None, true)));
    assert!(!needs_temp_data_dir(&config(None, false)));
    assert!(!needs_temp_data_dir(&config(Some("/x"), true)));
    assert!(!needs_temp_data_dir(&config(Some("/x"), false)));
}

#[test]
fn platform_resolution_without_override_runs() {
    let config = DataDirectoryConfig { override_path: None, ephemeral: false };
    match resolve_base_dir(&config) {
        Ok(base) => assert!(!base.is_empty()),
        Err(e) => assert!(matches!(e, DataDirError::UnresolvableBaseDir)),
    }
}
