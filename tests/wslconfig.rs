use wsl_tamer::config::{NetworkingMode, WslConfig};
use wsl_tamer::ini_file::{equals_ignore_ascii_case, parse_u32_text};

#[test]
fn parse_basic_wslconfig() {
    let content = "[wsl2]\nmemory=8GB\nprocessors=4\nlocalhostForwarding=true\n\n[experimental]\nsparseVhd=true";
    let config = WslConfig::from_ini(content).unwrap();
    assert_eq!(config.memory.as_deref(), Some("8GB"));
    assert_eq!(config.processors, Some(4));
    assert_eq!(config.localhost_forwarding, Some(true));
    assert_eq!(config.sparse_vhd, Some(true));
}

#[test]
fn parse_empty_config() {
    let config = WslConfig::from_ini("").unwrap();
    assert!(config.memory.is_none());
    assert!(config.processors.is_none());
}

#[test]
fn roundtrip_config() {
    let mut config = WslConfig::default();
    config.memory = Some("4GB".into());
    config.processors = Some(2);
    config.networking_mode = Some(NetworkingMode::Mirrored);
    config.sparse_vhd = Some(true);

    let ini_str = config.to_ini();
    let reparsed = WslConfig::from_ini(&ini_str).unwrap();
    assert_eq!(reparsed.memory.as_deref(), Some("4GB"));
    assert_eq!(reparsed.processors, Some(2));
    assert_eq!(reparsed.networking_mode, Some(NetworkingMode::Mirrored));
    assert_eq!(reparsed.sparse_vhd, Some(true));
}

#[test]
fn to_ini_writes_only_set_fields() {
    let mut config = WslConfig::default();
    config.processors = Some(8);
    config.gui_applications = Some(false);
    config.auto_proxy = Some(true);
    assert_eq!(config.to_ini(), "[wsl2]\nprocessors=8\nguiApplications=false\n\n[experimental]\nautoProxy=true");
    assert_eq!(WslConfig::default().to_ini(), "");
}

#[test]
fn from_ini_reads_flags_modes_and_bad_numbers() {
    let content = "[wsl2]\nprocessors=lots\nfirewall=TRUE\ndnsTunneling=yes\nnetworkingMode=Bridged\n[other]\nmemory=1GB\n";
    let config = WslConfig::from_ini(content).unwrap();
    assert_eq!(config.processors, None);
    assert_eq!(config.firewall, Some(true));
    assert_eq!(config.dns_tunneling, Some(false));
    assert_eq!(config.networking_mode, Some(NetworkingMode::Bridged));
    assert!(config.memory.is_none());
}

#[test]
fn from_ini_refuses_broken_text() {
    let err = WslConfig::from_ini("[wsl2\nmemory=1GB").unwrap_err();
    assert!(err.starts_with("Invalid INI format: "));
}

#[test]
fn number_and_case_helpers() {
    assert_eq!(parse_u32_text("42"), Some(42));
    assert_eq!(parse_u32_text("+7"), Some(7));
    assert_eq!(parse_u32_text("4294967295"), Some(u32::MAX));
    assert_eq!(parse_u32_text("4294967296"), None);
    assert_eq!(parse_u32_text("-1"), None);
    assert_eq!(parse_u32_text("+"), None);
    assert_eq!(parse_u32_text(""), None);
    assert!(equals_ignore_ascii_case("TrUe", "true"));
    assert!(!equals_ignore_ascii_case("truth", "true"));
}
