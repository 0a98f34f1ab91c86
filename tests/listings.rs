use wsl_tamer::distro::{DistributionState, WslService};
use wsl_tamer::encoding::{clean_distro_name, decode_utf16le, scrub_decoded};
use wsl_tamer::hardware::HardwareService;

#[test]
fn test_parse_distributions() {
    let output = "  NAME      STATE           VERSION\n* Ubuntu    Running         2\n  Debian    Stopped         2";
    let distros = WslService::parse_distributions(output).unwrap();

    assert_eq!(distros.len(), 2);
    assert_eq!(distros[0].name, "Ubuntu");
    assert!(distros[0].is_default);
    assert_eq!(distros[0].state, DistributionState::Running);
    assert_eq!(distros[1].name, "Debian");
    assert!(!distros[1].is_default);
    assert_eq!(distros[1].state, DistributionState::Stopped);
}

#[test]
fn parse_distributions_edge_rows() {
    let output = "Ubuntu Installing\r\n\r\n*kali-linux RUNNING 1\nlonely\n\u{1}\u{2} Stopped 2\n";
    let distros = WslService::parse_distributions(output).unwrap();
    assert_eq!(distros.len(), 2);
    assert_eq!(distros[0].name, "Ubuntu");
    assert_eq!(distros[0].state, DistributionState::Installing);
    assert_eq!(distros[0].version, "2");
    assert_eq!(distros[1].name, "kali-linux");
    assert!(distros[1].is_default);
    assert_eq!(distros[1].state, DistributionState::Running);
    assert_eq!(distros[1].version, "1");
    assert!(WslService::parse_distributions("").unwrap().is_empty());
}

#[test]
fn parse_online_distributions_skips_headers() {
    let output = "The following is a list\nInstall using\n\nNAME            FRIENDLY NAME\nUbuntu  Ubuntu\nDebian  Debian GNU/Linux\nkali\n";
    let distros = WslService::parse_online_distributions(output).unwrap();
    assert_eq!(distros.len(), 4);
    assert_eq!(distros[0].name, "NAME");
    assert_eq!(distros[2].name, "Debian");
    assert_eq!(distros[2].friendly_name, "Debian GNU/Linux");
    assert_eq!(distros[3].name, "kali");
    assert_eq!(distros[3].friendly_name, "kali");
}

#[test]
fn status_lines_and_running_listing() {
    let status = "Default Distribution: Ubuntu\nDefault Version: 2\nKernel version: 5.15.1\n";
    assert_eq!(WslService::status_value(status, "default version").as_deref(), Some("2"));
    assert_eq!(WslService::status_value(status, "kernel version").as_deref(), Some("5.15.1"));
    assert_eq!(WslService::status_value(status, "missing"), None);
    assert!(!WslService::listing_shows_running("Windows Subsystem for Linux Distributions:\n\n"));
    assert!(WslService::listing_shows_running("Windows Subsystem for Linux Distributions:\nUbuntu (Default)\n"));
}

#[test]
fn distribution_state_words() {
    assert_eq!(DistributionState::from_word("RUNNING"), DistributionState::Running);
    assert_eq!(DistributionState::from_word("stopped"), DistributionState::Stopped);
    assert_eq!(DistributionState::from_word("Converting"), DistributionState::Unknown);
}

#[test]
fn test_decode_utf16le() {
    let bytes: [u8; 12] = [0x55, 0x00, 0x62, 0x00, 0x75, 0x00, 0x6E, 0x00, 0x74, 0x00, 0x75, 0x00];
    assert_eq!(decode_utf16le(&bytes), "Ubuntu");
}

#[test]
fn decode_utf16le_bom_odd_and_short() {
    let bytes: [u8; 9] = [0xFF, 0xFE, 0x41, 0x00, 0x0D, 0x00, 0x0A, 0x00, 0x42];
    assert_eq!(decode_utf16le(&bytes), "A\n");
    assert_eq!(decode_utf16le(&[0x41]), "A");
    assert_eq!(decode_utf16le(&[0x0D]), "");
    assert_eq!(decode_utf16le(&[]), "");
    assert_eq!(scrub_decoded("a\0b\r\nc"), "ab\nc");
}

#[test]
fn test_clean_distro_name() {
    assert_eq!(clean_distro_name("Ubuntu\0\0"), "Ubuntu");
    assert_eq!(clean_distro_name("  Debian  "), "Debian");
    assert_eq!(clean_distro_name("kali-linux"), "kali-linux");
}

#[test]
fn test_parse_usb_devices_typical() {
    let output = "Connected:\n\
BUSID\tVID:PID\tDEVICE\tSTATE\n\
2-1\t046d:c52b\tLogitech USB Input Device\tNot shared\n\
3-2\t8087:0029\tIntel Wireless Bluetooth\tShared\n\
4-1\t1234:5678\tUSB Camera\tAttached";

    let devices = HardwareService::parse_usb_devices(output).unwrap();
    assert_eq!(devices.len(), 3);
    assert_eq!(devices[0].bus_id, "2-1");
    assert!(!devices[0].is_attached);
    assert_eq!(devices[2].bus_id, "4-1");
    assert!(devices[2].is_attached);
}

#[test]
fn test_parse_usb_devices_empty_output() {
    let output = "Connected:\nBUSID\tVID:PID\tDEVICE\tSTATE";
    let devices = HardwareService::parse_usb_devices(output).unwrap();
    assert!(devices.is_empty());
}

#[test]
fn test_parse_usb_devices_with_separators() {
    let output = "Connected:\n\
BUSID\tVID:PID\tDEVICE\tSTATE\n\
---\n\
1-1\tabcd:1234\tTest Device\tShared";

    let devices = HardwareService::parse_usb_devices(output).unwrap();
    assert_eq!(devices.len(), 1);
    assert_eq!(devices[0].bus_id, "1-1");
}

#[test]
fn usb_description_and_short_rows() {
    let output = "h1\nh2\n5-3 0bda:8153 Realtek USB GbE Family Attached\n6-1 aaaa:bbbb Mouse\n7-1 x\n";
    let devices = HardwareService::parse_usb_devices(output).unwrap();
    assert_eq!(devices.len(), 2);
    assert_eq!(devices[0].description, "Realtek USB GbE Family");
    assert_eq!(devices[0].state, "USB GbE Family Attached");
    assert!(devices[0].is_attached);
    assert_eq!(devices[1].description, "Mouse");
    assert_eq!(devices[1].state, "Mouse");
}

#[test]
fn mounted_disks_from_lsblk() {
    let output = "sda\nsdb /mnt/wsl/data\n  /mnt/c\nsdc /\n";
    assert_eq!(HardwareService::get_mounted_disks(output), vec!["sdb".to_string(), "/mnt/c".to_string()]);
}
