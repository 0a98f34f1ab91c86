use wsl_tamer::sanitize::{
    validate_bus_id, validate_device_path, validate_distro_name, validate_linux_path, validate_windows_path,
};

#[test]
fn test_valid_distro_names() {
    assert!(validate_distro_name("Ubuntu").is_ok());
    assert!(validate_distro_name("Ubuntu-22.04").is_ok());
    assert!(validate_distro_name("my_distro").is_ok());
    assert!(validate_distro_name("a").is_ok());
}

#[test]
fn test_invalid_distro_names() {
    assert!(validate_distro_name("").is_err());
    assert!(validate_distro_name("test; rm -rf /").is_err());
    assert!(validate_distro_name("test`whoami`").is_err());
    assert!(validate_distro_name("../../../etc/passwd").is_err());
}

#[test]
fn test_distro_name_max_length() {
    let long_name = "a".repeat(100);
    assert!(validate_distro_name(&long_name).is_ok());
    let too_long = "a".repeat(101);
    assert!(validate_distro_name(&too_long).is_err());
}

#[test]
fn test_distro_name_path_traversal() {
    assert!(validate_distro_name("..").is_err());
    assert!(validate_distro_name("foo..bar").is_err());
}

#[test]
fn test_distro_name_rejects_spaces_and_specials() {
    assert!(validate_distro_name("my distro").is_err());
    assert!(validate_distro_name("name$var").is_err());
    assert!(validate_distro_name("name|pipe").is_err());
    assert!(validate_distro_name("name&bg").is_err());
}

#[test]
fn test_valid_linux_paths() {
    assert!(validate_linux_path("/home/user").is_ok());
    assert!(validate_linux_path("/mnt/c/Users").is_ok());
    assert!(validate_linux_path("/").is_ok());
}

#[test]
fn test_invalid_linux_paths() {
    assert!(validate_linux_path("").is_err());
    assert!(validate_linux_path("relative/path").is_err());
    assert!(validate_linux_path("/home; rm -rf /").is_err());
    assert!(validate_linux_path("/home`whoami`").is_err());
}

#[test]
fn test_linux_path_rejects_shell_chars() {
    assert!(validate_linux_path("/path'inject").is_err());
    assert!(validate_linux_path("/path\"inject").is_err());
    assert!(validate_linux_path("/path$HOME").is_err());
    assert!(validate_linux_path("/path\0null").is_err());
}

#[test]
fn test_valid_windows_paths() {
    assert!(validate_windows_path("C:\\Users\\test").is_ok());
    assert!(validate_windows_path("D:\\folder\\file.txt").is_ok());
}

#[test]
fn test_invalid_windows_paths() {
    assert!(validate_windows_path("").is_err());
    assert!(validate_windows_path("C:\\path;inject").is_err());
    assert!(validate_windows_path("C:\\path<file").is_err());
    assert!(validate_windows_path("C:\\path>file").is_err());
    assert!(validate_windows_path("C:\\path|pipe").is_err());
}

#[test]
fn test_valid_bus_ids() {
    assert!(validate_bus_id("1-2").is_ok());
    assert!(validate_bus_id("1-2.3").is_ok());
    assert!(validate_bus_id("10-15.2").is_ok());
}

#[test]
fn test_invalid_bus_ids() {
    assert!(validate_bus_id("").is_err());
    assert!(validate_bus_id("abc").is_err());
    assert!(validate_bus_id("1;2").is_err());
    assert!(validate_bus_id("1 2").is_err());
}

#[test]
fn test_valid_device_paths() {
    assert!(validate_device_path("\\\\.\\PhysicalDrive0").is_ok());
    assert!(validate_device_path("COM1").is_ok());
}

#[test]
fn test_invalid_device_paths() {
    assert!(validate_device_path("").is_err());
    assert!(validate_device_path("\\\\.\\Drive;inject").is_err());
    assert!(validate_device_path("path with spaces").is_err());
}

#[test]
fn validation_messages_name_the_problem() {
    assert_eq!(validate_distro_name("").unwrap_err(), "Distribution name cannot be empty");
    assert_eq!(validate_distro_name(&"a".repeat(101)).unwrap_err(), "Distribution name too long (max 100 chars)");
    assert_eq!(validate_distro_name("a b").unwrap_err(), "Distribution name contains invalid characters");
    assert_eq!(validate_distro_name("a..b").unwrap_err(), "Invalid distribution name");
    assert_eq!(validate_linux_path("x/y").unwrap_err(), "Linux path must be absolute (start with /)");
    assert_eq!(validate_windows_path("C:\\a>b").unwrap_err(), "Path contains invalid characters");
    assert_eq!(validate_bus_id("1;2").unwrap_err(), "Invalid bus ID format");
    assert_eq!(validate_device_path("").unwrap_err(), "Device path cannot be empty");
    assert_eq!(validate_distro_name("Ubuntu-22.04"), Ok("Ubuntu-22.04"));
}

#[test]
fn distro_name_length_counts_bytes() {
    // 50 two-byte letters are 100 bytes; 51 are over the limit
    let fifty = "é".repeat(50);
    assert!(validate_distro_name(&fifty).is_ok());
    let fifty_one = "é".repeat(51);
    assert!(validate_distro_name(&fifty_one).is_err());
}
