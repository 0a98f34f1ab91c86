use wsl_tamer::config::{AppConfig, NetworkingMode, Theme, WslConfig};
use wsl_tamer::profile::{AutomationRule, TriggerType, WslProfile};
use wsl_tamer::profile_manager::ProfileManager;

fn profile(id: &str) -> WslProfile {
    WslProfile {
        id: id.to_string(),
        name: format!("Profile {}", id),
        memory: "4GB".to_string(),
        processors: 2,
        swap: "0".to_string(),
        localhost_forwarding: true,
        kernel_path: None,
        networking_mode: "NAT".to_string(),
        gui_applications: true,
        debug_console: false,
    }
}

fn rule(id: &str, enabled: bool) -> AutomationRule {
    AutomationRule {
        id: id.to_string(),
        name: "Rule".to_string(),
        is_enabled: enabled,
        trigger_type: TriggerType::Time,
        trigger_value: "09:00-17:00".to_string(),
        target_profile_id: "eco".to_string(),
    }
}

#[test]
fn test_profile_crud() {
    let mut manager = ProfileManager::new();
    manager.init_defaults();

    let profiles = manager.get_profiles();
    assert_eq!(profiles.len(), 3);

    let eco = manager.get_profile("eco").unwrap();
    assert_eq!(eco.name, "Eco Mode");

    let mut updated = eco.clone();
    updated.memory = "3GB".to_string();
    manager.save_profile(updated).unwrap();

    let eco = manager.get_profile("eco").unwrap();
    assert_eq!(eco.memory, "3GB");
}

#[test]
fn init_defaults_sets_balanced_default_once() {
    let mut manager = ProfileManager::new();
    manager.init_defaults();
    assert_eq!(manager.get_config().default_profile_id.as_deref(), Some("balanced"));
    assert_eq!(manager.get_current_profile().unwrap().id, "balanced");
    manager.delete_profile("unleashed").unwrap();
    manager.init_defaults();
    assert_eq!(manager.get_profiles().len(), 2);
}

#[test]
fn delete_only_profile_is_refused() {
    let mut manager = ProfileManager::new();
    manager.save_profile(profile("solo")).unwrap();
    let err = manager.delete_profile("solo").unwrap_err();
    assert_eq!(err, "Cannot delete the last profile");
    assert_eq!(manager.get_profiles().len(), 1);
    assert_eq!(manager.get_profiles()[0].id, "solo");
}

#[test]
fn delete_default_profile_moves_default() {
    let mut manager = ProfileManager::new();
    manager.init_defaults();
    manager.delete_profile("balanced").unwrap();
    let ids: Vec<String> = manager.get_profiles().into_iter().map(|p| p.id).collect();
    assert_eq!(ids, vec!["eco".to_string(), "unleashed".to_string()]);
    assert_eq!(manager.get_config().default_profile_id.as_deref(), Some("eco"));
}

#[test]
fn delete_other_profile_keeps_default() {
    let mut manager = ProfileManager::new();
    manager.init_defaults();
    manager.delete_profile("eco").unwrap();
    assert_eq!(manager.get_config().default_profile_id.as_deref(), Some("balanced"));
    assert!(manager.get_profile("eco").is_none());
}

#[test]
fn save_profile_appends_new_id() {
    let mut manager = ProfileManager::new();
    manager.init_defaults();
    manager.save_profile(profile("gaming")).unwrap();
    let profiles = manager.get_profiles();
    assert_eq!(profiles.len(), 4);
    assert_eq!(profiles[3].id, "gaming");
}

#[test]
fn default_and_current_selection() {
    let mut manager = ProfileManager::new();
    manager.init_defaults();
    assert_eq!(manager.set_default_profile("missing").unwrap_err(), "Profile not found");
    manager.set_default_profile("eco").unwrap();
    assert_eq!(manager.get_current_profile().unwrap().id, "eco");
    manager.set_current_profile("unleashed").unwrap();
    assert_eq!(manager.get_current_profile().unwrap().id, "unleashed");
    // the current id is stored without a check, and then names no profile
    manager.set_current_profile("ghost").unwrap();
    assert!(manager.get_current_profile().is_none());
}

#[test]
fn toggle_rule_flips_and_reports() {
    let mut manager = ProfileManager::new();
    manager.save_rule(rule("r1", true)).unwrap();
    assert_eq!(manager.toggle_rule("r1"), Ok(false));
    assert!(!manager.get_rules()[0].is_enabled);
    assert_eq!(manager.toggle_rule("r1"), Ok(true));
    assert_eq!(manager.toggle_rule("nope").unwrap_err(), "Rule not found");
}

#[test]
fn rules_upsert_and_delete_to_empty() {
    let mut manager = ProfileManager::new();
    manager.save_rule(rule("r1", true)).unwrap();
    let mut changed = rule("r1", false);
    changed.name = "Renamed".to_string();
    manager.save_rule(changed).unwrap();
    assert_eq!(manager.get_rules().len(), 1);
    assert_eq!(manager.get_rules()[0].name, "Renamed");
    manager.delete_rule("r1").unwrap();
    assert!(manager.get_rules().is_empty());
}

#[test]
fn load_config_replaces_everything() {
    let mut manager = ProfileManager::new();
    manager.init_defaults();
    let mut stored = AppConfig::default();
    stored.profiles.push(profile("x"));
    stored.current_profile_id = Some("x".to_string());
    stored.theme = Theme::Light;
    manager.load_config(stored).unwrap();
    assert_eq!(manager.get_profiles().len(), 1);
    assert_eq!(manager.get_current_profile().unwrap().id, "x");
    assert_eq!(manager.get_config().theme, Theme::Light);
}

#[test]
fn profile_renders_wslconfig() {
    let mut p = profile("p");
    p.kernel_path = Some("C:\\kernel".to_string());
    p.processors = 12;
    assert_eq!(
        p.to_wslconfig(),
        "[wsl2]\nmemory=4GB\nprocessors=12\nswap=0\nlocalhostForwarding=true\nkernel=C:\\kernel\nnetworkingMode=NAT\nguiApplications=true\ndebugConsole=false\n"
    );
    let mut q = profile("q");
    q.memory = String::new();
    q.processors = 0;
    q.swap = String::new();
    q.networking_mode = String::new();
    q.kernel_path = Some(String::new());
    q.localhost_forwarding = false;
    assert_eq!(q.to_wslconfig(), "[wsl2]\nlocalhostForwarding=false\nguiApplications=true\ndebugConsole=false\n");
}

#[test]
fn default_profile_has_fresh_id() {
    let a = WslProfile::default();
    let b = WslProfile::default();
    assert_eq!(a.id.len(), 36);
    assert_ne!(a.id, b.id);
    assert_eq!(a.name, "New Profile");
    assert_eq!(a.processors, 2);
}

#[test]
fn validate_good_config() {
    let mut config = WslConfig::default();
    config.memory = Some("8GB".into());
    config.processors = Some(4);
    config.swap = Some("2GB".into());
    assert!(config.validate().is_empty());
}

#[test]
fn validate_bad_memory() {
    let mut config = WslConfig::default();
    config.memory = Some("lots".into());
    let warnings = config.validate();
    assert_eq!(warnings.len(), 1);
    assert!(warnings[0].contains("Invalid memory format"));
}

#[test]
fn validate_bad_processors() {
    let mut config = WslConfig::default();
    config.processors = Some(0);
    assert!(!config.validate().is_empty());
    config.processors = Some(200);
    assert!(!config.validate().is_empty());
}

#[test]
fn validate_swap_zero() {
    let mut config = WslConfig::default();
    config.swap = Some("0".into());
    assert!(config.validate().is_empty());
}

#[test]
fn validate_reports_each_problem_in_order() {
    let mut config = WslConfig::default();
    config.memory = Some("8gb".into());
    config.processors = Some(129);
    config.swap = Some("lots".into());
    let warnings = config.validate();
    assert_eq!(
        warnings,
        vec![
            "Processor count 129 out of range (1-128)".to_string(),
            "Invalid swap format 'lots': expected e.g. '2GB', '512MB', or '0'".to_string(),
        ]
    );
    config.memory = Some("big".into());
    config.processors = Some(128);
    config.swap = Some("512mb".into());
    assert_eq!(
        config.validate(),
        vec!["Invalid memory format 'big': expected e.g. '4GB' or '512MB'".to_string()]
    );
}

#[test]
fn networking_mode_parsing() {
    assert_eq!(NetworkingMode::from_str("mirrored"), NetworkingMode::Mirrored);
    assert_eq!(NetworkingMode::from_str("BRIDGED"), NetworkingMode::Bridged);
    assert_eq!(NetworkingMode::from_str("anything"), NetworkingMode::Nat);
    assert_eq!(NetworkingMode::from_lowercase("mirrored"), NetworkingMode::Mirrored);
    assert_eq!(NetworkingMode::from_lowercase("Mirrored"), NetworkingMode::Nat);
    assert_eq!(NetworkingMode::Bridged.as_str(), "bridged");
}

#[test]
fn delete_current_profile_falls_back_to_default() {
    let mut manager = ProfileManager::new();
    manager.init_defaults();
    manager.set_current_profile("eco").unwrap();
    manager.delete_profile("eco").unwrap();
    assert!(manager.get_config().current_profile_id.is_none());
    assert_eq!(manager.get_current_profile().unwrap().id, "balanced");
    manager.set_current_profile("unleashed").unwrap();
    manager.delete_profile("balanced").unwrap();
    assert_eq!(manager.get_config().current_profile_id.as_deref(), Some("unleashed"));
    assert_eq!(manager.get_config().default_profile_id.as_deref(), Some("unleashed"));
}
