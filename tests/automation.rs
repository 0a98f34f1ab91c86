use wsl_tamer::automation::{AutomationEngine, PowerState, SystemState};
use wsl_tamer::profile::{AutomationRule, TriggerType};

fn make_state(time: &str, processes: Vec<&str>, power: PowerState, network: bool) -> SystemState {
    SystemState {
        current_time: time.to_string(),
        running_processes: processes.iter().map(|s| s.to_string()).collect(),
        power_state: power,
        network_connected: network,
    }
}

fn make_rule(trigger_type: TriggerType, trigger_value: &str) -> AutomationRule {
    AutomationRule {
        id: "test".to_string(),
        name: "Test Rule".to_string(),
        is_enabled: true,
        trigger_type,
        trigger_value: trigger_value.to_string(),
        target_profile_id: "profile1".to_string(),
    }
}

#[test]
fn test_time_trigger_normal_range() {
    let rule = make_rule(TriggerType::Time, "09:00-17:00");
    let state = make_state("12:00", vec![], PowerState::AC, true);
    assert!(AutomationEngine::evaluate_rule(&rule, &state));
}

#[test]
fn test_time_trigger_outside_range() {
    let rule = make_rule(TriggerType::Time, "09:00-17:00");
    let state = make_state("20:00", vec![], PowerState::AC, true);
    assert!(!AutomationEngine::evaluate_rule(&rule, &state));
}

#[test]
fn test_time_trigger_overnight_range() {
    let rule = make_rule(TriggerType::Time, "22:00-06:00");
    let state = make_state("23:00", vec![], PowerState::AC, true);
    assert!(AutomationEngine::evaluate_rule(&rule, &state));
}

#[test]
fn test_time_trigger_overnight_morning() {
    let rule = make_rule(TriggerType::Time, "22:00-06:00");
    let state = make_state("03:00", vec![], PowerState::AC, true);
    assert!(AutomationEngine::evaluate_rule(&rule, &state));
}

#[test]
fn overnight_range_excludes_midday() {
    let rule = make_rule(TriggerType::Time, "22:00-06:00");
    let state = make_state("12:00", vec![], PowerState::AC, true);
    assert!(!AutomationEngine::evaluate_rule(&rule, &state));
}

#[test]
fn time_range_includes_both_ends_and_trims() {
    assert!(AutomationEngine::evaluate_time_trigger(" 09:00 - 17:00 ", "09:00"));
    assert!(AutomationEngine::evaluate_time_trigger("09:00-17:00", "17:00"));
    assert!(!AutomationEngine::evaluate_time_trigger("09:00-17:00", "17:01"));
}

#[test]
fn malformed_time_range_never_matches() {
    assert!(!AutomationEngine::evaluate_time_trigger("09:00", "09:00"));
    assert!(!AutomationEngine::evaluate_time_trigger("09:00-12:00-17:00", "10:00"));
    assert!(!AutomationEngine::evaluate_time_trigger("", "10:00"));
}

#[test]
fn test_process_trigger_match() {
    let rule = make_rule(TriggerType::Process, "code");
    let state = make_state("12:00", vec!["code", "chrome"], PowerState::AC, true);
    assert!(AutomationEngine::evaluate_rule(&rule, &state));
}

#[test]
fn test_process_trigger_no_match() {
    let rule = make_rule(TriggerType::Process, "slack");
    let state = make_state("12:00", vec!["code", "chrome"], PowerState::AC, true);
    assert!(!AutomationEngine::evaluate_rule(&rule, &state));
}

#[test]
fn test_process_trigger_case_insensitive() {
    let rule = make_rule(TriggerType::Process, "Code");
    let state = make_state("12:00", vec!["CODE", "chrome"], PowerState::AC, true);
    assert!(AutomationEngine::evaluate_rule(&rule, &state));
}

#[test]
fn process_trigger_strips_exe_suffix() {
    let rule = make_rule(TriggerType::Process, "Code.exe");
    let state = make_state("12:00", vec!["CODE", "chrome"], PowerState::AC, true);
    assert!(AutomationEngine::evaluate_rule(&rule, &state));
    let lowered = vec!["code".to_string()];
    assert!(wsl_tamer::automation::process_trigger_lowered("code.exe", &lowered));
    assert!(!wsl_tamer::automation::process_trigger_lowered("code.exe.bak", &lowered));
}

#[test]
fn test_power_trigger_battery() {
    let rule = make_rule(TriggerType::PowerState, "battery");
    let state = make_state("12:00", vec![], PowerState::Battery, true);
    assert!(AutomationEngine::evaluate_rule(&rule, &state));
}

#[test]
fn test_power_trigger_ac() {
    let rule = make_rule(TriggerType::PowerState, "ac");
    let state = make_state("12:00", vec![], PowerState::AC, true);
    assert!(AutomationEngine::evaluate_rule(&rule, &state));
}

#[test]
fn power_trigger_aliases_and_unknown() {
    assert!(AutomationEngine::evaluate_power_trigger("On_Battery", PowerState::Battery));
    assert!(AutomationEngine::evaluate_power_trigger("PLUGGED_IN", PowerState::AC));
    assert!(!AutomationEngine::evaluate_power_trigger("battery", PowerState::Unknown));
    assert!(!AutomationEngine::evaluate_power_trigger("ac", PowerState::Unknown));
    assert!(!AutomationEngine::evaluate_power_trigger("solar", PowerState::AC));
}

#[test]
fn test_network_trigger_connected() {
    let rule = make_rule(TriggerType::Network, "connected");
    let state = make_state("12:00", vec![], PowerState::AC, true);
    assert!(AutomationEngine::evaluate_rule(&rule, &state));
}

#[test]
fn test_network_trigger_disconnected() {
    let rule = make_rule(TriggerType::Network, "disconnected");
    let state = make_state("12:00", vec![], PowerState::AC, false);
    assert!(AutomationEngine::evaluate_rule(&rule, &state));
}

#[test]
fn network_trigger_aliases() {
    assert!(AutomationEngine::evaluate_network_trigger("Online", true));
    assert!(!AutomationEngine::evaluate_network_trigger("online", false));
    assert!(AutomationEngine::evaluate_network_trigger("OFFLINE", false));
    assert!(!AutomationEngine::evaluate_network_trigger("wifi", true));
}

#[test]
fn test_disabled_rule_never_matches() {
    let mut rule = make_rule(TriggerType::Process, "code");
    rule.is_enabled = false;
    let state = make_state("12:00", vec!["code"], PowerState::AC, true);
    assert!(!AutomationEngine::evaluate_rule(&rule, &state));
}

#[test]
fn snapshot_from_probe_output() {
    let s = AutomationEngine::get_system_state("[\"Code\",\"chrome\"]", " 1\r\n", "True\r\n");
    assert_eq!(s.running_processes, vec!["Code".to_string(), "chrome".to_string()]);
    assert_eq!(s.power_state, PowerState::Battery);
    assert!(s.network_connected);
    assert_eq!(s.current_time.len(), 5);
    assert_eq!(&s.current_time[2..3], ":");
    let s = AutomationEngine::get_system_state("not json", "2", "False");
    assert!(s.running_processes.is_empty());
    assert_eq!(s.power_state, PowerState::AC);
    assert!(!s.network_connected);
    let s = AutomationEngine::get_system_state("[]", "", "");
    assert_eq!(s.power_state, PowerState::Unknown);
}
