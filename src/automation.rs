//! The automation engine: a stateless decision whether a rule's trigger holds in a snapshot of
//! the system.
use vstd::prelude::*;
use crate::profile::{AutomationRule, RuleView, TriggerType};
use crate::text::{chars_of, ends_with_text, has_suffix, lower_of, lowercase, same_text, slice_string, trim, trim_str, views};

verus! {

/// Where the machine draws its power from.
#[derive(Debug, Clone, Copy, PartialEq, Eq, Structural)]
pub enum PowerState {
    AC,
    Battery,
    Unknown,
}

/// A point-in-time snapshot of what the rules look at.
#[derive(Debug, Clone)]
pub struct SystemState {
    pub running_processes: Vec<String>,
    pub power_state: PowerState,
    pub current_time: String,
    pub network_connected: bool,
}

/// What a snapshot holds, as plain values.
pub struct SystemStateView {
    pub running_processes: Seq<Seq<char>>,
    pub power_state: PowerState,
    pub current_time: Seq<char>,
    pub network_connected: bool,
}

impl View for SystemState {
    type V = SystemStateView;

    open spec fn view(&self) -> SystemStateView {
        SystemStateView {
            running_processes: views(self.running_processes@),
            power_state: self.power_state,
            current_time: self.current_time@,
            network_connected: self.network_connected,
        }
    }
}

/// Whether `a` comes before `b` or equals it, comparing character by character.
pub open spec fn text_le(a: Seq<char>, b: Seq<char>) -> bool
    decreases a.len(),
{
    if a.len() == 0 {
        true
    } else if b.len() == 0 {
        false
    } else if a[0] != b[0] {
        a[0] < b[0]
    } else {
        text_le(a.drop_first(), b.drop_first())
    }
}

/// `k` is the position of the one and only `-` in `s`.
pub open spec fn only_dash_at(s: Seq<char>, k: int) -> bool {
    0 <= k < s.len() && s[k] == '-' && forall|j: int| 0 <= j < s.len() && j != k ==> s[j] != '-'
}

/// Whether `now` lies in the range `start-end` that `range` writes, both ends included; a range
/// whose start comes after its end wraps past midnight. A text without exactly one `-` is no
/// range and never matches.
pub open spec fn time_trigger_holds(range: Seq<char>, now: Seq<char>) -> bool {
    if exists|k: int| only_dash_at(range, k) {
        let k = choose|k: int| only_dash_at(range, k);
        let start = trim(range.subrange(0, k));
        let end = trim(range.subrange(k + 1, range.len() as int));
        if text_le(start, end) {
            text_le(start, now) && text_le(now, end)
        } else {
            text_le(start, now) || text_le(now, end)
        }
    } else {
        false
    }
}

/// `s` without a final `.exe`.
pub open spec fn strip_exe(s: Seq<char>) -> Seq<char> {
    if has_suffix(s, ".exe"@) {
        s.subrange(0, s.len() - 4)
    } else {
        s
    }
}

/// Whether a lower-cased process trigger names one of the lower-cased running processes.
pub open spec fn process_trigger_holds(trigger_lower: Seq<char>, running_lower: Seq<Seq<char>>) -> bool {
    exists|i: int| 0 <= i < running_lower.len() && running_lower[i] == strip_exe(trigger_lower)
}

/// Whether a lower-cased power trigger matches the power state.
pub open spec fn power_trigger_holds(trigger_lower: Seq<char>, power: PowerState) -> bool {
    if trigger_lower == "battery"@ || trigger_lower == "on_battery"@ {
        power == PowerState::Battery
    } else if trigger_lower == "ac"@ || trigger_lower == "plugged"@ || trigger_lower == "plugged_in"@ {
        power == PowerState::AC
    } else {
        false
    }
}

/// Whether a lower-cased network trigger matches the connectivity.
pub open spec fn network_trigger_holds(trigger_lower: Seq<char>, connected: bool) -> bool {
    if trigger_lower == "connected"@ || trigger_lower == "online"@ {
        connected
    } else if trigger_lower == "disconnected"@ || trigger_lower == "offline"@ {
        !connected
    } else {
        false
    }
}

/// Whether a rule matches a snapshot: never when it is disabled, else by its trigger kind, with
/// trigger values and process names compared lower-cased.
pub open spec fn rule_holds(rule: RuleView, state: SystemStateView) -> bool {
    rule.is_enabled && match rule.trigger_type {
        TriggerType::Time => time_trigger_holds(rule.trigger_value, state.current_time),
        TriggerType::Process => process_trigger_holds(
            lower_of(rule.trigger_value),
            state.running_processes.map_values(|p: Seq<char>| lower_of(p)),
        ),
        TriggerType::PowerState => power_trigger_holds(lower_of(rule.trigger_value), state.power_state),
        TriggerType::Network => network_trigger_holds(lower_of(rule.trigger_value), state.network_connected),
    }
}

/// The power state that the battery status code reports: `1` is discharging, `2` is on AC power.
pub open spec fn power_state_of(status: Seq<char>) -> PowerState {
    if status == "1"@ {
        PowerState::Battery
    } else if status == "2"@ {
        PowerState::AC
    } else {
        PowerState::Unknown
    }
}

/// A zero-padded 24-hour `HH:MM` time.
pub open spec fn is_clock_time(t: Seq<char>) -> bool {
    &&& t.len() == 5
    &&& t[2] == ':'
    &&& '0' <= t[0] <= '2' && '0' <= t[1] <= '9' && '0' <= t[3] <= '5' && '0' <= t[4] <= '9'
}

/// What `serde_json::from_str::<Vec<String>>` gives for a text: the strings of a JSON array of
/// strings, or nothing when the text is not one.
pub uninterp spec fn json_string_list(text: Seq<char>) -> Option<Seq<Seq<char>>>;

/// Relies on `serde_json::from_str` decoding a JSON array of strings; the result depends on the
/// text alone.
#[verifier::external_body]
fn parse_string_list(text: &str) -> (r: Option<Vec<String>>)
    ensures
        match r {
            Some(v) => json_string_list(text@) == Some(views(v@)),
            None => json_string_list(text@) is None,
        },
{
    serde_json::from_str::<Vec<String>>(text).ok()
}

/// Relies on `chrono::Local::now` formatted with `%H:%M`: the local time, hour and minute each
/// zero-padded to two digits.
#[verifier::external_body]
fn local_time_hhmm() -> (r: String)
    ensures
        is_clock_time(r@),
{
    chrono::Local::now().format("%H:%M").to_string()
}

fn text_le_exec(a: &Vec<char>, b: &Vec<char>) -> (r: bool)
    ensures
        r == text_le(a@, b@),
{
    let mut i: usize = 0;
    assert(a@.subrange(0, a@.len() as int) =~= a@);
    assert(b@.subrange(0, b@.len() as int) =~= b@);
    while i < a.len() && i < b.len() && a[i] == b[i]
        invariant
            i <= a@.len(),
            i <= b@.len(),
            text_le(a@, b@) == text_le(a@.subrange(i as int, a@.len() as int), b@.subrange(i as int, b@.len() as int)),
        decreases a@.len() - i,
    {
        let ghost sa = a@.subrange(i as int, a@.len() as int);
        let ghost sb = b@.subrange(i as int, b@.len() as int);
        assert(sa.drop_first() =~= a@.subrange(i + 1, a@.len() as int));
        assert(sb.drop_first() =~= b@.subrange(i + 1, b@.len() as int));
        i = i + 1;
    }
    let ghost sa = a@.subrange(i as int, a@.len() as int);
    let ghost sb = b@.subrange(i as int, b@.len() as int);
    if i == a.len() {
        true
    } else if i == b.len() {
        false
    } else {
        assert(sa[0] == a@[i as int] && sb[0] == b@[i as int]);
        a[i] < b[i]
    }
}

/// Whether a lower-cased process trigger, without a final `.exe`, equals one of the lower-cased
/// process names.
pub fn process_trigger_lowered(trigger_lower: &str, running_lower: &Vec<String>) -> (r: bool)
    ensures
        r == process_trigger_holds(trigger_lower@, views(running_lower@)),
{
    proof {
        reveal_strlit(".exe");
    }
    let target = if ends_with_text(trigger_lower, ".exe") {
        slice_string(trigger_lower, 0, trigger_lower.unicode_len() - 4)
    } else {
        slice_string(trigger_lower, 0, trigger_lower.unicode_len())
    };
    assert(target@ == strip_exe(trigger_lower@)) by {
        if !has_suffix(trigger_lower@, ".exe"@) {
            assert(trigger_lower@.subrange(0, trigger_lower@.len() as int) =~= trigger_lower@);
        }
    }
    let mut i: usize = 0;
    while i < running_lower.len()
        invariant
            i <= running_lower@.len(),
            target@ == strip_exe(trigger_lower@),
            forall|j: int| 0 <= j < i ==> (#[trigger] running_lower@[j])@ != target@,
        decreases running_lower@.len() - i,
    {
        if running_lower[i] == target {
            assert(views(running_lower@)[i as int] == target@);
            return true;
        }
        i = i + 1;
    }
    assert forall|j: int| 0 <= j < views(running_lower@).len() implies views(running_lower@)[j] != strip_exe(trigger_lower@) by {
        assert(views(running_lower@)[j] == running_lower@[j]@);
    }
    false
}

/// Whether a lower-cased power trigger matches the power state.
pub fn power_trigger_lowered(trigger_lower: &str, power: PowerState) -> (r: bool)
    ensures
        r == power_trigger_holds(trigger_lower@, power),
{
    if same_text(trigger_lower, "battery") || same_text(trigger_lower, "on_battery") {
        power == PowerState::Battery
    } else if same_text(trigger_lower, "ac") || same_text(trigger_lower, "plugged") || same_text(trigger_lower, "plugged_in") {
        power == PowerState::AC
    } else {
        false
    }
}

/// Whether a lower-cased network trigger matches the connectivity.
pub fn network_trigger_lowered(trigger_lower: &str, connected: bool) -> (r: bool)
    ensures
        r == network_trigger_holds(trigger_lower@, connected),
{
    if same_text(trigger_lower, "connected") || same_text(trigger_lower, "online") {
        connected
    } else if same_text(trigger_lower, "disconnected") || same_text(trigger_lower, "offline") {
        !connected
    } else {
        false
    }
}

/// The power state for the battery status that the probe printed, surrounding whitespace ignored.
pub fn power_state_from_status(output: &str) -> (r: PowerState)
    ensures
        r == power_state_of(trim(output@)),
{
    let status = trim_str(output);
    if same_text(status.as_str(), "1") {
        PowerState::Battery
    } else if same_text(status.as_str(), "2") {
        PowerState::AC
    } else {
        PowerState::Unknown
    }
}

/// Holds no state: every decision is a function of a rule and a snapshot.
pub struct AutomationEngine;

impl AutomationEngine {
    /// A snapshot built from what the system probes printed: the JSON list of process names
    /// (no processes when it does not decode), the battery status code, and the connectivity
    /// answer (`true`, in any case, means connected); the time is the local clock's.
    pub fn get_system_state(process_list: &str, battery_status: &str, connectivity: &str) -> (r: SystemState)
        ensures
            r@.running_processes == match json_string_list(process_list@) {
                Some(names) => names,
                None => seq![],
            },
            r@.power_state == power_state_of(trim(battery_status@)),
            r@.network_connected == (lower_of(trim(connectivity@)) == "true"@),
            is_clock_time(r@.current_time),
    {
        let running_processes = match parse_string_list(process_list) {
            Some(v) => v,
            None => {
                let v: Vec<String> = Vec::new();
                assert(views(v@) =~= seq![]);
                v
            },
        };
        let power_state = power_state_from_status(battery_status);
        let answer = lowercase(trim_str(connectivity).as_str());
        let network_connected = same_text(answer.as_str(), "true");
        let current_time = local_time_hhmm();
        SystemState { running_processes, power_state, current_time, network_connected }
    }

    /// Whether the rule matches the snapshot.
    pub fn evaluate_rule(rule: &AutomationRule, state: &SystemState) -> (r: bool)
        ensures
            r == rule_holds(rule@, state@),
    {
        if !rule.is_enabled {
            return false;
        }
        match rule.trigger_type {
            TriggerType::Time => Self::evaluate_time_trigger(rule.trigger_value.as_str(), state.current_time.as_str()),
            TriggerType::Process => Self::evaluate_process_trigger(rule.trigger_value.as_str(), &state.running_processes),
            TriggerType::PowerState => Self::evaluate_power_trigger(rule.trigger_value.as_str(), state.power_state),
            TriggerType::Network => Self::evaluate_network_trigger(rule.trigger_value.as_str(), state.network_connected),
        }
    }

    /// Whether `current_time` lies in the `HH:MM-HH:MM` range of the trigger.
    pub fn evaluate_time_trigger(trigger_value: &str, current_time: &str) -> (r: bool)
        ensures
            r == time_trigger_holds(trigger_value@, current_time@),
    {
        let cs = chars_of(trigger_value);
        let mut dash: usize = 0;
        let mut dashes: usize = 0;
        let mut i: usize = 0;
        while i < cs.len()
            invariant
                i <= cs@.len(),
                dashes <= i,
                dashes == 0 ==> forall|j: int| 0 <= j < i ==> cs@[j] != '-',
                dashes == 1 ==> dash < i && cs@[dash as int] == '-' && forall|j: int| 0 <= j < i && j != dash ==> cs@[j] != '-',
                dashes >= 2 ==> dash < i && cs@[dash as int] == '-' && exists|j: int| 0 <= j < i && j != dash && cs@[j] == '-',
            decreases cs@.len() - i,
        {
            if cs[i] == '-' {
                if dashes == 0 {
                    dash = i;
                }
                dashes = dashes + 1;
            }
            i = i + 1;
        }
        if dashes != 1 {
            assert(!exists|k: int| only_dash_at(trigger_value@, k)) by {
                if dashes >= 2 {
                    let j = choose|j: int| 0 <= j < cs@.len() && j != dash && cs@[j] == '-';
                    assert forall|k: int| !only_dash_at(trigger_value@, k) by {
                        if only_dash_at(trigger_value@, k) {
                            if k == dash {
                                assert(trigger_value@[j] == '-');
                            } else {
                                assert(trigger_value@[dash as int] == '-');
                            }
                        }
                    }
                }
            }
            return false;
        }
        assert(only_dash_at(trigger_value@, dash as int));
        assert forall|k: int| only_dash_at(trigger_value@, k) implies k == dash by {
            if k != dash {
                assert(trigger_value@[dash as int] == '-');
            }
        }
        let start = trim_str(slice_string(trigger_value, 0, dash).as_str());
        let end = trim_str(slice_string(trigger_value, dash + 1, cs.len()).as_str());
        let s = chars_of(start.as_str());
        let e = chars_of(end.as_str());
        let now = chars_of(current_time);
        if text_le_exec(&s, &e) {
            text_le_exec(&s, &now) && text_le_exec(&now, &e)
        } else {
            text_le_exec(&s, &now) || text_le_exec(&now, &e)
        }
    }

    /// Whether the trigger, lower-cased and without a final `.exe`, names a running process,
    /// lower-cased.
    pub fn evaluate_process_trigger(trigger_value: &str, running: &Vec<String>) -> (r: bool)
        ensures
            r == process_trigger_holds(lower_of(trigger_value@), views(running@).map_values(|p: Seq<char>| lower_of(p))),
    {
        let target = lowercase(trigger_value);
        let mut lowered: Vec<String> = Vec::new();
        let mut i: usize = 0;
        while i < running.len()
            invariant
                i <= running@.len(),
                views(lowered@) =~= views(running@.subrange(0, i as int)).map_values(|p: Seq<char>| lower_of(p)),
            decreases running@.len() - i,
        {
            let l = lowercase(running[i].as_str());
            let ghost before = lowered@;
            lowered.push(l);
            proof {
                assert(views(lowered@) =~= views(before).push(l@));
                assert(views(running@.subrange(0, i + 1)) =~= views(running@.subrange(0, i as int)).push(running@[i as int]@));
            }
            i = i + 1;
        }
        assert(running@.subrange(0, running@.len() as int) =~= running@);
        process_trigger_lowered(target.as_str(), &lowered)
    }

    /// Whether the trigger, lower-cased, matches the power state.
    pub fn evaluate_power_trigger(trigger_value: &str, power_state: PowerState) -> (r: bool)
        ensures
            r == power_trigger_holds(lower_of(trigger_value@), power_state),
    {
        let lower = lowercase(trigger_value);
        power_trigger_lowered(lower.as_str(), power_state)
    }

    /// Whether the trigger, lower-cased, matches the connectivity.
    pub fn evaluate_network_trigger(trigger_value: &str, connected: bool) -> (r: bool)
        ensures
            r == network_trigger_holds(lower_of(trigger_value@), connected),
    {
        let lower = lowercase(trigger_value);
        network_trigger_lowered(lower.as_str(), connected)
    }
}

} // verus!
