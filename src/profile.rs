//! Resource profiles and automation rules, and how a profile is rendered as `.wslconfig` text.
use vstd::prelude::*;
use crate::text::{decimal, push_decimal};

verus! {

/// A named bundle of resource settings for the virtual machine.
#[derive(Debug, Clone, PartialEq)]
pub struct WslProfile {
    pub id: String,
    pub name: String,
    pub memory: String,
    pub processors: u32,
    pub swap: String,
    pub localhost_forwarding: bool,
    pub kernel_path: Option<String>,
    pub networking_mode: String,
    pub gui_applications: bool,
    pub debug_console: bool,
}

/// What a profile holds, as plain values.
pub struct ProfileView {
    pub id: Seq<char>,
    pub name: Seq<char>,
    pub memory: Seq<char>,
    pub processors: u32,
    pub swap: Seq<char>,
    pub localhost_forwarding: bool,
    pub kernel_path: Option<Seq<char>>,
    pub networking_mode: Seq<char>,
    pub gui_applications: bool,
    pub debug_console: bool,
}

/// The view of an optional string.
pub open spec fn opt_view(o: Option<String>) -> Option<Seq<char>> {
    match o {
        Some(s) => Some(s@),
        None => None,
    }
}

/// A copy of an optional string.
pub fn copy_opt(o: &Option<String>) -> (r: Option<String>)
    ensures
        opt_view(r) == opt_view(*o),
{
    match o {
        Some(s) => Some(s.clone()),
        None => None,
    }
}

impl View for WslProfile {
    type V = ProfileView;

    open spec fn view(&self) -> ProfileView {
        ProfileView {
            id: self.id@,
            name: self.name@,
            memory: self.memory@,
            processors: self.processors,
            swap: self.swap@,
            localhost_forwarding: self.localhost_forwarding,
            kernel_path: opt_view(self.kernel_path),
            networking_mode: self.networking_mode@,
            gui_applications: self.gui_applications,
            debug_console: self.debug_console,
        }
    }
}

/// The text `true` or `false`.
pub open spec fn bool_text(b: bool) -> Seq<char> {
    if b {
        "true"@
    } else {
        "false"@
    }
}

/// `key=value` and a line break, or nothing when `value` is empty.
pub open spec fn optional_line(key: Seq<char>, value: Seq<char>) -> Seq<char> {
    if value.len() > 0 {
        key + value + "\n"@
    } else {
        seq![]
    }
}

/// The `.wslconfig` text of a profile: a `[wsl2]` section with one `key=value` line for each
/// setting, leaving out an empty memory, swap, kernel path or networking mode and a processor
/// count of zero.
pub open spec fn wslconfig_text(p: ProfileView) -> Seq<char> {
    "[wsl2]\n"@
        + optional_line("memory="@, p.memory)
        + (if p.processors > 0 { "processors="@ + decimal(p.processors as nat) + "\n"@ } else { seq![] })
        + optional_line("swap="@, p.swap)
        + "localhostForwarding="@ + bool_text(p.localhost_forwarding) + "\n"@
        + (match p.kernel_path { Some(k) => optional_line("kernel="@, k), None => seq![] })
        + optional_line("networkingMode="@, p.networking_mode)
        + "guiApplications="@ + bool_text(p.gui_applications) + "\n"@
        + "debugConsole="@ + bool_text(p.debug_console) + "\n"@
}

fn bool_str(b: bool) -> (r: &'static str)
    ensures
        r@ == bool_text(b),
{
    if b {
        "true"
    } else {
        "false"
    }
}

fn push_line(out: &mut String, key: &str, value: &str)
    ensures
        final(out)@ == old(out)@ + key@ + value@ + "\n"@,
{
    out.append(key);
    out.append(value);
    out.append("\n");
}

fn push_optional_line(out: &mut String, key: &str, value: &str)
    ensures
        final(out)@ == old(out)@ + optional_line(key@, value@),
{
    if !value.is_empty() {
        push_line(out, key, value);
        assert(out@ =~= old(out)@ + optional_line(key@, value@));
    } else {
        assert(old(out)@ + optional_line(key@, value@) =~= old(out)@);
    }
}

/// Relies on `uuid::Uuid::new_v4` shown through `Display`: a random version-4 UUID in its
/// hyphenated form, which is 36 characters long. It panics only when the operating system
/// cannot supply random bytes.
#[verifier::external_body]
pub(crate) fn random_id() -> (r: String)
    ensures
        r@.len() == 36,
{
    uuid::Uuid::new_v4().to_string()
}

impl Default for WslProfile {
    /// A new profile under a fresh random id: 4GB of memory, 2 processors, no swap, NAT
    /// networking, localhost forwarding and GUI applications on, debug console off.
    fn default() -> (r: WslProfile)
        ensures
            r@.id.len() == 36,
            r@.name == "New Profile"@,
            r@.memory == "4GB"@,
            r@.processors == 2,
            r@.swap == "0"@,
            r@.localhost_forwarding,
            r@.kernel_path is None,
            r@.networking_mode == "NAT"@,
            r@.gui_applications,
            !r@.debug_console,
    {
        WslProfile {
            id: random_id(),
            name: String::from_str("New Profile"),
            memory: String::from_str("4GB"),
            processors: 2,
            swap: String::from_str("0"),
            localhost_forwarding: true,
            kernel_path: None,
            networking_mode: String::from_str("NAT"),
            gui_applications: true,
            debug_console: false,
        }
    }
}

impl WslProfile {
    /// A copy of this profile.
    pub fn copy(&self) -> (r: WslProfile)
        ensures
            r@ == self@,
    {
        WslProfile {
            id: self.id.clone(),
            name: self.name.clone(),
            memory: self.memory.clone(),
            processors: self.processors,
            swap: self.swap.clone(),
            localhost_forwarding: self.localhost_forwarding,
            kernel_path: copy_opt(&self.kernel_path),
            networking_mode: self.networking_mode.clone(),
            gui_applications: self.gui_applications,
            debug_console: self.debug_console,
        }
    }

    /// Renders this profile as `.wslconfig` text.
    pub fn to_wslconfig(&self) -> (r: String)
        ensures
            r@ == wslconfig_text(self@),
    {
        let mut out = String::from_str("[wsl2]\n");
        let ghost s0 = out@;
        push_optional_line(&mut out, "memory=", self.memory.as_str());
        let ghost s1 = out@;
        if self.processors > 0 {
            out.append("processors=");
            push_decimal(&mut out, self.processors as u64);
            out.append("\n");
        }
        let ghost s2 = out@;
        assert(s2 =~= s1 + (if self@.processors > 0 { "processors="@ + decimal(self@.processors as nat) + "\n"@ } else { seq![] }));
        push_optional_line(&mut out, "swap=", self.swap.as_str());
        push_line(&mut out, "localhostForwarding=", bool_str(self.localhost_forwarding));
        let ghost s3 = out@;
        match &self.kernel_path {
            Some(k) => push_optional_line(&mut out, "kernel=", k.as_str()),
            None => {},
        }
        let ghost s4 = out@;
        assert(s4 =~= s3 + (match self@.kernel_path { Some(k) => optional_line("kernel="@, k), None => seq![] }));
        push_optional_line(&mut out, "networkingMode=", self.networking_mode.as_str());
        push_line(&mut out, "guiApplications=", bool_str(self.gui_applications));
        push_line(&mut out, "debugConsole=", bool_str(self.debug_console));
        assert(out@ =~= wslconfig_text(self@));
        out
    }
}

/// What kind of system condition an automation rule watches.
#[derive(Debug, Clone, Copy, PartialEq, Eq, Structural)]
pub enum TriggerType {
    Time,
    Process,
    PowerState,
    Network,
}

/// A trigger condition paired with the profile to switch to when it holds.
#[derive(Debug, Clone, PartialEq)]
pub struct AutomationRule {
    pub id: String,
    pub name: String,
    pub is_enabled: bool,
    pub trigger_type: TriggerType,
    pub trigger_value: String,
    pub target_profile_id: String,
}

/// What an automation rule holds, as plain values.
pub struct RuleView {
    pub id: Seq<char>,
    pub name: Seq<char>,
    pub is_enabled: bool,
    pub trigger_type: TriggerType,
    pub trigger_value: Seq<char>,
    pub target_profile_id: Seq<char>,
}

impl View for AutomationRule {
    type V = RuleView;

    open spec fn view(&self) -> RuleView {
        RuleView {
            id: self.id@,
            name: self.name@,
            is_enabled: self.is_enabled,
            trigger_type: self.trigger_type,
            trigger_value: self.trigger_value@,
            target_profile_id: self.target_profile_id@,
        }
    }
}

impl AutomationRule {
    /// A copy of this rule.
    pub fn copy(&self) -> (r: AutomationRule)
        ensures
            r@ == self@,
    {
        AutomationRule {
            id: self.id.clone(),
            name: self.name.clone(),
            is_enabled: self.is_enabled,
            trigger_type: self.trigger_type,
            trigger_value: self.trigger_value.clone(),
            target_profile_id: self.target_profile_id.clone(),
        }
    }
}

} // verus!
