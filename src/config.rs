//! The application's aggregate configuration and the typed `.wslconfig` settings.
use vstd::prelude::*;
use crate::profile::{AutomationRule, RuleView, WslProfile, ProfileView, opt_view};
use crate::text::{decimal, ends_with_text, has_suffix, lower_of, lowercase, push_decimal, same_text, upper_of, uppercase};

verus! {

/// The colour theme of the user interface.
#[derive(Debug, Clone, Copy, PartialEq, Eq, Structural)]
pub enum Theme {
    Light,
    Dark,
    System,
}

/// The aggregate of profiles, rules and the current and default selections.
#[derive(Debug, Clone)]
pub struct AppConfig {
    pub profiles: Vec<WslProfile>,
    pub rules: Vec<AutomationRule>,
    pub current_profile_id: Option<String>,
    pub default_profile_id: Option<String>,
    pub start_with_windows: bool,
    pub start_minimized: bool,
    pub theme: Theme,
}

/// What the aggregate holds, as plain values.
pub struct ConfigView {
    pub profiles: Seq<ProfileView>,
    pub rules: Seq<RuleView>,
    pub current_profile_id: Option<Seq<char>>,
    pub default_profile_id: Option<Seq<char>>,
    pub start_with_windows: bool,
    pub start_minimized: bool,
    pub theme: Theme,
}

/// The views of a sequence of profiles.
pub open spec fn profile_views(v: Seq<WslProfile>) -> Seq<ProfileView> {
    v.map_values(|p: WslProfile| p@)
}

/// The views of a sequence of rules.
pub open spec fn rule_views(v: Seq<AutomationRule>) -> Seq<RuleView> {
    v.map_values(|r: AutomationRule| r@)
}

impl View for AppConfig {
    type V = ConfigView;

    open spec fn view(&self) -> ConfigView {
        ConfigView {
            profiles: profile_views(self.profiles@),
            rules: rule_views(self.rules@),
            current_profile_id: opt_view(self.current_profile_id),
            default_profile_id: opt_view(self.default_profile_id),
            start_with_windows: self.start_with_windows,
            start_minimized: self.start_minimized,
            theme: self.theme,
        }
    }
}

/// A copy of a list of profiles.
pub fn copy_profiles(v: &Vec<WslProfile>) -> (r: Vec<WslProfile>)
    ensures
        profile_views(r@) == profile_views(v@),
{
    let mut r: Vec<WslProfile> = Vec::new();
    let mut i: usize = 0;
    while i < v.len()
        invariant
            i <= v@.len(),
            profile_views(r@) =~= profile_views(v@.subrange(0, i as int)),
        decreases v@.len() - i,
    {
        let item = v[i].copy();
        let ghost before = r@;
        r.push(item);
        proof {
            assert(profile_views(r@) =~= profile_views(before).push(v@[i as int]@));
            assert(v@.subrange(0, i + 1) =~= v@.subrange(0, i as int).push(v@[i as int]));
            assert(profile_views(v@.subrange(0, i + 1)) =~= profile_views(v@.subrange(0, i as int)).push(v@[i as int]@));
        }
        i = i + 1;
    }
    assert(v@.subrange(0, v@.len() as int) =~= v@);
    r
}

/// A copy of a list of rules.
pub fn copy_rules(v: &Vec<AutomationRule>) -> (r: Vec<AutomationRule>)
    ensures
        rule_views(r@) == rule_views(v@),
{
    let mut r: Vec<AutomationRule> = Vec::new();
    let mut i: usize = 0;
    while i < v.len()
        invariant
            i <= v@.len(),
            rule_views(r@) =~= rule_views(v@.subrange(0, i as int)),
        decreases v@.len() - i,
    {
        let item = v[i].copy();
        let ghost before = r@;
        r.push(item);
        proof {
            assert(rule_views(r@) =~= rule_views(before).push(v@[i as int]@));
            assert(v@.subrange(0, i + 1) =~= v@.subrange(0, i as int).push(v@[i as int]));
            assert(rule_views(v@.subrange(0, i + 1)) =~= rule_views(v@.subrange(0, i as int)).push(v@[i as int]@));
        }
        i = i + 1;
    }
    assert(v@.subrange(0, v@.len() as int) =~= v@);
    r
}

impl AppConfig {
    /// A copy of this configuration.
    pub fn copy(&self) -> (r: AppConfig)
        ensures
            r@ == self@,
    {
        AppConfig {
            profiles: copy_profiles(&self.profiles),
            rules: copy_rules(&self.rules),
            current_profile_id: crate::profile::copy_opt(&self.current_profile_id),
            default_profile_id: crate::profile::copy_opt(&self.default_profile_id),
            start_with_windows: self.start_with_windows,
            start_minimized: self.start_minimized,
            theme: self.theme,
        }
    }
}

impl Default for AppConfig {
    /// No profiles, no rules, nothing selected, the dark theme.
    fn default() -> (r: AppConfig)
        ensures
            r@.profiles.len() == 0,
            r@.rules.len() == 0,
            r@.current_profile_id is None,
            r@.default_profile_id is None,
            !r@.start_with_windows,
            !r@.start_minimized,
            r@.theme == Theme::Dark,
    {
        AppConfig {
            profiles: Vec::new(),
            rules: Vec::new(),
            current_profile_id: None,
            default_profile_id: None,
            start_with_windows: false,
            start_minimized: false,
            theme: Theme::Dark,
        }
    }
}

/// How the virtual machine's network is attached.
#[derive(Debug, Clone, Copy, PartialEq, Eq, Structural)]
pub enum NetworkingMode {
    Nat,
    Mirrored,
    Bridged,
}

/// The networking mode named by an already lower-cased text: `mirrored`, `bridged`, and NAT for
/// anything else.
pub open spec fn networking_mode_of(lower: Seq<char>) -> NetworkingMode {
    if lower == "mirrored"@ {
        NetworkingMode::Mirrored
    } else if lower == "bridged"@ {
        NetworkingMode::Bridged
    } else {
        NetworkingMode::Nat
    }
}

impl NetworkingMode {
    /// The mode that a lower-cased setting value names.
    pub fn from_lowercase(lower: &str) -> (r: NetworkingMode)
        ensures
            r == networking_mode_of(lower@),
    {
        if same_text(lower, "mirrored") {
            NetworkingMode::Mirrored
        } else if same_text(lower, "bridged") {
            NetworkingMode::Bridged
        } else {
            NetworkingMode::Nat
        }
    }

    /// The mode that a setting value names, compared without regard to case.
    pub fn from_str(s: &str) -> (r: NetworkingMode)
        ensures
            r == networking_mode_of(lower_of(s@)),
    {
        let lower = lowercase(s);
        NetworkingMode::from_lowercase(lower.as_str())
    }

    /// The setting value for this mode.
    pub fn as_str(&self) -> (r: &'static str)
        ensures
            r@ == match self {
                NetworkingMode::Nat => "nat"@,
                NetworkingMode::Mirrored => "mirrored"@,
                NetworkingMode::Bridged => "bridged"@,
            },
    {
        match self {
            NetworkingMode::Nat => "nat",
            NetworkingMode::Mirrored => "mirrored",
            NetworkingMode::Bridged => "bridged",
        }
    }
}

/// The typed settings of a `.wslconfig` file; a field is `None` where the file does not set it.
#[derive(Debug, Clone, Default)]
pub struct WslConfig {
    pub memory: Option<String>,
    pub processors: Option<u32>,
    pub swap: Option<String>,
    pub swap_file: Option<String>,
    pub localhost_forwarding: Option<bool>,
    pub kernel_command_line: Option<String>,
    pub safe_mode: Option<bool>,
    pub nested_virtualization: Option<bool>,
    pub page_reporting: Option<bool>,
    pub debug_console: Option<bool>,
    pub gui_applications: Option<bool>,
    pub networking_mode: Option<NetworkingMode>,
    pub firewall: Option<bool>,
    pub dns_tunneling: Option<bool>,
    pub auto_proxy: Option<bool>,
    pub sparse_vhd: Option<bool>,
}

/// Whether an upper-cased size text carries a `GB` or `MB` unit.
pub open spec fn has_size_unit(upper: Seq<char>) -> bool {
    has_suffix(upper, "GB"@) || has_suffix(upper, "MB"@)
}

/// The warning for a memory size without a unit.
pub open spec fn memory_warning(mem: Seq<char>) -> Seq<char> {
    "Invalid memory format '"@ + mem + "': expected e.g. '4GB' or '512MB'"@
}

/// The warning for a processor count outside 1 to 128.
pub open spec fn processors_warning(n: u32) -> Seq<char> {
    "Processor count "@ + decimal(n as nat) + " out of range (1-128)"@
}

/// The warning for a swap size that is neither `0` nor a size with a unit.
pub open spec fn swap_warning(swap: Seq<char>) -> Seq<char> {
    "Invalid swap format '"@ + swap + "': expected e.g. '2GB', '512MB', or '0'"@
}

/// The warnings for a memory setting, a processor count and a swap setting, in that order.
pub open spec fn config_warnings(memory: Option<Seq<char>>, processors: Option<u32>, swap: Option<Seq<char>>) -> Seq<Seq<char>> {
    (match memory {
        Some(m) => if has_size_unit(upper_of(m)) { seq![] } else { seq![memory_warning(m)] },
        None => seq![],
    }) + (match processors {
        Some(n) => if n == 0 || n > 128 { seq![processors_warning(n)] } else { seq![] },
        None => seq![],
    }) + (match swap {
        Some(s) => if s == "0"@ || has_size_unit(upper_of(s)) { seq![] } else { seq![swap_warning(s)] },
        None => seq![],
    })
}

/// Whether an upper-cased size text ends in `GB` or `MB`.
pub fn has_size_unit_upper(upper: &str) -> (r: bool)
    ensures
        r == has_size_unit(upper@),
{
    ends_with_text(upper, "GB") || ends_with_text(upper, "MB")
}

impl WslConfig {
    /// Checks the memory, processor and swap settings and returns one warning for each that is
    /// malformed; it never fails.
    pub fn validate(&self) -> (r: Vec<String>)
        ensures
            crate::text::views(r@) == config_warnings(opt_view(self.memory), self.processors, opt_view(self.swap)),
    {
        let mut warnings: Vec<String> = Vec::new();
        if let Some(mem) = &self.memory {
            let up = uppercase(mem.as_str());
            if !has_size_unit_upper(up.as_str()) {
                let mut w = String::from_str("Invalid memory format '");
                w.append(mem.as_str());
                w.append("': expected e.g. '4GB' or '512MB'");
                warnings.push(w);
            }
        }
        let ghost w1 = crate::text::views(warnings@);
        assert(w1 =~= (match opt_view(self.memory) {
            Some(m) => if has_size_unit(upper_of(m)) { seq![] } else { seq![memory_warning(m)] },
            None => seq![],
        }));
        if let Some(n) = self.processors {
            if n == 0 || n > 128 {
                let mut w = String::from_str("Processor count ");
                push_decimal(&mut w, n as u64);
                w.append(" out of range (1-128)");
                warnings.push(w);
            }
        }
        let ghost w2 = crate::text::views(warnings@);
        assert(w2 =~= w1 + (match self.processors {
            Some(n) => if n == 0 || n > 128 { seq![processors_warning(n)] } else { seq![] },
            None => seq![],
        }));
        if let Some(swap) = &self.swap {
            if !same_text(swap.as_str(), "0") {
                let up = uppercase(swap.as_str());
                if !has_size_unit_upper(up.as_str()) {
                    let mut w = String::from_str("Invalid swap format '");
                    w.append(swap.as_str());
                    w.append("': expected e.g. '2GB', '512MB', or '0'");
                    warnings.push(w);
                }
            }
        }
        assert(crate::text::views(warnings@) =~= config_warnings(opt_view(self.memory), self.processors, opt_view(self.swap)));
        warnings
    }
}

} // verus!
