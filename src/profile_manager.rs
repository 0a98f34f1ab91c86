//! The profile store: create, read, update and delete over profiles and automation rules, and
//! the current and default profile selections.
use vstd::prelude::*;
use crate::config::{AppConfig, ConfigView, copy_profiles, copy_rules, profile_views, rule_views};
use crate::profile::{AutomationRule, RuleView, WslProfile, ProfileView};
use crate::text::same_text;

verus! {

/// `i` is the first position of `ps` that holds a profile with this id.
pub open spec fn first_profile(ps: Seq<ProfileView>, id: Seq<char>, i: int) -> bool {
    0 <= i < ps.len() && ps[i].id == id && forall|j: int| 0 <= j < i ==> ps[j].id != id
}

/// Some profile of `ps` has this id.
pub open spec fn has_profile(ps: Seq<ProfileView>, id: Seq<char>) -> bool {
    exists|i: int| 0 <= i < ps.len() && ps[i].id == id
}

/// The first profile of `ps` with this id, if any.
pub open spec fn lookup_profile(ps: Seq<ProfileView>, id: Seq<char>) -> Option<ProfileView> {
    if has_profile(ps, id) {
        Some(ps[choose|i: int| first_profile(ps, id, i)])
    } else {
        None
    }
}

/// `ps` with `p` in place of the first profile that has its id, or with `p` appended.
pub open spec fn upsert_profile(ps: Seq<ProfileView>, p: ProfileView) -> Seq<ProfileView> {
    if has_profile(ps, p.id) {
        ps.update(choose|i: int| first_profile(ps, p.id, i), p)
    } else {
        ps.push(p)
    }
}

/// `ps` without the profiles that have this id, the others in their order.
pub open spec fn without_profile(ps: Seq<ProfileView>, id: Seq<char>) -> Seq<ProfileView>
    decreases ps.len(),
{
    if ps.len() == 0 {
        seq![]
    } else if ps.last().id == id {
        without_profile(ps.drop_last(), id)
    } else {
        without_profile(ps.drop_last(), id).push(ps.last())
    }
}

/// No two profiles share an id.
pub open spec fn unique_profile_ids(ps: Seq<ProfileView>) -> bool {
    forall|i: int, j: int| 0 <= i < ps.len() && 0 <= j < ps.len() && i != j ==> ps[i].id != ps[j].id
}

/// The aggregate after a successful deletion of profile `id`: the profiles without it, the
/// default moved to the first remaining profile (or cleared) when it named `id`, and the current
/// selection cleared when it named `id`, so that the default stands in for it.
pub open spec fn after_profile_delete(c: ConfigView, id: Seq<char>) -> ConfigView {
    let rest = without_profile(c.profiles, id);
    ConfigView {
        profiles: rest,
        current_profile_id: if c.current_profile_id == Some(id) { None } else { c.current_profile_id },
        default_profile_id: if c.default_profile_id == Some(id) {
            if rest.len() > 0 { Some(rest[0].id) } else { None }
        } else {
            c.default_profile_id
        },
        ..c
    }
}

/// The profile that counts as current: the one the current id names, or else the one the
/// default id names.
pub open spec fn current_profile(c: ConfigView) -> Option<ProfileView> {
    let id = if c.current_profile_id is Some { c.current_profile_id } else { c.default_profile_id };
    match id {
        Some(i) => lookup_profile(c.profiles, i),
        None => None,
    }
}

/// `i` is the first position of `rs` that holds a rule with this id.
pub open spec fn first_rule(rs: Seq<RuleView>, id: Seq<char>, i: int) -> bool {
    0 <= i < rs.len() && rs[i].id == id && forall|j: int| 0 <= j < i ==> rs[j].id != id
}

/// Some rule of `rs` has this id.
pub open spec fn has_rule(rs: Seq<RuleView>, id: Seq<char>) -> bool {
    exists|i: int| 0 <= i < rs.len() && rs[i].id == id
}

/// `rs` with `r` in place of the first rule that has its id, or with `r` appended.
pub open spec fn upsert_rule(rs: Seq<RuleView>, r: RuleView) -> Seq<RuleView> {
    if has_rule(rs, r.id) {
        rs.update(choose|i: int| first_rule(rs, r.id, i), r)
    } else {
        rs.push(r)
    }
}

/// `rs` without the rules that have this id, the others in their order.
pub open spec fn without_rule(rs: Seq<RuleView>, id: Seq<char>) -> Seq<RuleView>
    decreases rs.len(),
{
    if rs.len() == 0 {
        seq![]
    } else if rs.last().id == id {
        without_rule(rs.drop_last(), id)
    } else {
        without_rule(rs.drop_last(), id).push(rs.last())
    }
}

/// `rs` with the enabled flag of its first rule with this id flipped.
pub open spec fn toggled(rs: Seq<RuleView>, id: Seq<char>) -> Seq<RuleView> {
    let i = choose|i: int| first_rule(rs, id, i);
    rs.update(i, RuleView { is_enabled: !rs[i].is_enabled, ..rs[i] })
}

fn find_profile(ps: &Vec<WslProfile>, id: &str) -> (r: Option<usize>)
    ensures
        match r {
            Some(i) => first_profile(profile_views(ps@), id@, i as int),
            None => !has_profile(profile_views(ps@), id@),
        },
{
    let mut i: usize = 0;
    while i < ps.len()
        invariant
            i <= ps@.len(),
            forall|j: int| 0 <= j < i ==> (#[trigger] ps@[j]).id@ != id@,
        decreases ps@.len() - i,
    {
        if same_text(ps[i].id.as_str(), id) {
            return Some(i);
        }
        i = i + 1;
    }
    None
}

fn find_rule(rs: &Vec<AutomationRule>, id: &str) -> (r: Option<usize>)
    ensures
        match r {
            Some(i) => first_rule(rule_views(rs@), id@, i as int),
            None => !has_rule(rule_views(rs@), id@),
        },
{
    let mut i: usize = 0;
    while i < rs.len()
        invariant
            i <= rs@.len(),
            forall|j: int| 0 <= j < i ==> (#[trigger] rs@[j]).id@ != id@,
        decreases rs@.len() - i,
    {
        if same_text(rs[i].id.as_str(), id) {
            return Some(i);
        }
        i = i + 1;
    }
    None
}

proof fn lemma_first_profile_unique(ps: Seq<ProfileView>, id: Seq<char>, i: int)
    requires
        first_profile(ps, id, i),
    ensures
        has_profile(ps, id),
        (choose|k: int| first_profile(ps, id, k)) == i,
{
    let k = choose|k: int| first_profile(ps, id, k);
    assert(first_profile(ps, id, k));
    if k < i {
        assert(ps[k].id != id);
    } else if i < k {
        assert(ps[i].id != id);
    }
}

proof fn lemma_first_rule_unique(rs: Seq<RuleView>, id: Seq<char>, i: int)
    requires
        first_rule(rs, id, i),
    ensures
        has_rule(rs, id),
        (choose|k: int| first_rule(rs, id, k)) == i,
{
    let k = choose|k: int| first_rule(rs, id, k);
    assert(first_rule(rs, id, k));
    if k < i {
        assert(rs[k].id != id);
    } else if i < k {
        assert(rs[i].id != id);
    }
}

/// Every profile left by `without_profile` has another id, and a profile with another id is
/// left.
pub proof fn lemma_without_profile(ps: Seq<ProfileView>, id: Seq<char>, k: int)
    requires
        0 <= k < ps.len(),
        ps[k].id != id,
    ensures
        without_profile(ps, id).len() > 0,
        forall|j: int| 0 <= j < without_profile(ps, id).len() ==> (#[trigger] without_profile(ps, id)[j]).id != id,
    decreases ps.len(),
{
    lemma_without_profile_ids(ps, id);
    if k < ps.len() - 1 {
        lemma_without_profile(ps.drop_last(), id, k);
    }
}

proof fn lemma_without_profile_ids(ps: Seq<ProfileView>, id: Seq<char>)
    ensures
        forall|j: int| 0 <= j < without_profile(ps, id).len() ==> (#[trigger] without_profile(ps, id)[j]).id != id,
    decreases ps.len(),
{
    if ps.len() > 0 {
        lemma_without_profile_ids(ps.drop_last(), id);
    }
}

/// Owns the aggregate configuration; every operation works on it in memory only.
pub struct ProfileManager {
    config: AppConfig,
}

impl View for ProfileManager {
    type V = ConfigView;

    closed spec fn view(&self) -> ConfigView {
        self.config@
    }
}

/// The three profiles a fresh store starts with.
pub open spec fn default_profiles() -> Seq<ProfileView> {
    seq![
        ProfileView {
            id: "eco"@,
            name: "Eco Mode"@,
            memory: "2GB"@,
            processors: 1,
            swap: "0"@,
            localhost_forwarding: true,
            kernel_path: None,
            networking_mode: "NAT"@,
            gui_applications: false,
            debug_console: false,
        },
        ProfileView {
            id: "balanced"@,
            name: "Balanced"@,
            memory: "4GB"@,
            processors: 2,
            swap: "2GB"@,
            localhost_forwarding: true,
            kernel_path: None,
            networking_mode: "NAT"@,
            gui_applications: true,
            debug_console: false,
        },
        ProfileView {
            id: "unleashed"@,
            name: "Unleashed"@,
            memory: "16GB"@,
            processors: 8,
            swap: "8GB"@,
            localhost_forwarding: true,
            kernel_path: None,
            networking_mode: "NAT"@,
            gui_applications: true,
            debug_console: false,
        },
    ]
}

fn preset(id: &str, name: &str, memory: &str, processors: u32, swap: &str, gui: bool) -> (r: WslProfile)
    ensures
        r@ == (ProfileView {
            id: id@,
            name: name@,
            memory: memory@,
            processors,
            swap: swap@,
            localhost_forwarding: true,
            kernel_path: None,
            networking_mode: "NAT"@,
            gui_applications: gui,
            debug_console: false,
        }),
{
    WslProfile {
        id: String::from_str(id),
        name: String::from_str(name),
        memory: String::from_str(memory),
        processors,
        swap: String::from_str(swap),
        localhost_forwarding: true,
        kernel_path: None,
        networking_mode: String::from_str("NAT"),
        gui_applications: gui,
        debug_console: false,
    }
}

impl ProfileManager {
    /// An empty store: no profiles, no rules, nothing selected.
    pub fn new() -> (r: ProfileManager)
        ensures
            r@.profiles.len() == 0,
            r@.rules.len() == 0,
            r@.current_profile_id is None,
            r@.default_profile_id is None,
    {
        ProfileManager { config: AppConfig::default() }
    }

    /// Puts the three preset profiles in an empty store and makes `balanced` the default; a
    /// store that has profiles is left as it is.
    pub fn init_defaults(&mut self)
        ensures
            old(self)@.profiles.len() == 0 ==> final(self)@ == (ConfigView {
                profiles: default_profiles(),
                default_profile_id: Some("balanced"@),
                ..old(self)@
            }),
            old(self)@.profiles.len() > 0 ==> final(self)@ == old(self)@,
    {
        if self.config.profiles.len() == 0 {
            let mut ps: Vec<WslProfile> = Vec::new();
            ps.push(preset("eco", "Eco Mode", "2GB", 1, "0", false));
            ps.push(preset("balanced", "Balanced", "4GB", 2, "2GB", true));
            ps.push(preset("unleashed", "Unleashed", "16GB", 8, "8GB", true));
            self.config.profiles = ps;
            self.config.default_profile_id = Some(String::from_str("balanced"));
            assert(profile_views(self.config.profiles@) =~= default_profiles());
        }
    }

    /// Replaces the whole aggregate with a stored one.
    pub fn load_config(&mut self, stored_config: AppConfig) -> (r: Result<(), String>)
        ensures
            r is Ok,
            final(self)@ == stored_config@,
    {
        self.config = stored_config;
        Ok(())
    }

    /// A copy of the whole aggregate.
    pub fn get_config(&self) -> (r: AppConfig)
        ensures
            r@ == self@,
    {
        self.config.copy()
    }

    /// Copies of all profiles, in order.
    pub fn get_profiles(&self) -> (r: Vec<WslProfile>)
        ensures
            profile_views(r@) == self@.profiles,
    {
        copy_profiles(&self.config.profiles)
    }

    /// A copy of the first profile with this id.
    pub fn get_profile(&self, id: &str) -> (r: Option<WslProfile>)
        ensures
            match r {
                Some(p) => lookup_profile(self@.profiles, id@) == Some(p@),
                None => lookup_profile(self@.profiles, id@) is None,
            },
    {
        match find_profile(&self.config.profiles, id) {
            Some(i) => {
                proof {
                    lemma_first_profile_unique(self@.profiles, id@, i as int);
                }
                Some(self.config.profiles[i].copy())
            },
            None => None,
        }
    }

    /// Replaces the profile with the same id, or appends the profile when none has it.
    pub fn save_profile(&mut self, profile: WslProfile) -> (r: Result<(), String>)
        ensures
            r is Ok,
            final(self)@ == (ConfigView { profiles: upsert_profile(old(self)@.profiles, profile@), ..old(self)@ }),
    {
        let ghost p = profile@;
        match find_profile(&self.config.profiles, profile.id.as_str()) {
            Some(i) => {
                proof {
                    lemma_first_profile_unique(old(self)@.profiles, p.id, i as int);
                }
                self.config.profiles[i] = profile;
                assert(profile_views(self.config.profiles@) =~= upsert_profile(old(self)@.profiles, p));
            },
            None => {
                self.config.profiles.push(profile);
                assert(profile_views(self.config.profiles@) =~= upsert_profile(old(self)@.profiles, p));
            },
        }
        Ok(())
    }

    /// Deletes every profile with this id, moves the default to the first remaining profile
    /// when it named this id, and clears the current selection when it named this id. Refused
    /// while the store holds at most one profile.
    pub fn delete_profile(&mut self, id: &str) -> (r: Result<(), String>)
        ensures
            old(self)@.profiles.len() <= 1 ==> r is Err && r->Err_0@ == "Cannot delete the last profile"@
                && final(self)@ == old(self)@,
            old(self)@.profiles.len() > 1 ==> r is Ok && final(self)@ == after_profile_delete(old(self)@, id@),
    {
        if self.config.profiles.len() <= 1 {
            return Err(String::from_str("Cannot delete the last profile"));
        }
        let ghost ps = old(self)@.profiles;
        let mut kept: Vec<WslProfile> = Vec::new();
        let mut i: usize = 0;
        assert(profile_views(kept@) =~= without_profile(ps.subrange(0, 0), id@));
        while i < self.config.profiles.len()
            invariant
                i <= self.config.profiles@.len(),
                self@ == old(self)@,
                ps == profile_views(self.config.profiles@),
                profile_views(kept@) == without_profile(ps.subrange(0, i as int), id@),
            decreases self.config.profiles@.len() - i,
        {
            let ghost pre = ps.subrange(0, i as int);
            assert(ps.subrange(0, i + 1).drop_last() =~= pre);
            assert(ps.subrange(0, i + 1).last() == ps[i as int]);
            if !same_text(self.config.profiles[i].id.as_str(), id) {
                let item = self.config.profiles[i].copy();
                let ghost before = kept@;
                kept.push(item);
                assert(profile_views(kept@) =~= profile_views(before).push(item@));
            }
            i = i + 1;
        }
        assert(ps.subrange(0, ps.len() as int) =~= ps);
        self.config.profiles = kept;
        let is_default = match &self.config.default_profile_id {
            Some(d) => same_text(d.as_str(), id),
            None => false,
        };
        let is_current = match &self.config.current_profile_id {
            Some(c) => same_text(c.as_str(), id),
            None => false,
        };
        if is_current {
            self.config.current_profile_id = None;
        }
        if is_default {
            if self.config.profiles.len() > 0 {
                self.config.default_profile_id = Some(self.config.profiles[0].id.clone());
            } else {
                self.config.default_profile_id = None;
            }
        }
        Ok(())
    }

    /// Makes the profile with this id the default; refused when no profile has it.
    pub fn set_default_profile(&mut self, id: &str) -> (r: Result<(), String>)
        ensures
            has_profile(old(self)@.profiles, id@) ==> r is Ok
                && final(self)@ == (ConfigView { default_profile_id: Some(id@), ..old(self)@ }),
            !has_profile(old(self)@.profiles, id@) ==> r is Err && r->Err_0@ == "Profile not found"@
                && final(self)@ == old(self)@,
    {
        match find_profile(&self.config.profiles, id) {
            Some(_) => {
                self.config.default_profile_id = Some(String::from_str(id));
                Ok(())
            },
            None => Err(String::from_str("Profile not found")),
        }
    }

    /// Records this id as the current profile; whether a profile has it is not checked.
    pub fn set_current_profile(&mut self, id: &str) -> (r: Result<(), String>)
        ensures
            r is Ok,
            final(self)@ == (ConfigView { current_profile_id: Some(id@), ..old(self)@ }),
    {
        self.config.current_profile_id = Some(String::from_str(id));
        Ok(())
    }

    /// A copy of the profile that the current id names, or when no current id is set, of the
    /// profile the default id names.
    pub fn get_current_profile(&self) -> (r: Option<WslProfile>)
        ensures
            match r {
                Some(p) => current_profile(self@) == Some(p@),
                None => current_profile(self@) is None,
            },
    {
        let id = match &self.config.current_profile_id {
            Some(c) => c,
            None => match &self.config.default_profile_id {
                Some(d) => d,
                None => {
                    return None;
                },
            },
        };
        self.get_profile(id.as_str())
    }

    /// Copies of all rules, in order.
    pub fn get_rules(&self) -> (r: Vec<AutomationRule>)
        ensures
            rule_views(r@) == self@.rules,
    {
        copy_rules(&self.config.rules)
    }

    /// Replaces the rule with the same id, or appends the rule when none has it.
    pub fn save_rule(&mut self, rule: AutomationRule) -> (r: Result<(), String>)
        ensures
            r is Ok,
            final(self)@ == (ConfigView { rules: upsert_rule(old(self)@.rules, rule@), ..old(self)@ }),
    {
        let ghost v = rule@;
        match find_rule(&self.config.rules, rule.id.as_str()) {
            Some(i) => {
                proof {
                    lemma_first_rule_unique(old(self)@.rules, v.id, i as int);
                }
                self.config.rules[i] = rule;
                assert(rule_views(self.config.rules@) =~= upsert_rule(old(self)@.rules, v));
            },
            None => {
                self.config.rules.push(rule);
                assert(rule_views(self.config.rules@) =~= upsert_rule(old(self)@.rules, v));
            },
        }
        Ok(())
    }

    /// Deletes every rule with this id; deleting the last rule is allowed.
    pub fn delete_rule(&mut self, id: &str) -> (r: Result<(), String>)
        ensures
            r is Ok,
            final(self)@ == (ConfigView { rules: without_rule(old(self)@.rules, id@), ..old(self)@ }),
    {
        let ghost rs = old(self)@.rules;
        let mut kept: Vec<AutomationRule> = Vec::new();
        let mut i: usize = 0;
        assert(rule_views(kept@) =~= without_rule(rs.subrange(0, 0), id@));
        while i < self.config.rules.len()
            invariant
                i <= self.config.rules@.len(),
                self@ == old(self)@,
                rs == rule_views(self.config.rules@),
                rule_views(kept@) == without_rule(rs.subrange(0, i as int), id@),
            decreases self.config.rules@.len() - i,
        {
            let ghost pre = rs.subrange(0, i as int);
            assert(rs.subrange(0, i + 1).drop_last() =~= pre);
            assert(rs.subrange(0, i + 1).last() == rs[i as int]);
            if !same_text(self.config.rules[i].id.as_str(), id) {
                let item = self.config.rules[i].copy();
                let ghost before = kept@;
                kept.push(item);
                assert(rule_views(kept@) =~= rule_views(before).push(item@));
            }
            i = i + 1;
        }
        assert(rs.subrange(0, rs.len() as int) =~= rs);
        self.config.rules = kept;
        Ok(())
    }

    /// Flips the enabled flag of the first rule with this id and returns its new value; refused
    /// when no rule has the id.
    pub fn toggle_rule(&mut self, id: &str) -> (r: Result<bool, String>)
        ensures
            has_rule(old(self)@.rules, id@) ==> r is Ok
                && final(self)@ == (ConfigView { rules: toggled(old(self)@.rules, id@), ..old(self)@ })
                && r->Ok_0 == !old(self)@.rules[choose|i: int| first_rule(old(self)@.rules, id@, i)].is_enabled,
            !has_rule(old(self)@.rules, id@) ==> r is Err && r->Err_0@ == "Rule not found"@
                && final(self)@ == old(self)@,
    {
        match find_rule(&self.config.rules, id) {
            Some(i) => {
                proof {
                    lemma_first_rule_unique(old(self)@.rules, id@, i as int);
                }
                let mut rule = self.config.rules[i].copy();
                rule.is_enabled = !rule.is_enabled;
                let enabled = rule.is_enabled;
                self.config.rules[i] = rule;
                assert(rule_views(self.config.rules@) =~= toggled(old(self)@.rules, id@));
                Ok(enabled)
            },
            None => Err(String::from_str("Rule not found")),
        }
    }
}

/// Deleting the default profile from a store of two or more profiles with distinct ids moves
/// the default to the id of a profile that remains.
pub proof fn delete_default_moves_default(before: ConfigView, id: Seq<char>)
    requires
        unique_profile_ids(before.profiles),
        before.profiles.len() >= 2,
        before.default_profile_id == Some(id),
    ensures
        ({
            let after = after_profile_delete(before, id);
            &&& after.profiles.len() > 0
            &&& after.default_profile_id == Some(after.profiles[0].id)
            &&& after.profiles[0].id != id
        }),
{
    let k: int = if before.profiles[0].id != id { 0 } else { 1 };
    assert(before.profiles[k].id != id);
    lemma_without_profile(before.profiles, id, k);
}

/// Deleting the current profile from a store of two or more profiles with distinct ids clears
/// the current selection, so that the current profile is then the default one, which remains.
pub proof fn delete_current_falls_back_to_default(before: ConfigView, id: Seq<char>)
    requires
        unique_profile_ids(before.profiles),
        before.profiles.len() >= 2,
        before.current_profile_id == Some(id),
    ensures
        ({
            let after = after_profile_delete(before, id);
            &&& after.current_profile_id is None
            &&& current_profile(after) == match after.default_profile_id {
                Some(d) => lookup_profile(after.profiles, d),
                None => None,
            }
            &&& (before.default_profile_id == Some(id) ==> after.default_profile_id == Some(after.profiles[0].id)
                && after.profiles[0].id != id)
        }),
{
    let k: int = if before.profiles[0].id != id { 0 } else { 1 };
    assert(before.profiles[k].id != id);
    lemma_without_profile(before.profiles, id, k);
}

} // verus!
