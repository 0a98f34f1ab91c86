//! Instances as the command gateway lists them, and the parsers for its listings.
use vstd::prelude::*;
use crate::encoding::{clean_distro_name, name_chars};
use crate::text::{
    chars_of, contains_text, has_infix, lines, lower_of, lowercase, same_text, slice_string,
    split_lines, split_words, trim, trim_str, views, words,
};

verus! {

/// The lifecycle state of an instance.
#[derive(Debug, Clone, Copy, PartialEq, Eq, Structural)]
pub enum DistributionState {
    Running,
    Stopped,
    Installing,
    Unknown,
}

/// The state that an already lower-cased state word names.
pub open spec fn state_of(lower: Seq<char>) -> DistributionState {
    if lower == "running"@ {
        DistributionState::Running
    } else if lower == "stopped"@ {
        DistributionState::Stopped
    } else if lower == "installing"@ {
        DistributionState::Installing
    } else {
        DistributionState::Unknown
    }
}

impl DistributionState {
    /// The state that a lower-cased state word names; any other word is `Unknown`.
    pub fn from_lowercase(lower: &str) -> (r: DistributionState)
        ensures
            r == state_of(lower@),
    {
        if same_text(lower, "running") {
            DistributionState::Running
        } else if same_text(lower, "stopped") {
            DistributionState::Stopped
        } else if same_text(lower, "installing") {
            DistributionState::Installing
        } else {
            DistributionState::Unknown
        }
    }

    /// The state that a state word names, compared without regard to case.
    pub fn from_word(s: &str) -> (r: DistributionState)
        ensures
            r == state_of(lower_of(s@)),
    {
        let lower = lowercase(s);
        DistributionState::from_lowercase(lower.as_str())
    }
}

/// An installed instance.
#[derive(Debug, Clone)]
pub struct WslDistribution {
    pub name: String,
    pub state: DistributionState,
    pub version: String,
    pub is_default: bool,
}

/// What an instance record holds, as plain values.
pub struct DistroView {
    pub name: Seq<char>,
    pub state: DistributionState,
    pub version: Seq<char>,
    pub is_default: bool,
}

impl View for WslDistribution {
    type V = DistroView;

    open spec fn view(&self) -> DistroView {
        DistroView { name: self.name@, state: self.state, version: self.version@, is_default: self.is_default }
    }
}

/// The views of a sequence of instance records.
pub open spec fn distro_views(v: Seq<WslDistribution>) -> Seq<DistroView> {
    v.map_values(|d: WslDistribution| d@)
}

impl WslDistribution {
    /// A copy of this record.
    pub fn copy(&self) -> (r: WslDistribution)
        ensures
            r@ == self@,
    {
        WslDistribution {
            name: self.name.clone(),
            state: self.state,
            version: self.version.clone(),
            is_default: self.is_default,
        }
    }
}

/// A copy of a list of instance records.
pub fn copy_distros(v: &Vec<WslDistribution>) -> (r: Vec<WslDistribution>)
    ensures
        distro_views(r@) == distro_views(v@),
{
    let mut r: Vec<WslDistribution> = Vec::new();
    let mut i: usize = 0;
    while i < v.len()
        invariant
            i <= v@.len(),
            distro_views(r@) =~= distro_views(v@.subrange(0, i as int)),
        decreases v@.len() - i,
    {
        let item = v[i].copy();
        let ghost before = r@;
        r.push(item);
        proof {
            assert(distro_views(r@) =~= distro_views(before).push(v@[i as int]@));
            assert(v@.subrange(0, i + 1) =~= v@.subrange(0, i as int).push(v@[i as int]));
            assert(distro_views(v@.subrange(0, i + 1)) =~= distro_views(v@.subrange(0, i as int)).push(v@[i as int]@));
        }
        i = i + 1;
    }
    assert(v@.subrange(0, v@.len() as int) =~= v@);
    r
}

/// Whether the instance subsystem is installed and running, and its reported versions.
#[derive(Debug, Clone, Default)]
pub struct WslStatus {
    pub is_installed: bool,
    pub is_running: bool,
    pub default_version: Option<String>,
    pub kernel_version: Option<String>,
}

/// An instance image that can be installed from the online catalogue.
#[derive(Debug, Clone)]
pub struct OnlineDistribution {
    pub name: String,
    pub friendly_name: String,
}

/// The number of leading `*` characters of `s`.
pub open spec fn lead_stars(s: Seq<char>) -> nat
    decreases s.len(),
{
    if s.len() > 0 && s[0] == '*' {
        1 + lead_stars(s.drop_first())
    } else {
        0
    }
}

proof fn lemma_lead_stars(s: Seq<char>, i: int)
    requires
        0 <= i <= s.len(),
        forall|j: int| 0 <= j < i ==> #[trigger] s[j] == '*',
        i == s.len() || s[i] != '*',
    ensures
        lead_stars(s) == i,
    decreases i,
{
    if i > 0 {
        let t = s.drop_first();
        assert forall|j: int| 0 <= j < i - 1 implies #[trigger] t[j] == '*' by {
            assert(t[j] == s[j + 1]);
        }
        if i < s.len() {
            assert(t[i - 1] == s[i]);
        }
        lemma_lead_stars(t, i - 1);
    }
}

/// The instance record that one line of the verbose listing describes: `[*] NAME STATE
/// [VERSION]`, where `*` marks the default, the version is 2 when missing, and a line without
/// two words or with an empty name describes none.
pub open spec fn distro_of_line(line: Seq<char>) -> Option<DistroView> {
    let l = trim(line);
    if l.len() == 0 {
        None
    } else {
        let body = trim(l.subrange(lead_stars(l) as int, l.len() as int));
        let parts = words(body);
        let name = trim(name_chars(parts[0]));
        if parts.len() < 2 || name.len() == 0 {
            None
        } else {
            Some(DistroView {
                name,
                state: state_of(lower_of(parts[1])),
                version: if parts.len() >= 3 { parts[2] } else { "2"@ },
                is_default: l[0] == '*',
            })
        }
    }
}

/// The records that a sequence of listing lines describes, in order.
pub open spec fn distros_of_lines(ls: Seq<Seq<char>>) -> Seq<DistroView>
    decreases ls.len(),
{
    if ls.len() == 0 {
        seq![]
    } else {
        match distro_of_line(ls.last()) {
            Some(d) => distros_of_lines(ls.drop_last()).push(d),
            None => distros_of_lines(ls.drop_last()),
        }
    }
}

/// The records of the verbose listing: its lines, less a first line that holds `NAME`.
pub open spec fn distros_of_listing(output: Seq<char>) -> Seq<DistroView> {
    let ls = lines(output);
    if ls.len() > 0 && has_infix(ls[0], "NAME"@) {
        distros_of_lines(ls.drop_first())
    } else {
        distros_of_lines(ls)
    }
}

/// The online catalogue entry that one line describes: `NAME FRIENDLY NAME`, split at the
/// first space; a line with no space gives the name twice, and a blank line gives none.
pub open spec fn online_of_line(line: Seq<char>) -> Option<(Seq<char>, Seq<char>)> {
    let l = trim(line);
    if l.len() == 0 {
        None
    } else if exists|k: int| 0 <= k < l.len() && l[k] == ' ' {
        let k = choose|k: int| 0 <= k < l.len() && l[k] == ' ' && forall|j: int| 0 <= j < k ==> l[j] != ' ';
        Some((trim(name_chars(l.subrange(0, k))), trim(l.subrange(k + 1, l.len() as int))))
    } else {
        Some((trim(name_chars(l)), trim(name_chars(l))))
    }
}

/// The catalogue entries that a sequence of lines describes, in order.
pub open spec fn onlines_of_lines(ls: Seq<Seq<char>>) -> Seq<(Seq<char>, Seq<char>)>
    decreases ls.len(),
{
    if ls.len() == 0 {
        seq![]
    } else {
        match online_of_line(ls.last()) {
            Some(d) => onlines_of_lines(ls.drop_last()).push(d),
            None => onlines_of_lines(ls.drop_last()),
        }
    }
}

/// The catalogue entries of the online listing, whose first three lines are headers.
pub open spec fn onlines_of_listing(output: Seq<char>) -> Seq<(Seq<char>, Seq<char>)> {
    let ls = lines(output);
    onlines_of_lines(ls.subrange(if ls.len() >= 3 { 3 } else { ls.len() as int }, ls.len() as int))
}

/// The views of catalogue entries.
pub open spec fn online_views(v: Seq<OnlineDistribution>) -> Seq<(Seq<char>, Seq<char>)> {
    v.map_values(|d: OnlineDistribution| (d.name@, d.friendly_name@))
}

fn distro_from_line(line: &str) -> (r: Option<WslDistribution>)
    ensures
        match r {
            Some(d) => distro_of_line(line@) == Some(d@),
            None => distro_of_line(line@) is None,
        },
{
    let l = trim_str(line);
    let lc = chars_of(l.as_str());
    if lc.len() == 0 {
        return None;
    }
    let is_default = lc[0] == '*';
    let mut k: usize = 0;
    while k < lc.len() && lc[k] == '*'
        invariant
            k <= lc@.len(),
            forall|j: int| 0 <= j < k ==> #[trigger] lc@[j] == '*',
        decreases lc@.len() - k,
    {
        k = k + 1;
    }
    proof {
        lemma_lead_stars(lc@, k as int);
    }
    let body = trim_str(slice_string(l.as_str(), k, lc.len()).as_str());
    let parts = split_words(body.as_str());
    if parts.len() < 2 {
        return None;
    }
    assert(views(parts@)[0] == parts@[0]@ && views(parts@)[1] == parts@[1]@);
    let name = clean_distro_name(parts[0].as_str());
    if name.unicode_len() == 0 {
        return None;
    }
    let state = DistributionState::from_word(parts[1].as_str());
    let version = if parts.len() >= 3 {
        assert(views(parts@)[2] == parts@[2]@);
        parts[2].clone()
    } else {
        String::from_str("2")
    };
    Some(WslDistribution { name, state, version, is_default })
}

fn online_from_line(line: &str) -> (r: Option<OnlineDistribution>)
    ensures
        match r {
            Some(d) => online_of_line(line@) == Some((d.name@, d.friendly_name@)),
            None => online_of_line(line@) is None,
        },
{
    let l = trim_str(line);
    let lc = chars_of(l.as_str());
    if lc.len() == 0 {
        return None;
    }
    let mut k: usize = 0;
    while k < lc.len() && lc[k] != ' '
        invariant
            k <= lc@.len(),
            forall|j: int| 0 <= j < k ==> #[trigger] lc@[j] != ' ',
        decreases lc@.len() - k,
    {
        k = k + 1;
    }
    if k < lc.len() {
        let ghost ls = l@;
        assert(0 <= k < ls.len() && ls[k as int] == ' ');
        let ghost c = choose|c: int| 0 <= c < ls.len() && ls[c] == ' ' && forall|j: int| 0 <= j < c ==> ls[j] != ' ';
        assert(c == k) by {
            if c < k {
                assert(lc@[c] != ' ');
            } else if k < c {
                assert(ls[k as int] != ' ');
            }
        }
        let name = clean_distro_name(slice_string(l.as_str(), 0, k).as_str());
        let friendly_name = trim_str(slice_string(l.as_str(), k + 1, lc.len()).as_str());
        Some(OnlineDistribution { name, friendly_name })
    } else {
        let name = clean_distro_name(l.as_str());
        let friendly_name = clean_distro_name(l.as_str());
        Some(OnlineDistribution { name, friendly_name })
    }
}

/// The number of lines of `ls` that hold more than whitespace.
pub open spec fn count_non_blank(ls: Seq<Seq<char>>) -> nat
    decreases ls.len(),
{
    if ls.len() == 0 {
        0
    } else if trim(ls.last()).len() > 0 {
        count_non_blank(ls.drop_last()) + 1
    } else {
        count_non_blank(ls.drop_last())
    }
}

/// The text after the last `:` of `s`, or all of `s` when it has none.
pub open spec fn after_last_colon(s: Seq<char>) -> Seq<char> {
    if exists|k: int| 0 <= k < s.len() && s[k] == ':' {
        let k = choose|k: int| 0 <= k < s.len() && s[k] == ':' && forall|j: int| k < j < s.len() ==> s[j] != ':';
        s.subrange(k + 1, s.len() as int)
    } else {
        s
    }
}

/// The value of the first line of `ls` whose lower-cased text mentions `key`: the text after
/// its last `:`, trimmed.
pub open spec fn status_value_of(ls: Seq<Seq<char>>, key: Seq<char>) -> Option<Seq<char>>
    decreases ls.len(),
{
    if ls.len() == 0 {
        None
    } else if has_infix(lower_of(ls[0]), key) {
        Some(trim(after_last_colon(ls[0])))
    } else {
        status_value_of(ls.drop_first(), key)
    }
}

fn after_last_colon_exec(s: &str) -> (r: String)
    ensures
        r@ == after_last_colon(s@),
{
    let cs = chars_of(s);
    let mut k: usize = cs.len();
    while k > 0 && cs[k - 1] != ':'
        invariant
            k <= cs@.len(),
            cs@ == s@,
            forall|j: int| k <= j < s@.len() ==> #[trigger] s@[j] != ':',
        decreases k,
    {
        k = k - 1;
    }
    if k > 0 {
        let ghost c = choose|c: int| 0 <= c < s@.len() && s@[c] == ':' && forall|j: int| c < j < s@.len() ==> s@[j] != ':';
        assert(c == k - 1) by {
            if c < k - 1 {
                assert(s@[k - 1] != ':');
            }
        }
        slice_string(s, k, cs.len())
    } else {
        assert(!exists|c: int| 0 <= c < s@.len() && s@[c] == ':');
        assert(s@.subrange(0, s@.len() as int) =~= s@);
        slice_string(s, 0, cs.len())
    }
}

/// Holds the parsers for what the gateway prints.
pub struct WslService;

impl WslService {
    /// The instance records of a verbose listing, in order; it never fails.
    pub fn parse_distributions(output: &str) -> (r: Result<Vec<WslDistribution>, String>)
        ensures
            r is Ok,
            distro_views(r->Ok_0@) == distros_of_listing(output@),
    {
        let ls = split_lines(output);
        let mut start: usize = 0;
        if ls.len() > 0 {
            assert(views(ls@)[0] == ls@[0]@);
            if contains_text(ls[0].as_str(), "NAME") {
                start = 1;
            }
        }
        let ghost body = views(ls@).subrange(start as int, ls@.len() as int);
        assert(body =~= if views(ls@).len() > 0 && has_infix(views(ls@)[0], "NAME"@) { views(ls@).drop_first() } else { views(ls@) });
        let mut out: Vec<WslDistribution> = Vec::new();
        let mut i: usize = start;
        assert(distro_views(out@) =~= distros_of_lines(body.subrange(0, 0)));
        while i < ls.len()
            invariant
                start <= i <= ls@.len(),
                body == views(ls@).subrange(start as int, ls@.len() as int),
                distro_views(out@) == distros_of_lines(body.subrange(0, i - start)),
            decreases ls@.len() - i,
        {
            let ghost pre = body.subrange(0, i - start);
            assert(body.subrange(0, i - start + 1).drop_last() =~= pre);
            assert(body.subrange(0, i - start + 1).last() == ls@[i as int]@);
            match distro_from_line(ls[i].as_str()) {
                Some(d) => {
                    let ghost before = out@;
                    out.push(d);
                    assert(distro_views(out@) =~= distro_views(before).push(d@));
                },
                None => {},
            }
            i = i + 1;
        }
        assert(body.subrange(0, ls@.len() - start) =~= body);
        Ok(out)
    }

    /// The catalogue entries of the online listing, after its three header lines; it never
    /// fails.
    pub fn parse_online_distributions(output: &str) -> (r: Result<Vec<OnlineDistribution>, String>)
        ensures
            r is Ok,
            online_views(r->Ok_0@) == onlines_of_listing(output@),
    {
        let ls = split_lines(output);
        let start: usize = if ls.len() >= 3 { 3 } else { ls.len() };
        let ghost body = views(ls@).subrange(start as int, ls@.len() as int);
        let mut out: Vec<OnlineDistribution> = Vec::new();
        let mut i: usize = start;
        assert(online_views(out@) =~= onlines_of_lines(body.subrange(0, 0)));
        while i < ls.len()
            invariant
                start <= i <= ls@.len(),
                body == views(ls@).subrange(start as int, ls@.len() as int),
                online_views(out@) == onlines_of_lines(body.subrange(0, i - start)),
            decreases ls@.len() - i,
        {
            let ghost pre = body.subrange(0, i - start);
            assert(body.subrange(0, i - start + 1).drop_last() =~= pre);
            assert(body.subrange(0, i - start + 1).last() == ls@[i as int]@);
            match online_from_line(ls[i].as_str()) {
                Some(d) => {
                    let ghost before = out@;
                    let ghost dv = (d.name@, d.friendly_name@);
                    out.push(d);
                    assert(online_views(out@) =~= online_views(before).push(dv));
                },
                None => {},
            }
            i = i + 1;
        }
        assert(body.subrange(0, ls@.len() - start) =~= body);
        Ok(out)
    }

    /// Whether a listing of running instances names any: it has more non-blank lines than its
    /// header.
    pub fn listing_shows_running(output: &str) -> (r: bool)
        ensures
            r == (count_non_blank(lines(output@)) > 1),
    {
        let ls = split_lines(output);
        let mut count: usize = 0;
        let mut i: usize = 0;
        while i < ls.len()
            invariant
                i <= ls@.len(),
                count == count_non_blank(views(ls@).subrange(0, i as int)),
                count <= i,
            decreases ls@.len() - i,
        {
            assert(views(ls@).subrange(0, i + 1).drop_last() =~= views(ls@).subrange(0, i as int));
            assert(views(ls@).subrange(0, i + 1).last() == ls@[i as int]@);
            let t = trim_str(ls[i].as_str());
            if t.unicode_len() > 0 {
                count = count + 1;
            }
            i = i + 1;
        }
        assert(views(ls@).subrange(0, ls@.len() as int) =~= views(ls@));
        count > 1
    }

    /// The value that the status output gives for a lower-cased `key` (such as `default
    /// version`): the text after the last `:` of the first line that mentions it, any case.
    pub fn status_value(output: &str, key: &str) -> (r: Option<String>)
        ensures
            match r {
                Some(v) => status_value_of(lines(output@), key@) == Some(v@),
                None => status_value_of(lines(output@), key@) is None,
            },
    {
        let ls = split_lines(output);
        let mut i: usize = 0;
        assert(views(ls@).subrange(0, ls@.len() as int) =~= views(ls@));
        while i < ls.len()
            invariant
                i <= ls@.len(),
                views(ls@) == lines(output@),
                status_value_of(views(ls@), key@) == status_value_of(views(ls@).subrange(i as int, ls@.len() as int), key@),
            decreases ls@.len() - i,
        {
            let ghost rest = views(ls@).subrange(i as int, ls@.len() as int);
            assert(rest[0] == ls@[i as int]@);
            assert(rest.drop_first() =~= views(ls@).subrange(i + 1, ls@.len() as int));
            let lower = lowercase(ls[i].as_str());
            if contains_text(lower.as_str(), key) {
                assert(rest.len() > 0 && has_infix(lower_of(rest[0]), key@));
                assert(status_value_of(rest, key@) == Some(trim(after_last_colon(rest[0]))));
                let value = after_last_colon_exec(ls[i].as_str());
                return Some(trim_str(value.as_str()));
            }
            i = i + 1;
        }
        None
    }
}

} // verus!
