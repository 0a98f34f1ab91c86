//! Reading and writing the typed `.wslconfig` settings as INI text, through the `ini` crate.
use vstd::prelude::*;
use crate::config::{NetworkingMode, WslConfig, networking_mode_of};
use crate::encoding::{utf8_lossy, decode_utf8_lossy};
use crate::profile::opt_view;
use crate::text::{chars_of, decimal, decimal_string, lower_of, trim, trim_str};

verus! {

#[verifier::external_type_specification]
#[verifier::external_body]
pub struct ExIni(ini::Ini);

/// Settings keyed by section name and key.
pub type Settings = Map<(Seq<char>, Seq<char>), Seq<char>>;

/// What an INI document holds: for each section name and key, the value that
/// `section(Some(name))` then `get(key)` answers (the first value of the key in the first
/// section of that name).
pub uninterp spec fn ini_settings(doc: ini::Ini) -> Map<(Seq<char>, Seq<char>), Seq<char>>;

/// The bytes that `Ini::write_to` writes for a document.
pub uninterp spec fn ini_written(doc: ini::Ini) -> Seq<u8>;

/// What `Ini::load_from_str` makes of a text: the settings of the document it loads, or nothing
/// when the text is not valid INI.
pub uninterp spec fn ini_parse(text: Seq<char>) -> Option<Map<(Seq<char>, Seq<char>), Seq<char>>>;

/// Relies on `ini::Ini::load_from_str`; a parse error comes back as its message.
#[verifier::external_body]
fn ini_load(text: &str) -> (r: Result<ini::Ini, String>)
    ensures
        match r {
            Ok(doc) => ini_parse(text@) == Some(ini_settings(doc)),
            Err(_) => ini_parse(text@) is None,
        },
{
    match ini::Ini::load_from_str(text) {
        Ok(doc) => Ok(doc),
        Err(e) => Err(e.to_string()),
    }
}

/// Relies on `ini::Ini::section` and `ini::Properties::get`.
#[verifier::external_body]
fn ini_get(doc: &ini::Ini, section: &str, key: &str) -> (r: Option<String>)
    ensures
        match r {
            Some(v) => ini_settings(*doc).contains_key((section@, key@)) && v@ == ini_settings(*doc)[(section@, key@)],
            None => !ini_settings(*doc).contains_key((section@, key@)),
        },
{
    match doc.section(Some(section)) {
        Some(props) => props.get(key).map(String::from),
        None => None,
    }
}

/// Relies on `ini::Ini::new`: an empty document.
#[verifier::external_body]
fn ini_new() -> (r: ini::Ini)
    ensures
        forall|k: (Seq<char>, Seq<char>)| !#[trigger] ini_settings(r).contains_key(k),
{
    ini::Ini::new()
}

/// Relies on `ini::Ini::set_to`: the value replaces every value of the key in the first section
/// of that name, which is created when missing.
#[verifier::external_body]
fn ini_set(doc: &mut ini::Ini, section: &str, key: &str, value: String)
    ensures
        ini_settings(*final(doc)) == ini_settings(*old(doc)).insert((section@, key@), value@),
{
    doc.set_to(Some(section), key.to_string(), value)
}

/// Relies on `ini::Ini::write_to`, writing into memory, where it cannot fail.
#[verifier::external_body]
fn ini_write(doc: &ini::Ini) -> (r: Vec<u8>)
    ensures
        r@ == ini_written(*doc),
{
    let mut buf: Vec<u8> = Vec::new();
    let _ = doc.write_to(&mut buf);
    buf
}

/// The ASCII lower-case code of a character.
pub open spec fn ascii_fold(c: char) -> u32 {
    if 'A' <= c && c <= 'Z' {
        (c as u32 + 32) as u32
    } else {
        c as u32
    }
}

/// Whether two texts are equal when ASCII letters are compared without regard to case.
pub open spec fn eq_ignore_ascii_case(a: Seq<char>, b: Seq<char>) -> bool {
    a.len() == b.len() && forall|i: int| 0 <= i < a.len() ==> ascii_fold(#[trigger] a[i]) == ascii_fold(b[i])
}

/// The value of a run of decimal digits.
pub open spec fn digits_value(s: Seq<char>) -> nat
    decreases s.len(),
{
    if s.len() == 0 {
        0
    } else {
        digits_value(s.drop_last()) * 10 + (s.last() as u32 - '0' as u32) as nat
    }
}

/// `s` without a leading `+`.
pub open spec fn unsigned_part(s: Seq<char>) -> Seq<char> {
    if s.len() > 0 && s[0] == '+' {
        s.drop_first()
    } else {
        s
    }
}

/// Every character of `d` is an ASCII digit.
pub open spec fn all_digits(d: Seq<char>) -> bool {
    forall|i: int| 0 <= i < d.len() ==> '0' <= #[trigger] d[i] && d[i] <= '9'
}

/// What `str::parse::<u32>` gives: an optional `+` and one or more ASCII digits whose value
/// fits 32 bits.
pub open spec fn parse_u32(s: Seq<char>) -> Option<u32> {
    let d = unsigned_part(s);
    if d.len() > 0 && all_digits(d) && digits_value(d) <= u32::MAX {
        Some(digits_value(d) as u32)
    } else {
        None
    }
}

/// A setting, if present.
pub open spec fn setting(m: Settings, section: Seq<char>, key: Seq<char>) -> Option<Seq<char>> {
    if m.contains_key((section, key)) {
        Some(m[(section, key)])
    } else {
        None
    }
}

/// A flag setting: true when its text is `true` in any case.
pub open spec fn flag(v: Option<Seq<char>>) -> Option<bool> {
    match v {
        Some(t) => Some(eq_ignore_ascii_case(t, "true"@)),
        None => None,
    }
}

/// The typed settings, as plain values.
pub struct WslConfigView {
    pub memory: Option<Seq<char>>,
    pub processors: Option<u32>,
    pub swap: Option<Seq<char>>,
    pub swap_file: Option<Seq<char>>,
    pub localhost_forwarding: Option<bool>,
    pub kernel_command_line: Option<Seq<char>>,
    pub safe_mode: Option<bool>,
    pub nested_virtualization: Option<bool>,
    pub page_reporting: Option<bool>,
    pub debug_console: Option<bool>,
    pub gui_applications: Option<bool>,
    pub networking_mode: Option<NetworkingMode>,
    pub firewall: Option<bool>,
    pub dns_tunneling: Option<bool>,
    pub auto_proxy: Option<bool>,
    pub sparse_vhd: Option<bool>,
}

impl View for WslConfig {
    type V = WslConfigView;

    open spec fn view(&self) -> WslConfigView {
        WslConfigView {
            memory: opt_view(self.memory),
            processors: self.processors,
            swap: opt_view(self.swap),
            swap_file: opt_view(self.swap_file),
            localhost_forwarding: self.localhost_forwarding,
            kernel_command_line: opt_view(self.kernel_command_line),
            safe_mode: self.safe_mode,
            nested_virtualization: self.nested_virtualization,
            page_reporting: self.page_reporting,
            debug_console: self.debug_console,
            gui_applications: self.gui_applications,
            networking_mode: self.networking_mode,
            firewall: self.firewall,
            dns_tunneling: self.dns_tunneling,
            auto_proxy: self.auto_proxy,
            sparse_vhd: self.sparse_vhd,
        }
    }
}

/// The typed settings that a document's settings give: the `[wsl2]` keys and the
/// `[experimental]` keys `autoProxy` and `sparseVhd`; a processor count that does not parse is
/// left out.
pub open spec fn config_of_settings(m: Settings) -> WslConfigView {
    let w = "wsl2"@;
    let x = "experimental"@;
    WslConfigView {
        memory: setting(m, w, "memory"@),
        processors: match setting(m, w, "processors"@) { Some(t) => parse_u32(t), None => None },
        swap: setting(m, w, "swap"@),
        swap_file: setting(m, w, "swapFile"@),
        localhost_forwarding: flag(setting(m, w, "localhostForwarding"@)),
        kernel_command_line: setting(m, w, "kernelCommandLine"@),
        safe_mode: flag(setting(m, w, "safeMode"@)),
        nested_virtualization: flag(setting(m, w, "nestedVirtualization"@)),
        page_reporting: flag(setting(m, w, "pageReporting"@)),
        debug_console: flag(setting(m, w, "debugConsole"@)),
        gui_applications: flag(setting(m, w, "guiApplications"@)),
        networking_mode: match setting(m, w, "networkingMode"@) {
            Some(t) => Some(networking_mode_of(lower_of(t))),
            None => None,
        },
        firewall: flag(setting(m, w, "firewall"@)),
        dns_tunneling: flag(setting(m, w, "dnsTunneling"@)),
        auto_proxy: flag(setting(m, x, "autoProxy"@)),
        sparse_vhd: flag(setting(m, x, "sparseVhd"@)),
    }
}

/// `m` with the key set to the text, when there is one.
pub open spec fn put(m: Settings, section: Seq<char>, key: Seq<char>, v: Option<Seq<char>>) -> Settings {
    match v {
        Some(t) => m.insert((section, key), t),
        None => m,
    }
}

/// The text of a flag, when set.
pub open spec fn flag_text(b: Option<bool>) -> Option<Seq<char>> {
    match b {
        Some(true) => Some("true"@),
        Some(false) => Some("false"@),
        None => None,
    }
}

/// The settings that the typed settings write: every field that is set, under its key.
pub open spec fn settings_of_config(c: WslConfigView) -> Settings {
    let w = "wsl2"@;
    let x = "experimental"@;
    let m = Map::<(Seq<char>, Seq<char>), Seq<char>>::empty();
    let m = put(m, w, "memory"@, c.memory);
    let m = put(m, w, "processors"@, match c.processors { Some(n) => Some(decimal(n as nat)), None => None });
    let m = put(m, w, "swap"@, c.swap);
    let m = put(m, w, "swapFile"@, c.swap_file);
    let m = put(m, w, "localhostForwarding"@, flag_text(c.localhost_forwarding));
    let m = put(m, w, "kernelCommandLine"@, c.kernel_command_line);
    let m = put(m, w, "safeMode"@, flag_text(c.safe_mode));
    let m = put(m, w, "nestedVirtualization"@, flag_text(c.nested_virtualization));
    let m = put(m, w, "pageReporting"@, flag_text(c.page_reporting));
    let m = put(m, w, "debugConsole"@, flag_text(c.debug_console));
    let m = put(m, w, "guiApplications"@, flag_text(c.gui_applications));
    let m = put(m, w, "networkingMode"@, match c.networking_mode {
        Some(NetworkingMode::Nat) => Some("nat"@),
        Some(NetworkingMode::Mirrored) => Some("mirrored"@),
        Some(NetworkingMode::Bridged) => Some("bridged"@),
        None => None,
    });
    let m = put(m, w, "firewall"@, flag_text(c.firewall));
    let m = put(m, w, "dnsTunneling"@, flag_text(c.dns_tunneling));
    let m = put(m, x, "autoProxy"@, flag_text(c.auto_proxy));
    put(m, x, "sparseVhd"@, flag_text(c.sparse_vhd))
}

/// Whether `a` equals `b` when ASCII letters are compared without regard to case.
pub fn equals_ignore_ascii_case(a: &str, b: &str) -> (r: bool)
    ensures
        r == eq_ignore_ascii_case(a@, b@),
{
    let x = chars_of(a);
    let y = chars_of(b);
    if x.len() != y.len() {
        return false;
    }
    let mut i: usize = 0;
    while i < x.len()
        invariant
            x@ == a@,
            y@ == b@,
            x@.len() == y@.len(),
            i <= x@.len(),
            forall|j: int| 0 <= j < i ==> ascii_fold(#[trigger] a@[j]) == ascii_fold(b@[j]),
        decreases x@.len() - i,
    {
        let c = x[i];
        let d = y[i];
        let fc: u32 = if 'A' <= c && c <= 'Z' { c as u32 + 32 } else { c as u32 };
        let fd: u32 = if 'A' <= d && d <= 'Z' { d as u32 + 32 } else { d as u32 };
        if fc != fd {
            assert(ascii_fold(a@[i as int]) != ascii_fold(b@[i as int]));
            return false;
        }
        i = i + 1;
    }
    true
}

/// Parses a decimal `u32` as `str::parse` does.
pub fn parse_u32_text(s: &str) -> (r: Option<u32>)
    ensures
        r == parse_u32(s@),
{
    let cs = chars_of(s);
    let start: usize = if cs.len() > 0 && cs[0] == '+' { 1 } else { 0 };
    let ghost d = unsigned_part(s@);
    assert(d =~= s@.subrange(start as int, s@.len() as int));
    if start == cs.len() {
        return None;
    }
    let limit: u64 = 0x1_0000_0000;
    let mut value: u64 = 0;
    let mut i: usize = start;
    assert(d.subrange(0, 0) =~= seq![]);
    while i < cs.len()
        invariant
            cs@ == s@,
            start <= i <= cs@.len(),
            d == s@.subrange(start as int, s@.len() as int),
            d == unsigned_part(s@),
            limit == u32::MAX + 1,
            forall|j: int| 0 <= j < i - start ==> '0' <= #[trigger] d[j] && d[j] <= '9',
            value == if digits_value(d.subrange(0, i - start)) > u32::MAX { limit as nat } else { digits_value(d.subrange(0, i - start)) },
        decreases cs@.len() - i,
    {
        let c = cs[i];
        if !('0' <= c && c <= '9') {
            assert(!('0' <= d[i - start] && d[i - start] <= '9'));
            return None;
        }
        let ghost prefix = d.subrange(0, i - start);
        let ghost next = d.subrange(0, i - start + 1);
        assert(next.drop_last() =~= prefix);
        assert(next.last() == c);
        let digit: u64 = (c as u32 - '0' as u32) as u64;
        if value >= limit {
            assert(digits_value(next) > u32::MAX) by (nonlinear_arith)
                requires
                    digits_value(next) == digits_value(prefix) * 10 + digit,
                    digits_value(prefix) > u32::MAX,
            {
            }
        } else {
            let grown = value * 10 + digit;
            value = if grown > u32::MAX as u64 { limit } else { grown };
        }
        i = i + 1;
    }
    assert(d.subrange(0, cs@.len() - start) =~= d);
    if value >= limit {
        None
    } else {
        Some(value as u32)
    }
}

fn flag_of(v: Option<String>) -> (r: Option<bool>)
    ensures
        r == flag(opt_view(v)),
{
    match v {
        Some(t) => Some(equals_ignore_ascii_case(t.as_str(), "true")),
        None => None,
    }
}

fn set_opt(doc: &mut ini::Ini, section: &str, key: &str, v: Option<String>)
    ensures
        ini_settings(*final(doc)) == put(ini_settings(*old(doc)), section@, key@, opt_view(v)),
{
    if let Some(t) = v {
        ini_set(doc, section, key, t);
    }
}

fn flag_string(b: Option<bool>) -> (r: Option<String>)
    ensures
        opt_view(r) == flag_text(b),
{
    match b {
        Some(true) => Some(String::from_str("true")),
        Some(false) => Some(String::from_str("false")),
        None => None,
    }
}

fn copy_text(v: &Option<String>) -> (r: Option<String>)
    ensures
        opt_view(r) == opt_view(*v),
{
    match v {
        Some(t) => Some(t.clone()),
        None => None,
    }
}

impl WslConfig {
    /// Reads the settings from INI text; text that is not valid INI is refused with the
    /// parser's message.
    pub fn from_ini(content: &str) -> (r: Result<WslConfig, String>)
        ensures
            match ini_parse(content@) {
                Some(m) => r is Ok && r->Ok_0@ == config_of_settings(m),
                None => r is Err,
            },
    {
        let doc = match ini_load(content) {
            Ok(d) => d,
            Err(e) => {
                let mut message = String::from_str("Invalid INI format: ");
                message.append(e.as_str());
                return Err(message);
            },
        };
        let processors = match ini_get(&doc, "wsl2", "processors") {
            Some(t) => parse_u32_text(t.as_str()),
            None => None,
        };
        let networking_mode = match ini_get(&doc, "wsl2", "networkingMode") {
            Some(t) => Some(NetworkingMode::from_str(t.as_str())),
            None => None,
        };
        let config = WslConfig {
            memory: ini_get(&doc, "wsl2", "memory"),
            processors,
            swap: ini_get(&doc, "wsl2", "swap"),
            swap_file: ini_get(&doc, "wsl2", "swapFile"),
            localhost_forwarding: flag_of(ini_get(&doc, "wsl2", "localhostForwarding")),
            kernel_command_line: ini_get(&doc, "wsl2", "kernelCommandLine"),
            safe_mode: flag_of(ini_get(&doc, "wsl2", "safeMode")),
            nested_virtualization: flag_of(ini_get(&doc, "wsl2", "nestedVirtualization")),
            page_reporting: flag_of(ini_get(&doc, "wsl2", "pageReporting")),
            debug_console: flag_of(ini_get(&doc, "wsl2", "debugConsole")),
            gui_applications: flag_of(ini_get(&doc, "wsl2", "guiApplications")),
            networking_mode,
            firewall: flag_of(ini_get(&doc, "wsl2", "firewall")),
            dns_tunneling: flag_of(ini_get(&doc, "wsl2", "dnsTunneling")),
            auto_proxy: flag_of(ini_get(&doc, "experimental", "autoProxy")),
            sparse_vhd: flag_of(ini_get(&doc, "experimental", "sparseVhd")),
        };
        Ok(config)
    }

    /// Writes the settings that are set as INI text, without surrounding whitespace.
    pub fn to_ini(&self) -> (r: String)
        ensures
            exists|doc: ini::Ini| ini_settings(doc) == settings_of_config(self@)
                && r@ == trim(utf8_lossy(ini_written(doc))),
    {
        let mut doc = ini_new();
        assert(ini_settings(doc) =~= Map::<(Seq<char>, Seq<char>), Seq<char>>::empty());
        set_opt(&mut doc, "wsl2", "memory", copy_text(&self.memory));
        let processors = match self.processors {
            Some(n) => Some(decimal_string(n as u64)),
            None => None,
        };
        set_opt(&mut doc, "wsl2", "processors", processors);
        set_opt(&mut doc, "wsl2", "swap", copy_text(&self.swap));
        set_opt(&mut doc, "wsl2", "swapFile", copy_text(&self.swap_file));
        set_opt(&mut doc, "wsl2", "localhostForwarding", flag_string(self.localhost_forwarding));
        set_opt(&mut doc, "wsl2", "kernelCommandLine", copy_text(&self.kernel_command_line));
        set_opt(&mut doc, "wsl2", "safeMode", flag_string(self.safe_mode));
        set_opt(&mut doc, "wsl2", "nestedVirtualization", flag_string(self.nested_virtualization));
        set_opt(&mut doc, "wsl2", "pageReporting", flag_string(self.page_reporting));
        set_opt(&mut doc, "wsl2", "debugConsole", flag_string(self.debug_console));
        set_opt(&mut doc, "wsl2", "guiApplications", flag_string(self.gui_applications));
        let mode = match self.networking_mode {
            Some(m) => Some(String::from_str(m.as_str())),
            None => None,
        };
        set_opt(&mut doc, "wsl2", "networkingMode", mode);
        set_opt(&mut doc, "wsl2", "firewall", flag_string(self.firewall));
        set_opt(&mut doc, "wsl2", "dnsTunneling", flag_string(self.dns_tunneling));
        set_opt(&mut doc, "experimental", "autoProxy", flag_string(self.auto_proxy));
        set_opt(&mut doc, "experimental", "sparseVhd", flag_string(self.sparse_vhd));
        let bytes = ini_write(&doc);
        let text = decode_utf8_lossy(bytes.as_slice());
        trim_str(text.as_str())
    }
}

} // verus!
