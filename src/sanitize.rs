//! Validation of user-supplied names and paths before they reach a command line.
use vstd::prelude::*;
use crate::text::{chars_of, has_infix, contains_text};

verus! {

/// What `char::is_alphanumeric` answers for a character (Unicode letters and numbers).
pub uninterp spec fn alnum(c: char) -> bool;

/// Relies on `char::is_alphanumeric`: the Unicode `Alphabetic` or `Numeric` property, a
/// function of the character alone.
#[verifier::external_body]
fn is_alnum(c: char) -> (r: bool)
    ensures
        r == alnum(c),
{
    c.is_alphanumeric()
}

/// A character allowed in an instance name.
pub open spec fn is_distro_name_char(c: char) -> bool {
    alnum(c) || c == '-' || c == '_' || c == '.'
}

/// A character that a shell would treat specially, refused in every path.
pub open spec fn is_shell_char(c: char) -> bool {
    c == '\'' || c == '"' || c == '`' || c == '$' || c == ';' || c == '&' || c == '|' || c == '\n'
        || c == '\r' || c == '\0'
}

/// A character allowed in a USB bus id: an ASCII digit, `-` or `.`.
pub open spec fn is_bus_id_char(c: char) -> bool {
    ('0' <= c && c <= '9') || c == '-' || c == '.'
}

/// A character allowed in a device path.
pub open spec fn is_device_path_char(c: char) -> bool {
    alnum(c) || c == '\\' || c == '.' || c == ':'
}

/// Every character of `s` passes `ok`.
pub open spec fn all_chars(s: Seq<char>, ok: spec_fn(char) -> bool) -> bool {
    forall|i: int| 0 <= i < s.len() ==> ok(#[trigger] s[i])
}

/// Why an instance name is refused, if it is: empty, over 100 bytes of UTF-8, a character
/// other than a letter, digit, `-`, `_` or `.`, or a `..` anywhere.
pub open spec fn distro_name_problem(name: Seq<char>, byte_len: nat) -> Option<Seq<char>> {
    if name.len() == 0 {
        Some("Distribution name cannot be empty"@)
    } else if byte_len > 100 {
        Some("Distribution name too long (max 100 chars)"@)
    } else if !all_chars(name, |c: char| is_distro_name_char(c)) {
        Some("Distribution name contains invalid characters"@)
    } else if has_infix(name, ".."@) {
        Some("Invalid distribution name"@)
    } else {
        None
    }
}

/// Why a Linux path is refused, if it is: empty, a shell character, or not absolute.
pub open spec fn linux_path_problem(path: Seq<char>) -> Option<Seq<char>> {
    if path.len() == 0 {
        Some("Path cannot be empty"@)
    } else if !all_chars(path, |c: char| !is_shell_char(c)) {
        Some("Path contains invalid characters"@)
    } else if path[0] != '/' {
        Some("Linux path must be absolute (start with /)"@)
    } else {
        None
    }
}

/// Why a Windows path is refused, if it is: empty, or a shell character, `<` or `>`.
pub open spec fn windows_path_problem(path: Seq<char>) -> Option<Seq<char>> {
    if path.len() == 0 {
        Some("Path cannot be empty"@)
    } else if !all_chars(path, |c: char| !is_shell_char(c) && c != '<' && c != '>') {
        Some("Path contains invalid characters"@)
    } else {
        None
    }
}

/// Why a USB bus id is refused, if it is: empty, or a character other than a digit, `-`, `.`.
pub open spec fn bus_id_problem(id: Seq<char>) -> Option<Seq<char>> {
    if id.len() == 0 {
        Some("Bus ID cannot be empty"@)
    } else if !all_chars(id, |c: char| is_bus_id_char(c)) {
        Some("Invalid bus ID format"@)
    } else {
        None
    }
}

/// Why a device path is refused, if it is: empty, or a character other than a letter, digit,
/// `\`, `.` or `:`.
pub open spec fn device_path_problem(path: Seq<char>) -> Option<Seq<char>> {
    if path.len() == 0 {
        Some("Device path cannot be empty"@)
    } else if !all_chars(path, |c: char| is_device_path_char(c)) {
        Some("Invalid device path format"@)
    } else {
        None
    }
}

/// The outcome that a problem calls for: the input itself when there is none.
pub open spec fn verdict<'a>(r: Result<&'a str, String>, input: &'a str, problem: Option<Seq<char>>) -> bool {
    match problem {
        None => r == Ok::<&'a str, String>(input),
        Some(m) => r is Err && r->Err_0@ == m,
    }
}

fn has_invalid_name_char(cs: &Vec<char>) -> (r: bool)
    ensures
        r == !all_chars(cs@, |c: char| is_distro_name_char(c)),
{
    let mut i: usize = 0;
    while i < cs.len()
        invariant
            i <= cs@.len(),
            forall|j: int| 0 <= j < i ==> is_distro_name_char(#[trigger] cs@[j]),
        decreases cs@.len() - i,
    {
        let c = cs[i];
        if !(is_alnum(c) || c == '-' || c == '_' || c == '.') {
            assert(!is_distro_name_char(cs@[i as int]));
            return true;
        }
        i = i + 1;
    }
    false
}

fn has_shell_char(cs: &Vec<char>, angles: bool) -> (r: bool)
    ensures
        r == !all_chars(cs@, |c: char| !is_shell_char(c) && (!angles || (c != '<' && c != '>'))),
{
    let mut i: usize = 0;
    while i < cs.len()
        invariant
            i <= cs@.len(),
            forall|j: int| 0 <= j < i ==> {
                let c = #[trigger] cs@[j];
                !is_shell_char(c) && (!angles || (c != '<' && c != '>'))
            },
        decreases cs@.len() - i,
    {
        let c = cs[i];
        let shell = c == '\'' || c == '"' || c == '`' || c == '$' || c == ';' || c == '&' || c == '|'
            || c == '\n' || c == '\r' || c == '\0';
        if shell || (angles && (c == '<' || c == '>')) {
            return true;
        }
        i = i + 1;
    }
    false
}

/// Accepts an instance name of letters, digits, `-`, `_` and `.`, at most 100 bytes long and
/// without `..`; returns it unchanged.
pub fn validate_distro_name(name: &str) -> (r: Result<&str, String>)
    ensures
        verdict(r, name, distro_name_problem(name@, name.len() as nat)),
{
    let cs = chars_of(name);
    if cs.len() == 0 {
        return Err(String::from_str("Distribution name cannot be empty"));
    }
    if name.len() > 100 {
        return Err(String::from_str("Distribution name too long (max 100 chars)"));
    }
    if has_invalid_name_char(&cs) {
        return Err(String::from_str("Distribution name contains invalid characters"));
    }
    if contains_text(name, "..") {
        return Err(String::from_str("Invalid distribution name"));
    }
    Ok(name)
}

/// Accepts an absolute Linux path without shell characters; returns it unchanged.
pub fn validate_linux_path(path: &str) -> (r: Result<&str, String>)
    ensures
        verdict(r, path, linux_path_problem(path@)),
{
    let cs = chars_of(path);
    if cs.len() == 0 {
        return Err(String::from_str("Path cannot be empty"));
    }
    if has_shell_char(&cs, false) {
        return Err(String::from_str("Path contains invalid characters"));
    }
    assert(all_chars(path@, |c: char| !is_shell_char(c))) by {
        assert forall|i: int| 0 <= i < path@.len() implies !is_shell_char(#[trigger] path@[i]) by {
            assert(cs@[i] == path@[i]);
        }
    }
    if cs[0] != '/' {
        return Err(String::from_str("Linux path must be absolute (start with /)"));
    }
    Ok(path)
}

/// Accepts a Windows path without shell characters, `<` or `>`; returns it unchanged.
pub fn validate_windows_path(path: &str) -> (r: Result<&str, String>)
    ensures
        verdict(r, path, windows_path_problem(path@)),
{
    let cs = chars_of(path);
    if cs.len() == 0 {
        return Err(String::from_str("Path cannot be empty"));
    }
    if has_shell_char(&cs, true) {
        return Err(String::from_str("Path contains invalid characters"));
    }
    assert(all_chars(path@, |c: char| !is_shell_char(c) && c != '<' && c != '>')) by {
        assert forall|i: int| 0 <= i < path@.len() implies {
            let c = #[trigger] path@[i];
            !is_shell_char(c) && c != '<' && c != '>'
        } by {
            assert(cs@[i] == path@[i]);
        }
    }
    Ok(path)
}

/// Accepts a USB bus id such as `1-2` or `1-2.3`: digits, dashes and dots; returns it
/// unchanged.
pub fn validate_bus_id(id: &str) -> (r: Result<&str, String>)
    ensures
        verdict(r, id, bus_id_problem(id@)),
{
    let cs = chars_of(id);
    if cs.len() == 0 {
        return Err(String::from_str("Bus ID cannot be empty"));
    }
    let mut i: usize = 0;
    while i < cs.len()
        invariant
            i <= cs@.len(),
            cs@ == id@,
            forall|j: int| 0 <= j < i ==> is_bus_id_char(#[trigger] id@[j]),
        decreases cs@.len() - i,
    {
        let c = cs[i];
        if !(('0' <= c && c <= '9') || c == '-' || c == '.') {
            assert(!is_bus_id_char(id@[i as int]));
            return Err(String::from_str("Invalid bus ID format"));
        }
        i = i + 1;
    }
    Ok(id)
}

/// Accepts a device path such as `\\.\PhysicalDrive0`: letters, digits, `\`, `.` and `:`;
/// returns it unchanged.
pub fn validate_device_path(path: &str) -> (r: Result<&str, String>)
    ensures
        verdict(r, path, device_path_problem(path@)),
{
    let cs = chars_of(path);
    if cs.len() == 0 {
        return Err(String::from_str("Device path cannot be empty"));
    }
    let mut i: usize = 0;
    while i < cs.len()
        invariant
            i <= cs@.len(),
            cs@ == path@,
            forall|j: int| 0 <= j < i ==> is_device_path_char(#[trigger] path@[j]),
        decreases cs@.len() - i,
    {
        let c = cs[i];
        if !(is_alnum(c) || c == '\\' || c == '.' || c == ':') {
            assert(!is_device_path_char(path@[i as int]));
            return Err(String::from_str("Invalid device path format"));
        }
        i = i + 1;
    }
    Ok(path)
}

} // verus!
