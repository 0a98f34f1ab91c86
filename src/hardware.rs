//! USB devices and disks: parsing what `usbipd` and `lsblk` print.
use vstd::prelude::*;
use crate::text::{
    chars_of, contains_text, has_infix, has_prefix, is_whitespace, is_ws, lines, lower_of, lowercase,
    slice_string, split_lines, split_words, starts_with_text, trim, trim_str, views, words,
};

verus! {

/// A USB device as `usbipd list` reports it.
#[derive(Debug, Clone)]
pub struct UsbDevice {
    pub bus_id: String,
    pub description: String,
    pub state: String,
    pub is_attached: bool,
}

/// What a USB device record holds, as plain values.
pub struct UsbView {
    pub bus_id: Seq<char>,
    pub description: Seq<char>,
    pub state: Seq<char>,
    pub is_attached: bool,
}

impl View for UsbDevice {
    type V = UsbView;

    open spec fn view(&self) -> UsbView {
        UsbView {
            bus_id: self.bus_id@,
            description: self.description@,
            state: self.state@,
            is_attached: self.is_attached,
        }
    }
}

/// A physical disk that can be attached to the virtual machine.
#[derive(Debug, Clone)]
pub struct PhysicalDisk {
    pub device_id: String,
    pub model: String,
    pub size: String,
    pub serial_number: String,
    pub is_mounted: bool,
}

/// A host folder bound into an instance.
#[derive(Debug, Clone)]
pub struct FolderMount {
    pub windows_path: String,
    pub linux_path: String,
    pub distro_name: String,
}

/// The position of the first whitespace character of `s`, if any.
pub open spec fn first_ws(s: Seq<char>) -> Option<int> {
    if exists|k: int| 0 <= k < s.len() && is_ws(s[k]) {
        Some(choose|k: int| 0 <= k < s.len() && is_ws(s[k]) && forall|j: int| 0 <= j < k ==> !is_ws(s[j]))
    } else {
        None
    }
}

/// The pieces of `s` as `str::splitn(n, char::is_whitespace)` gives them: split at each of the
/// first `n - 1` whitespace characters, the rest left whole in the last piece.
pub open spec fn splitn_ws(s: Seq<char>, n: nat) -> Seq<Seq<char>>
    decreases n,
{
    if n <= 1 {
        seq![s]
    } else {
        match first_ws(s) {
            None => seq![s],
            Some(k) => seq![s.subrange(0, k)] + splitn_ws(s.subrange(k + 1, s.len() as int), (n - 1) as nat),
        }
    }
}

/// The non-empty members of `ps`, in order.
pub open spec fn non_empty(ps: Seq<Seq<char>>) -> Seq<Seq<char>>
    decreases ps.len(),
{
    if ps.len() == 0 {
        seq![]
    } else if ps.last().len() == 0 {
        non_empty(ps.drop_last())
    } else {
        non_empty(ps.drop_last()).push(ps.last())
    }
}

/// The members of `ws` joined with single spaces.
pub open spec fn join_spaced(ws: Seq<Seq<char>>) -> Seq<char>
    decreases ws.len(),
{
    if ws.len() == 0 {
        seq![]
    } else if ws.len() == 1 {
        ws[0]
    } else {
        join_spaced(ws.drop_last()) + " "@ + ws.last()
    }
}

/// The position of the last whitespace character of `s`, or its length when there is none.
pub open spec fn last_ws_or_len(s: Seq<char>) -> int {
    if exists|k: int| 0 <= k < s.len() && is_ws(s[k]) {
        choose|k: int| 0 <= k < s.len() && is_ws(s[k]) && forall|j: int| k < j < s.len() ==> !is_ws(s[j])
    } else {
        s.len() as int
    }
}

/// The device that one row of `usbipd list` describes. The row is cut at its first three
/// whitespace characters; with at least three non-empty pieces the first is the bus id, the
/// last the state (attached when it holds `attached` in any case), and the description is the
/// words between the id columns and the row's last whitespace (or the third piece when there
/// are only three). A blank row, a `---` rule, or a row of fewer pieces describes none.
#[verifier::opaque]
pub open spec fn usb_of_line(line: Seq<char>) -> Option<UsbView> {
    let l = trim(line);
    let parts = non_empty(splitn_ws(l, 4));
    if l.len() == 0 || has_prefix(l, "---"@) || parts.len() < 3 {
        None
    } else {
        let state = parts.last();
        Some(UsbView {
            bus_id: parts[0],
            description: if parts.len() >= 4 {
                let w = words(trim(l.subrange(0, last_ws_or_len(l))));
                join_spaced(w.subrange(if w.len() >= 2 { 2 } else { w.len() as int }, w.len() as int))
            } else {
                parts[2]
            },
            state,
            is_attached: has_infix(lower_of(state), "attached"@),
        })
    }
}

/// The devices that a sequence of rows describes, in order.
pub open spec fn usbs_of_lines(ls: Seq<Seq<char>>) -> Seq<UsbView>
    decreases ls.len(),
{
    if ls.len() == 0 {
        seq![]
    } else {
        match usb_of_line(ls.last()) {
            Some(d) => usbs_of_lines(ls.drop_last()).push(d),
            None => usbs_of_lines(ls.drop_last()),
        }
    }
}

/// The devices of a `usbipd list` output, whose first two lines are headers.
pub open spec fn usbs_of_listing(output: Seq<char>) -> Seq<UsbView> {
    let ls = lines(output);
    usbs_of_lines(ls.subrange(if ls.len() >= 2 { 2 } else { ls.len() as int }, ls.len() as int))
}

/// The views of device records.
pub open spec fn usb_views(v: Seq<UsbDevice>) -> Seq<UsbView> {
    v.map_values(|d: UsbDevice| d@)
}

/// The first word of each line of `lsblk` output that mentions `/mnt/` (empty for a line
/// without words), in order.
pub open spec fn mounted_of_lines(ls: Seq<Seq<char>>) -> Seq<Seq<char>>
    decreases ls.len(),
{
    if ls.len() == 0 {
        seq![]
    } else if has_infix(ls.last(), "/mnt/"@) {
        let w = words(ls.last());
        mounted_of_lines(ls.drop_last()).push(if w.len() > 0 { w[0] } else { seq![] })
    } else {
        mounted_of_lines(ls.drop_last())
    }
}

fn first_ws_exec(s: &str) -> (r: Option<usize>)
    ensures
        match r {
            Some(k) => first_ws(s@) == Some(k as int) && k < s@.len(),
            None => first_ws(s@) is None,
        },
{
    let cs = chars_of(s);
    let mut k: usize = 0;
    while k < cs.len() && !is_whitespace(cs[k])
        invariant
            k <= cs@.len(),
            cs@ == s@,
            forall|j: int| 0 <= j < k ==> !is_ws(#[trigger] s@[j]),
        decreases cs@.len() - k,
    {
        k = k + 1;
    }
    if k < cs.len() {
        let ghost c = choose|c: int| 0 <= c < s@.len() && is_ws(s@[c]) && forall|j: int| 0 <= j < c ==> !is_ws(s@[j]);
        assert(c == k) by {
            if c > k {
                assert(!is_ws(s@[k as int]));
            }
        }
        Some(k)
    } else {
        None
    }
}

fn splitn_ws_exec(s: &str, n: usize) -> (r: Vec<String>)
    ensures
        views(r@) == splitn_ws(s@, n as nat),
    decreases n,
{
    if n <= 1 {
        let mut r: Vec<String> = Vec::new();
        r.push(slice_string(s, 0, s.unicode_len()));
        assert(s@.subrange(0, s@.len() as int) =~= s@);
        assert(views(r@) =~= seq![s@]);
        return r;
    }
    match first_ws_exec(s) {
        None => {
            let mut r: Vec<String> = Vec::new();
            r.push(slice_string(s, 0, s.unicode_len()));
            assert(s@.subrange(0, s@.len() as int) =~= s@);
            assert(views(r@) =~= seq![s@]);
            r
        },
        Some(k) => {
            let len = s.unicode_len();
            let head = slice_string(s, 0, k);
            let tail = slice_string(s, k + 1, len);
            let rest = splitn_ws_exec(tail.as_str(), n - 1);
            let mut r: Vec<String> = Vec::new();
            r.push(head);
            let mut i: usize = 0;
            while i < rest.len()
                invariant
                    i <= rest@.len(),
                    views(r@) =~= seq![s@.subrange(0, k as int)] + views(rest@).subrange(0, i as int),
                decreases rest@.len() - i,
            {
                let ghost before = r@;
                r.push(rest[i].clone());
                assert(views(r@) =~= views(before).push(rest@[i as int]@));
                i = i + 1;
            }
            assert(views(rest@).subrange(0, rest@.len() as int) =~= views(rest@));
            r
        },
    }
}

fn non_empty_exec(ps: &Vec<String>) -> (r: Vec<String>)
    ensures
        views(r@) == non_empty(views(ps@)),
{
    let mut r: Vec<String> = Vec::new();
    let mut i: usize = 0;
    while i < ps.len()
        invariant
            i <= ps@.len(),
            views(r@) == non_empty(views(ps@).subrange(0, i as int)),
        decreases ps@.len() - i,
    {
        let ghost pre = views(ps@).subrange(0, i as int);
        assert(views(ps@).subrange(0, i + 1).drop_last() =~= pre);
        assert(views(ps@).subrange(0, i + 1).last() == ps@[i as int]@);
        if ps[i].unicode_len() > 0 {
            let ghost before = r@;
            r.push(ps[i].clone());
            assert(views(r@) =~= views(before).push(ps@[i as int]@));
        }
        i = i + 1;
    }
    assert(views(ps@).subrange(0, ps@.len() as int) =~= views(ps@));
    r
}

fn join_spaced_from(ws: &Vec<String>, from: usize) -> (r: String)
    requires
        from <= ws@.len(),
    ensures
        r@ == join_spaced(views(ws@).subrange(from as int, ws@.len() as int)),
{
    let mut out = String::new();
    let mut i: usize = from;
    assert(views(ws@).subrange(from as int, from as int) =~= seq![]);
    while i < ws.len()
        invariant
            from <= i <= ws@.len(),
            out@ == join_spaced(views(ws@).subrange(from as int, i as int)),
        decreases ws@.len() - i,
    {
        let ghost part = views(ws@).subrange(from as int, i + 1);
        assert(part.drop_last() =~= views(ws@).subrange(from as int, i as int));
        assert(part.last() == ws@[i as int]@);
        if i > from {
            out.append(" ");
        } else {
            assert(part =~= seq![ws@[i as int]@]);
        }
        out.append(ws[i].as_str());
        i = i + 1;
    }
    out
}

fn last_ws_exec(s: &str) -> (r: usize)
    ensures
        r == last_ws_or_len(s@),
        r <= s@.len(),
{
    let cs = chars_of(s);
    let mut k: usize = cs.len();
    while k > 0 && !is_whitespace(cs[k - 1])
        invariant
            k <= cs@.len(),
            cs@ == s@,
            forall|j: int| k <= j < s@.len() ==> !is_ws(#[trigger] s@[j]),
        decreases k,
    {
        k = k - 1;
    }
    if k > 0 {
        let ghost c = choose|c: int| 0 <= c < s@.len() && is_ws(s@[c]) && forall|j: int| c < j < s@.len() ==> !is_ws(s@[j]);
        assert(c == k - 1) by {
            if c < k - 1 {
                assert(!is_ws(s@[k - 1]));
            }
        }
        k - 1
    } else {
        assert(!exists|c: int| 0 <= c < s@.len() && is_ws(s@[c]));
        cs.len()
    }
}

fn usb_from_line(line: &str) -> (r: Option<UsbDevice>)
    ensures
        match r {
            Some(d) => usb_of_line(line@) == Some(d@),
            None => usb_of_line(line@) is None,
        },
{
    reveal(usb_of_line);
    let l = trim_str(line);
    let pieces = splitn_ws_exec(l.as_str(), 4);
    let parts = non_empty_exec(&pieces);
    if l.unicode_len() == 0 || starts_with_text(l.as_str(), "---") || parts.len() < 3 {
        return None;
    }
    let np = parts.len();
    assert(views(parts@)[0] == parts@[0]@);
    assert(views(parts@)[2] == parts@[2]@);
    assert(views(parts@).last() == parts@[np - 1]@);
    let bus_id = parts[0].clone();
    let state = parts[np - 1].clone();
    let description = if np >= 4 {
        let cut = last_ws_exec(l.as_str());
        let head = trim_str(slice_string(l.as_str(), 0, cut).as_str());
        let w = split_words(head.as_str());
        let from: usize = if w.len() >= 2 { 2 } else { w.len() };
        join_spaced_from(&w, from)
    } else {
        parts[2].clone()
    };
    let lower = lowercase(state.as_str());
    let is_attached = contains_text(lower.as_str(), "attached");
    Some(UsbDevice { bus_id, description, state, is_attached })
}

/// Parses what the gateway prints about hosts' devices and disks.
pub struct HardwareService;

impl HardwareService {
    /// The devices of a `usbipd list` output, after its two header lines; it never fails.
    pub fn parse_usb_devices(output: &str) -> (r: Result<Vec<UsbDevice>, String>)
        ensures
            r is Ok,
            usb_views(r->Ok_0@) == usbs_of_listing(output@),
    {
        let ls = split_lines(output);
        let start: usize = if ls.len() >= 2 { 2 } else { ls.len() };
        let ghost body = views(ls@).subrange(start as int, ls@.len() as int);
        let mut out: Vec<UsbDevice> = Vec::new();
        let mut i: usize = start;
        assert(usb_views(out@) =~= usbs_of_lines(body.subrange(0, 0)));
        while i < ls.len()
            invariant
                start <= i <= ls@.len(),
                body == views(ls@).subrange(start as int, ls@.len() as int),
                usb_views(out@) == usbs_of_lines(body.subrange(0, i - start)),
            decreases ls@.len() - i,
        {
            let ghost pre = body.subrange(0, i - start);
            assert(body.subrange(0, i - start + 1).drop_last() =~= pre);
            assert(body.subrange(0, i - start + 1).last() == ls@[i as int]@);
            match usb_from_line(ls[i].as_str()) {
                Some(d) => {
                    let ghost before = out@;
                    out.push(d);
                    assert(usb_views(out@) =~= usb_views(before).push(d@));
                },
                None => {},
            }
            i = i + 1;
        }
        assert(body.subrange(0, ls@.len() - start) =~= body);
        Ok(out)
    }

    /// The device names of the `lsblk -o NAME,MOUNTPOINT` lines that mention `/mnt/`.
    pub fn get_mounted_disks(output: &str) -> (r: Vec<String>)
        ensures
            views(r@) == mounted_of_lines(lines(output@)),
    {
        let ls = split_lines(output);
        let mut out: Vec<String> = Vec::new();
        let mut i: usize = 0;
        assert(views(out@) =~= mounted_of_lines(views(ls@).subrange(0, 0)));
        while i < ls.len()
            invariant
                i <= ls@.len(),
                views(out@) == mounted_of_lines(views(ls@).subrange(0, i as int)),
            decreases ls@.len() - i,
        {
            let ghost pre = views(ls@).subrange(0, i as int);
            assert(views(ls@).subrange(0, i + 1).drop_last() =~= pre);
            assert(views(ls@).subrange(0, i + 1).last() == ls@[i as int]@);
            if contains_text(ls[i].as_str(), "/mnt/") {
                let w = split_words(ls[i].as_str());
                let first = if w.len() > 0 {
                    assert(views(w@)[0] == w@[0]@);
                    w[0].clone()
                } else {
                    String::new()
                };
                let ghost before = out@;
                out.push(first);
                assert(views(out@) =~= views(before).push(first@));
            }
            i = i + 1;
        }
        assert(views(ls@).subrange(0, ls@.len() as int) =~= views(ls@));
        out
    }
}

} // verus!
