//! Character-level text helpers shared by the parsers, with their meaning stated over `Seq<char>`.
use vstd::prelude::*;

verus! {

/// The views of a sequence of strings.
pub open spec fn views(v: Seq<String>) -> Seq<Seq<char>> {
    v.map_values(|x: String| x@)
}

/// The Unicode `White_Space` characters, which is what `char::is_whitespace` tests.
pub open spec fn is_ws(c: char) -> bool {
    c == ' ' || ('\u{9}' <= c && c <= '\u{d}') || c == '\u{85}' || c == '\u{a0}' || c == '\u{1680}'
        || ('\u{2000}' <= c && c <= '\u{200a}') || c == '\u{2028}' || c == '\u{2029}'
        || c == '\u{202f}' || c == '\u{205f}' || c == '\u{3000}'
}

pub fn is_whitespace(c: char) -> (r: bool)
    ensures
        r == is_ws(c),
{
    c == ' ' || ('\u{9}' <= c && c <= '\u{d}') || c == '\u{85}' || c == '\u{a0}' || c == '\u{1680}'
        || ('\u{2000}' <= c && c <= '\u{200a}') || c == '\u{2028}' || c == '\u{2029}'
        || c == '\u{202f}' || c == '\u{205f}' || c == '\u{3000}'
}

/// The characters of `s`, one by one.
pub fn chars_of(s: &str) -> (r: Vec<char>)
    ensures
        r@ == s@,
{
    let n = s.unicode_len();
    let mut r: Vec<char> = Vec::new();
    let mut i: usize = 0;
    while i < n
        invariant
            n == s@.len(),
            i <= n,
            r@ == s@.subrange(0, i as int),
        decreases n - i,
    {
        let c = s.get_char(i);
        r.push(c);
        i = i + 1;
    }
    r
}

/// The owned copy of the characters `from..to` of `s`.
pub fn slice_string(s: &str, from: usize, to: usize) -> (r: String)
    requires
        from <= to <= s@.len(),
    ensures
        r@ == s@.subrange(from as int, to as int),
{
    s.substring_char(from, to).to_owned()
}

/// Whether two string slices hold the same characters.
pub fn same_text(a: &str, b: &str) -> (r: bool)
    ensures
        r == (a@ == b@),
{
    let x = a.to_owned();
    let y = b.to_owned();
    x == y
}

/// The number of leading whitespace characters of `s`.
pub open spec fn lead_ws(s: Seq<char>) -> nat
    decreases s.len(),
{
    if s.len() > 0 && is_ws(s[0]) {
        1 + lead_ws(s.drop_first())
    } else {
        0
    }
}

/// The number of trailing whitespace characters of `s`.
pub open spec fn trail_ws(s: Seq<char>) -> nat
    decreases s.len(),
{
    if s.len() > 0 && is_ws(s.last()) {
        1 + trail_ws(s.drop_last())
    } else {
        0
    }
}

/// `s` without its leading whitespace.
pub open spec fn trim_start(s: Seq<char>) -> Seq<char> {
    s.subrange(lead_ws(s) as int, s.len() as int)
}

/// `s` without its trailing whitespace.
pub open spec fn trim_end(s: Seq<char>) -> Seq<char> {
    s.subrange(0, s.len() - trail_ws(s))
}

/// `s` without leading and trailing whitespace.
pub open spec fn trim(s: Seq<char>) -> Seq<char> {
    trim_end(trim_start(s))
}

proof fn lemma_lead_ws(s: Seq<char>, i: int)
    requires
        0 <= i <= s.len(),
        forall|j: int| 0 <= j < i ==> is_ws(#[trigger] s[j]),
        i == s.len() || !is_ws(s[i]),
    ensures
        lead_ws(s) == i,
    decreases i,
{
    if i > 0 {
        let t = s.drop_first();
        assert forall|j: int| 0 <= j < i - 1 implies is_ws(#[trigger] t[j]) by {
            assert(t[j] == s[j + 1]);
        }
        if i < s.len() {
            assert(t[i - 1] == s[i]);
        }
        lemma_lead_ws(t, i - 1);
    }
}

proof fn lemma_trail_ws(s: Seq<char>, k: int)
    requires
        0 <= k <= s.len(),
        forall|j: int| s.len() - k <= j < s.len() ==> is_ws(#[trigger] s[j]),
        k == s.len() || !is_ws(s[s.len() - k - 1]),
    ensures
        trail_ws(s) == k,
    decreases k,
{
    if k > 0 {
        let t = s.drop_last();
        assert forall|j: int| t.len() - (k - 1) <= j < t.len() implies is_ws(#[trigger] t[j]) by {
            assert(t[j] == s[j]);
        }
        if k < s.len() {
            assert(t[t.len() - (k - 1) - 1] == s[s.len() - k - 1]);
        }
        lemma_trail_ws(t, k - 1);
    }
}

/// The index range of `s` that remains once whitespace is trimmed from both ends.
fn trim_bounds(cs: &Vec<char>) -> (r: (usize, usize))
    ensures
        r.0 <= r.1 <= cs@.len(),
        cs@.subrange(r.0 as int, r.1 as int) == trim(cs@),
        cs@.subrange(r.0 as int, cs@.len() as int) == trim_start(cs@),
{
    let n = cs.len();
    let mut a: usize = 0;
    while a < n && is_whitespace(cs[a])
        invariant
            a <= n == cs@.len(),
            forall|j: int| 0 <= j < a ==> is_ws(#[trigger] cs@[j]),
        decreases n - a,
    {
        a = a + 1;
    }
    proof {
        lemma_lead_ws(cs@, a as int);
    }
    let ghost t = cs@.subrange(a as int, n as int);
    let mut b: usize = n;
    while b > a && is_whitespace(cs[b - 1])
        invariant
            a <= b <= n == cs@.len(),
            forall|j: int| b <= j < n ==> is_ws(#[trigger] cs@[j]),
        decreases b,
    {
        b = b - 1;
    }
    proof {
        assert forall|j: int| t.len() - (n - b) <= j < t.len() implies is_ws(#[trigger] t[j]) by {
            assert(t[j] == cs@[j + a]);
        }
        if b > a {
            assert(t[t.len() - (n - b) - 1] == cs@[b - 1]);
        }
        lemma_trail_ws(t, (n - b) as int);
        assert(cs@.subrange(a as int, b as int) =~= trim_end(t));
    }
    (a, b)
}

/// `s` with whitespace trimmed from both ends.
pub fn trim_str(s: &str) -> (r: String)
    ensures
        r@ == trim(s@),
{
    let cs = chars_of(s);
    let (a, b) = trim_bounds(&cs);
    slice_string(s, a, b)
}

/// `s` without a final `'\r'`.
pub open spec fn strip_cr(s: Seq<char>) -> Seq<char> {
    if s.len() > 0 && s.last() == '\r' {
        s.drop_last()
    } else {
        s
    }
}

/// The lines of `s` as `str::lines` gives them, read from position `i` on: `start` is where the
/// current line began and `acc` holds the lines already complete. A line ends at `'\n'`, which
/// it loses together with a `'\r'` just before it; a last line without `'\n'` is kept whole
/// when it is not empty.
pub open spec fn lines_from(s: Seq<char>, i: int, start: int, acc: Seq<Seq<char>>) -> Seq<Seq<char>>
    decreases s.len() - i,
{
    if i >= s.len() {
        if start < s.len() {
            acc.push(s.subrange(start, s.len() as int))
        } else {
            acc
        }
    } else if s[i] == '\n' {
        lines_from(s, i + 1, i + 1, acc.push(strip_cr(s.subrange(start, i))))
    } else {
        lines_from(s, i + 1, start, acc)
    }
}

/// The lines of `s`.
pub open spec fn lines(s: Seq<char>) -> Seq<Seq<char>> {
    lines_from(s, 0, 0, seq![])
}

/// The lines of `s`, as `str::lines` splits them.
pub fn split_lines(s: &str) -> (r: Vec<String>)
    ensures
        views(r@) == lines(s@),
{
    let cs = chars_of(s);
    let n = cs.len();
    let mut r: Vec<String> = Vec::new();
    let mut i: usize = 0;
    let mut start: usize = 0;
    assert(views(r@) =~= seq![]);
    while i < n
        invariant
            n == cs@.len() == s@.len(),
            cs@ == s@,
            start <= i <= n,
            lines_from(s@, i as int, start as int, views(r@)) == lines(s@),
        decreases n - i,
    {
        proof {
            assert(cs@[i as int] == s@[i as int]);
        }
        if cs[i] == '\n' {
            let mut end = i;
            if end > start && cs[end - 1] == '\r' {
                end = end - 1;
            }
            let line = slice_string(s, start, end);
            proof {
                let whole = s@.subrange(start as int, i as int);
                if i > start && cs@[i - 1] == '\r' {
                    assert(whole.last() == s@[i - 1]);
                    assert(line@ =~= whole.drop_last());
                } else {
                    assert(line@ =~= whole);
                }
            }
            let ghost before = r@;
            r.push(line);
            proof {
                assert(views(r@) =~= views(before).push(line@));
            }
            start = i + 1;
        }
        i = i + 1;
    }
    if start < n {
        let line = slice_string(s, start, n);
        let ghost before = r@;
        r.push(line);
        proof {
            assert(views(r@) =~= views(before).push(line@));
        }
    }
    r
}

/// The words of `s` as `str::split_whitespace` gives them, read from position `i` on: `start`
/// is where the current word began, or `i` when no word is open, and `acc` holds the words
/// already complete.
pub open spec fn words_from(s: Seq<char>, i: int, start: int, acc: Seq<Seq<char>>) -> Seq<Seq<char>>
    decreases s.len() - i,
{
    if i >= s.len() {
        if start < s.len() {
            acc.push(s.subrange(start, s.len() as int))
        } else {
            acc
        }
    } else if is_ws(s[i]) {
        if start < i {
            words_from(s, i + 1, i + 1, acc.push(s.subrange(start, i)))
        } else {
            words_from(s, i + 1, i + 1, acc)
        }
    } else {
        words_from(s, i + 1, start, acc)
    }
}

/// The maximal runs of non-whitespace characters of `s`, in order.
pub open spec fn words(s: Seq<char>) -> Seq<Seq<char>> {
    words_from(s, 0, 0, seq![])
}

/// The words of `s`, as `str::split_whitespace` splits them.
pub fn split_words(s: &str) -> (r: Vec<String>)
    ensures
        views(r@) == words(s@),
{
    let cs = chars_of(s);
    let n = cs.len();
    let mut r: Vec<String> = Vec::new();
    let mut i: usize = 0;
    let mut start: usize = 0;
    assert(views(r@) =~= seq![]);
    while i < n
        invariant
            n == cs@.len() == s@.len(),
            cs@ == s@,
            start <= i <= n,
            words_from(s@, i as int, start as int, views(r@)) == words(s@),
        decreases n - i,
    {
        proof {
            assert(cs@[i as int] == s@[i as int]);
        }
        if is_whitespace(cs[i]) {
            if start < i {
                let word = slice_string(s, start, i);
                let ghost before = r@;
                r.push(word);
                proof {
                    assert(views(r@) =~= views(before).push(word@));
                }
            }
            start = i + 1;
        }
        i = i + 1;
    }
    if start < n {
        let word = slice_string(s, start, n);
        let ghost before = r@;
        r.push(word);
        proof {
            assert(views(r@) =~= views(before).push(word@));
        }
    }
    r
}

/// Whether `needle` occurs in `hay` at position `k`.
pub open spec fn occurs_at(hay: Seq<char>, needle: Seq<char>, k: int) -> bool {
    0 <= k && k + needle.len() <= hay.len() && hay.subrange(k, k + needle.len()) == needle
}

/// Whether `needle` occurs somewhere in `hay`.
pub open spec fn has_infix(hay: Seq<char>, needle: Seq<char>) -> bool {
    exists|k: int| occurs_at(hay, needle, k)
}

/// Whether `hay` begins with `pre`.
pub open spec fn has_prefix(hay: Seq<char>, pre: Seq<char>) -> bool {
    occurs_at(hay, pre, 0)
}

/// Whether `hay` ends with `suf`.
pub open spec fn has_suffix(hay: Seq<char>, suf: Seq<char>) -> bool {
    suf.len() <= hay.len() && occurs_at(hay, suf, hay.len() - suf.len())
}

/// Whether the characters of `needle` stand in `hay` from position `k` on.
fn matches_at(hay: &Vec<char>, needle: &Vec<char>, k: usize) -> (r: bool)
    ensures
        r == occurs_at(hay@, needle@, k as int),
{
    if k > hay.len() || needle.len() > hay.len() - k {
        return false;
    }
    let mut j: usize = 0;
    while j < needle.len()
        invariant
            k + needle@.len() <= hay@.len() <= usize::MAX,
            j <= needle@.len(),
            forall|t: int| 0 <= t < j ==> hay@[k + t] == needle@[t],
        decreases needle@.len() - j,
    {
        if hay[k + j] != needle[j] {
            assert(hay@.subrange(k as int, k + needle@.len())[j as int] != needle@[j as int]);
            return false;
        }
        j = j + 1;
    }
    assert(hay@.subrange(k as int, k + needle@.len()) =~= needle@);
    true
}

/// Whether `needle` occurs in `hay`.
pub fn contains_text(hay: &str, needle: &str) -> (r: bool)
    ensures
        r == has_infix(hay@, needle@),
{
    let h = chars_of(hay);
    let nd = chars_of(needle);
    if nd.len() > h.len() {
        return false;
    }
    let last = h.len() - nd.len();
    let mut k: usize = 0;
    while k < last
        invariant
            h@ == hay@,
            nd@ == needle@,
            k <= last == h@.len() - nd@.len(),
            forall|t: int| 0 <= t < k ==> !occurs_at(hay@, needle@, t),
        decreases last - k,
    {
        if matches_at(&h, &nd, k) {
            return true;
        }
        k = k + 1;
    }
    matches_at(&h, &nd, last)
}

/// Whether `hay` begins with `pre`.
pub fn starts_with_text(hay: &str, pre: &str) -> (r: bool)
    ensures
        r == has_prefix(hay@, pre@),
{
    let h = chars_of(hay);
    let p = chars_of(pre);
    matches_at(&h, &p, 0)
}

/// Whether `hay` ends with `suf`.
pub fn ends_with_text(hay: &str, suf: &str) -> (r: bool)
    ensures
        r == has_suffix(hay@, suf@),
{
    let h = chars_of(hay);
    let p = chars_of(suf);
    if p.len() > h.len() {
        return false;
    }
    matches_at(&h, &p, h.len() - p.len())
}

/// What `str::to_lowercase` gives for a string.
pub uninterp spec fn lower_of(s: Seq<char>) -> Seq<char>;

/// Relies on `str::to_lowercase`: Unicode lower-casing, a function of the characters alone.
#[verifier::external_body]
pub(crate) fn lowercase(s: &str) -> (r: String)
    ensures
        r@ == lower_of(s@),
{
    s.to_lowercase()
}

/// What `str::to_uppercase` gives for a string.
pub uninterp spec fn upper_of(s: Seq<char>) -> Seq<char>;

/// Relies on `str::to_uppercase`: Unicode upper-casing, a function of the characters alone.
#[verifier::external_body]
pub(crate) fn uppercase(s: &str) -> (r: String)
    ensures
        r@ == upper_of(s@),
{
    s.to_uppercase()
}

/// The decimal digit for `d`.
pub open spec fn digit_char(d: nat) -> char {
    if d == 0 { '0' } else if d == 1 { '1' } else if d == 2 { '2' } else if d == 3 { '3' }
    else if d == 4 { '4' } else if d == 5 { '5' } else if d == 6 { '6' } else if d == 7 { '7' }
    else if d == 8 { '8' } else { '9' }
}

/// The decimal notation of `n`, without leading zeros.
pub open spec fn decimal(n: nat) -> Seq<char>
    decreases n,
{
    if n < 10 {
        seq![digit_char(n)]
    } else {
        decimal(n / 10).push(digit_char(n % 10))
    }
}

fn digit_str(d: u64) -> (r: &'static str)
    requires
        d < 10,
    ensures
        r@ == seq![digit_char(d as nat)],
{
    proof {
        reveal_strlit("0");
        reveal_strlit("1");
        reveal_strlit("2");
        reveal_strlit("3");
        reveal_strlit("4");
        reveal_strlit("5");
        reveal_strlit("6");
        reveal_strlit("7");
        reveal_strlit("8");
        reveal_strlit("9");
    }
    if d == 0 { "0" } else if d == 1 { "1" } else if d == 2 { "2" } else if d == 3 { "3" }
    else if d == 4 { "4" } else if d == 5 { "5" } else if d == 6 { "6" } else if d == 7 { "7" }
    else if d == 8 { "8" } else { "9" }
}

/// Appends the decimal notation of `n` to `out`.
pub fn push_decimal(out: &mut String, n: u64)
    ensures
        final(out)@ == old(out)@ + decimal(n as nat),
    decreases n,
{
    if n >= 10 {
        push_decimal(out, n / 10);
    }
    out.append(digit_str(n % 10));
}

/// The decimal notation of `n`.
pub fn decimal_string(n: u64) -> (r: String)
    ensures
        r@ == decimal(n as nat),
{
    let mut s = String::new();
    push_decimal(&mut s, n);
    assert(s@ =~= decimal(n as nat));
    s
}

} // verus!
