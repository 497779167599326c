//! Focus-oracle helpers: the pure text analysis behind "is a browser
//! focused?". The surrounding process obtains window-manager report text;
//! these functions extract the active window id from it and decide whether a
//! WM_CLASS report names a navigable (browser) application.

use vstd::prelude::*;
use vstd::string::StrSliceExecFns;
use crate::text::{
    chars_of, contains_lit, contains_seq, lower_chars, lower_seq, matches_at, matches_at_exec,
    starts_with_lit, starts_with_seq,
};

verus! {

/// A WM_CLASS report line that names a browser: every allow-list entry is
/// matched ASCII-case-insensitively.
pub open spec fn browser_class_line(line: Seq<char>) -> bool {
    starts_with_seq(line, "WM_CLASS("@) && (contains_seq(lower_seq(line), "google-chrome"@)
        || contains_seq(lower_seq(line), "brave-browser"@) || contains_seq(
        lower_seq(line),
        "firefox"@,
    ))
}

/// The segments of `s` split at '\n' (n separators give n + 1 segments).
pub open spec fn split_nl(s: Seq<char>) -> Seq<Seq<char>>
    decreases s.len(),
{
    if s.len() == 0 {
        seq![Seq::<char>::empty()]
    } else {
        let pre = split_nl(s.drop_last());
        let c = s.last();
        if c == '\n' {
            pre.push(Seq::empty())
        } else {
            pre.update(pre.len() - 1, pre.last().push(c))
        }
    }
}

/// A line with one trailing carriage return stripped.
pub open spec fn strip_cr(s: Seq<char>) -> Seq<char> {
    if s.len() > 0 && s.last() == '\r' {
        s.drop_last()
    } else {
        s
    }
}

/// Some line of the report names a browser.
pub open spec fn reports_browser(text: Seq<char>) -> bool {
    exists|k: int|
        0 <= k < split_nl(text).len() && browser_class_line(strip_cr(#[trigger] split_nl(text)[k]))
}

fn browser_class_line_exec(line: &Vec<char>) -> (b: bool)
    ensures
        b == browser_class_line(line@),
{
    if !starts_with_lit(line, "WM_CLASS(") {
        return false;
    }
    let low = lower_chars(line);
    if contains_lit(&low, "google-chrome") {
        return true;
    }
    if contains_lit(&low, "brave-browser") {
        return true;
    }
    contains_lit(&low, "firefox")
}

fn strip_cr_exec(line: Vec<char>) -> (r: Vec<char>)
    ensures
        r@ == strip_cr(line@),
{
    let mut line = line;
    if line.len() > 0 && line[line.len() - 1] == '\r' {
        line.pop();
    }
    line
}

/// Some line of the window-manager report names a browser.
pub fn wm_class_reports_browser(text: &str) -> (b: bool)
    ensures
        b == reports_browser(text@),
{
    let s = chars_of(text);
    let n = s.len();
    let mut i: usize = 0;
    let mut cur: Vec<char> = Vec::new();
    let mut found = false;
    let ghost mut done: Seq<Seq<char>> = Seq::empty();
    while i < n
        invariant
            n == s@.len(),
            s@ == text@,
            i <= n,
            split_nl(s@.take(i as int)) == done.push(cur@),
            found == exists|k: int|
                0 <= k < done.len() && browser_class_line(strip_cr(#[trigger] done[k])),
        decreases n - i,
    {
        let ghost curv = cur@;
        let c = s[i];
        proof {
            assert(s@.take(i + 1 as int).drop_last() =~= s@.take(i as int));
            assert(s@.take(i + 1 as int).last() == s@[i as int]);
        }
        if c == '\n' {
            let stripped = strip_cr_exec(cur);
            let hit = browser_class_line_exec(&stripped);
            cur = Vec::new();
            proof {
                let done2 = done.push(curv);
                assert(split_nl(s@.take(i + 1 as int)) =~= done2.push(Seq::<char>::empty()));
                if found {
                    let k = choose|k: int|
                        0 <= k < done.len() && browser_class_line(strip_cr(#[trigger] done[k]));
                    assert(done2[k] == done[k]);
                } else if hit {
                    assert(done2[done.len() as int] == curv);
                } else {
                    assert(forall|k: int| 0 <= k < done.len() ==> done2[k] == #[trigger] done[k]);
                    assert(forall|k: int|
                        0 <= k < done2.len() ==> !browser_class_line(
                            strip_cr(#[trigger] done2[k]),
                        ));
                }
                done = done2;
            }
            found = found || hit;
        } else {
            proof {
                let pre = done.push(curv);
                assert(split_nl(s@.take(i + 1 as int)) == pre.update(
                    pre.len() - 1,
                    curv.push(s@[i as int]),
                ));
                assert(pre.update(pre.len() - 1, curv.push(s@[i as int])) =~= done.push(
                    curv.push(s@[i as int]),
                ));
            }
            cur.push(c);
        }
        i = i + 1;
    }
    let stripped = strip_cr_exec(cur);
    let hit = browser_class_line_exec(&stripped);
    proof {
        assert(s@.take(n as int) =~= s@);
        let ghost curv = stripped@;
        let done2 = done.push(split_nl(s@).last());
        assert(done2 =~= split_nl(s@));
        if found {
            let k = choose|k: int|
                0 <= k < done.len() && browser_class_line(strip_cr(#[trigger] done[k]));
            assert(done2[k] == done[k]);
        } else if hit {
            assert(done2[done.len() as int] == split_nl(s@).last());
        } else {
            assert(forall|k: int| 0 <= k < done.len() ==> done2[k] == #[trigger] done[k]);
            assert(forall|k: int|
                0 <= k < done2.len() ==> !browser_class_line(strip_cr(#[trigger] done2[k])));
        }
    }
    found || hit
}

/// An ASCII hexadecimal digit.
pub open spec fn is_hex_digit(c: char) -> bool {
    ('0' <= c && c <= '9') || ('a' <= c && c <= 'f') || ('A' <= c && c <= 'F')
}

/// The report text announcing the active window id, up to and including the
/// "0x" that opens the id.
pub open spec fn window_id_marker() -> Seq<char> {
    "_NET_ACTIVE_WINDOW(WINDOW): window id # 0x"@
}

/// The marker sits at offset `i` and at least one hex digit follows it.
pub open spec fn id_match_at(s: Seq<char>, i: int) -> bool {
    matches_at(s, window_id_marker(), i) && i + window_id_marker().len() < s.len()
        && is_hex_digit(s[i + window_id_marker().len()])
}

/// Length of the leading hex-digit run of `t`.
pub open spec fn hex_run_len(t: Seq<char>) -> int
    decreases t.len(),
{
    if t.len() == 0 {
        0
    } else if !is_hex_digit(t[0]) {
        0
    } else {
        1 + hex_run_len(t.skip(1))
    }
}

/// Offset of the leftmost marker match (`s.len()` if there is none).
pub open spec fn first_id_match(s: Seq<char>) -> int
    decreases s.len(),
{
    if s.len() == 0 {
        0
    } else if id_match_at(s, 0) {
        0
    } else {
        1 + first_id_match(s.skip(1))
    }
}

/// The active window id announced by the report: "0x" plus the maximal
/// hex-digit run after the leftmost marker occurrence, if any.
pub open spec fn window_id_of(s: Seq<char>) -> Option<Seq<char>> {
    if exists|i: int| id_match_at(s, i) {
        let hex_start = first_id_match(s) + window_id_marker().len();
        Some(s.subrange(hex_start - 2, hex_start + hex_run_len(s.skip(hex_start))))
    } else {
        None
    }
}

proof fn lemma_id_match_shift(s: Seq<char>, i: int)
    requires
        s.len() >= 1,
        i >= 1,
    ensures
        id_match_at(s, i) == id_match_at(s.skip(1), i - 1),
{
    let m = window_id_marker();
    let l = m.len() as int;
    if i + l <= s.len() {
        assert(s.skip(1).subrange(i - 1, i - 1 + l) =~= s.subrange(i, i + l));
        if i + l < s.len() {
            assert(s.skip(1)[i - 1 + l] == s[i + l]);
        }
    }
}

proof fn lemma_first_id_match_at(s: Seq<char>, k: int)
    requires
        0 <= k <= s.len(),
        forall|j: int| 0 <= j < k ==> !id_match_at(s, j),
        k < s.len() ==> id_match_at(s, k),
    ensures
        first_id_match(s) == k,
    decreases s.len(),
{
    if s.len() == 0 {
    } else if id_match_at(s, 0) {
        assert(k == 0);
    } else {
        assert(k >= 1) by {
            if k == 0 {
                assert(id_match_at(s, 0));
            }
        }
        let t = s.skip(1);
        assert forall|j: int| 0 <= j < k - 1 implies !id_match_at(t, j) by {
            lemma_id_match_shift(s, j + 1);
        }
        if k - 1 < t.len() {
            lemma_id_match_shift(s, k);
        }
        lemma_first_id_match_at(t, k - 1);
    }
}

proof fn lemma_hex_run(s: Seq<char>, p: int, q: int)
    requires
        0 <= p <= q <= s.len(),
        forall|m: int| p <= m < q ==> is_hex_digit(#[trigger] s[m]),
        q < s.len() ==> !is_hex_digit(s[q]),
    ensures
        hex_run_len(s.skip(p)) == q - p,
    decreases q - p,
{
    let t = s.skip(p);
    if p == q {
        if q < s.len() {
            assert(t[0] == s[q]);
        }
    } else {
        assert(t[0] == s[p]);
        assert(is_hex_digit(s[p]));
        assert(t.skip(1) =~= s.skip(p + 1));
        lemma_hex_run(s, p + 1, q);
    }
}

fn is_hex_digit_exec(c: char) -> (b: bool)
    ensures
        b == is_hex_digit(c),
{
    ('0' <= c && c <= '9') || ('a' <= c && c <= 'f') || ('A' <= c && c <= 'F')
}

fn hex_digit_at(v: &Vec<char>, j: usize) -> (b: bool)
    requires
        j < v@.len(),
    ensures
        b == is_hex_digit(v@[j as int]),
{
    is_hex_digit_exec(v[j])
}

/// Extract the active window id from the window-manager report, as the tool
/// that looks windows up expects it ("0x" plus hex digits).
pub fn extract_active_window_id(text: &str) -> (r: Option<String>)
    ensures
        (r is Some) == (window_id_of(text@) is Some),
        r is Some ==> Some(r->0@) == window_id_of(text@),
{
    let s = chars_of(text);
    let marker = chars_of("_NET_ACTIVE_WINDOW(WINDOW): window id # 0x");
    proof {
        reveal_strlit("_NET_ACTIVE_WINDOW(WINDOW): window id # 0x");
    }
    let l = marker.len();
    let n = s.len();
    if n < l + 1 {
        proof {
            assert(forall|j: int| !id_match_at(text@, j));
        }
        return None;
    }
    let last = n - l - 1;
    let mut i: usize = 0;
    while i <= last
        invariant
            n == s@.len(),
            s@ == text@,
            marker@ == window_id_marker(),
            l == marker@.len(),
            2 <= l,
            n >= l + 1,
            last == n - l - 1,
            i <= last + 1,
            forall|j: int| 0 <= j < i ==> !id_match_at(text@, j),
        decreases last - i + 1,
    {
        if matches_at_exec(&s, &marker, i) {
            let c = s[i + l];
            if is_hex_digit_exec(c) {
                proof {
                    assert(id_match_at(text@, i as int));
                    lemma_first_id_match_at(text@, i as int);
                }
                let mut j: usize = i + l;
                while j < n && hex_digit_at(&s, j)
                    invariant
                        n == s@.len(),
                        s@ == text@,
                        i + l <= j <= n,
                        forall|m: int| i + l <= m < j ==> is_hex_digit(#[trigger] text@[m]),
                    decreases n - j,
                {
                    j = j + 1;
                }
                proof {
                    lemma_hex_run(text@, i + l as int, j as int);
                }
                let sub = text.substring_char(i + l - 2, j);
                return Some(sub.to_owned());
            }
        }
        i = i + 1;
    }
    proof {
        assert forall|j: int| !id_match_at(text@, j) by {
            if 0 <= j && j <= last as int {
                assert(!id_match_at(text@, j));
            }
        }
    }
    None
}

} // verus!
