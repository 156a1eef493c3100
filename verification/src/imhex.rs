//! Window-title observation: matching the target application's window,
//! extracting the opened file from the title, deriving the coarse byte-range
//! fingerprint, and deduplicating audit entries across ticks.

use vstd::prelude::*;
use vstd::string::StrSliceExecFns;
use vstd::utf8::encode_utf8;

use crate::utils::{push_char, str_eq};

verus! {

// ---------------------------------------------------------------------------
// Title parsing
// ---------------------------------------------------------------------------

/// The separator `" - "` stands at position `i` of `t`.
pub open spec fn is_sep_at(t: Seq<char>, i: int) -> bool {
    &&& 0 <= i
    &&& i + 3 <= t.len()
    &&& t[i] == ' '
    &&& t[i + 1] == '-'
    &&& t[i + 2] == ' '
}

/// Position of the first separator at or after `i`, if any.
pub open spec fn first_sep_from(t: Seq<char>, i: int) -> Option<int>
    decreases t.len() - i when 0 <= i
{
    if i + 3 > t.len() {
        None
    } else if is_sep_at(t, i) {
        Some(i)
    } else {
        first_sep_from(t, i + 1)
    }
}

/// Position of the first separator of the title, if any.
pub open spec fn first_sep(t: Seq<char>) -> Option<int> {
    first_sep_from(t, 0)
}

/// The opened file read from a title: everything after the first separator,
/// or the whole title when no separator occurs.
pub open spec fn opened_file_of(t: Seq<char>) -> Seq<char> {
    match first_sep(t) {
        Some(i) => t.subrange(i + 3, t.len() as int),
        None => t,
    }
}

proof fn lemma_first_sep_from_found(t: Seq<char>, k: int, i: int)
    requires
        0 <= k <= i,
        is_sep_at(t, i),
        forall|j: int| k <= j < i ==> !is_sep_at(t, j),
    ensures
        first_sep_from(t, k) == Some(i),
    decreases i - k,
{
    if k < i {
        lemma_first_sep_from_found(t, k + 1, i);
    }
}

proof fn lemma_first_sep_from_none(t: Seq<char>, k: int)
    requires
        0 <= k,
        forall|j: int| k <= j ==> !is_sep_at(t, j),
    ensures
        first_sep_from(t, k) == None::<int>,
    decreases t.len() - k,
{
    if k + 3 <= t.len() {
        lemma_first_sep_from_none(t, k + 1);
    }
}

/// A title holding the separator yields exactly the text after the first
/// occurrence.
pub proof fn lemma_opened_file_after_first_separator(t: Seq<char>, i: int)
    requires
        is_sep_at(t, i),
        forall|j: int| 0 <= j < i ==> !is_sep_at(t, j),
    ensures
        opened_file_of(t) == t.subrange(i + 3, t.len() as int),
{
    lemma_first_sep_from_found(t, 0, i);
}

/// A title without the separator is taken verbatim as the opened file.
pub proof fn lemma_opened_file_without_separator(t: Seq<char>)
    requires
        forall|j: int| !is_sep_at(t, j),
    ensures
        opened_file_of(t) == t,
{
    lemma_first_sep_from_none(t, 0);
}

/// Index of the first `" - "` separator of the title, if any.
fn find_sep(t: &str) -> (r: Option<usize>)
    ensures
        match r {
            Some(i) => first_sep(t@) == Some(i as int) && is_sep_at(t@, i as int),
            None => first_sep(t@) is None,
        },
{
    let n = t.unicode_len();
    if n < 3 {
        return None;
    }
    let mut i: usize = 0;
    while i <= n - 3
        invariant
            n == t@.len(),
            3 <= n,
            i <= n,
            first_sep(t@) == first_sep_from(t@, i as int),
        decreases n - i,
    {
        if t.get_char(i) == ' ' && t.get_char(i + 1) == '-' && t.get_char(i + 2) == ' ' {
            return Some(i);
        }
        i += 1;
    }
    None
}

/// Extracts the opened file from a window title.
pub fn opened_file(title: &str) -> (r: &str)
    ensures
        r@ == opened_file_of(title@),
{
    match find_sep(title) {
        Some(i) => {
            let n = title.unicode_len();
            title.substring_char(i + 3, n)
        },
        None => title,
    }
}

// ---------------------------------------------------------------------------
// Hex encoding and the byte-range fingerprint
// ---------------------------------------------------------------------------

/// Lower-case hexadecimal digit for a value below 16.
pub open spec fn hex_digit_lower(n: u8) -> char
    recommends
        n < 16,
{
    if n < 10 {
        (48 + n) as char
    } else {
        (87 + n) as char
    }
}

/// Upper-case hexadecimal digit for a value below 16.
pub open spec fn hex_digit_upper(n: u8) -> char
    recommends
        n < 16,
{
    if n < 10 {
        (48 + n) as char
    } else {
        (55 + n) as char
    }
}

/// The two lower-case hex digits of one byte.
pub open spec fn hex_pair_lower(b: u8) -> Seq<char> {
    seq![hex_digit_lower(b / 16), hex_digit_lower(b % 16)]
}

/// Lower-case hex encoding of a byte sequence, two digits per byte.
pub open spec fn hex_chars_lower(bs: Seq<u8>) -> Seq<char>
    decreases bs.len(),
{
    if bs.len() == 0 {
        Seq::empty()
    } else {
        hex_pair_lower(bs[0]) + hex_chars_lower(bs.drop_first())
    }
}

proof fn lemma_hex_chars_lower_push(bs: Seq<u8>, b: u8)
    ensures
        hex_chars_lower(bs.push(b)) == hex_chars_lower(bs) + hex_pair_lower(b),
    decreases bs.len(),
{
    if bs.len() == 0 {
        assert(bs.push(b) =~= seq![b]);
        assert(seq![b].len() == 1);
        assert(seq![b][0] == b);
        assert(seq![b].drop_first() =~= Seq::<u8>::empty());
        assert(hex_chars_lower(seq![b]) == hex_pair_lower(b) + hex_chars_lower(
            seq![b].drop_first(),
        ));
        assert(hex_chars_lower(Seq::<u8>::empty()) == Seq::<char>::empty());
        assert(hex_pair_lower(b) + Seq::<char>::empty() =~= hex_pair_lower(b));
        assert(hex_chars_lower(bs) == Seq::<char>::empty());
        assert(hex_chars_lower(bs) + hex_pair_lower(b) =~= hex_pair_lower(b));
    } else {
        assert(bs.push(b)[0] == bs[0]);
        assert(bs.push(b).drop_first() =~= bs.drop_first().push(b));
        lemma_hex_chars_lower_push(bs.drop_first(), b);
        assert(hex_chars_lower(bs.push(b)) =~= hex_chars_lower(bs) + hex_pair_lower(b));
    }
}

/// What `string_to_hex` returns: the sentinel digit for the bare title, the
/// hex encoding of the title's bytes otherwise.
pub open spec fn spec_string_to_hex(s: Seq<char>) -> Seq<char> {
    if s == "ImHex"@ {
        seq!['0']
    } else {
        hex_chars_lower(encode_utf8(s))
    }
}

/// Executable lower-case hex digit.
fn hex_digit_lower_exec(n: u8) -> (c: char)
    requires
        n < 16,
    ensures
        c == hex_digit_lower(n),
{
    if n < 10 {
        (48 + n) as char
    } else {
        (87 + n) as char
    }
}

/// Executable upper-case hex digit.
fn hex_digit_upper_exec(n: u8) -> (c: char)
    requires
        n < 16,
    ensures
        c == hex_digit_upper(n),
{
    if n < 10 {
        (48 + n) as char
    } else {
        (55 + n) as char
    }
}

/// Encodes a title for the audit log: the bare application title becomes the
/// single placeholder digit `"0"`, any other title the lower-case hex encoding
/// of its bytes.
pub fn string_to_hex(s: &str) -> (r: String)
    ensures
        r@ == spec_string_to_hex(s@),
{
    if str_eq(s, "ImHex") {
        let mut r = String::new();
        push_char(&mut r, '0');
        proof {
            assert(r@ =~= seq!['0']);
        }
        r
    } else {
        let bytes = s.as_bytes_vec();
        let mut out = String::new();
        let mut i: usize = 0;
        while i < bytes.len()
            invariant
                i <= bytes@.len(),
                bytes@ == encode_utf8(s@),
                out@ == hex_chars_lower(bytes@.take(i as int)),
            decreases bytes@.len() - i,
        {
            let b = bytes[i];
            push_char(&mut out, hex_digit_lower_exec(b / 16));
            push_char(&mut out, hex_digit_lower_exec(b % 16));
            proof {
                lemma_hex_chars_lower_push(bytes@.take(i as int), b);
                assert(bytes@.take(i as int).push(b) =~= bytes@.take(i + 1));
                assert(out@ =~= hex_chars_lower(bytes@.take(i + 1)));
            }
            i += 1;
        }
        proof {
            assert(bytes@.take(bytes@.len() as int) =~= bytes@);
        }
        out
    }
}

// ---------------------------------------------------------------------------
// Byte-range fingerprint
// ---------------------------------------------------------------------------

/// The byte set a title decodes to: the single placeholder byte for the bare
/// title, the title's own bytes otherwise.
pub open spec fn effective_bytes(s: Seq<char>) -> Seq<u8> {
    if s == "ImHex"@ {
        seq![0u8]
    } else {
        encode_utf8(s)
    }
}

/// Least byte of a non-empty sequence.
pub open spec fn seq_min(bs: Seq<u8>) -> u8
    recommends
        bs.len() > 0,
    decreases bs.len(),
{
    if bs.len() <= 1 {
        bs[0]
    } else {
        let m = seq_min(bs.drop_first());
        if bs[0] <= m {
            bs[0]
        } else {
            m
        }
    }
}

/// Greatest byte of a non-empty sequence.
pub open spec fn seq_max(bs: Seq<u8>) -> u8
    recommends
        bs.len() > 0,
    decreases bs.len(),
{
    if bs.len() <= 1 {
        bs[0]
    } else {
        let m = seq_max(bs.drop_first());
        if bs[0] >= m {
            bs[0]
        } else {
            m
        }
    }
}

proof fn lemma_seq_min_push(bs: Seq<u8>, b: u8)
    requires
        bs.len() > 0,
    ensures
        seq_min(bs.push(b)) == if seq_min(bs) <= b {
            seq_min(bs)
        } else {
            b
        },
    decreases bs.len(),
{
    assert(bs.push(b)[0] == bs[0]);
    if bs.len() == 1 {
        assert(bs.push(b).drop_first() =~= seq![b]);
        assert(seq_min(seq![b]) == b);
    } else {
        assert(bs.push(b).drop_first() =~= bs.drop_first().push(b));
        lemma_seq_min_push(bs.drop_first(), b);
    }
}

proof fn lemma_seq_max_push(bs: Seq<u8>, b: u8)
    requires
        bs.len() > 0,
    ensures
        seq_max(bs.push(b)) == if seq_max(bs) >= b {
            seq_max(bs)
        } else {
            b
        },
    decreases bs.len(),
{
    assert(bs.push(b)[0] == bs[0]);
    if bs.len() == 1 {
        assert(bs.push(b).drop_first() =~= seq![b]);
        assert(seq_max(seq![b]) == b);
    } else {
        assert(bs.push(b).drop_first() =~= bs.drop_first().push(b));
        lemma_seq_max_push(bs.drop_first(), b);
    }
}

/// The fingerprint label `0x<MIN>-0x<MAX>` in upper-case hex.
pub open spec fn byte_range_label(lo: u8, hi: u8) -> Seq<char> {
    seq![
        '0',
        'x',
        hex_digit_upper(lo / 16),
        hex_digit_upper(lo % 16),
        '-',
        '0',
        'x',
        hex_digit_upper(hi / 16),
        hex_digit_upper(hi % 16),
    ]
}

/// What `get_selected_bytes` returns: no fingerprint when the title decodes
/// to no bytes, else the label over the least and greatest byte.
pub open spec fn spec_selected_bytes(s: Seq<char>) -> Option<Seq<char>> {
    if effective_bytes(s).len() == 0 {
        None
    } else {
        Some(byte_range_label(seq_min(effective_bytes(s)), seq_max(effective_bytes(s))))
    }
}

/// Derives the coarse byte-range fingerprint of the opened-file text: the
/// least and greatest byte of the text, formatted as `0x<MIN>-0x<MAX>`. An
/// empty text yields no fingerprint.
pub fn get_selected_bytes(current_file: &str) -> (r: Option<String>)
    ensures
        match r {
            Some(l) => spec_selected_bytes(current_file@) == Some(l@),
            None => spec_selected_bytes(current_file@) is None,
        },
{
    let bytes: Vec<u8> = if str_eq(current_file, "ImHex") {
        let mut v: Vec<u8> = Vec::new();
        v.push(0u8);
        proof {
            assert(v@ =~= seq![0u8]);
        }
        v
    } else {
        current_file.as_bytes_vec()
    };
    if bytes.len() == 0 {
        return None;
    }
    let mut lo = bytes[0];
    let mut hi = bytes[0];
    let mut i: usize = 1;
    while i < bytes.len()
        invariant
            1 <= i <= bytes@.len(),
            bytes@.len() > 0,
            bytes@ == effective_bytes(current_file@),
            lo == seq_min(bytes@.take(i as int)),
            hi == seq_max(bytes@.take(i as int)),
        decreases bytes@.len() - i,
    {
        let b = bytes[i];
        proof {
            lemma_seq_min_push(bytes@.take(i as int), b);
            lemma_seq_max_push(bytes@.take(i as int), b);
            assert(bytes@.take(i as int).push(b) =~= bytes@.take(i + 1));
        }
        if b < lo {
            lo = b;
        }
        if b > hi {
            hi = b;
        }
        i += 1;
    }
    proof {
        assert(bytes@.take(bytes@.len() as int) =~= bytes@);
    }
    let mut label = String::new();
    push_char(&mut label, '0');
    push_char(&mut label, 'x');
    push_char(&mut label, hex_digit_upper_exec(lo / 16));
    push_char(&mut label, hex_digit_upper_exec(lo % 16));
    push_char(&mut label, '-');
    push_char(&mut label, '0');
    push_char(&mut label, 'x');
    push_char(&mut label, hex_digit_upper_exec(hi / 16));
    push_char(&mut label, hex_digit_upper_exec(hi % 16));
    proof {
        assert(label@ =~= byte_range_label(lo, hi));
    }
    Some(label)
}

// ---------------------------------------------------------------------------
// Title matching
// ---------------------------------------------------------------------------

/// `pat` occurs in `t` at position `i`.
pub open spec fn spec_contains_at(t: Seq<char>, pat: Seq<char>, i: int) -> bool {
    &&& 0 <= i
    &&& i + pat.len() <= t.len()
    &&& t.subrange(i, i + pat.len() as int) == pat
}

/// `pat` occurs somewhere in `t`.
pub open spec fn spec_contains(t: Seq<char>, pat: Seq<char>) -> bool {
    exists|i: int| spec_contains_at(t, pat, i)
}

/// `t` starts with `pat`.
pub open spec fn spec_starts_with(t: Seq<char>, pat: Seq<char>) -> bool {
    spec_contains_at(t, pat, 0)
}

/// A window belongs to the target application: its title starts with the
/// application's short name or equals its full process identifier.
pub open spec fn spec_title_matches(t: Seq<char>) -> bool {
    spec_starts_with(t, "ImHex"@) || t == "imhex-gui.exe"@
}

/// Whether `pat` stands at position `i` of `t`.
fn match_at(t: &str, pat: &str, i: usize) -> (r: bool)
    requires
        i + pat@.len() <= t@.len(),
        t@.len() <= usize::MAX,
    ensures
        r == spec_contains_at(t@, pat@, i as int),
{
    let m = pat.unicode_len();
    let mut j: usize = 0;
    while j < m
        invariant
            j <= m,
            m == pat@.len(),
            i + m <= t@.len(),
            t@.len() <= usize::MAX,
            forall|k: int| 0 <= k < j ==> t@[i + k] == pat@[k],
        decreases m - j,
    {
        if t.get_char(i + j) != pat.get_char(j) {
            proof {
                assert(t@.subrange(i as int, i + pat@.len() as int)[j as int] != pat@[j as int]);
            }
            return false;
        }
        j += 1;
    }
    proof {
        assert(t@.subrange(i as int, i + pat@.len() as int) =~= pat@);
    }
    true
}

/// Whether `pat` occurs anywhere in `t`.
fn contains_pat(t: &str, pat: &str) -> (r: bool)
    ensures
        r == spec_contains(t@, pat@),
{
    let n = t.unicode_len();
    let m = pat.unicode_len();
    if m > n {
        proof {
            assert(forall|i: int| !spec_contains_at(t@, pat@, i));
        }
        return false;
    }
    if m == 0 {
        proof {
            assert(t@.subrange(0, 0) =~= pat@);
            assert(spec_contains_at(t@, pat@, 0));
        }
        return true;
    }
    let mut i: usize = 0;
    while i <= n - m
        invariant
            n == t@.len(),
            m == pat@.len(),
            1 <= m <= n,
            i <= n - m + 1,
            forall|k: int| 0 <= k < i ==> !spec_contains_at(t@, pat@, k),
        decreases n - i,
    {
        if match_at(t, pat, i) {
            return true;
        }
        i += 1;
    }
    proof {
        assert(forall|k: int| !spec_contains_at(t@, pat@, k));
    }
    false
}

/// Whether `t` starts with `pat`.
fn starts_with_pat(t: &str, pat: &str) -> (r: bool)
    ensures
        r == spec_starts_with(t@, pat@),
{
    if pat.unicode_len() > t.unicode_len() {
        return false;
    }
    match_at(t, pat, 0)
}

/// Whether a window title belongs to the target application.
pub fn title_matches(t: &str) -> (r: bool)
    ensures
        r == spec_title_matches(t@),
{
    starts_with_pat(t, "ImHex") || str_eq(t, "imhex-gui.exe")
}

// ---------------------------------------------------------------------------
// The observer state machine
// ---------------------------------------------------------------------------

/// An entry owed to the audit log after a tick.
#[derive(Debug)]
pub enum AuditEvent {
    /// A distinct opened-file text was observed; carries the logged text.
    OpenedFile(String),
    /// The target window disappeared after having been seen.
    WindowGone,
    /// The target process appeared.
    ProcessRunning,
    /// The target process went away.
    ProcessStopped,
}

/// Caches of the observer, threaded through every tick: the last opened-file
/// text seen and the last process-presence answer, both kept only to
/// deduplicate audit entries.
pub struct WindowObserver {
    pub last_title: Option<String>,
    pub last_running: bool,
}

/// The text of an optional string.
pub open spec fn opt_string_view(o: Option<String>) -> Option<Seq<char>> {
    match o {
        Some(s) => Some(s@),
        None => None,
    }
}

/// What is written to the audit log for a title: the opened file when the
/// title holds the separator, the hex encoding of the whole title otherwise.
pub open spec fn spec_audit_message(t: Seq<char>) -> Seq<char> {
    if first_sep(t) is Some {
        opened_file_of(t)
    } else {
        spec_string_to_hex(t)
    }
}

/// Position of the first title belonging to the target, at or after `i`.
pub open spec fn first_match_from(ts: Seq<Seq<char>>, i: int) -> Option<int>
    decreases ts.len() - i when 0 <= i
{
    if i >= ts.len() {
        None
    } else if spec_title_matches(ts[i]) {
        Some(i)
    } else {
        first_match_from(ts, i + 1)
    }
}

/// Position of the first title belonging to the target, if any.
pub open spec fn first_match(ts: Seq<Seq<char>>) -> Option<int> {
    first_match_from(ts, 0)
}

/// First title of the list that belongs to the target application.
fn find_matching(titles: &Vec<String>) -> (r: Option<usize>)
    ensures
        match r {
            Some(i) => first_match(titles.deep_view()) == Some(i as int) && i < titles@.len()
                && spec_title_matches(titles.deep_view()[i as int]),
            None => first_match(titles.deep_view()) is None,
        },
{
    let n = titles.len();
    let mut i: usize = 0;
    while i < n
        invariant
            n == titles@.len(),
            i <= n,
            titles.deep_view().len() == n,
            forall|j: int| 0 <= j < n ==> titles.deep_view()[j] == titles@[j]@,
            first_match(titles.deep_view()) == first_match_from(titles.deep_view(), i as int),
        decreases n - i,
    {
        if title_matches(titles[i].as_str()) {
            return Some(i);
        }
        i += 1;
    }
    None
}

impl WindowObserver {
    /// A fresh observer: nothing seen yet.
    pub fn new() -> (r: Self)
        ensures
            r.last_title is None,
            !r.last_running,
    {
        WindowObserver { last_title: None, last_running: false }
    }

    /// Processes a matching window title: extracts the opened file, caches it,
    /// and decides whether an audit entry is owed (only on a change).
    pub fn process_window_title(&mut self, window_title: &str) -> (res: (String, Option<
        AuditEvent,
    >))
        ensures
            res.0@ == opened_file_of(window_title@),
            final(self).last_running == old(self).last_running,
            opt_string_view(final(self).last_title) == Some(opened_file_of(window_title@)),
            opt_string_view(old(self).last_title) == Some(opened_file_of(window_title@)) ==> res.1
                is None,
            opt_string_view(old(self).last_title) != Some(opened_file_of(window_title@)) ==> match
                res.1 {
                Some(AuditEvent::OpenedFile(m)) => m@ == spec_audit_message(window_title@),
                _ => false,
            },
    {
        match find_sep(window_title) {
            Some(i) => {
                let n = window_title.unicode_len();
                let f = window_title.substring_char(i + 3, n);
                let changed = match &self.last_title {
                    Some(p) => !str_eq(p.as_str(), f),
                    None => true,
                };
                let ev = if changed {
                    Some(AuditEvent::OpenedFile(f.to_owned()))
                } else {
                    None
                };
                self.last_title = Some(f.to_owned());
                (f.to_owned(), ev)
            },
            None => {
                let changed = match &self.last_title {
                    Some(p) => !str_eq(p.as_str(), window_title),
                    None => true,
                };
                let ev = if changed {
                    Some(AuditEvent::OpenedFile(string_to_hex(window_title)))
                } else {
                    None
                };
                self.last_title = Some(window_title.to_owned());
                (window_title.to_owned(), ev)
            },
        }
    }

    /// Handles a tick on which no target window was found: clears the cached
    /// title so that a later reappearance is logged again, and decides whether
    /// a disappearance entry is owed.
    pub fn handle_no_imhex_window(&mut self) -> (ev: Option<AuditEvent>)
        ensures
            final(self).last_title is None,
            final(self).last_running == old(self).last_running,
            old(self).last_title is Some ==> ev == Some(AuditEvent::WindowGone),
            old(self).last_title is None ==> ev is None,
    {
        match &self.last_title {
            Some(_) => {
                self.last_title = None;
                Some(AuditEvent::WindowGone)
            },
            None => None,
        }
    }

    /// Scans the enumerated window titles for the target application and
    /// returns the opened-file text of the first match, together with the
    /// audit entries the tick owes. An empty opened-file text counts as no
    /// window at all.
    pub fn check_if_imhex_window_exists(&mut self, titles: &Vec<String>) -> (res: (
        Option<String>,
        Vec<AuditEvent>,
    ))
        ensures
            final(self).last_running == old(self).last_running,
            ({
                let tv = titles.deep_view();
                match first_match(tv) {
                    None => {
                        &&& res.0 is None
                        &&& final(self).last_title is None
                        &&& if old(self).last_title is Some {
                            res.1@ == seq![AuditEvent::WindowGone]
                        } else {
                            res.1@.len() == 0
                        }
                    },
                    Some(i) => {
                        let file = opened_file_of(tv[i]);
                        if file.len() == 0 {
                            &&& res.0 is None
                            &&& final(self).last_title is None
                            &&& if opt_string_view(old(self).last_title) == Some(file) {
                                res.1@ == seq![AuditEvent::WindowGone]
                            } else {
                                &&& res.1@.len() == 2
                                &&& match res.1@[0] {
                                    AuditEvent::OpenedFile(m) => m@ == spec_audit_message(tv[i]),
                                    _ => false,
                                }
                                &&& res.1@[1] == AuditEvent::WindowGone
                            }
                        } else {
                            &&& match res.0 {
                                Some(s) => s@ == file,
                                None => false,
                            }
                            &&& opt_string_view(final(self).last_title) == Some(file)
                            &&& if opt_string_view(old(self).last_title) == Some(file) {
                                res.1@.len() == 0
                            } else {
                                &&& res.1@.len() == 1
                                &&& match res.1@[0] {
                                    AuditEvent::OpenedFile(m) => m@ == spec_audit_message(tv[i]),
                                    _ => false,
                                }
                            }
                        }
                    },
                }
            }),
    {
        let mut events: Vec<AuditEvent> = Vec::new();
        match find_matching(titles) {
            Some(i) => {
                let (file, ev1) = self.process_window_title(titles[i].as_str());
                if let Some(e) = ev1 {
                    events.push(e);
                }
                if file.as_str().is_empty() {
                    let ev2 = self.handle_no_imhex_window();
                    if let Some(e) = ev2 {
                        events.push(e);
                    }
                    (None, events)
                } else {
                    (Some(file), events)
                }
            },
            None => {
                let ev = self.handle_no_imhex_window();
                if let Some(e) = ev {
                    events.push(e);
                }
                (None, events)
            },
        }
    }

    /// Records the latest process-presence answer and decides whether an
    /// audit entry is owed (only on a transition).
    pub fn update_running_state(&mut self, is_running: bool) -> (ev: Option<AuditEvent>)
        ensures
            final(self).last_running == is_running,
            final(self).last_title == old(self).last_title,
            is_running == old(self).last_running ==> ev is None,
            is_running != old(self).last_running ==> ev == Some(
                if is_running {
                    AuditEvent::ProcessRunning
                } else {
                    AuditEvent::ProcessStopped
                },
            ),
    {
        if is_running != self.last_running {
            self.last_running = is_running;
            Some(
                if is_running {
                    AuditEvent::ProcessRunning
                } else {
                    AuditEvent::ProcessStopped
                },
            )
        } else {
            None
        }
    }

    /// Reads a process listing for the target's image name, records the
    /// answer, and decides whether an audit entry is owed.
    pub fn is_imhex_running(&mut self, tasklist_output: &str) -> (res: (bool, Option<AuditEvent>))
        ensures
            res.0 == spec_contains(tasklist_output@, "imhex-gui.exe"@),
            final(self).last_running == res.0,
            final(self).last_title == old(self).last_title,
            res.0 == old(self).last_running ==> res.1 is None,
            res.0 != old(self).last_running ==> res.1 == Some(
                if res.0 {
                    AuditEvent::ProcessRunning
                } else {
                    AuditEvent::ProcessStopped
                },
            ),
    {
        let running = contains_pat(tasklist_output, "imhex-gui.exe");
        let ev = self.update_running_state(running);
        (running, ev)
    }
}

} // verus!
