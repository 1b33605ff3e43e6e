//! QueryExtractor: pulls a numeric search query out of free post text.
//!
//! The grammar: the first occurrence of the trigger token is located; from
//! the position after it every non-digit character is skipped; the maximal
//! run of digits and hyphen separators from the first digit onward is
//! captured; the hyphens are stripped. No trigger, or no digit after the
//! first trigger, yields no query.
use crate::text::is_digit;
use vstd::prelude::*;
use vstd::string::*;

verus! {

/// The literal token that marks a post as a search request.
pub open spec fn trigger_token() -> Seq<char> {
    seq!['@', 'p', 'i', 's', 'e', 'a', 'r', 'c', 'h']
}

/// Characters admitted into the captured run: digits and hyphen separators.
pub open spec fn is_capture_char(c: char) -> bool {
    is_digit(c) || c == '-'
}

/// The trigger token occurs in `s` starting at index `i`.
pub open spec fn trigger_at(s: Seq<char>, i: int) -> bool {
    &&& 0 <= i
    &&& i + 9 <= s.len()
    &&& s.subrange(i, i + 9) == trigger_token()
}

/// The digit characters of `s`, in order, with everything else dropped.
pub open spec fn digits_of(s: Seq<char>) -> Seq<char>
    decreases s.len(),
{
    if s.len() == 0 {
        Seq::empty()
    } else if is_digit(s.last()) {
        digits_of(s.drop_last()).push(s.last())
    } else {
        digits_of(s.drop_last())
    }
}

/// The index just past the maximal run of digit and hyphen characters
/// beginning at `i`.
pub open spec fn run_end(s: Seq<char>, i: int) -> int
    recommends
        0 <= i <= s.len(),
    decreases s.len() - i,
{
    if i < s.len() && is_capture_char(s[i]) {
        run_end(s, i + 1)
    } else {
        i
    }
}

/// What extraction yields once the first captured digit stands at index `j`:
/// the digits of the maximal digit/hyphen run starting there.
pub open spec fn capture_from(s: Seq<char>, j: int) -> Seq<char> {
    digits_of(s.subrange(j, run_end(s, j)))
}

/// Scan for the first digit at index `j` or later; the capture starts there.
pub open spec fn scan_digit(s: Seq<char>, j: int) -> Option<Seq<char>>
    recommends
        0 <= j,
    decreases s.len() - j,
{
    if j >= s.len() {
        None
    } else if is_digit(s[j]) {
        Some(capture_from(s, j))
    } else {
        scan_digit(s, j + 1)
    }
}

/// Scan for the first trigger occurrence at index `i` or later.
pub open spec fn extract_from(s: Seq<char>, i: int) -> Option<Seq<char>>
    recommends
        0 <= i,
    decreases s.len() - i,
{
    if i + 9 > s.len() {
        None
    } else if trigger_at(s, i) {
        scan_digit(s, i + 9)
    } else {
        extract_from(s, i + 1)
    }
}

/// The query extracted from free text, if any.
pub open spec fn spec_extract(s: Seq<char>) -> Option<Seq<char>> {
    extract_from(s, 0)
}

/// Every character of an extracted-digits sequence is a digit.
proof fn lemma_digits_of_digits(s: Seq<char>)
    ensures
        forall|t: int| 0 <= t < digits_of(s).len() ==> is_digit(#[trigger] digits_of(s)[t]),
    decreases s.len(),
{
    if s.len() > 0 {
        lemma_digits_of_digits(s.drop_last());
        assert forall|t: int| 0 <= t < digits_of(s).len() implies is_digit(
            #[trigger] digits_of(s)[t],
        ) by {
            if is_digit(s.last()) {
                assert(digits_of(s) == digits_of(s.drop_last()).push(s.last()));
                if t < digits_of(s.drop_last()).len() {
                    assert(digits_of(s)[t] == digits_of(s.drop_last())[t]);
                } else {
                    assert(digits_of(s)[t] == s.last());
                }
            } else {
                assert(digits_of(s) == digits_of(s.drop_last()));
            }
        }
    }
}

/// A sequence that holds a digit keeps at least one after the non-digits
/// are dropped.
proof fn lemma_digits_of_nonempty(s: Seq<char>, t: int)
    requires
        0 <= t < s.len(),
        is_digit(s[t]),
    ensures
        digits_of(s).len() > 0,
    decreases s.len(),
{
    if !is_digit(s.last()) {
        lemma_digits_of_nonempty(s.drop_last(), t);
    }
}

/// The end of the captured run lies between its start and the text's end.
proof fn lemma_run_end_bounds(s: Seq<char>, i: int)
    requires
        0 <= i <= s.len(),
    ensures
        i <= run_end(s, i) <= s.len(),
    decreases s.len() - i,
{
    if i < s.len() && is_capture_char(s[i]) {
        lemma_run_end_bounds(s, i + 1);
    }
}

/// Any query that `scan_digit` yields is a non-empty string of digits.
proof fn lemma_scan_digit_wf(s: Seq<char>, j: int)
    requires
        0 <= j,
    ensures
        scan_digit(s, j) matches Some(q) ==> q.len() > 0 && (forall|t: int|
            0 <= t < q.len() ==> is_digit(#[trigger] q[t])),
    decreases s.len() - j,
{
    if j >= s.len() {
    } else if is_digit(s[j]) {
        lemma_run_end_bounds(s, j + 1);
        let sub = s.subrange(j, run_end(s, j));
        assert(run_end(s, j) == run_end(s, j + 1));
        assert(run_end(s, j) >= j + 1);
        assert(sub[0] == s[j]);
        lemma_digits_of_digits(sub);
        lemma_digits_of_nonempty(sub, 0);
    } else {
        lemma_scan_digit_wf(s, j + 1);
    }
}

/// Any query that extraction yields is a non-empty string of digits: the
/// normalized form that the search collaborator is handed.
pub proof fn lemma_extract_query_wf(s: Seq<char>)
    ensures
        spec_extract(s) matches Some(q) ==> q.len() > 0 && (forall|t: int|
            0 <= t < q.len() ==> is_digit(#[trigger] q[t])),
{
    lemma_extract_from_wf(s, 0);
}

proof fn lemma_extract_from_wf(s: Seq<char>, i: int)
    requires
        0 <= i,
    ensures
        extract_from(s, i) matches Some(q) ==> q.len() > 0 && (forall|t: int|
            0 <= t < q.len() ==> is_digit(#[trigger] q[t])),
    decreases s.len() - i,
{
    if i + 9 > s.len() {
    } else if trigger_at(s, i) {
        lemma_scan_digit_wf(s, i + 9);
    } else {
        lemma_extract_from_wf(s, i + 1);
    }
}

/// `scan_digit` yields nothing exactly when no digit stands at `j` or later.
proof fn lemma_scan_digit_none(s: Seq<char>, j: int)
    requires
        0 <= j,
    ensures
        (scan_digit(s, j) is None) <==> (forall|k: int|
            j <= k < s.len() ==> !is_digit(#[trigger] s[k])),
    decreases s.len() - j,
{
    if j >= s.len() {
    } else if is_digit(s[j]) {
    } else {
        lemma_scan_digit_none(s, j + 1);
    }
}

proof fn lemma_extract_from_none(s: Seq<char>, i: int)
    requires
        0 <= i,
    ensures
        (extract_from(s, i) is None) <==> !(exists|i2: int, k: int|
            i <= i2 && trigger_at(s, i2) && i2 + 9 <= k < s.len() && is_digit(s[k])),
    decreases s.len() - i,
{
    if i + 9 > s.len() {
        assert forall|i2: int, k: int|
            !(i <= i2 && trigger_at(s, i2) && i2 + 9 <= k < s.len() && is_digit(s[k])) by {
            if trigger_at(s, i2) && i <= i2 {
                assert(i2 + 9 <= s.len());
            }
        }
    } else if trigger_at(s, i) {
        lemma_scan_digit_none(s, i + 9);
        if scan_digit(s, i + 9) is None {
            assert forall|i2: int, k: int|
                !(i <= i2 && trigger_at(s, i2) && i2 + 9 <= k < s.len() && is_digit(s[k])) by {
                if i <= i2 && trigger_at(s, i2) && i2 + 9 <= k < s.len() {
                    assert(i + 9 <= k < s.len());
                    assert(!is_digit(s[k]));
                }
            }
        } else {
            let k = choose|k: int| i + 9 <= k < s.len() && is_digit(#[trigger] s[k]);
            assert(i <= i && trigger_at(s, i) && i + 9 <= k < s.len() && is_digit(s[k]));
        }
    } else {
        lemma_extract_from_none(s, i + 1);
        if extract_from(s, i + 1) is None {
            assert forall|i2: int, k: int|
                !(i <= i2 && trigger_at(s, i2) && i2 + 9 <= k < s.len() && is_digit(s[k])) by {
                if i <= i2 && trigger_at(s, i2) && i2 + 9 <= k < s.len() && is_digit(s[k]) {
                    assert(i2 != i);
                    assert(i + 1 <= i2);
                }
            }
        }
    }
}

/// Extraction yields no query exactly when no occurrence of the trigger
/// token is followed, anywhere later in the text, by a digit. In
/// particular: text without the trigger token yields none, and a first
/// trigger token followed only by non-digit characters to the end of the
/// text yields none.
pub proof fn lemma_extract_none(s: Seq<char>)
    ensures
        (spec_extract(s) is None) <==> !(exists|i: int, k: int|
            trigger_at(s, i) && i + 9 <= k < s.len() && is_digit(s[k])),
{
    lemma_extract_from_none(s, 0);
    assert forall|i: int, k: int|
        (trigger_at(s, i) && i + 9 <= k < s.len() && is_digit(s[k])) implies (0 <= i && trigger_at(
        s,
        i,
    ) && i + 9 <= k < s.len() && is_digit(s[k])) by {
        assert(0 <= i);
    }
}

/// Text that holds no occurrence of the trigger token yields no query.
pub proof fn lemma_no_trigger_no_query(s: Seq<char>)
    requires
        forall|i: int| !trigger_at(s, i),
    ensures
        spec_extract(s) is None,
{
    lemma_extract_none(s);
}

/// Extraction is pure: it is a function of the text alone, so equal texts
/// always yield equal queries, with no hidden state to consult.
pub proof fn lemma_extract_deterministic(s: Seq<char>, t: Seq<char>)
    requires
        s == t,
    ensures
        spec_extract(s) == spec_extract(t),
{
}

/// The trigger token's character at offset `j`.
fn trigger_char(j: usize) -> (c: char)
    requires
        j < 9,
    ensures
        c == trigger_token()[j as int],
{
    if j == 0 {
        '@'
    } else if j == 1 {
        'p'
    } else if j == 2 {
        'i'
    } else if j == 3 {
        's'
    } else if j == 4 {
        'e'
    } else if j == 5 {
        'a'
    } else if j == 6 {
        'r'
    } else if j == 7 {
        'c'
    } else {
        'h'
    }
}

/// Does the trigger token occur in `text` at position `i`?
fn is_trigger_at(text: &str, i: usize) -> (r: bool)
    requires
        i + 9 <= text@.len(),
        text@.len() <= usize::MAX,
    ensures
        r == trigger_at(text@, i as int),
{
    let mut j: usize = 0;
    #[verifier::loop_isolation(false)]
    while j < 9
        invariant
            j <= 9,
            forall|k: int| 0 <= k < j ==> text@[i + k] == trigger_token()[k],
        decreases 9 - j,
    {
        let c = text.get_char(i + j);
        if c != trigger_char(j) {
            proof {
                let sub = text@.subrange(i as int, i as int + 9);
                assert(sub[j as int] == text@[i + j]);
                assert(!trigger_at(text@, i as int));
            }
            return false;
        }
        j += 1;
    }
    proof {
        assert(text@.subrange(i as int, i as int + 9) =~= trigger_token());
    }
    true
}

/// Position of the first trigger occurrence, scanning left to right.
fn find_trigger(text: &str) -> (r: Option<usize>)
    ensures
        match r {
            Some(i) => i + 9 <= text@.len() <= usize::MAX && trigger_at(text@, i as int)
                && extract_from(text@, 0) == scan_digit(text@, i as int + 9),
            None => extract_from(text@, 0) is None,
        },
{
    let n = text.unicode_len();
    if n < 9 {
        return None;
    }
    let mut i: usize = 0;
    #[verifier::loop_isolation(false)]
    while i <= n - 9
        invariant
            i <= n - 9 + 1,
            extract_from(text@, 0) == extract_from(text@, i as int),
        decreases n - i,
    {
        if is_trigger_at(text, i) {
            return Some(i);
        }
        i += 1;
        proof {
            assert(extract_from(text@, i - 1) == extract_from(text@, i as int));
        }
    }
    proof {
        assert(extract_from(text@, i as int) is None);
    }
    None
}

/// Position of the first digit at `j` or later.
fn find_digit(text: &str, j: usize) -> (r: Option<usize>)
    requires
        j <= text@.len(),
    ensures
        match r {
            Some(k) => j <= k < text@.len() && is_digit(text@[k as int]) && scan_digit(
                text@,
                j as int,
            ) == Some(capture_from(text@, k as int)),
            None => scan_digit(text@, j as int) is None,
        },
{
    let n = text.unicode_len();
    let mut k = j;
    #[verifier::loop_isolation(false)]
    while k < n
        invariant
            j <= k <= n,
            scan_digit(text@, j as int) == scan_digit(text@, k as int),
        decreases n - k,
    {
        let c = text.get_char(k);
        let u = c as u32;
        if 48 <= u && u <= 57 {
            return Some(k);
        }
        k += 1;
        proof {
            assert(scan_digit(text@, k - 1) == scan_digit(text@, k as int));
        }
    }
    None
}

/// The index just past the maximal digit/hyphen run starting at `k`.
fn find_run_end(text: &str, k: usize) -> (m: usize)
    requires
        k <= text@.len(),
    ensures
        k <= m <= text@.len(),
        m as int == run_end(text@, k as int),
{
    let n = text.unicode_len();
    let mut m = k;
    loop
        invariant
            n == text@.len(),
            k <= m <= n,
            run_end(text@, k as int) == run_end(text@, m as int),
        ensures
            k <= m <= n,
            run_end(text@, k as int) == m as int,
        decreases n - m,
    {
        if m >= n {
            break ;
        }
        let c = text.get_char(m);
        let u = c as u32;
        if !((48 <= u && u <= 57) || c == '-') {
            proof {
                assert(run_end(text@, m as int) == m as int);
            }
            break ;
        }
        proof {
            assert(is_capture_char(text@[m as int]));
            assert(run_end(text@, m as int) == run_end(text@, m + 1));
        }
        m += 1;
    }
    m
}

/// Digits of `text` between positions `k` and `m`, hyphens and anything
/// else dropped.
fn collect_digits(text: &str, k: usize, m: usize) -> (r: String)
    requires
        k <= m <= text@.len(),
    ensures
        r@ == digits_of(text@.subrange(k as int, m as int)),
{
    let mut res = String::new();
    proof {
        assert(text@.subrange(k as int, k as int) =~= Seq::<char>::empty());
    }
    let mut p = k;
    #[verifier::loop_isolation(false)]
    while p < m
        invariant
            k <= p <= m,
            res@ == digits_of(text@.subrange(k as int, p as int)),
        decreases m - p,
    {
        proof {
            let sub1 = text@.subrange(k as int, p + 1);
            assert(sub1.drop_last() =~= text@.subrange(k as int, p as int));
            assert(sub1.last() == text@[p as int]);
        }
        let c = text.get_char(p);
        let u = c as u32;
        if 48 <= u && u <= 57 {
            let d = text.substring_char(p, p + 1);
            res.append(d);
            proof {
                assert(d@ =~= seq![text@[p as int]]);
                assert(res@ =~= digits_of(text@.subrange(k as int, p + 1)));
            }
        }
        p += 1;
    }
    res
}

/// QueryExtractor: the query attached to the first trigger token in `text`,
/// hyphen separators stripped; `None` when the text holds no trigger token
/// or the first trigger token is followed by no digit.
pub fn extract_number(text: &str) -> (r: Option<String>)
    ensures
        match r {
            Some(q) => spec_extract(text@) == Some(q@),
            None => spec_extract(text@) is None,
        },
{
    match find_trigger(text) {
        None => None,
        Some(i) => match find_digit(text, i + 9) {
            None => None,
            Some(k) => {
                let m = find_run_end(text, k);
                let q = collect_digits(text, k, m);
                Some(q)
            },
        },
    }
}

} // verus!
