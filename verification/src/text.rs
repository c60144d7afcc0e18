//! Character-sequence algorithms used when normalising symbol names and paths.

use vstd::prelude::*;
use vstd::string::*;

verus! {

/// `pattern` occurs in `s` starting at index `i`.
pub open spec fn occurs_at(s: Seq<char>, pattern: Seq<char>, i: int) -> bool {
    &&& 0 <= i
    &&& i + pattern.len() <= s.len()
    &&& s.subrange(i, i + pattern.len()) == pattern
}

/// `pattern` occurs somewhere in `s`.
pub open spec fn contains_seq(s: Seq<char>, pattern: Seq<char>) -> bool {
    exists|i: int| occurs_at(s, pattern, i)
}

/// No occurrence of `pattern` in `s` starts before index `bound`.
pub open spec fn no_occurrence_before(s: Seq<char>, pattern: Seq<char>, bound: int) -> bool {
    forall|j: int| 0 <= j < bound ==> !occurs_at(s, pattern, j)
}

/// Index of the leftmost occurrence of `pattern` in `s`.
pub open spec fn first_occurrence(s: Seq<char>, pattern: Seq<char>) -> int {
    choose|i: int| occurs_at(s, pattern, i) && no_occurrence_before(s, pattern, i)
}

/// The last piece of `s` when it is cut at each occurrence of `sep`, the
/// occurrences being found from left to right without overlap.
#[verifier::opaque]
pub open spec fn last_segment(s: Seq<char>, sep: Seq<char>) -> Seq<char>
    decreases s.len(),
{
    if sep.len() > 0 && contains_seq(s, sep) {
        let i = first_occurrence(s, sep);
        if occurs_at(s, sep, i) {
            last_segment(s.skip(i + sep.len()), sep)
        } else {
            s
        }
    } else {
        s
    }
}

/// A path separator of either convention.
pub open spec fn is_path_separator(c: char) -> bool {
    c == '/' || c == '\\'
}

/// Index at which the final component of a path begins: just after its last
/// separator, or zero when it has none.
pub open spec fn file_name_start(path: Seq<char>) -> int
    decreases path.len(),
{
    if path.len() == 0 {
        0
    } else if is_path_separator(path.last()) {
        path.len() as int
    } else {
        file_name_start(path.drop_last())
    }
}

/// The final component of a path.
pub open spec fn file_name_of(path: Seq<char>) -> Seq<char> {
    path.skip(file_name_start(path))
}

/// The character that writes the decimal digit `d`.
pub open spec fn digit_char(d: nat) -> char {
    if d == 0 {
        '0'
    } else if d == 1 {
        '1'
    } else if d == 2 {
        '2'
    } else if d == 3 {
        '3'
    } else if d == 4 {
        '4'
    } else if d == 5 {
        '5'
    } else if d == 6 {
        '6'
    } else if d == 7 {
        '7'
    } else if d == 8 {
        '8'
    } else {
        '9'
    }
}

/// Decimal notation of `n`, without sign or leading zeros.
pub open spec fn decimal(n: nat) -> Seq<char>
    decreases n,
{
    if n < 10 {
        seq![digit_char(n)]
    } else {
        decimal(n / 10).push(digit_char(n % 10))
    }
}

/// Among the occurrences of a pattern there is a leftmost one.
pub proof fn lemma_first_occurrence(s: Seq<char>, pattern: Seq<char>)
    requires
        contains_seq(s, pattern),
    ensures
        occurs_at(s, pattern, first_occurrence(s, pattern)),
        no_occurrence_before(s, pattern, first_occurrence(s, pattern)),
{
    let w = choose|i: int| occurs_at(s, pattern, i);
    lemma_leftmost_below(s, pattern, w);
}

proof fn lemma_leftmost_below(s: Seq<char>, pattern: Seq<char>, w: int)
    requires
        occurs_at(s, pattern, w),
    ensures
        exists|i: int| occurs_at(s, pattern, i) && no_occurrence_before(s, pattern, i),
    decreases w,
{
    if !no_occurrence_before(s, pattern, w) {
        let j = choose|j: int| 0 <= j < w && occurs_at(s, pattern, j);
        lemma_leftmost_below(s, pattern, j);
    }
}

/// The leftmost occurrence is the one before which there is none.
pub proof fn lemma_first_occurrence_is(s: Seq<char>, pattern: Seq<char>, i: int)
    requires
        occurs_at(s, pattern, i),
        no_occurrence_before(s, pattern, i),
    ensures
        first_occurrence(s, pattern) == i,
{
    lemma_first_occurrence(s, pattern);
}

/// The characters of `s`, in order.
pub fn to_chars(s: &str) -> (chars: Vec<char>)
    ensures
        chars@ == s@,
{
    let mut chars: Vec<char> = Vec::new();
    for c in it: s.chars()
        invariant
            chars@ == it.seq().take(it.index()),
            it.seq() == s@,
    {
        chars.push(c);
    }
    chars
}

/// Whether `pattern` occurs in `s` at index `i`.
pub fn matches_at(s: &[char], pattern: &[char], i: usize) -> (found: bool)
    ensures
        found == occurs_at(s@, pattern@, i as int),
{
    if pattern.len() > s.len() || i > s.len() - pattern.len() {
        return false;
    }
    let mut k: usize = 0;
    while k < pattern.len()
        invariant
            k <= pattern.len(),
            i + pattern.len() <= s.len(),
            forall|j: int| 0 <= j < k ==> s@[i + j] == pattern@[j],
        decreases pattern.len() - k,
    {
        if s[i + k] != pattern[k] {
            return false;
        }
        k += 1;
    }
    assert(s@.subrange(i as int, i + pattern.len()) =~= pattern@);
    true
}

/// Whether `s` begins with `prefix`.
pub fn starts_with(s: &[char], prefix: &[char]) -> (found: bool)
    ensures
        found == prefix@.is_prefix_of(s@),
{
    matches_at(s, prefix, 0)
}

/// Whether `pattern` occurs anywhere in `s`.
pub fn contains(s: &[char], pattern: &[char]) -> (found: bool)
    ensures
        found == contains_seq(s@, pattern@),
{
    if pattern.len() > s.len() {
        return false;
    }
    let last: usize = s.len() - pattern.len();
    let mut i: usize = 0;
    loop
        invariant
            i <= last,
            last == s.len() - pattern.len(),
            no_occurrence_before(s@, pattern@, i as int),
        decreases last - i,
    {
        if matches_at(s, pattern, i) {
            return true;
        }
        if i == last {
            return false;
        }
        i += 1;
    }
}

/// An occurrence in a suffix is an occurrence in the whole, shifted.
pub proof fn lemma_occurs_at_skip(s: Seq<char>, pattern: Seq<char>, start: int, j: int)
    requires
        0 <= start <= s.len(),
        0 <= j,
    ensures
        occurs_at(s.skip(start), pattern, j) == occurs_at(s, pattern, start + j),
{
    if j + pattern.len() <= s.len() - start {
        assert(s.skip(start).subrange(j, j + pattern.len()) =~= s.subrange(
            start + j,
            start + j + pattern.len(),
        ));
    }
}

/// Cutting at the leftmost separator leaves the last piece unchanged.
pub proof fn lemma_last_segment_step(s: Seq<char>, sep: Seq<char>, i: int)
    requires
        sep.len() > 0,
        occurs_at(s, sep, i),
        no_occurrence_before(s, sep, i),
    ensures
        last_segment(s, sep) == last_segment(s.skip(i + sep.len()), sep),
{
    reveal(last_segment);
    lemma_first_occurrence_is(s, sep, i);
}

/// A text without separator is its own last piece.
pub proof fn lemma_last_segment_whole(s: Seq<char>, sep: Seq<char>)
    requires
        !contains_seq(s, sep),
    ensures
        last_segment(s, sep) == s,
{
    reveal(last_segment);
}

/// The last piece is what is left of the text behind some point, and no
/// separator occurs in it.
pub proof fn last_segment_is_clean_suffix(s: Seq<char>, sep: Seq<char>)
    requires
        sep.len() > 0,
    ensures
        exists|k: int| 0 <= k <= s.len() && last_segment(s, sep) == #[trigger] s.skip(k),
        !contains_seq(last_segment(s, sep), sep),
    decreases s.len(),
{
    if contains_seq(s, sep) {
        lemma_first_occurrence(s, sep);
        let i = first_occurrence(s, sep);
        let rest = s.skip(i + sep.len());
        lemma_last_segment_step(s, sep, i);
        last_segment_is_clean_suffix(rest, sep);
        let k = choose|k: int|
            0 <= k <= rest.len() && last_segment(rest, sep) == #[trigger] rest.skip(k);
        assert(rest.skip(k) =~= s.skip(i + sep.len() + k));
    } else {
        lemma_last_segment_whole(s, sep);
        assert(s.skip(0) =~= s);
    }
}

/// The final component of a path holds no separator, and is the whole path
/// when the path holds none.
pub proof fn file_name_has_no_separator(path: Seq<char>)
    ensures
        0 <= file_name_start(path) <= path.len(),
        forall|j: int|
            file_name_start(path) <= j < path.len() ==> !is_path_separator(#[trigger] path[j]),
        file_name_start(path) > 0 ==> is_path_separator(path[file_name_start(path) - 1]),
        forall|j: int| 0 <= j < file_name_of(path).len() ==> !is_path_separator(
            #[trigger] file_name_of(path)[j],
        ),
    decreases path.len(),
{
    if path.len() > 0 && !is_path_separator(path.last()) {
        file_name_has_no_separator(path.drop_last());
        assert forall|j: int| file_name_start(path) <= j < path.len() implies !is_path_separator(
            #[trigger] path[j],
        ) by {
            if j < path.len() - 1 {
                assert(path.drop_last()[j] == path[j]);
            }
        }
    }
}

/// Index at which the last piece of `s` begins when `s` is cut at `sep`.
pub fn last_segment_start(s: &[char], sep: &[char]) -> (start: usize)
    ensures
        start <= s@.len(),
        s@.skip(start as int) == last_segment(s@, sep@),
{
    let mut start: usize = 0;
    let mut i: usize = 0;
    assert(s@.skip(0) =~= s@);
    if sep.len() == 0 {
        proof {
            reveal(last_segment);
        }
        return 0;
    }
    while i < s.len()
        invariant
            sep@.len() > 0,
            start <= i <= s.len(),
            last_segment(s@, sep@) == last_segment(s@.skip(start as int), sep@),
            forall|j: int| start <= j < i ==> !occurs_at(s@, sep@, j),
        decreases s.len() - i,
    {
        let ghost rest = s@.skip(start as int);
        if matches_at(s, sep, i) {
            proof {
                lemma_occurs_at_skip(s@, sep@, start as int, i - start);
                assert forall|j: int| 0 <= j < i - start implies !occurs_at(rest, sep@, j) by {
                    lemma_occurs_at_skip(s@, sep@, start as int, j);
                }
                lemma_last_segment_step(rest, sep@, i - start);
                assert(rest.skip(i - start + sep@.len()) =~= s@.skip(i + sep@.len()));
            }
            i += sep.len();
            start = i;
        } else {
            i += 1;
        }
    }
    proof {
        let rest = s@.skip(start as int);
        assert forall|j: int| !occurs_at(rest, sep@, j) by {
            if 0 <= j {
                lemma_occurs_at_skip(s@, sep@, start as int, j);
            }
        }
        lemma_last_segment_whole(rest, sep@);
    }
    start
}

/// Index at which the final component of `path` begins.
pub fn file_name_index(path: &[char]) -> (start: usize)
    ensures
        start as int == file_name_start(path@),
        start <= path@.len(),
{
    let mut start: usize = 0;
    let mut i: usize = 0;
    while i < path.len()
        invariant
            start <= i <= path.len(),
            start as int == file_name_start(path@.take(i as int)),
        decreases path.len() - i,
    {
        let c = path[i];
        proof {
            let next = path@.take(i + 1);
            assert(next.drop_last() =~= path@.take(i as int));
        }
        i += 1;
        if c == '/' || c == '\\' {
            start = i;
        }
    }
    assert(path@.take(i as int) =~= path@);
    start
}

/// The text of one decimal digit.
fn digit_text(d: u32) -> (text: &'static str)
    requires
        d < 10,
    ensures
        text@ == seq![digit_char(d as nat)],
{
    proof {
        reveal_strlit("0");
        reveal_strlit("1");
        reveal_strlit("2");
        reveal_strlit("3");
        reveal_strlit("4");
        reveal_strlit("5");
        reveal_strlit("6");
        reveal_strlit("7");
        reveal_strlit("8");
        reveal_strlit("9");
    }
    if d == 0 {
        "0"
    } else if d == 1 {
        "1"
    } else if d == 2 {
        "2"
    } else if d == 3 {
        "3"
    } else if d == 4 {
        "4"
    } else if d == 5 {
        "5"
    } else if d == 6 {
        "6"
    } else if d == 7 {
        "7"
    } else if d == 8 {
        "8"
    } else {
        "9"
    }
}

/// Appends the decimal notation of `n` to `out`.
pub fn push_decimal(out: &mut String, n: u32)
    ensures
        final(out)@ == old(out)@ + decimal(n as nat),
    decreases n,
{
    if n >= 10 {
        push_decimal(out, n / 10);
    }
    out.append(digit_text(n % 10));
}

} // verus!
