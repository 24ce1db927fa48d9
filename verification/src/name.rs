//! Taking the customer's name out of a command: the text between the first
//! `[` and the `]` that closes it on the same line.
use vstd::prelude::*;

verus! {

#[verifier::external_type_specification]
#[verifier::external_body]
pub struct ExRegexError(regex::Error);

/// The characters of the pattern `\[(.*?)\]`: a `[`, then as few characters
/// other than a line break as possible (captured), then a `]`.
pub open spec fn bracket_pattern() -> Seq<char> {
    seq!['\\', '[', '(', '.', '*', '?', ')', '\\', ']']
}

/// The `[` at `i` is closed by the `]` at `k`: `k` is the first `]` after `i`
/// and no line break stands between them.
pub open spec fn closes_at(s: Seq<char>, i: int, k: int) -> bool {
    &&& 0 <= i < k < s.len()
    &&& s[i] == '['
    &&& s[k] == ']'
    &&& forall|m: int| i < m < k ==> s[m] != ']' && s[m] != '\n'
}

/// A match of the bracket pattern starts at `i`.
pub open spec fn opens_capture(s: Seq<char>, i: int) -> bool {
    exists|k: int| closes_at(s, i, k)
}

/// `i` is the leftmost position at which a match starts.
pub open spec fn leftmost_opening(s: Seq<char>, i: int) -> bool {
    &&& opens_capture(s, i)
    &&& forall|j: int| 0 <= j < i ==> !opens_capture(s, j)
}

/// What the bracket pattern captures in `s`: the text strictly between the
/// leftmost `[` that is closed on its line and the first `]` after it; `None`
/// where no such pair exists.
pub open spec fn first_bracketed(s: Seq<char>) -> Option<Seq<char>> {
    if exists|i: int| opens_capture(s, i) {
        let i = choose|i: int| leftmost_opening(s, i);
        let k = choose|k: int| closes_at(s, i, k);
        Some(s.subrange(i + 1, k))
    } else {
        None
    }
}

/// The name read from a command: the captured text, or the empty text where
/// nothing is captured.
pub open spec fn name_in(s: Seq<char>) -> Seq<char> {
    match first_bracketed(s) {
        Some(n) => n,
        None => Seq::empty(),
    }
}

/// A view of an optional captured text.
pub open spec fn captured_view(found: Option<String>) -> Option<Seq<char>> {
    match found {
        Some(t) => Some(t@),
        None => None,
    }
}

/// Compiles `pattern` with `regex::Regex::new`, searches `haystack` with
/// `Regex::captures` and returns the text of group `group` of that match
/// (`Captures::get`, `Match::as_str`).
///
/// Trusted: for the pattern `\[(.*?)\]` and group 1, the only call this
/// library makes, compilation succeeds and the result is `first_bracketed` of
/// the haystack. This rests on the crate's documented syntax (`.` is any
/// character but a line break, `*?` is lazy) and its leftmost-first match
/// semantics. Other patterns are not admitted.
#[verifier::external_body]
fn regex_first_capture(pattern: &str, haystack: &str, group: usize) -> (found: Result<Option<String>, regex::Error>)
    requires
        pattern@ == bracket_pattern(),
        group == 1,
    ensures
        found is Ok && captured_view(found->Ok_0) == first_bracketed(haystack@),
{
    let re = regex::Regex::new(pattern)?;
    match re.captures(haystack) {
        Some(caps) => match caps.get(group) {
            Some(m) => Ok(Some(m.as_str().to_string())),
            None => Ok(None),
        },
        None => Ok(None),
    }
}

/// Returns the name written in square brackets in `command`: the text between
/// the first `[` that is closed on its line and the first `]` after it, or the
/// empty string where the command holds no such pair.
pub fn extract_name(command: &str) -> (name: String)
    ensures
        name@ == name_in(command@),
{
    let pattern = "\\[(.*?)\\]";
    proof {
        reveal_strlit("\\[(.*?)\\]");
    }
    assert(pattern@ == bracket_pattern());
    match regex_first_capture(pattern, command, 1) {
        Ok(Some(found)) => found,
        Ok(None) => String::new(),
        Err(_) => {
            proof {
                assert(false);
            }
            String::new()
        },
    }
}

/// Every position at which a match starts has a leftmost one at or before it.
proof fn lemma_leftmost_exists(s: Seq<char>, i0: int)
    requires
        opens_capture(s, i0),
    ensures
        exists|i: int| leftmost_opening(s, i),
    decreases i0,
{
    let k0 = choose|k: int| closes_at(s, i0, k);
    if exists|j: int| 0 <= j < i0 && opens_capture(s, j) {
        let j = choose|j: int| 0 <= j < i0 && opens_capture(s, j);
        lemma_leftmost_exists(s, j);
    } else {
        assert(leftmost_opening(s, i0));
    }
}

/// The `]` that closes a `[` is unique.
proof fn lemma_close_unique(s: Seq<char>, i: int, k1: int, k2: int)
    requires
        closes_at(s, i, k1),
        closes_at(s, i, k2),
    ensures
        k1 == k2,
{
    if k1 < k2 {
        assert(s[k1] == ']');
    } else if k2 < k1 {
        assert(s[k2] == ']');
    }
}

/// The leftmost opening is unique.
proof fn lemma_leftmost_unique(s: Seq<char>, i1: int, i2: int)
    requires
        leftmost_opening(s, i1),
        leftmost_opening(s, i2),
    ensures
        i1 == i2,
{
    let k1 = choose|k: int| closes_at(s, i1, k);
    let k2 = choose|k: int| closes_at(s, i2, k);
    assert(0 <= i1 && 0 <= i2);
    if i1 < i2 {
        assert(!opens_capture(s, i1));
    } else if i2 < i1 {
        assert(!opens_capture(s, i2));
    }
}

/// Where something is captured, it is what stands between the `[` at some
/// position `i` and the `]` that closes it.
proof fn lemma_capture_shape(s: Seq<char>)
    requires
        first_bracketed(s) is Some,
    ensures
        exists|i: int, k: int|
            leftmost_opening(s, i) && closes_at(s, i, k) && first_bracketed(s) == Some(
                s.subrange(i + 1, k),
            ),
{
    let i0 = choose|i: int| opens_capture(s, i);
    lemma_leftmost_exists(s, i0);
    let i = choose|i: int| leftmost_opening(s, i);
    let k = choose|k: int| closes_at(s, i, k);
    assert(leftmost_opening(s, i) && closes_at(s, i, k) && first_bracketed(s) == Some(
        s.subrange(i + 1, k),
    ));
}

/// A command without any `[` yields the empty name.
pub proof fn law_no_bracket_no_name(s: Seq<char>)
    requires
        forall|i: int| 0 <= i < s.len() ==> s[i] != '[',
    ensures
        first_bracketed(s) is None,
        name_in(s) == Seq::<char>::empty(),
{
    assert forall|i: int| !opens_capture(s, i) by {
        if opens_capture(s, i) {
            let k = choose|k: int| closes_at(s, i, k);
            assert(s[i] == '[');
        }
    }
}

/// A name, where one is found, is a contiguous part of the command that
/// directly follows a `[` and is directly followed by a `]`; it holds no `]`
/// and no line break.
pub proof fn law_name_is_enclosed(s: Seq<char>)
    requires
        first_bracketed(s) is Some,
    ensures
        ({
            let n = name_in(s);
            &&& forall|m: int| 0 <= m < n.len() ==> n[m] != ']' && n[m] != '\n'
            &&& exists|i: int|
                0 <= i && i + n.len() + 1 < s.len() && #[trigger] s[i] == '[' && s[i + n.len() + 1] == ']'
                    && s.subrange(i + 1, i + n.len() + 1) == n
        }),
{
    lemma_capture_shape(s);
    let (i, k) = choose|i: int, k: int|
        leftmost_opening(s, i) && closes_at(s, i, k) && first_bracketed(s) == Some(
            s.subrange(i + 1, k),
        );
    let n = name_in(s);
    assert(n == s.subrange(i + 1, k));
    assert(n.len() == k - i - 1);
    assert forall|m: int| 0 <= m < n.len() implies n[m] != ']' && n[m] != '\n' by {
        assert(n[m] == s[i + 1 + m]);
    }
    assert(s.subrange(i + 1, i + n.len() + 1) == n);
}

/// Where the command is `a [n] b`, `a` holds no `[` and `n` holds no `]` and
/// no line break, the name is `n`.
pub proof fn law_first_bracketed_name(a: Seq<char>, n: Seq<char>, b: Seq<char>)
    requires
        forall|m: int| 0 <= m < a.len() ==> a[m] != '[',
        forall|m: int| 0 <= m < n.len() ==> n[m] != ']' && n[m] != '\n',
    ensures
        first_bracketed(a + seq!['['] + n + seq![']'] + b) == Some(n),
        name_in(a + seq!['['] + n + seq![']'] + b) == n,
{
    let s = a + seq!['['] + n + seq![']'] + b;
    let i0 = a.len() as int;
    let k0: int = (a.len() + n.len() + 1) as int;
    assert(s[i0] == '[');
    assert(s[k0] == ']');
    assert forall|m: int| i0 < m < k0 implies s[m] != ']' && s[m] != '\n' by {
        assert(s[m] == n[m - i0 - 1]);
    }
    assert(closes_at(s, i0, k0));
    assert forall|j: int| 0 <= j < i0 implies !opens_capture(s, j) by {
        assert(s[j] == a[j]);
    }
    assert(leftmost_opening(s, i0));
    let i = choose|i: int| leftmost_opening(s, i);
    lemma_leftmost_unique(s, i, i0);
    let k = choose|k: int| closes_at(s, i, k);
    lemma_close_unique(s, i0, k, k0);
    assert(s.subrange(i0 + 1, k0) =~= n);
}

} // verus!
