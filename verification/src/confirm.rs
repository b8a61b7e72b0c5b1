use vstd::prelude::*;
use vstd::string::{StrSliceExecFns, StringExecFns};
use crate::text::str_eq;

verus! {

/// The characters trimmed around an answer: the Unicode white-space set.
pub open spec fn is_space(c: char) -> bool {
    let u = c as u32;
    ||| u == 0x09
    ||| u == 0x0A
    ||| u == 0x0B
    ||| u == 0x0C
    ||| u == 0x0D
    ||| u == 0x20
    ||| u == 0x85
    ||| u == 0xA0
    ||| u == 0x1680
    ||| (0x2000 <= u && u <= 0x200A)
    ||| u == 0x2028
    ||| u == 0x2029
    ||| u == 0x202F
    ||| u == 0x3000
    ||| u == 0x205F
}

fn char_is_space(c: char) -> (r: bool)
    ensures
        r == is_space(c),
{
    let u = c as u32;
    u == 0x09 || u == 0x0A || u == 0x0B || u == 0x0C || u == 0x0D || u == 0x20 || u == 0x85
        || u == 0xA0 || u == 0x1680 || (0x2000 <= u && u <= 0x200A) || u == 0x2028 || u == 0x2029
        || u == 0x202F || u == 0x3000 || u == 0x205F
}

/// A string without its leading white space.
pub open spec fn trim_front(s: Seq<char>) -> Seq<char>
    decreases s.len(),
{
    if s.len() > 0 && is_space(s[0]) {
        trim_front(s.subrange(1, s.len() as int))
    } else {
        s
    }
}

/// A string without its trailing white space.
pub open spec fn trim_back(s: Seq<char>) -> Seq<char>
    decreases s.len(),
{
    if s.len() > 0 && is_space(s.last()) {
        trim_back(s.drop_last())
    } else {
        s
    }
}

/// A string without white space on either side.
pub open spec fn spec_trim(s: Seq<char>) -> Seq<char> {
    trim_back(trim_front(s))
}

proof fn lemma_trim_front_at(s: Seq<char>, b: int)
    requires
        0 <= b <= s.len(),
        forall|j: int| 0 <= j < b ==> is_space(#[trigger] s[j]),
        b < s.len() ==> !is_space(s[b]),
    ensures
        trim_front(s) == s.subrange(b, s.len() as int),
    decreases b,
{
    if b == 0 {
        assert(s.subrange(0, s.len() as int) =~= s);
    } else {
        let tail = s.subrange(1, s.len() as int);
        lemma_trim_front_at(tail, b - 1);
        assert(tail.subrange(b - 1, tail.len() as int) =~= s.subrange(b, s.len() as int));
    }
}

proof fn lemma_trim_back_at(s: Seq<char>, e: int)
    requires
        0 <= e <= s.len(),
        forall|j: int| e <= j < s.len() ==> is_space(#[trigger] s[j]),
        e > 0 ==> !is_space(s[e - 1]),
    ensures
        trim_back(s) == s.subrange(0, e),
    decreases s.len() - e,
{
    if e == s.len() {
        assert(s.subrange(0, e) =~= s);
    } else {
        assert(is_space(s.last()));
        lemma_trim_back_at(s.drop_last(), e);
        assert(s.drop_last().subrange(0, e) =~= s.subrange(0, e));
    }
}

/// Copies the string without surrounding white space.
pub fn trimmed(s: &str) -> (r: String)
    ensures
        r@ == spec_trim(s@),
{
    let n = s.unicode_len();
    let mut b: usize = 0;
    while b < n && char_is_space(s.get_char(b))
        invariant
            b <= n,
            n == s@.len(),
            forall|j: int| 0 <= j < b ==> is_space(#[trigger] s@[j]),
        decreases n - b,
    {
        b = b + 1;
    }
    if b == n {
        proof {
            lemma_trim_front_at(s@, n as int);
            assert(s@.subrange(n as int, n as int) =~= Seq::<char>::empty());
        }
        return String::new();
    }
    let mut e: usize = n;
    while e > b + 1 && char_is_space(s.get_char(e - 1))
        invariant
            b + 1 <= e <= n,
            n == s@.len(),
            b < n,
            !is_space(s@[b as int]),
            forall|j: int| e <= j < n ==> is_space(#[trigger] s@[j]),
        decreases e,
    {
        e = e - 1;
    }
    let t = s.substring_char(b, e);
    proof {
        if e > b + 1 {
            assert(!is_space(s@[e - 1]));
        } else {
            assert(e == b + 1);
            assert(!is_space(s@[e - 1]));
        }
        lemma_trim_front_at(s@, b as int);
        let mid = s@.subrange(b as int, n as int);
        assert forall|j: int| e - b <= j < mid.len() implies is_space(#[trigger] mid[j]) by {
            assert(mid[j] == s@[b + j]);
        }
        lemma_trim_back_at(mid, e - b);
        assert(mid.subrange(0, e - b) =~= s@.subrange(b as int, e as int));
    }
    String::from_str(t)
}

/// What a line of console input answers: yes, no, or nothing decidable.
/// Only the exact (trimmed) letters `y` and `n` decide.
pub open spec fn spec_confirm(line: Seq<char>) -> Option<bool> {
    if spec_trim(line) == "y"@ {
        Some(true)
    } else if spec_trim(line) == "n"@ {
        Some(false)
    } else {
        None
    }
}

/// Reads an answer off one line of input.
pub fn parse_confirm(line: &str) -> (r: Option<bool>)
    ensures
        r == spec_confirm(line@),
{
    let t = trimmed(line);
    if str_eq(t.as_str(), "y") {
        Some(true)
    } else if str_eq(t.as_str(), "n") {
        Some(false)
    } else {
        None
    }
}

/// What the cleanup of originals does next.
#[derive(Clone, Copy, Debug, PartialEq, Eq, Structural)]
pub enum CleanupStep {
    DeleteOriginals,
    KeepOriginals,
    AskAgain,
}

/// Decides the cleanup of originals after an in-place conversion. With the
/// unattended-yes flag the originals are deleted without any prompt; the
/// answer, if one was read, is not even consulted. Otherwise a trimmed `y`
/// deletes, a trimmed `n` keeps, and anything else — including no answer
/// yet — asks again, deleting nothing.
pub fn cleanup_decision(unattended_yes: bool, answer: Option<&str>) -> (r: CleanupStep)
    ensures
        unattended_yes ==> r is DeleteOriginals,
        !unattended_yes ==> r == match answer {
            None => CleanupStep::AskAgain,
            Some(l) => match spec_confirm(l@) {
                Some(true) => CleanupStep::DeleteOriginals,
                Some(false) => CleanupStep::KeepOriginals,
                None => CleanupStep::AskAgain,
            },
        },
{
    if unattended_yes {
        return CleanupStep::DeleteOriginals;
    }
    match answer {
        None => CleanupStep::AskAgain,
        Some(l) => match parse_confirm(l) {
            Some(true) => CleanupStep::DeleteOriginals,
            Some(false) => CleanupStep::KeepOriginals,
            None => CleanupStep::AskAgain,
        },
    }
}

} // verus!
