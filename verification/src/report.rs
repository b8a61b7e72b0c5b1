use vstd::prelude::*;
use vstd::string::StringExecFns;
use crate::outcome::Outcome;

verus! {

/// The character of one decimal digit.
pub open spec fn digit_char(d: nat) -> char {
    if d == 0 {
        '0'
    } else if d == 1 {
        '1'
    } else if d == 2 {
        '2'
    } else if d == 3 {
        '3'
    } else if d == 4 {
        '4'
    } else if d == 5 {
        '5'
    } else if d == 6 {
        '6'
    } else if d == 7 {
        '7'
    } else if d == 8 {
        '8'
    } else {
        '9'
    }
}

/// A number written in decimal, most significant digit first, without
/// leading zeros (except for zero itself).
pub open spec fn dec_str(n: nat) -> Seq<char>
    decreases n,
{
    if n < 10 {
        seq![digit_char(n)]
    } else {
        dec_str(n / 10).push(digit_char(n % 10))
    }
}

fn digit_str(d: usize) -> (r: &'static str)
    requires
        d < 10,
    ensures
        r@ == seq![digit_char(d as nat)],
{
    let r: &'static str = if d == 0 {
        "0"
    } else if d == 1 {
        "1"
    } else if d == 2 {
        "2"
    } else if d == 3 {
        "3"
    } else if d == 4 {
        "4"
    } else if d == 5 {
        "5"
    } else if d == 6 {
        "6"
    } else if d == 7 {
        "7"
    } else if d == 8 {
        "8"
    } else {
        "9"
    };
    proof {
        reveal_strlit("0");
        reveal_strlit("1");
        reveal_strlit("2");
        reveal_strlit("3");
        reveal_strlit("4");
        reveal_strlit("5");
        reveal_strlit("6");
        reveal_strlit("7");
        reveal_strlit("8");
        reveal_strlit("9");
        assert(r@ =~= seq![digit_char(d as nat)]);
    }
    r
}

/// Writes a count in decimal.
pub fn usize_to_decimal(n: usize) -> (r: String)
    ensures
        r@ == dec_str(n as nat),
    decreases n,
{
    if n < 10 {
        String::from_str(digit_str(n))
    } else {
        let mut s = usize_to_decimal(n / 10);
        s.append(digit_str(n % 10));
        proof {
            assert(s@ =~= dec_str(n as nat));
        }
        s
    }
}

/// The kind of batch operation a status line reports on.
#[derive(Clone, Copy, Debug, PartialEq, Eq, Structural)]
pub enum OpKind {
    Resize,
    Convert,
}

/// The line a folder run prints for one file's outcome.
pub open spec fn spec_batch_line(op: OpKind, path: Seq<char>, oc: Outcome) -> Seq<char> {
    let head = match op {
        OpKind::Resize => match oc {
            Outcome::Success => "[PASS] resized '"@,
            Outcome::AlreadySatisfied => "[WARN] size already satisfied for '"@,
            Outcome::ReadFailure => "[FAIL] failed to read '"@,
            Outcome::FormatGuessFailure => "[FAIL] failed to guess format '"@,
            Outcome::EncodeFailure => "[FAIL] failed to convert '"@,
            Outcome::WriteFailure => "[FAIL] failed to save '"@,
        },
        OpKind::Convert => match oc {
            Outcome::Success => "[PASS] converted '"@,
            Outcome::AlreadySatisfied => "[WARN] format already satisfied '"@,
            Outcome::ReadFailure => "[FAIL] failed to read '"@,
            Outcome::FormatGuessFailure => "[FAIL] failed to guess format '"@,
            Outcome::EncodeFailure => "[FAIL] failed to convert '"@,
            Outcome::WriteFailure => "[FAIL] failed to save '"@,
        },
    };
    head + path + "'"@
}

/// Builds the status line a folder run prints for one file.
pub fn batch_line(op: OpKind, path: &str, oc: Outcome) -> (r: String)
    ensures
        r@ == spec_batch_line(op, path@, oc),
{
    let head: &str = match op {
        OpKind::Resize => match oc {
            Outcome::Success => "[PASS] resized '",
            Outcome::AlreadySatisfied => "[WARN] size already satisfied for '",
            Outcome::ReadFailure => "[FAIL] failed to read '",
            Outcome::FormatGuessFailure => "[FAIL] failed to guess format '",
            Outcome::EncodeFailure => "[FAIL] failed to convert '",
            Outcome::WriteFailure => "[FAIL] failed to save '",
        },
        OpKind::Convert => match oc {
            Outcome::Success => "[PASS] converted '",
            Outcome::AlreadySatisfied => "[WARN] format already satisfied '",
            Outcome::ReadFailure => "[FAIL] failed to read '",
            Outcome::FormatGuessFailure => "[FAIL] failed to guess format '",
            Outcome::EncodeFailure => "[FAIL] failed to convert '",
            Outcome::WriteFailure => "[FAIL] failed to save '",
        },
    };
    let mut r = String::from_str(head);
    r.append(path);
    r.append("'");
    r
}

/// The line a single-file run prints for an outcome — nothing on success.
pub open spec fn spec_single_line(op: OpKind, path: Seq<char>, oc: Outcome) -> Option<Seq<char>> {
    let head = match op {
        OpKind::Resize => match oc {
            Outcome::Success => ""@,
            Outcome::AlreadySatisfied => "Size already satisfied for '"@,
            Outcome::ReadFailure => "Failed to read '"@,
            Outcome::FormatGuessFailure => "Failed to guess format '"@,
            Outcome::EncodeFailure => "Failed to convert '"@,
            Outcome::WriteFailure => "Failed to save '"@,
        },
        OpKind::Convert => match oc {
            Outcome::Success => ""@,
            Outcome::AlreadySatisfied => "Format already satisfied '"@,
            Outcome::ReadFailure => "Failed to read '"@,
            Outcome::FormatGuessFailure => "Failed to guess format '"@,
            Outcome::EncodeFailure => "Failed to convert '"@,
            Outcome::WriteFailure => "Failed to save '"@,
        },
    };
    if oc is Success {
        None
    } else {
        Some(head + path + "'"@)
    }
}

/// Builds the line a single-file run prints for one outcome, if any.
pub fn single_line(op: OpKind, path: &str, oc: Outcome) -> (r: Option<String>)
    ensures
        match r {
            Some(l) => spec_single_line(op, path@, oc) == Some(l@),
            None => spec_single_line(op, path@, oc) is None,
        },
{
    let head: &str = match op {
        OpKind::Resize => match oc {
            Outcome::Success => {
                return None;
            },
            Outcome::AlreadySatisfied => "Size already satisfied for '",
            Outcome::ReadFailure => "Failed to read '",
            Outcome::FormatGuessFailure => "Failed to guess format '",
            Outcome::EncodeFailure => "Failed to convert '",
            Outcome::WriteFailure => "Failed to save '",
        },
        OpKind::Convert => match oc {
            Outcome::Success => {
                return None;
            },
            Outcome::AlreadySatisfied => "Format already satisfied '",
            Outcome::ReadFailure => "Failed to read '",
            Outcome::FormatGuessFailure => "Failed to guess format '",
            Outcome::EncodeFailure => "Failed to convert '",
            Outcome::WriteFailure => "Failed to save '",
        },
    };
    let mut r = String::from_str(head);
    r.append(path);
    r.append("'");
    Some(r)
}

/// The header above the failure list: the count, then `FAILED CASES:`.
pub open spec fn spec_summary_header(n: nat) -> Seq<char> {
    dec_str(n) + " FAILED CASES:"@
}

/// Builds the failure-list header for a batch of `n` failures.
pub fn summary_header(n: usize) -> (r: String)
    ensures
        r@ == spec_summary_header(n as nat),
{
    let mut r = usize_to_decimal(n);
    r.append(" FAILED CASES:");
    r
}

/// The line the deletion pass prints for one original.
pub open spec fn spec_delete_line(path: Seq<char>, deleted: bool) -> Seq<char> {
    if deleted {
        "[PASS] deleted '"@ + path + "'"@
    } else {
        "[FAIL] failed to delete '"@ + path + "'"@
    }
}

/// Builds the line the deletion pass prints for one original.
pub fn delete_line(path: &str, deleted: bool) -> (r: String)
    ensures
        r@ == spec_delete_line(path@, deleted),
{
    let mut r = if deleted {
        String::from_str("[PASS] deleted '")
    } else {
        String::from_str("[FAIL] failed to delete '")
    };
    r.append(path);
    r.append("'");
    r
}

/// The summary under the deletion pass: the count of removed files.
pub open spec fn spec_delete_summary(n: nat) -> Seq<char> {
    dec_str(n) + " files deleted in total."@
}

/// Builds the deletion summary for `n` removed files.
pub fn delete_summary(n: usize) -> (r: String)
    ensures
        r@ == spec_delete_summary(n as nat),
{
    let mut r = usize_to_decimal(n);
    r.append(" files deleted in total.");
    r
}

} // verus!
