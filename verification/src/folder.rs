use vstd::prelude::*;

verus! {

/// One immediate entry of a directory, as the caller read it: its path and
/// whether it is a regular file.
pub struct FolderEntry {
    pub path: String,
    pub is_file: bool,
}

/// The paths of the regular files among a directory's immediate entries,
/// in enumeration order. Nothing else — in particular no entry of a
/// subdirectory — is ever taken.
pub open spec fn spec_selected_files(s: Seq<FolderEntry>) -> Seq<Seq<char>>
    decreases s.len(),
{
    if s.len() == 0 {
        Seq::empty()
    } else if s.last().is_file {
        spec_selected_files(s.drop_last()).push(s.last().path@)
    } else {
        spec_selected_files(s.drop_last())
    }
}

/// Some entry is a regular file with this path.
pub open spec fn appears_as_file(s: Seq<FolderEntry>, p: Seq<char>) -> bool {
    exists|i: int| 0 <= i < s.len() && (#[trigger] s[i]).is_file && s[i].path@ == p
}

/// The selection is shallow and exact: every selected path belongs to an
/// entry that is a regular file, and every regular file's path is
/// selected. A subdirectory therefore never contributes anything.
pub proof fn lemma_selected_files_shallow(s: Seq<FolderEntry>)
    ensures
        spec_selected_files(s).len() <= s.len(),
        forall|k: int|
            0 <= k < spec_selected_files(s).len() ==> appears_as_file(
                s,
                #[trigger] spec_selected_files(s)[k],
            ),
        forall|i: int|
            0 <= i < s.len() && (#[trigger] s[i]).is_file ==> spec_selected_files(s).contains(
                s[i].path@,
            ),
    decreases s.len(),
{
    if s.len() > 0 {
        let prev = s.drop_last();
        lemma_selected_files_shallow(prev);
        let sel = spec_selected_files(s);
        let selprev = spec_selected_files(prev);
        assert forall|k: int| 0 <= k < sel.len() implies appears_as_file(s, sel[k]) by {
            if k < selprev.len() {
                assert(appears_as_file(prev, selprev[k]));
                let i = choose|i: int|
                    0 <= i < prev.len() && (#[trigger] prev[i]).is_file && prev[i].path@
                        == selprev[k];
                assert(s[i] == prev[i]);
                assert(sel[k] == selprev[k]);
                assert(0 <= i < s.len() && s[i].is_file && s[i].path@ == sel[k]);
            } else {
                let i = s.len() - 1;
                assert(0 <= i < s.len() && s[i].is_file && s[i].path@ == sel[k]);
            }
        }
        assert forall|i: int|
            0 <= i < s.len() && (#[trigger] s[i]).is_file implies sel.contains(s[i].path@) by {
            if i < s.len() - 1 {
                assert(prev[i] == s[i]);
                assert(selprev.contains(prev[i].path@));
                let k = choose|k: int| 0 <= k < selprev.len() && selprev[k] == prev[i].path@;
                assert(sel[k] == selprev[k]);
            } else {
                assert(sel[sel.len() - 1] == s[i].path@);
            }
        }
    }
}

/// Keeps the regular files of a shallow directory read, in order,
/// dropping every other kind of entry.
pub fn select_files(entries: &Vec<FolderEntry>) -> (r: Vec<String>)
    ensures
        r.deep_view() == spec_selected_files(entries@),
{
    let mut out: Vec<String> = Vec::new();
    let mut i: usize = 0;
    while i < entries.len()
        invariant
            i <= entries.len(),
            out.deep_view() == spec_selected_files(entries@.subrange(0, i as int)),
        decreases entries.len() - i,
    {
        let ghost before = entries@.subrange(0, i as int);
        let ghost after = entries@.subrange(0, i + 1);
        proof {
            assert(after.drop_last() =~= before);
            assert(after.last() == entries@[i as int]);
        }
        if entries[i].is_file {
            let p = entries[i].path.clone();
            out.push(p);
            proof {
                assert(out.deep_view() =~= spec_selected_files(after));
            }
        } else {
            proof {
                assert(out.deep_view() =~= spec_selected_files(after));
            }
        }
        i = i + 1;
    }
    proof {
        assert(entries@.subrange(0, entries@.len() as int) =~= entries@);
    }
    out
}

} // verus!
