use vstd::prelude::*;
use crate::names::{ends_with, is_install, is_install_of, join_path, path_in, same_text, has_suffix, otp_suffix_of};

verus! {

/// One immediate entry of the install root, as the host saw it.
pub struct InstallEntry {
    /// The entry's file name, `None` where it is not valid text.
    pub name: Option<String>,
    /// The entry's path, as handed to the file system; it ends with the name.
    pub path: String,
    /// The entry is a directory.
    pub is_dir: bool,
    /// The entry holds a regular file under the executable name looked for.
    pub has_binary: bool,
}

/// The entry is a usable install of server `id` for runtime tag `tag`.
pub open spec fn holds_install(e: InstallEntry, id: Seq<char>, tag: Seq<char>) -> bool {
    &&& e.is_dir
    &&& e.has_binary
    &&& e.name is Some
    &&& has_suffix(e.path@, e.name->0@)
    &&& is_install_of(e.name->0@, id, tag)
}

/// Pruning removes an entry of this name: one whose name is not text, or an
/// install of `id` for `tag` other than the directory `keep`.
pub open spec fn must_remove(name: Option<String>, id: Seq<char>, tag: Seq<char>, keep: Seq<char>) -> bool {
    match name {
        None => true,
        Some(n) => is_install_of(n@, id, tag) && n@ != keep,
    }
}

/// The path of the executable in the first entry that holds an install of `id`
/// for `tag`; `None` where no entry does.
pub fn find_existing_binary(entries: &Vec<InstallEntry>, id: &str, tag: &str, binary_name: &str) -> (r:
    Option<String>)
    ensures
        r is None <==> forall|i: int| 0 <= i < entries@.len() ==> !holds_install(#[trigger] entries@[i], id@, tag@),
        r is Some ==> exists|k: int|
            0 <= k < entries@.len() && holds_install(entries@[k], id@, tag@) && (forall|j: int|
                0 <= j < k ==> !holds_install(#[trigger] entries@[j], id@, tag@)) && r->0@ == path_in(
                entries@[k].path@,
                binary_name@,
            ),
{
    let mut i: usize = 0;
    while i < entries.len()
        invariant
            i <= entries@.len(),
            forall|j: int| 0 <= j < i ==> !holds_install(#[trigger] entries@[j], id@, tag@),
        decreases entries@.len() - i,
    {
        let e = &entries[i];
        if e.is_dir && e.has_binary {
            match &e.name {
                Some(n) => {
                    if ends_with(e.path.as_str(), n.as_str()) && is_install(n.as_str(), id, tag) {
                        return Some(join_path(e.path.as_str(), binary_name));
                    }
                },
                None => {},
            }
        }
        i = i + 1;
    }
    None
}

/// The paths that pruning removes, in the order of the entries.
pub open spec fn removal_paths(entries: Seq<InstallEntry>, id: Seq<char>, tag: Seq<char>, keep: Seq<char>) -> Seq<Seq<char>>
    decreases entries.len(),
{
    if entries.len() == 0 {
        seq![]
    } else {
        let rest = removal_paths(entries.drop_last(), id, tag, keep);
        if must_remove(entries.last().name, id, tag, keep) {
            rest.push(entries.last().path@)
        } else {
            rest
        }
    }
}

/// The views of a sequence of strings.
pub open spec fn texts(v: Seq<String>) -> Seq<Seq<char>> {
    v.map_values(|s: String| s@)
}

/// The paths of the entries to remove after an install into the directory `keep`.
pub fn outdated_paths(entries: &Vec<InstallEntry>, id: &str, tag: &str, keep: &str) -> (r: Vec<String>)
    ensures
        texts(r@) == removal_paths(entries@, id@, tag@, keep@),
{
    let mut r: Vec<String> = Vec::new();
    let mut i: usize = 0;
    while i < entries.len()
        invariant
            i <= entries@.len(),
            texts(r@) == removal_paths(entries@.subrange(0, i as int), id@, tag@, keep@),
        decreases entries@.len() - i,
    {
        let remove = match &entries[i].name {
            None => true,
            Some(n) => is_install(n.as_str(), id, tag) && !same_text(n.as_str(), keep),
        };
        if remove {
            r.push(entries[i].path.clone());
        }
        assert(entries@.subrange(0, i + 1).drop_last() =~= entries@.subrange(0, i as int));
        assert(texts(r@) =~= removal_paths(entries@.subrange(0, i + 1), id@, tag@, keep@));
        i = i + 1;
    }
    assert(entries@.subrange(0, entries@.len() as int) =~= entries@);
    r
}

/// Pruning removes exactly the entries that `must_remove` names: every install
/// of `id` for `tag` other than `keep`, and every entry whose name is not text.
/// An install for another tag, whose name does not end in `otp-{tag}`, stays.
pub proof fn lemma_prune_removes_exactly(entries: Seq<InstallEntry>, id: Seq<char>, tag: Seq<char>, keep: Seq<char>)
    requires
        forall|i: int, j: int| 0 <= i < j < entries.len() ==> entries[i].path@ != entries[j].path@,
    ensures
        forall|i: int| 0 <= i < entries.len() ==> (removal_paths(entries, id, tag, keep).contains(#[trigger] entries[i].path@)
            <==> must_remove(entries[i].name, id, tag, keep)),
        forall|i: int| 0 <= i < entries.len() && #[trigger] entries[i].name is Some
            && !has_suffix(entries[i].name->0@, otp_suffix_of(tag)) ==> !removal_paths(entries, id, tag, keep).contains(entries[i].path@),
        forall|i: int| 0 <= i < entries.len() && #[trigger] entries[i].name is Some && entries[i].name->0@ == keep
            ==> !removal_paths(entries, id, tag, keep).contains(entries[i].path@),
    decreases entries.len(),
{
    if entries.len() > 0 {
        let init = entries.drop_last();
        lemma_prune_removes_exactly(init, id, tag, keep);
        lemma_removal_paths_from(init, id, tag, keep);
        assert forall|i: int| 0 <= i < entries.len() implies (removal_paths(entries, id, tag, keep).contains(#[trigger] entries[i].path@)
            <==> must_remove(entries[i].name, id, tag, keep)) by {
            let rest = removal_paths(init, id, tag, keep);
            let last = entries.last();
            let p = entries[i].path@;
            if must_remove(last.name, id, tag, keep) {
                assert(removal_paths(entries, id, tag, keep) == rest.push(last.path@));
                assert(rest.push(last.path@)[rest.len() as int] == last.path@);
                let pushed = rest.push(last.path@);
                if pushed.contains(p) && p != last.path@ {
                    let k = choose|k: int| 0 <= k < pushed.len() && pushed[k] == p;
                    assert(rest[k] == p);
                }
                if rest.contains(p) {
                    let k = choose|k: int| 0 <= k < rest.len() && rest[k] == p;
                    assert(pushed[k] == p);
                }
            } else {
                assert(removal_paths(entries, id, tag, keep) == rest);
            }
            if i < entries.len() - 1 {
                assert(init[i] == entries[i]);
            } else {
                if rest.contains(p) {
                    let j = choose|j: int| 0 <= j < init.len() && init[j].path@ == p;
                    assert(init[j] == entries[j]);
                }
            }
        }
    }
}

/// Every path that pruning removes is the path of an entry.
proof fn lemma_removal_paths_from(entries: Seq<InstallEntry>, id: Seq<char>, tag: Seq<char>, keep: Seq<char>)
    ensures
        forall|p: Seq<char>| #[trigger] removal_paths(entries, id, tag, keep).contains(p) ==> exists|i: int|
            0 <= i < entries.len() && entries[i].path@ == p,
    decreases entries.len(),
{
    if entries.len() > 0 {
        let init = entries.drop_last();
        lemma_removal_paths_from(init, id, tag, keep);
        assert forall|p: Seq<char>| #[trigger] removal_paths(entries, id, tag, keep).contains(p) implies exists|i: int|
            0 <= i < entries.len() && entries[i].path@ == p by {
            if removal_paths(init, id, tag, keep).contains(p) {
                let i = choose|i: int| 0 <= i < init.len() && init[i].path@ == p;
                assert(entries[i] == init[i]);
            } else {
                assert(entries[entries.len() - 1].path@ == p);
            }
        }
    }
}

} // verus!
