use vstd::prelude::*;
use crate::paths::path_view;

verus! {

/// What a directory entry is, as read without following symlinks.
#[derive(Clone, Copy, Debug, PartialEq, Eq, Structural)]
pub enum EntryKind {
    File,
    Dir,
    Symlink,
}

/// What the copier does with one entry of the source tree.
#[derive(Clone, Copy, Debug, PartialEq, Eq, Structural)]
pub enum CopyDecision {
    /// Leave the entry (and, for a directory, everything below it) out.
    Skip,
    /// Create the directory at the destination and copy its contents into it.
    CreateAndDescend,
    /// Copy the file's bytes to the destination, replacing any file there.
    CopyFile,
}

/// The name of version-control metadata, which is never copied.
pub open spec fn vcs_name() -> Seq<char> {
    ".git"@
}

/// A path segment that marks symlinks into an optional dependency that the
/// build does not need.
pub open spec fn unneeded_marker() -> Seq<char> {
    "cloudflare-quiche"@
}

/// A symlink whose path passes through the unneeded-dependency marker.
pub open spec fn is_unneeded_symlink(path: Seq<Seq<char>>, kind: EntryKind) -> bool {
    kind == EntryKind::Symlink && path.contains(unneeded_marker())
}

/// The decision for the entry `name` of the source directory `dir`.
pub open spec fn decision_of(dir: Seq<Seq<char>>, name: Seq<char>, kind: EntryKind) -> CopyDecision {
    if name == vcs_name() {
        CopyDecision::Skip
    } else if kind == EntryKind::Dir {
        CopyDecision::CreateAndDescend
    } else if is_unneeded_symlink(dir.push(name), kind) {
        CopyDecision::Skip
    } else {
        CopyDecision::CopyFile
    }
}

/// Decides what to do with the entry `name`, of kind `kind`, found in the
/// source directory whose path components are `dir`.
pub fn decide_entry(dir: &Vec<String>, name: &String, kind: EntryKind) -> (r: CopyDecision)
    ensures
        r == decision_of(path_view(dir), name@, kind),
{
    let git = String::from_str(".git");
    if name.eq(&git) {
        return CopyDecision::Skip;
    }
    match kind {
        EntryKind::Dir => CopyDecision::CreateAndDescend,
        EntryKind::File => CopyDecision::CopyFile,
        EntryKind::Symlink => {
            let marker = String::from_str("cloudflare-quiche");
            let mut i: usize = 0;
            let mut found = name.eq(&marker);
            while i < dir.len() && !found
                invariant
                    i <= dir.len(),
                    marker@ == unneeded_marker(),
                    found == (name@ == unneeded_marker() || exists|j: int|
                        0 <= j < i && dir@[j]@ == unneeded_marker()),
                decreases dir.len() - i,
            {
                if dir[i].eq(&marker) {
                    assert(dir@[i as int]@ == unneeded_marker());
                    found = true;
                } else {
                    assert(dir@[i as int]@ != unneeded_marker());
                }
                i = i + 1;
            }
            proof {
                let p = path_view(dir).push(name@);
                if found {
                    if name@ == unneeded_marker() {
                        assert(p[p.len() - 1] == unneeded_marker());
                    } else {
                        let j = choose|j: int| 0 <= j < i && dir@[j]@ == unneeded_marker();
                        assert(p[j] == unneeded_marker());
                    }
                } else {
                    assert forall|j: int| 0 <= j < p.len() implies p[j] != unneeded_marker() by {
                        if j < dir@.len() {
                            assert(dir@[j]@ == p[j]);
                        }
                    }
                }
            }
            if found {
                CopyDecision::Skip
            } else {
                CopyDecision::CopyFile
            }
        },
    }
}

/// An entry of a source tree: its name, its kind and, for a directory, the
/// entries it holds in listing order (other entries hold none).
pub struct TreeEntry {
    pub name: Seq<char>,
    pub kind: EntryKind,
    pub children: Seq<TreeEntry>,
}

/// The entries that the copier writes into the destination directory when it
/// mirrors `entries`, the listing of the source directory `dir`: skipped
/// entries are left out, directories are filled with what is copied from
/// them, and every other entry becomes a regular file holding the bytes it
/// reads as (a symlink's, those of its target).
pub open spec fn copied(dir: Seq<Seq<char>>, entries: Seq<TreeEntry>) -> Seq<TreeEntry>
    decreases entries,
    via copied_decreases
{
    if entries.len() == 0 {
        Seq::empty()
    } else {
        let e = entries[0];
        let rest = copied(dir, entries.drop_first());
        match decision_of(dir, e.name, e.kind) {
            CopyDecision::Skip => rest,
            CopyDecision::CreateAndDescend => seq![
                TreeEntry { name: e.name, kind: e.kind, children: copied(dir.push(e.name), e.children) },
            ] + rest,
            CopyDecision::CopyFile => seq![
                TreeEntry { name: e.name, kind: EntryKind::File, children: Seq::empty() },
            ] + rest,
        }
    }
}

#[via_fn]
proof fn copied_decreases(dir: Seq<Seq<char>>, entries: Seq<TreeEntry>) {
    if entries.len() > 0 {
        assert(decreases_to!(entries => entries[0]));
        assert(decreases_to!(entries => entries.subrange(1, entries.len() as int)));
        assert(entries.drop_first() == entries.subrange(1, entries.len() as int));
    }
}

/// No entry of `entries`, at any depth, is named as version-control metadata.
pub open spec fn free_of_vcs(entries: Seq<TreeEntry>) -> bool
    decreases entries,
    via free_of_vcs_decreases
{
    if entries.len() == 0 {
        true
    } else {
        entries[0].name != vcs_name() && free_of_vcs(entries[0].children) && free_of_vcs(
            entries.drop_first(),
        )
    }
}

#[via_fn]
proof fn free_of_vcs_decreases(entries: Seq<TreeEntry>) {
    if entries.len() > 0 {
        assert(decreases_to!(entries => entries[0]));
        assert(decreases_to!(entries => entries.subrange(1, entries.len() as int)));
        assert(entries.drop_first() == entries.subrange(1, entries.len() as int));
    }
}

/// The listing `entries` of the source directory `dir` holds, at any depth,
/// neither version-control metadata nor a symlink into the unneeded
/// dependency.
pub open spec fn is_clean(dir: Seq<Seq<char>>, entries: Seq<TreeEntry>) -> bool
    decreases entries,
    via is_clean_decreases
{
    if entries.len() == 0 {
        true
    } else {
        let e = entries[0];
        &&& e.name != vcs_name()
        &&& !is_unneeded_symlink(dir.push(e.name), e.kind)
        &&& is_clean(dir.push(e.name), e.children)
        &&& is_clean(dir, entries.drop_first())
    }
}

#[via_fn]
proof fn is_clean_decreases(dir: Seq<Seq<char>>, entries: Seq<TreeEntry>) {
    if entries.len() > 0 {
        assert(decreases_to!(entries => entries[0]));
        assert(decreases_to!(entries => entries.subrange(1, entries.len() as int)));
        assert(entries.drop_first() == entries.subrange(1, entries.len() as int));
    }
}

/// Whatever the source tree, its copy holds no entry named as
/// version-control metadata, at any depth.
pub proof fn copy_has_no_vcs(dir: Seq<Seq<char>>, entries: Seq<TreeEntry>)
    ensures
        free_of_vcs(copied(dir, entries)),
    decreases entries,
{
    if entries.len() > 0 {
        let e = entries[0];
        let rest = entries.drop_first();
        assert(decreases_to!(entries => entries[0]));
        assert(decreases_to!(entries => entries.subrange(1, entries.len() as int)));
        assert(rest == entries.subrange(1, entries.len() as int));
        copy_has_no_vcs(dir, rest);
        copy_has_no_vcs(dir.push(e.name), e.children);
        let r = copied(dir, rest);
        match decision_of(dir, e.name, e.kind) {
            CopyDecision::Skip => {},
            CopyDecision::CreateAndDescend => {
                let x = TreeEntry {
                    name: e.name,
                    kind: e.kind,
                    children: copied(dir.push(e.name), e.children),
                };
                assert((seq![x] + r).drop_first() =~= r);
                assert((seq![x] + r)[0] == x);
                assert(copied(dir, entries) == seq![x] + r);
                assert(free_of_vcs(x.children));
                assert(free_of_vcs(seq![x] + r));
            },
            CopyDecision::CopyFile => {
                let x = TreeEntry { name: e.name, kind: EntryKind::File, children: Seq::empty() };
                assert((seq![x] + r).drop_first() =~= r);
                assert((seq![x] + r)[0] == x);
                assert(copied(dir, entries) == seq![x] + r);
                assert(free_of_vcs(x.children));
                assert(free_of_vcs(seq![x] + r));
            },
        }
    }
}

/// How a tree reads once mirrored entry by entry: directories stay
/// directories, in the same order, and every other entry (a symlink too)
/// becomes a regular file of the same name holding the bytes it reads as.
pub open spec fn copy_view(entries: Seq<TreeEntry>) -> Seq<TreeEntry>
    decreases entries,
    via copy_view_decreases
{
    if entries.len() == 0 {
        Seq::empty()
    } else {
        let e = entries[0];
        let x = if e.kind == EntryKind::Dir {
            TreeEntry { name: e.name, kind: e.kind, children: copy_view(e.children) }
        } else {
            TreeEntry { name: e.name, kind: EntryKind::File, children: Seq::empty() }
        };
        seq![x] + copy_view(entries.drop_first())
    }
}

#[via_fn]
proof fn copy_view_decreases(entries: Seq<TreeEntry>) {
    if entries.len() > 0 {
        assert(decreases_to!(entries => entries[0]));
        assert(decreases_to!(entries => entries.subrange(1, entries.len() as int)));
        assert(entries.drop_first() == entries.subrange(1, entries.len() as int));
    }
}

/// A source tree free of version-control metadata and of symlinks into the
/// unneeded dependency is copied entry for entry: the destination holds the
/// same names, in the same order, at every depth, each directory as a
/// directory and each other entry (a symlink too) as a regular file with its
/// bytes.
pub proof fn clean_tree_copied_exactly(dir: Seq<Seq<char>>, entries: Seq<TreeEntry>)
    requires
        is_clean(dir, entries),
    ensures
        copied(dir, entries) == copy_view(entries),
    decreases entries,
{
    if entries.len() > 0 {
        let e = entries[0];
        let rest = entries.drop_first();
        assert(decreases_to!(entries => entries[0]));
        assert(decreases_to!(entries => entries.subrange(1, entries.len() as int)));
        assert(rest == entries.subrange(1, entries.len() as int));
        clean_tree_copied_exactly(dir, rest);
        clean_tree_copied_exactly(dir.push(e.name), e.children);
    }
}

} // verus!
