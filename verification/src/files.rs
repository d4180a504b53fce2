//! Sandboxed file operations: where a requested path points, and whether
//! a resolved path stays inside the sandbox root.
//!
//! Paths follow a `PathStyle`. Resolving symbolic links and `..` components
//! (canonicalizing) is done by the caller on the file system; the checks
//! here work on the canonical paths it hands back.

use vstd::prelude::*;
use crate::config::{
    has_drive, is_drive_letter_char, is_separator, is_separator_char, join_path, path_join, PathStyle,
};
use crate::text::{chars_le, chars_of, concat2, lemma_chars_le_total, lemma_chars_le_transitive, starts_with_chars, str_le};

verus! {

/// Whether a Windows request names a place of its own, whatever the sandbox
/// root: a path with a drive (`D:x`) or a network path (led by two
/// separators). No unix request does.
pub open spec fn replaces_root(style: PathStyle, requested: Seq<char>) -> bool {
    ||| has_drive(style, requested)
    ||| (style == PathStyle::Windows && requested.len() >= 2 && is_separator(style, requested[0])
        && is_separator(style, requested[1]))
}

/// Where a requested path points. A request that names its own drive or
/// network path, or a rooted request (led by a separator) under a root
/// without a drive, is taken as it is; a rooted request under a root with
/// a drive goes on that drive (`\x` under `C:\sb` is `C:\x`); any other
/// request is placed under the sandbox root.
pub open spec fn requested_location(style: PathStyle, requested: Seq<char>, sandbox_root: Seq<
    char,
>) -> Seq<char> {
    if replaces_root(style, requested) {
        requested
    } else if requested.len() > 0 && is_separator(style, requested[0]) {
        if has_drive(style, sandbox_root) {
            sandbox_root.subrange(0, 2) + requested
        } else {
            requested
        }
    } else {
        path_join(style, sandbox_root, requested)
    }
}

/// Whether the normalized path `path` is `root` or lies below it, comparing
/// whole path components (`/a/bc` is not below `/a/b`).
pub open spec fn path_within(style: PathStyle, path: Seq<char>, root: Seq<char>) -> bool {
    &&& root.is_prefix_of(path)
    &&& (root.len() == 0 || path.len() == root.len() || is_separator(style, root.last())
        || is_separator(style, path[root.len() as int]))
}

/// Why a file operation was refused.
#[derive(Debug)]
pub enum FileError {
    /// The path resolves outside the sandbox.
    PathTraversal { path: String, sandbox: String },
}

/// Where a requested path points before it is canonicalized.
pub fn requested_path(style: PathStyle, requested: &str, sandbox_root: &str) -> (r: String)
    ensures
        r@ == requested_location(style, requested@, sandbox_root@),
{
    let rc = chars_of(requested);
    let windows = style == PathStyle::Windows;
    let own_drive = windows && rc.len() >= 2 && is_drive_letter_char(rc[0]) && rc[1] == ':';
    let network = windows && rc.len() >= 2 && is_separator_char(style, rc[0])
        && is_separator_char(style, rc[1]);
    if own_drive || network {
        String::from_str(requested)
    } else if rc.len() > 0 && is_separator_char(style, rc[0]) {
        let bc = chars_of(sandbox_root);
        if windows && bc.len() >= 2 && is_drive_letter_char(bc[0]) && bc[1] == ':' {
            let drive = sandbox_root.substring_char(0, 2);
            String::from_str(drive).concat(requested)
        } else {
            String::from_str(requested)
        }
    } else {
        join_path(style, sandbox_root, requested)
    }
}

/// Whether the normalized path `path` is `root` or lies below it.
pub fn is_within(style: PathStyle, path: &str, root: &str) -> (r: bool)
    ensures
        r == path_within(style, path@, root@),
{
    let p = chars_of(path);
    let q = chars_of(root);
    if !starts_with_chars(&p, &q) {
        return false;
    }
    q.len() == 0 || p.len() == q.len() || is_separator_char(style, q[q.len() - 1])
        || is_separator_char(style, p[q.len()])
}

/// The last check of sandbox resolution: the canonical path is accepted
/// only where it lies within the canonical sandbox root; otherwise a path
/// traversal is reported with both paths.
pub fn check_within_sandbox(style: PathStyle, check_path: String, canon_root: &str) -> (r: Result<
    String,
    FileError,
>)
    ensures
        path_within(style, check_path@, canon_root@) ==> r == Ok::<String, FileError>(check_path),
        !path_within(style, check_path@, canon_root@) ==> (r matches Err(FileError::PathTraversal { path, sandbox })
            && path == check_path && sandbox@ == canon_root@),
{
    if is_within(style, check_path.as_str(), canon_root) {
        Ok(check_path)
    } else {
        Err(FileError::PathTraversal { path: check_path, sandbox: String::from_str(canon_root) })
    }
}

/// The name under which a directory entry is listed: directories get a trailing `/`.
pub fn entry_label(name: &str, is_dir: bool) -> (r: String)
    ensures
        r@ == if is_dir {
            name@ + "/"@
        } else {
            name@
        },
{
    if is_dir {
        concat2(name, "/")
    } else {
        String::from_str(name)
    }
}

/// Whatever sandbox resolution accepts lies within the sandbox root.
pub proof fn law_accepted_paths_stay_inside(
    style: PathStyle,
    check_path: Seq<char>,
    canon_root: Seq<char>,
)
    requires
        path_within(style, check_path, canon_root),
    ensures
        canon_root.is_prefix_of(check_path),
{
}

/// The sandbox root itself is within the sandbox.
pub proof fn law_root_is_within(style: PathStyle, root: Seq<char>)
    ensures
        path_within(style, root, root),
{
    assert(root.subrange(0, root.len() as int) =~= root);
}

/// Lying within is transitive: a path within a directory that is within
/// the sandbox is within the sandbox.
pub proof fn law_within_transitive(style: PathStyle, a: Seq<char>, b: Seq<char>, c: Seq<char>)
    requires
        path_within(style, a, b),
        path_within(style, b, c),
    ensures
        path_within(style, a, c),
{
    assert(c =~= a.subrange(0, c.len() as int)) by {
        assert forall|i: int| 0 <= i < c.len() implies c[i] == a[i] by {
            assert(c[i] == b.subrange(0, c.len() as int)[i]);
            assert(b[i] == a.subrange(0, b.len() as int)[i]);
        }
    }
    if c.len() > 0 && a.len() != c.len() && !is_separator(style, c.last()) {
        if b.len() == c.len() {
            assert(is_separator(style, a[c.len() as int]));
        } else {
            assert(is_separator(style, b[c.len() as int]));
            assert(b[c.len() as int] == a.subrange(0, b.len() as int)[c.len() as int]);
        }
    }
}

} // verus!

verus! {

/// Whether a list of names is in ascending order.
pub open spec fn names_sorted(v: Seq<String>) -> bool {
    forall|i: int, j: int| 0 <= i < j < v.len() ==> chars_le(#[trigger] v[i]@, #[trigger] v[j]@)
}

/// The names of a listing in ascending order (by code point, as Rust
/// orders strings), each kept as many times as it occurs.
pub fn sort_names(names: Vec<String>) -> (r: Vec<String>)
    ensures
        names_sorted(r@),
        r@.to_multiset() == names@.to_multiset(),
{
    broadcast use vstd::seq_lib::group_to_multiset_ensures;

    let mut r: Vec<String> = Vec::new();
    let mut k: usize = 0;
    while k < names.len()
        invariant
            k <= names.len(),
            names_sorted(r@),
            r@.to_multiset() == names@.subrange(0, k as int).to_multiset(),
        decreases names.len() - k,
    {
        let x = names[k].clone();
        let mut j: usize = 0;
        while j < r.len() && str_le(r[j].as_str(), x.as_str())
            invariant
                j <= r.len(),
                x == names@[k as int],
                forall|i: int| 0 <= i < j ==> chars_le(#[trigger] r@[i]@, x@),
            decreases r.len() - j,
        {
            j = j + 1;
        }
        proof {
            if j < r.len() {
                lemma_chars_le_total(r@[j as int]@, x@, 0);
            }
        }
        let ghost old_r = r@;
        r.insert(j, x);
        proof {
            assert forall|a: int, b: int| 0 <= a < b < r@.len() implies chars_le(
                #[trigger] r@[a]@,
                #[trigger] r@[b]@,
            ) by {
                if b < j {
                    assert(r@[a] == old_r[a] && r@[b] == old_r[b]);
                } else if b == j {
                    assert(r@[a] == old_r[a]);
                } else if a == j {
                    assert(r@[b] == old_r[b - 1]);
                    if b - 1 > j {
                        lemma_chars_le_transitive(x@, old_r[j as int]@, old_r[b - 1]@, 0);
                    }
                } else if a < j {
                    assert(r@[a] == old_r[a] && r@[b] == old_r[b - 1]);
                } else {
                    assert(r@[a] == old_r[a - 1] && r@[b] == old_r[b - 1]);
                }
            }
            vstd::seq_lib::to_multiset_insert(old_r, j as int, names@[k as int]);
            assert(names@.subrange(0, k + 1) =~= names@.subrange(0, k as int).push(names@[k as int]));
            vstd::seq_lib::to_multiset_build(names@.subrange(0, k as int), names@[k as int]);
        }
        k = k + 1;
    }
    assert(names@.subrange(0, names@.len() as int) =~= names@);
    r
}

} // verus!

verus! {

/// Containment compares whole components: below a root that does not end
/// with a separator, a longer path lies within it only where the root is
/// followed by a separator (`/a/bc` is not within `/a/b`, `/a/b/c` is).
pub proof fn law_within_component_boundary(style: PathStyle, path: Seq<char>, root: Seq<char>)
    requires
        root.len() > 0,
        root.is_prefix_of(path),
        path.len() > root.len(),
        !is_separator(style, root.last()),
    ensures
        path_within(style, path, root) <==> is_separator(style, path[root.len() as int]),
{
}

/// A request that is not anchored (no leading separator, no drive) lands
/// below the sandbox root, whatever its components.
pub proof fn law_relative_request_lands_inside(style: PathStyle, requested: Seq<char>, root: Seq<
    char,
>)
    requires
        requested.len() > 0,
        !is_separator(style, requested[0]),
        !has_drive(style, requested),
        root.len() > 0,
        !(style == PathStyle::Windows && root.len() == 2 && root[1] == ':'),
    ensures
        path_within(style, requested_location(style, requested, root), root),
        requested_location(style, requested, root).len() > root.len(),
{
    let p = requested_location(style, requested, root);
    assert(root =~= p.subrange(0, root.len() as int));
}

/// Sorting orders names by the full lexicographic order: the first
/// differing character decides, and a name comes after its prefixes.
pub proof fn law_sorted_by_first_difference(v: Seq<String>, i: int, j: int, k: int)
    requires
        names_sorted(v),
        0 <= i < j < v.len(),
        0 <= k < v[i]@.len(),
        k < v[j]@.len(),
        v[i]@.subrange(0, k) == v[j]@.subrange(0, k),
        v[i]@[k] != v[j]@[k],
    ensures
        v[i]@[k] < v[j]@[k],
{
    let a = v[i]@;
    let b = v[j]@;
    assert(chars_le(a, b));
    crate::text::law_chars_le_is_lexicographic(a, b);
    if !(a[k] < b[k]) {
        if a.is_prefix_of(b) {
            assert(b.subrange(0, a.len() as int)[k] == b[k]);
            assert(false);
        }
        let m: int = choose|m: int|
            #![trigger a[m], b[m]]
            0 <= m < a.len() && m < b.len() && a.subrange(0, m) == b.subrange(0, m) && a[m] < b[m];
        if m < k {
            assert(a.subrange(0, k)[m] == b.subrange(0, k)[m]);
            assert(false);
        } else if m > k {
            assert(a.subrange(0, m)[k] == b.subrange(0, m)[k]);
            assert(false);
        }
    }
}

} // verus!
