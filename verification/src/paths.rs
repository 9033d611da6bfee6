//! Path separator normalization: every path is brought to a canonical form
//! with `/` as the sole separator before it is compared against any rule.

use vstd::prelude::*;

verus! {

/// The canonical form of one path character: backslashes become forward
/// slashes, every other character is kept as it is.
pub open spec fn norm_char(c: char) -> char {
    if c == '\\' {
        '/'
    } else {
        c
    }
}

/// The canonical form of a whole path: each character normalized, length and
/// case preserved.
pub open spec fn normalize_seq(s: Seq<char>) -> Seq<char> {
    s.map_values(|c: char| norm_char(c))
}

/// Normalization is idempotent: normalizing an already-normalized path yields
/// the same string.
pub proof fn lemma_normalize_idempotent(s: Seq<char>)
    ensures
        normalize_seq(normalize_seq(s)) == normalize_seq(s),
{
    assert(normalize_seq(normalize_seq(s)) =~= normalize_seq(s));
}

/// The path relative to the root: when the path starts with the root followed
/// by a separator, that prefix is removed; otherwise the path is unchanged.
pub open spec fn rel_path_spec(root: Seq<char>, path: Seq<char>) -> Seq<char> {
    if path.len() > root.len() && path.subrange(0, root.len() as int) == root && path[root.len() as int]
        == '/' {
        path.subrange(root.len() as int + 1, path.len() as int)
    } else {
        path
    }
}

/// Replaces every backslash with a forward slash, so that rule authors write
/// one rule syntax regardless of the host's path-separator convention.
pub fn to_unix_string(name: &str) -> (r: String)
    ensures
        r@ == normalize_seq(name@),
{
    let len = name.unicode_len();
    let mut out = String::new();
    let mut i: usize = 0;
    while i < len
        invariant
            len == name@.len(),
            i <= len,
            out@ == normalize_seq(name@.subrange(0, i as int)),
        decreases len - i,
    {
        let c = name.get_char(i);
        if c == '\\' {
            out.append("/");
            proof {
                reveal_strlit("/");
            }
        } else {
            out.append(name.substring_char(i, i + 1));
        }
        proof {
            assert(out@ =~= normalize_seq(name@.subrange(0, i + 1)));
        }
        i = i + 1;
    }
    proof {
        assert(name@.subrange(0, len as int) =~= name@);
    }
    out
}

/// Strips the `root + "/"` prefix from the path, character for character;
/// a path that does not carry that prefix is returned unchanged.
pub fn strip_root_prefix<'a>(root: &str, path: &'a str) -> (r: &'a str)
    ensures
        r@ == rel_path_spec(root@, path@),
{
    let root_len = root.unicode_len();
    let path_len = path.unicode_len();
    if path_len <= root_len {
        return path;
    }
    let mut j: usize = 0;
    while j < root_len
        invariant
            root_len == root@.len(),
            path_len == path@.len(),
            path_len > root_len,
            j <= root_len,
            forall|k: int| 0 <= k < j ==> path@[k] == root@[k],
        decreases root_len - j,
    {
        if path.get_char(j) != root.get_char(j) {
            proof {
                assert(path@.subrange(0, root@.len() as int)[j as int] != root@[j as int]);
            }
            return path;
        }
        j = j + 1;
    }
    if path.get_char(root_len) != '/' {
        return path;
    }
    proof {
        assert(path@.subrange(0, root@.len() as int) =~= root@);
    }
    path.substring_char(root_len + 1, path_len)
}

} // verus!
