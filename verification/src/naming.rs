//! The naming rule for the output file: insert `_unlocked` between the stem
//! and the final extension of the input path, keeping the directory.

use vstd::prelude::*;

verus! {

/// Index of the last occurrence of `c` in `s`, or `-1` when `c` does not occur.
pub open spec fn last_index_of(s: Seq<char>, c: char) -> int
    decreases s.len(),
{
    if s.len() == 0 {
        -1
    } else if s[s.len() - 1] == c {
        s.len() - 1
    } else {
        last_index_of(s.drop_last(), c)
    }
}

pub proof fn lemma_last_index_of_bounds(s: Seq<char>, c: char)
    ensures
        -1 <= last_index_of(s, c) < s.len(),
        last_index_of(s, c) >= 0 ==> s[last_index_of(s, c)] == c,
        forall|j: int| last_index_of(s, c) < j < s.len() ==> s[j] != c,
    decreases s.len(),
{
    if s.len() == 0 {
    } else if s[s.len() - 1] == c {
    } else {
        lemma_last_index_of_bounds(s.drop_last(), c);
        assert forall|j: int| last_index_of(s, c) < j < s.len() implies s[j] != c by {
            if j < s.len() - 1 {
                assert(s.drop_last()[j] == s[j]);
            }
        }
    }
}

/// `last_index_of` is pinned down by the defining property of a last occurrence.
pub proof fn lemma_last_index_of_is_last(s: Seq<char>, c: char, i: int)
    requires
        0 <= i < s.len(),
        s[i] == c,
        forall|j: int| i < j < s.len() ==> s[j] != c,
    ensures
        last_index_of(s, c) == i,
    decreases s.len(),
{
    if i == s.len() - 1 {
    } else {
        assert(s[s.len() - 1] != c);
        assert(s.drop_last()[i] == s[i]);
        assert forall|j: int| i < j < s.drop_last().len() implies s.drop_last()[j] != c by {
            assert(s.drop_last()[j] == s[j]);
        }
        lemma_last_index_of_is_last(s.drop_last(), c, i);
    }
}

pub proof fn lemma_last_index_of_absent(s: Seq<char>, c: char)
    requires
        forall|j: int| 0 <= j < s.len() ==> s[j] != c,
    ensures
        last_index_of(s, c) == -1,
    decreases s.len(),
{
    if s.len() > 0 {
        assert forall|j: int| 0 <= j < s.drop_last().len() implies s.drop_last()[j] != c by {
            assert(s.drop_last()[j] == s[j]);
        }
        lemma_last_index_of_absent(s.drop_last(), c);
    }
}

/// The suffix inserted before the extension of the output file's name.
pub open spec fn unlocked_suffix() -> Seq<char> {
    "_unlocked"@
}

/// Index of the first character of the file name: one past the last `/`,
/// or `0` when the path has no directory part.
pub open spec fn name_start(p: Seq<char>) -> int {
    last_index_of(p, '/') + 1
}

/// The directory part of the path, up to and including the last `/`.
pub open spec fn dir_part(p: Seq<char>) -> Seq<char> {
    p.subrange(0, name_start(p))
}

/// Index in `p` of the dot that separates the extension from the stem, or
/// `-1` when the file name has no extension. A dot that begins the file name
/// (a dotfile) does not start an extension.
pub open spec fn ext_dot(p: Seq<char>) -> int {
    if last_index_of(p, '.') > name_start(p) {
        last_index_of(p, '.')
    } else {
        -1
    }
}

/// The file name without its extension and without the separating dot.
pub open spec fn stem_part(p: Seq<char>) -> Seq<char> {
    if ext_dot(p) >= 0 {
        p.subrange(name_start(p), ext_dot(p))
    } else {
        p.subrange(name_start(p), p.len() as int)
    }
}

/// The extension after the last dot, empty when the name has none.
pub open spec fn ext_part(p: Seq<char>) -> Seq<char> {
    if ext_dot(p) >= 0 {
        p.subrange(ext_dot(p) + 1, p.len() as int)
    } else {
        Seq::<char>::empty()
    }
}

/// The output path for a given input path: `_unlocked` inserted before the
/// extension's dot; a name without an extension gets the suffix and a
/// trailing dot appended.
pub open spec fn output_path_spec(p: Seq<char>) -> Seq<char> {
    if ext_dot(p) >= 0 {
        p.subrange(0, ext_dot(p)) + unlocked_suffix() + p.subrange(ext_dot(p), p.len() as int)
    } else {
        p + unlocked_suffix() + seq!['.']
    }
}

/// None of the characters of the inserted suffix is a separator.
proof fn lemma_suffix_chars()
    ensures
        unlocked_suffix().len() == 9,
        forall|k: int|
            0 <= k < unlocked_suffix().len() ==> unlocked_suffix()[k] != '/' && unlocked_suffix()[k]
                != '.',
{
    reveal_strlit("_unlocked");
}

/// Law: the naming rule preserves the directory and the extension of the
/// input path, and appends exactly one `_unlocked` suffix to its stem.
pub proof fn lemma_output_path_parts(p: Seq<char>)
    ensures
        dir_part(output_path_spec(p)) == dir_part(p),
        ext_part(output_path_spec(p)) == ext_part(p),
        stem_part(output_path_spec(p)) == stem_part(p) + unlocked_suffix(),
{
    lemma_suffix_chars();
    lemma_last_index_of_bounds(p, '/');
    lemma_last_index_of_bounds(p, '.');
    let q = output_path_spec(p);
    let suf = unlocked_suffix();
    let n = p.len() as int;
    let ls = last_index_of(p, '/');
    let k = name_start(p);
    let d = ext_dot(p);
    if d >= 0 {
        assert(q =~= p.subrange(0, d) + suf + p.subrange(d, n));
        assert(q.len() == n + 9);
        assert(forall|j: int| 0 <= j < d ==> q[j] == p[j]);
        assert(forall|j: int| d <= j < d + 9 ==> q[j] == suf[j - d]);
        assert(forall|j: int| d + 9 <= j < n + 9 ==> q[j] == p[j - 9]);
        // The last slash is unmoved, so the directory part is unchanged.
        assert forall|j: int| ls < j < q.len() implies q[j] != '/' by {
            if j < d {
                assert(p[j] != '/');
            } else if j < d + 9 {
                assert(q[j] == suf[j - d]);
            } else {
                assert(q[j] == p[j - 9] && p[j - 9] != '/');
            }
        }
        if ls >= 0 {
            assert(q[ls] == p[ls]);
            lemma_last_index_of_is_last(q, '/', ls);
        } else {
            lemma_last_index_of_absent(q, '/');
        }
        assert(name_start(q) == k);
        assert(dir_part(q) =~= dir_part(p));
        // The extension's dot moves exactly nine places right.
        assert(q[d + 9] == p[d] && p[d] == '.');
        assert forall|j: int| d + 9 < j < q.len() implies q[j] != '.' by {
            assert(q[j] == p[j - 9] && p[j - 9] != '.');
        }
        lemma_last_index_of_is_last(q, '.', d + 9);
        assert(ext_dot(q) == d + 9);
        assert(ext_part(q) =~= ext_part(p));
        assert(stem_part(q) =~= stem_part(p) + suf);
    } else {
        assert(q =~= p + suf + seq!['.']);
        assert(q.len() == n + 10);
        assert(forall|j: int| 0 <= j < n ==> q[j] == p[j]);
        assert(forall|j: int| n <= j < n + 9 ==> q[j] == suf[j - n]);
        assert(q[n + 9] == '.');
        // The last slash is unmoved, so the directory part is unchanged.
        assert forall|j: int| ls < j < q.len() implies q[j] != '/' by {
            if j < n {
                assert(p[j] != '/');
            } else if j < n + 9 {
                assert(q[j] == suf[j - n]);
            }
        }
        if ls >= 0 {
            assert(q[ls] == p[ls]);
            lemma_last_index_of_is_last(q, '/', ls);
        } else {
            lemma_last_index_of_absent(q, '/');
        }
        assert(name_start(q) == k);
        assert(dir_part(q) =~= dir_part(p));
        // The appended dot is the last character, so it separates an empty
        // extension, matching the input's missing one.
        lemma_last_index_of_is_last(q, '.', n + 9);
        assert(ext_dot(q) == n + 9);
        assert(ext_part(q) =~= ext_part(p));
        assert(stem_part(q) =~= stem_part(p) + suf);
    }
}

/// Law: the output path reads as directory, stem, `_unlocked`, a dot, and
/// the extension, in that order.
pub proof fn lemma_output_path_decomposition(p: Seq<char>)
    ensures
        output_path_spec(p) == dir_part(p) + stem_part(p) + unlocked_suffix() + seq!['.']
            + ext_part(p),
{
    lemma_last_index_of_bounds(p, '/');
    lemma_last_index_of_bounds(p, '.');
    let n = p.len() as int;
    let d = ext_dot(p);
    if d >= 0 {
        assert(p[d] == '.');
        assert(p.subrange(0, d) =~= dir_part(p) + stem_part(p));
        assert(p.subrange(d, n) =~= seq!['.'] + ext_part(p));
        assert(output_path_spec(p) =~= dir_part(p) + stem_part(p) + unlocked_suffix() + seq!['.']
            + ext_part(p));
    } else {
        assert(p =~= dir_part(p) + stem_part(p));
        assert(output_path_spec(p) =~= dir_part(p) + stem_part(p) + unlocked_suffix() + seq!['.']
            + ext_part(p));
    }
}

/// Index of the last occurrence of `c` in `s`, if any.
fn find_last(s: &str, c: char) -> (r: Option<usize>)
    ensures
        r matches Some(i) ==> i == last_index_of(s@, c),
        r is None ==> last_index_of(s@, c) == -1,
{
    let n = s.unicode_len();
    let mut i = n;
    while i > 0
        invariant
            i <= n,
            n == s@.len(),
            forall|j: int| i <= j < n ==> s@[j] != c,
        decreases i,
    {
        i = i - 1;
        let ch = s.get_char(i);
        if ch == c {
            proof {
                lemma_last_index_of_is_last(s@, c, i as int);
            }
            return Some(i);
        }
    }
    proof {
        lemma_last_index_of_absent(s@, c);
    }
    None
}

/// Computes the output path for `input`: the directory and extension are
/// kept and `_unlocked` is inserted at the end of the stem.
pub fn output_path_naming(input: &str) -> (r: String)
    ensures
        r@ == output_path_spec(input@),
{
    proof {
        lemma_last_index_of_bounds(input@, '/');
        lemma_last_index_of_bounds(input@, '.');
    }
    let n = input.unicode_len();
    let start: usize = match find_last(input, '/') {
        Some(i) => i + 1,
        None => 0,
    };
    assert(start == name_start(input@));
    let dot: Option<usize> = match find_last(input, '.') {
        Some(d) => if d > start {
            Some(d)
        } else {
            None
        },
        None => None,
    };
    match dot {
        Some(d) => {
            assert(d == ext_dot(input@));
            let mut out = input.substring_char(0, d).to_owned();
            out.append("_unlocked");
            let tail = input.substring_char(d, n);
            out.append(tail);
            proof {
                assert(out@ =~= output_path_spec(input@));
            }
            out
        },
        None => {
            assert(ext_dot(input@) == -1);
            let mut out = input.to_owned();
            out.append("_unlocked.");
            proof {
                reveal_strlit("_unlocked");
                reveal_strlit("_unlocked.");
                assert("_unlocked."@ =~= unlocked_suffix() + seq!['.']);
                assert(out@ =~= output_path_spec(input@));
            }
            out
        },
    }
}

} // verus!
