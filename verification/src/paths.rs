use vstd::prelude::*;
use crate::chars::{ascii_lower, lower_seq, lower_char, push_char};

verus! {

/// Index of the last occurrence of `c` in `s`, or `-1` when `c` does not
/// occur at all.
pub open spec fn last_index_of(s: Seq<char>, c: char) -> int
    decreases s.len(),
{
    if s.len() == 0 {
        -1
    } else if s.last() == c {
        s.len() - 1
    } else {
        last_index_of(s.drop_last(), c)
    }
}

/// Finds the last occurrence of `c` in `s`, if any.
pub fn find_last(s: &str, c: char) -> (r: Option<usize>)
    ensures
        r matches Some(i) ==> i < s@.len() && i as int == last_index_of(s@, c),
        r is None <==> last_index_of(s@, c) == -1,
{
    let n = s.unicode_len();
    let mut i: usize = 0;
    let mut found: Option<usize> = None;
    while i < n
        invariant
            i <= n,
            n == s@.len(),
            match found {
                Some(k) => k < i && k as int == last_index_of(s@.subrange(0, i as int), c),
                None => last_index_of(s@.subrange(0, i as int), c) == -1,
            },
        decreases n - i,
    {
        let ch = s.get_char(i);
        proof {
            assert(s@.subrange(0, i + 1).drop_last() =~= s@.subrange(0, i as int));
            assert(s@.subrange(0, i + 1).last() == s@[i as int]);
        }
        if ch == c {
            found = Some(i);
        }
        i = i + 1;
    }
    proof {
        assert(s@.subrange(0, n as int) =~= s@);
    }
    found
}

/// The extension of a path: the part of the final component after its last
/// `.`, provided that dot is neither the component's first character nor
/// absent. Mirrors how standard path handling reads an extension, with `/` as
/// the component separator.
pub open spec fn spec_extension(p: Seq<char>) -> Option<Seq<char>> {
    let slash = last_index_of(p, '/');
    let dot = last_index_of(p, '.');
    if dot > slash + 1 {
        Some(p.subrange(dot + 1, p.len() as int))
    } else {
        None
    }
}

/// Everything up to and including the last `/` of a path; empty when the path
/// holds no `/` at all.
pub open spec fn spec_dir_prefix(p: Seq<char>) -> Seq<char> {
    p.subrange(0, last_index_of(p, '/') + 1)
}

/// The extension used for the renamed file: the path's own extension, or
/// `jpg` as the fallback when the path has none.
pub open spec fn spec_ext_or_default(p: Seq<char>) -> Seq<char> {
    match spec_extension(p) {
        Some(e) => e,
        None => seq!['j', 'p', 'g'],
    }
}

/// The renamed path: the same parent directory, the new stem, and the
/// lowercased original extension.
pub open spec fn spec_renamed(p: Seq<char>, stem: Seq<char>) -> Seq<char> {
    spec_dir_prefix(p) + stem + seq!['.'] + lower_seq(spec_ext_or_default(p))
}

/// The character index where the path's extension starts, when the path has
/// one.
pub fn extension_start(path: &str) -> (r: Option<usize>)
    ensures
        r matches Some(i) ==> 0 < i <= path@.len() && spec_extension(path@) == Some(
            path@.subrange(i as int, path@.len() as int),
        ),
        r is None <==> spec_extension(path@) is None,
{
    let n = path.unicode_len();
    let slash = find_last(path, '/');
    let dot = find_last(path, '.');
    match (dot, slash) {
        (Some(d), Some(s)) => if d > s + 1 {
            Some(d + 1)
        } else {
            None
        },
        (Some(d), None) => if d > 0 {
            Some(d + 1)
        } else {
            None
        },
        _ => None,
    }
}

/// Builds the renamed path for `path` with the new stem `stem`: the parent
/// directory is kept, and the original extension (or `jpg` when there is
/// none) is appended in ASCII lowercase.
pub fn renamed_path(path: &str, stem: &str) -> (r: String)
    ensures
        r@ == spec_renamed(path@, stem@),
{
    let n = path.unicode_len();
    let slash = find_last(path, '/');
    let pre_end: usize = match slash {
        Some(i) => i + 1,
        None => 0,
    };
    let mut out = path.substring_char(0, pre_end).to_owned();
    out.append(stem);
    push_char(&mut out, '.');
    match extension_start(path) {
        Some(start) => {
            let ghost base = out@;
            let mut i: usize = start;
            while i < n
                invariant
                    start <= i <= n,
                    n == path@.len(),
                    out@ == base + lower_seq(path@.subrange(start as int, i as int)),
                decreases n - i,
            {
                let c = path.get_char(i);
                push_char(&mut out, lower_char(c));
                proof {
                    assert(path@.subrange(start as int, i + 1).drop_last() =~= path@.subrange(
                        start as int,
                        i as int,
                    ));
                    assert(lower_seq(path@.subrange(start as int, i + 1)) =~= lower_seq(
                        path@.subrange(start as int, i as int),
                    ).push(ascii_lower(path@[i as int])));
                }
                i = i + 1;
            }
            proof {
                assert(spec_extension(path@) == Some(path@.subrange(start as int, n as int)));
                assert(out@ =~= spec_renamed(path@, stem@));
            }
        },
        None => {
            proof {
                reveal_strlit("jpg");
                assert("jpg"@ =~= seq!['j', 'p', 'g']);
            }
            out.append("jpg");
            proof {
                assert(lower_seq(seq!['j', 'p', 'g']) =~= seq!['j', 'p', 'g']);
                assert(out@ =~= spec_renamed(path@, stem@));
            }
        },
    }
    out
}

} // verus!
