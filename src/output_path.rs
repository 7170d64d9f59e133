//! Where the shared-library artifact of a source file is written.
//!
//! The artifact keeps the base name of the source file, swaps its extension
//! for `munlib`, and lands either in the working directory or in an output
//! directory chosen by the caller. Paths use `/` as their separator.

use vstd::prelude::*;

verus! {

/// One past the last character of `s[..n]` once trailing separators are cut.
pub open spec fn name_end(s: Seq<char>, n: nat) -> nat
    decreases n,
{
    if 0 < n <= s.len() && s[n - 1] == '/' {
        name_end(s, (n - 1) as nat)
    } else {
        n
    }
}

/// Start of the separator-free run that ends at `n`.
pub open spec fn name_start(s: Seq<char>, n: nat) -> nat
    decreases n,
{
    if 0 < n <= s.len() && s[n - 1] != '/' {
        name_start(s, (n - 1) as nat)
    } else {
        n
    }
}

/// The last component of a relative path.
pub open spec fn file_name(s: Seq<char>) -> Seq<char> {
    let e = name_end(s, s.len());
    s.subrange(name_start(s, e) as int, e as int)
}

/// A path names a file when its last component is neither empty, `.` nor `..`.
pub open spec fn has_file_name(s: Seq<char>) -> bool {
    let f = file_name(s);
    f.len() > 0 && f != seq!['.'] && f != seq!['.', '.']
}

/// End of the stem of a file name, looking for the last dot in `name[..n]`.
/// A name whose only dot is its first character has no extension.
pub open spec fn stem_end(name: Seq<char>, n: nat) -> nat
    decreases n,
{
    if n == 0 || n > name.len() {
        name.len()
    } else if name[n - 1] == '.' {
        if n == 1 {
            name.len()
        } else {
            (n - 1) as nat
        }
    } else {
        stem_end(name, (n - 1) as nat)
    }
}

/// A file name without its extension.
pub open spec fn file_stem(name: Seq<char>) -> Seq<char> {
    name.subrange(0, stem_end(name, name.len()) as int)
}

/// The artifact extension, `munlib`, with its dot.
pub open spec fn artifact_suffix() -> Seq<char> {
    seq!['.', 'm', 'u', 'n', 'l', 'i', 'b']
}

/// The artifact's file name for a source path.
pub open spec fn artifact_file_name(rel: Seq<char>) -> Seq<char> {
    file_stem(file_name(rel)) + artifact_suffix()
}

/// `name` resolved inside directory `dir`.
pub open spec fn join_path(dir: Seq<char>, name: Seq<char>) -> Seq<char> {
    if dir.len() == 0 || dir[dir.len() - 1] == '/' {
        dir + name
    } else {
        dir + seq!['/'] + name
    }
}

/// The artifact path for a source path and an optional output directory.
pub open spec fn artifact_path(rel: Seq<char>, out_dir: Option<Seq<char>>) -> Seq<char> {
    match out_dir {
        Some(dir) => join_path(dir, artifact_file_name(rel)),
        None => artifact_file_name(rel),
    }
}

/// The characters of an optional directory.
pub open spec fn dir_view(out_dir: Option<&str>) -> Option<Seq<char>> {
    match out_dir {
        Some(d) => Some(d@),
        None => None,
    }
}

proof fn lemma_stem_end_bounds(name: Seq<char>, n: nat)
    requires
        n <= name.len(),
    ensures
        stem_end(name, n) <= name.len(),
    decreases n,
{
    if n > 0 && name[n - 1] != '.' {
        lemma_stem_end_bounds(name, (n - 1) as nat);
    }
}

/// Position where the file name of `rel` starts and ends, if it has one.
fn file_name_range(rel: &str) -> (r: Option<(usize, usize)>)
    ensures
        match r {
            Some((b, e)) => b < e <= rel@.len() && has_file_name(rel@) && b == name_start(rel@, name_end(rel@, rel@.len()))
                && e == name_end(rel@, rel@.len()),
            None => !has_file_name(rel@),
        },
{
    let len = rel.unicode_len();
    let mut e: usize = len;
    while e > 0 && rel.get_char(e - 1) == '/'
        invariant
            e <= len == rel@.len(),
            name_end(rel@, e as nat) == name_end(rel@, len as nat),
        decreases e,
    {
        e = e - 1;
    }
    let mut b: usize = e;
    while b > 0 && rel.get_char(b - 1) != '/'
        invariant
            b <= e <= len == rel@.len(),
            name_start(rel@, b as nat) == name_start(rel@, e as nat),
        decreases b,
    {
        b = b - 1;
    }
    let ghost f = rel@.subrange(b as int, e as int);
    if e == b {
        assert(f.len() == 0);
        return None;
    }
    if e - b == 1 && rel.get_char(b) == '.' {
        assert(f =~= seq!['.']);
        return None;
    }
    if e - b == 2 && rel.get_char(b) == '.' && rel.get_char(b + 1) == '.' {
        assert(f =~= seq!['.', '.']);
        return None;
    }
    assert(f != seq!['.']) by {
        if f == seq!['.'] {
            assert(f.len() == 1);
            assert(f[0] == rel@[b as int]);
        }
    }
    assert(f != seq!['.', '.']) by {
        if f == seq!['.', '.'] {
            assert(f.len() == 2);
            assert(f[0] == rel@[b as int]);
            assert(f[1] == rel@[b + 1]);
        }
    }
    Some((b, e))
}

/// Computes the path of the artifact built from the source file at `rel`.
///
/// The artifact keeps the file's base name with the extension replaced by
/// `munlib`. With an output directory the name is placed inside
/// it, whatever directories `rel` itself names. A path without a file name
/// (empty, or ending in `.` or `..`) has no artifact.
pub fn assembly_output_path(rel: &str, out_dir: Option<&str>) -> (r: Option<String>)
    ensures
        r.is_some() <==> has_file_name(rel@),
        r.is_some() ==> r.unwrap()@ == artifact_path(rel@, dir_view(out_dir)),
{
    let range = file_name_range(rel);
    match range {
        None => None,
        Some((b, e)) => {
            let name = rel.substring_char(b, e);
            let ghost nm = name@;
            assert(nm =~= file_name(rel@));
            // cut the name at its last dot, unless that dot is its first character
            let n = e - b;
            let mut k: usize = n;
            let mut stem: usize = n;
            let mut found = false;
            while k > 0 && !found
                invariant
                    k <= n == nm.len(),
                    nm == name@,
                    !found ==> stem == n && stem_end(nm, k as nat) == stem_end(nm, n as nat),
                    found ==> stem == stem_end(nm, n as nat),
                decreases k,
            {
                if name.get_char(k - 1) == '.' {
                    if k > 1 {
                        stem = k - 1;
                    }
                    found = true;
                    k = 0;
                } else {
                    k = k - 1;
                }
            }
            proof {
                lemma_stem_end_bounds(nm, n as nat);
            }
            let stem_str = name.substring_char(0, stem);
            let mut file = String::from_str(stem_str);
            let suffix = ".munlib";
            proof {
                reveal_strlit(".munlib");
            }
            assert(suffix@ =~= artifact_suffix());
            file.append(suffix);
            assert(file@ =~= artifact_file_name(rel@));
            match out_dir {
                None => Some(file),
                Some(dir) => {
                    let mut path = String::from_str(dir);
                    let dlen = dir.unicode_len();
                    if dlen > 0 && dir.get_char(dlen - 1) != '/' {
                        let sep = "/";
                        proof {
                            reveal_strlit("/");
                        }
                        path.append(sep);
                    }
                    path.append(file.as_str());
                    assert(path@ =~= join_path(dir@, artifact_file_name(rel@)));
                    Some(path)
                },
            }
        },
    }
}

proof fn lemma_name_start_run(s: Seq<char>, start: nat, n: nat)
    requires
        start <= n <= s.len(),
        start == 0 || s[start - 1] == '/',
        forall|i: int| start <= i < n ==> s[i] != '/',
    ensures
        name_start(s, n) == start,
    decreases n,
{
    if n > start {
        lemma_name_start_run(s, start, (n - 1) as nat);
    }
}

/// A name without separators, after a directory part that is empty or ends
/// with a separator, is the file name of the whole path.
pub proof fn lemma_file_name_after_dir(dir: Seq<char>, name: Seq<char>)
    requires
        dir.len() == 0 || dir[dir.len() - 1] == '/',
        name.len() > 0,
        forall|i: int| 0 <= i < name.len() ==> name[i] != '/',
    ensures
        file_name(dir + name) == name,
{
    let s = dir + name;
    assert(s[s.len() - 1] == name[name.len() - 1]);
    assert(name_end(s, s.len()) == s.len());
    assert forall|i: int| dir.len() <= i < s.len() implies s[i] != '/' by {
        assert(s[i] == name[i - dir.len()]);
    }
    if dir.len() > 0 {
        assert(s[dir.len() - 1] == dir[dir.len() - 1]);
    }
    lemma_name_start_run(s, dir.len(), s.len());
    assert(s.subrange(dir.len() as int, s.len() as int) =~= name);
}

/// The artifact path depends on the file's name alone, not on the
/// directories before it: `foo/bar.src` and `baz/bar.src` give the same path,
/// with or without an output directory.
pub proof fn lemma_artifact_path_ignores_directory(
    dir1: Seq<char>,
    dir2: Seq<char>,
    name: Seq<char>,
    out_dir: Option<Seq<char>>,
)
    requires
        name.len() > 0,
        forall|i: int| 0 <= i < name.len() ==> name[i] != '/',
    ensures
        artifact_path(dir1 + seq!['/'] + name, out_dir) == artifact_path(dir2 + seq!['/'] + name, out_dir),
        artifact_path(dir1 + seq!['/'] + name, out_dir) == artifact_path(name, out_dir),
{
    let d1 = dir1 + seq!['/'];
    let d2 = dir2 + seq!['/'];
    assert(d1[d1.len() - 1] == '/');
    assert(d2[d2.len() - 1] == '/');
    lemma_file_name_after_dir(d1, name);
    lemma_file_name_after_dir(d2, name);
    lemma_file_name_after_dir(Seq::empty(), name);
    assert(Seq::<char>::empty() + name =~= name);
}

} // verus!
