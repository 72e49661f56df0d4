//! The extension of a file name, and the extension that marks an archive.

use vstd::prelude::*;
use vstd::string::*;

verus! {

/// The position of the last `.` in `s`, or `-1` where `s` holds none.
pub open spec fn last_dot(s: Seq<char>) -> int
    decreases s.len(),
{
    if s.len() == 0 {
        -1
    } else if s.last() == '.' {
        s.len() - 1
    } else {
        last_dot(s.drop_last())
    }
}

/// The extension of a file name: what follows its last `.`, provided that
/// this `.` is not the name's first character. The name `..` has none.
pub open spec fn extension_spec(name: Seq<char>) -> Option<Seq<char>> {
    let p = last_dot(name);
    if p <= 0 || name =~= seq!['.', '.'] {
        None
    } else {
        Some(name.subrange(p + 1, name.len() as int))
    }
}

/// The extension that archive files carry.
pub open spec fn archive_extension() -> Seq<char> {
    seq!['g', 'z']
}

/// Whether a file name carries the archive extension, letter for letter.
pub open spec fn is_archive_name_spec(name: Seq<char>) -> bool {
    extension_spec(name) == Some(archive_extension())
}

/// `last_dot` finds a `.` behind which no other `.` stands.
pub proof fn lemma_last_dot_found(s: Seq<char>, p: int)
    requires
        0 <= p < s.len(),
        s[p] == '.',
        forall|j: int| p < j < s.len() ==> s[j] != '.',
    ensures
        last_dot(s) == p,
    decreases s.len(),
{
    if p < s.len() - 1 {
        lemma_last_dot_found(s.drop_last(), p);
    }
}

/// `last_dot` is `-1` exactly on a sequence without a `.`.
pub proof fn lemma_last_dot_none(s: Seq<char>)
    requires
        forall|j: int| 0 <= j < s.len() ==> s[j] != '.',
    ensures
        last_dot(s) == -1,
    decreases s.len(),
{
    if s.len() > 0 {
        lemma_last_dot_none(s.drop_last());
    }
}

/// An archive name is a name of more than three characters that ends in `.gz`.
pub proof fn lemma_archive_name_is_suffix(name: Seq<char>)
    ensures
        is_archive_name_spec(name) <==> (name.len() > 3 && name.subrange(
            name.len() - 3,
            name.len() as int,
        ) =~= seq!['.', 'g', 'z']),
{
    let n = name.len() as int;
    if n > 3 && name.subrange(n - 3, n) =~= seq!['.', 'g', 'z'] {
        let tail = name.subrange(n - 3, n);
        assert(name[n - 3] == tail[0] && name[n - 2] == tail[1] && name[n - 1] == tail[2]);
        lemma_last_dot_found(name, n - 3);
        assert(name.subrange(n - 2, n) =~= archive_extension());
    }
    if is_archive_name_spec(name) {
        let p = last_dot(name);
        lemma_last_dot_bounds(name);
        let ext = name.subrange(p + 1, n);
        assert(ext.len() == 2);
        assert(name[p + 1] == ext[0] && name[p + 2] == ext[1]);
    }
}

/// Where `last_dot` is not `-1`, it is the position of a `.`.
pub proof fn lemma_last_dot_bounds(s: Seq<char>)
    ensures
        -1 <= last_dot(s) < s.len(),
        last_dot(s) >= 0 ==> s[last_dot(s)] == '.',
    decreases s.len(),
{
    if s.len() > 0 && s.last() != '.' {
        lemma_last_dot_bounds(s.drop_last());
    }
}

/// The extension of a file name, if it has one.
pub fn file_extension(name: &str) -> (ext: Option<&str>)
    ensures
        match ext {
            Some(e) => extension_spec(name@) == Some(e@),
            None => extension_spec(name@) is None,
        },
{
    let n: usize = name.unicode_len();
    let mut i: usize = n;
    while i > 0
        invariant
            i <= n,
            n == name@.len(),
            forall|j: int| i <= j < n ==> name@[j] != '.',
        decreases i,
    {
        let c: char = name.get_char(i - 1);
        if c == '.' {
            proof {
                lemma_last_dot_found(name@, i - 1);
            }
            if i == 1 {
                return None;
            }
            if n == 2 {
                let first: char = name.get_char(0);
                if first == '.' {
                    return None;
                }
            }
            return Some(name.substring_char(i, n));
        }
        i -= 1;
    }
    proof {
        lemma_last_dot_none(name@);
    }
    None
}

/// Whether a file name carries the archive extension `gz`. The match is
/// exact and case-sensitive, and looks at the extension alone.
pub fn is_archive_name(name: &str) -> (yes: bool)
    ensures
        yes == is_archive_name_spec(name@),
{
    match file_extension(name) {
        Some(ext) => {
            let yes = ext.unicode_len() == 2 && ext.get_char(0) == 'g' && ext.get_char(1) == 'z';
            proof {
                if yes {
                    assert(ext@ =~= archive_extension());
                }
            }
            yes
        },
        None => false,
    }
}

} // verus!
