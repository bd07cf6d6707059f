//! Character and path-string helpers used by the scan policy and the walker.
//!
//! Paths are handled as plain strings: the walker builds every child path
//! itself by joining the parent path, the separator, and the entry name, so
//! all path reasoning reduces to reasoning about character sequences.

use vstd::prelude::*;
use vstd::string::StrSliceExecFns;
use vstd::string::StringExecFns;

verus! {

/// Code point of `c` after ASCII lowercasing: `A`..`Z` map to `a`..`z`,
/// every other character is unchanged.
pub open spec fn lower_code(c: char) -> int {
    if 65 <= c as int && c as int <= 90 {
        c as int + 32
    } else {
        c as int
    }
}

/// Two character sequences are equal up to ASCII case.
pub open spec fn eq_ignore_ascii_case_seq(a: Seq<char>, b: Seq<char>) -> bool {
    a.len() == b.len() && (forall|i: int| 0 <= i < a.len() ==> lower_code(a[i]) == lower_code(b[i]))
}

/// `p` is a (case-sensitive) prefix of `s`.
pub open spec fn is_prefix_of(p: Seq<char>, s: Seq<char>) -> bool {
    p.len() <= s.len() && (forall|i: int| 0 <= i < p.len() ==> s[i] == p[i])
}

fn lower_u32(c: char) -> (r: u32)
    ensures
        r == lower_code(c),
{
    let u = c as u32;
    if 65 <= u && u <= 90 {
        u + 32
    } else {
        u
    }
}

/// ASCII-case-insensitive equality of two strings.
pub fn eq_ignore_ascii_case(a: &str, b: &str) -> (r: bool)
    ensures
        r == eq_ignore_ascii_case_seq(a@, b@),
{
    let alen = a.unicode_len();
    let blen = b.unicode_len();
    if alen != blen {
        return false;
    }
    let mut i: usize = 0;
    while i < alen
        invariant
            alen == a@.len(),
            alen == b@.len(),
            0 <= i <= alen,
            forall|j: int| 0 <= j < i ==> lower_code(a@[j]) == lower_code(b@[j]),
        decreases alen - i,
    {
        let ca = a.get_char(i);
        let cb = b.get_char(i);
        if lower_u32(ca) != lower_u32(cb) {
            return false;
        }
        i = i + 1;
    }
    true
}

/// Does `s` start with `p` (case-sensitively)?
pub fn starts_with(s: &str, p: &str) -> (r: bool)
    ensures
        r == is_prefix_of(p@, s@),
{
    let slen = s.unicode_len();
    let plen = p.unicode_len();
    if plen > slen {
        return false;
    }
    let mut i: usize = 0;
    while i < plen
        invariant
            slen == s@.len(),
            plen == p@.len(),
            plen <= slen,
            0 <= i <= plen,
            forall|j: int| 0 <= j < i ==> s@[j] == p@[j],
        decreases plen - i,
    {
        let cs = s.get_char(i);
        let cp = p.get_char(i);
        if cs != cp {
            return false;
        }
        i = i + 1;
    }
    true
}

/// Exact (case-sensitive) string equality.
pub fn str_eq(a: &str, b: &str) -> (r: bool)
    ensures
        r == (a@ == b@),
{
    let alen = a.unicode_len();
    let blen = b.unicode_len();
    if alen != blen {
        return false;
    }
    let mut i: usize = 0;
    while i < alen
        invariant
            alen == a@.len(),
            alen == b@.len(),
            0 <= i <= alen,
            forall|j: int| 0 <= j < i ==> a@[j] == b@[j],
        decreases alen - i,
    {
        let ca = a.get_char(i);
        let cb = b.get_char(i);
        if ca != cb {
            return false;
        }
        i = i + 1;
    }
    proof {
        assert(a@ =~= b@);
    }
    true
}

/// Join a directory path and an entry name with the separator, without
/// doubling a separator that the directory path already ends in.
pub open spec fn join_path_seq(dir: Seq<char>, sep: Seq<char>, name: Seq<char>) -> Seq<char> {
    if dir.len() > 0 && sep.len() > 0 && dir.last() == sep[0] {
        dir + name
    } else {
        dir + sep + name
    }
}

pub fn join_path(dir: &str, sep: &str, name: &str) -> (r: String)
    ensures
        r@ == join_path_seq(dir@, sep@, name@),
{
    let dlen = dir.unicode_len();
    let slen = sep.unicode_len();
    let ends_in_sep = dlen > 0 && slen > 0 && dir.get_char(dlen - 1) == sep.get_char(0);
    let mut r = String::from_str(dir);
    if !ends_in_sep {
        r.append(sep);
    }
    r.append(name);
    proof {
        if dir@.len() > 0 && sep@.len() > 0 && dir@.last() == sep@[0] {
            assert(r@ =~= dir@ + name@);
        } else {
            assert(r@ =~= dir@ + sep@ + name@);
        }
    }
    r
}

/// A path with trailing separators removed, except that a bare root such
/// as the separator alone keeps its one character.
pub open spec fn normalize_root_seq(s: Seq<char>, sep: Seq<char>) -> Seq<char>
    decreases s.len(),
{
    if s.len() > 1 && sep.len() > 0 && s.last() == sep[0] {
        normalize_root_seq(s.drop_last(), sep)
    } else {
        s
    }
}

pub fn normalize_root(s: &str, sep: &str) -> (r: String)
    requires
        sep@.len() > 0,
    ensures
        r@ == normalize_root_seq(s@, sep@),
{
    let sc = sep.get_char(0);
    let len = s.unicode_len();
    let mut i: usize = len;
    proof {
        assert(s@.take(len as int) =~= s@);
    }
    while i > 1 && s.get_char(i - 1) == sc
        invariant
            len == s@.len(),
            sep@.len() > 0,
            sc == sep@[0],
            0 <= i <= len,
            i == len || i >= 1,
            normalize_root_seq(s@, sep@) == normalize_root_seq(s@.take(i as int), sep@),
        decreases i,
    {
        proof {
            assert(s@.take(i as int).drop_last() =~= s@.take(i as int - 1));
            assert(s@.take(i as int).last() == sep@[0]);
            assert(normalize_root_seq(s@.take(i as int), sep@) == normalize_root_seq(
                s@.take(i as int - 1),
                sep@,
            ));
        }
        i = i - 1;
    }
    let part = s.substring_char(0, i);
    proof {
        assert(s@.take(i as int) == s@.subrange(0, i as int));
    }
    String::from_str(part)
}

/// The part of `s` after its last occurrence of the separator character;
/// the whole of `s` when no separator occurs in it.
pub open spec fn basename_seq(s: Seq<char>, sep: Seq<char>) -> Seq<char>
    decreases s.len(),
{
    if s.len() == 0 {
        s
    } else if sep.len() > 0 && s.last() == sep[0] {
        Seq::empty()
    } else {
        basename_seq(s.drop_last(), sep).push(s.last())
    }
}

proof fn lemma_basename_no_sep(s: Seq<char>, sep: Seq<char>)
    requires
        sep.len() > 0,
        forall|j: int| 0 <= j < s.len() ==> s[j] != sep[0],
    ensures
        basename_seq(s, sep) == s,
    decreases s.len(),
{
    if s.len() > 0 {
        lemma_basename_no_sep(s.drop_last(), sep);
        assert(basename_seq(s, sep) =~= s);
    } else {
        assert(basename_seq(s, sep) =~= s);
    }
}

proof fn lemma_basename_after_sep(s: Seq<char>, sep: Seq<char>, k: int)
    requires
        sep.len() > 0,
        0 <= k < s.len(),
        s[k] == sep[0],
        forall|j: int| k < j < s.len() ==> s[j] != sep[0],
    ensures
        basename_seq(s, sep) == s.subrange(k + 1, s.len() as int),
    decreases s.len(),
{
    if k == s.len() - 1 {
        assert(basename_seq(s, sep) =~= s.subrange(k + 1, s.len() as int));
    } else {
        lemma_basename_after_sep(s.drop_last(), sep, k);
        assert(basename_seq(s, sep) =~= s.subrange(k + 1, s.len() as int));
    }
}

/// Largest index holding the separator character, if any.
fn last_sep_index(s: &str, sep: &str) -> (r: Option<usize>)
    requires
        sep@.len() > 0,
    ensures
        match r {
            Some(k) => {
                &&& 0 <= k < s@.len()
                &&& s@[k as int] == sep@[0]
                &&& forall|j: int| k < j < s@.len() ==> s@[j] != sep@[0]
            },
            None => forall|j: int| 0 <= j < s@.len() ==> s@[j] != sep@[0],
        },
{
    let sc = sep.get_char(0);
    let len = s.unicode_len();
    let mut i: usize = len;
    while i > 0
        invariant
            len == s@.len(),
            0 <= i <= len,
            sc == sep@[0],
            forall|j: int| i <= j < len ==> s@[j] != sep@[0],
        decreases i,
    {
        i = i - 1;
        if s.get_char(i) == sc {
            return Some(i);
        }
    }
    None
}

/// The entry name that a path string ends in.
pub fn basename_of(s: &str, sep: &str) -> (r: String)
    requires
        sep@.len() > 0,
    ensures
        r@ == basename_seq(s@, sep@),
{
    let len = s.unicode_len();
    match last_sep_index(s, sep) {
        Some(k) => {
            let part = s.substring_char(k + 1, len);
            proof {
                lemma_basename_after_sep(s@, sep@, k as int);
            }
            String::from_str(part)
        },
        None => {
            proof {
                lemma_basename_no_sep(s@, sep@);
                assert(s@.subrange(0, s@.len() as int) =~= s@);
            }
            String::from_str(s)
        },
    }
}

/// The path with its final separator-plus-name part removed: empty when
/// `s` holds no separator.
pub open spec fn dirname_seq(s: Seq<char>, sep: Seq<char>) -> Seq<char> {
    if basename_seq(s, sep).len() < s.len() {
        s.subrange(0, s.len() - basename_seq(s, sep).len() - 1)
    } else {
        Seq::empty()
    }
}

/// The name of the directory that contains the path, when the path shows
/// one: the basename of its dirname, or `None` when that is empty.
pub open spec fn parent_name_seq(s: Seq<char>, sep: Seq<char>) -> Option<Seq<char>> {
    if basename_seq(s, sep).len() == s.len() {
        Option::None
    } else {
        let d = dirname_seq(s, sep);
        if basename_seq(d, sep).len() == 0 {
            Option::None
        } else {
            Option::Some(basename_seq(d, sep))
        }
    }
}

pub fn parent_name_of(s: &str, sep: &str) -> (r: Option<String>)
    requires
        sep@.len() > 0,
    ensures
        match r {
            Some(p) => parent_name_seq(s@, sep@) == Option::Some(p@),
            None => parent_name_seq(s@, sep@) is None,
        },
{
    match last_sep_index(s, sep) {
        Some(k) => {
            proof {
                lemma_basename_after_sep(s@, sep@, k as int);
            }
            let d = s.substring_char(0, k);
            proof {
                assert(d@ =~= dirname_seq(s@, sep@));
            }
            let p = basename_of(d, sep);
            if p.as_str().unicode_len() == 0 {
                None
            } else {
                Some(p)
            }
        },
        None => {
            proof {
                lemma_basename_no_sep(s@, sep@);
            }
            None
        },
    }
}

} // verus!
