//! Text-level helpers: deriving an entry key from a manifest filename and
//! joining the content directory with a filename.

use vstd::prelude::*;
use vstd::string::StrSliceExecFns;
use vstd::string::StringExecFns;

verus! {

/// Index of the last occurrence of `c` in `s`, or `-1` if `c` does not occur.
pub open spec fn last_pos(s: Seq<char>, c: char) -> int
    decreases s.len(),
{
    if s.len() == 0 {
        -1
    } else if s[s.len() - 1] == c {
        s.len() - 1
    } else {
        last_pos(s.drop_last(), c)
    }
}

/// The key of an entry, derived from its manifest filename: the filename's
/// final path component, minus everything from the last `.` onward.
pub open spec fn key_of(filename: Seq<char>) -> Seq<char> {
    let start = last_pos(filename, '/') + 1;
    let dot = last_pos(filename, '.');
    if dot >= start {
        filename.subrange(start, dot)
    } else {
        filename.subrange(start, filename.len() as int)
    }
}

/// The source path of an entry: the content directory joined with the
/// manifest filename, with a single `/` between them.
pub open spec fn joined_path(dir: Seq<char>, name: Seq<char>) -> Seq<char> {
    if dir.len() == 0 {
        name
    } else if dir[dir.len() - 1] == '/' {
        dir + name
    } else {
        dir + seq!['/'] + name
    }
}

proof fn lemma_last_pos_bounds(s: Seq<char>, c: char)
    ensures
        -1 <= last_pos(s, c) < s.len(),
    decreases s.len(),
{
    if s.len() != 0 && s[s.len() - 1] != c {
        lemma_last_pos_bounds(s.drop_last(), c);
    }
}

/// Derives the URL key from a manifest filename.
pub fn strip_extension(filename: &str) -> (r: String)
    ensures
        r@ == key_of(filename@),
{
    let n = filename.unicode_len();
    // One past the last '/' seen so far; 0 while none was seen.
    let mut start: usize = 0;
    // One past the last '.' seen so far; 0 while none was seen.
    let mut dotp: usize = 0;
    assert(filename@.subrange(0, 0) =~= Seq::<char>::empty());
    for i in 0..n
        invariant
            n == filename@.len(),
            start <= i,
            dotp <= i,
            start == last_pos(filename@.subrange(0, i as int), '/') + 1,
            dotp == last_pos(filename@.subrange(0, i as int), '.') + 1,
    {
        let c = filename.get_char(i);
        proof {
            let pre = filename@.subrange(0, i as int);
            let ext = filename@.subrange(0, i + 1);
            assert(ext.drop_last() =~= pre);
            assert(ext[ext.len() - 1] == filename@[i as int]);
            lemma_last_pos_bounds(pre, '/');
            lemma_last_pos_bounds(pre, '.');
        }
        if c == '/' {
            start = i + 1;
        }
        if c == '.' {
            dotp = i + 1;
        }
    }
    proof {
        assert(filename@.subrange(0, n as int) =~= filename@);
    }
    if dotp > start {
        filename.substring_char(start, dotp - 1).to_owned()
    } else {
        filename.substring_char(start, n).to_owned()
    }
}

/// Joins the content directory with a manifest filename.
pub fn join_path(dir: &str, name: &str) -> (r: String)
    ensures
        r@ == joined_path(dir@, name@),
{
    let n = dir.unicode_len();
    if n == 0 {
        return name.to_owned();
    }
    let mut out = dir.to_owned();
    if dir.get_char(n - 1) != '/' {
        proof {
            reveal_strlit("/");
            assert("/"@ =~= seq!['/']);
        }
        out.append("/");
    }
    out.append(name);
    out
}

/// Character-for-character string equality, with no normalization.
pub fn str_eq(a: &str, b: &str) -> (r: bool)
    ensures
        r == (a@ == b@),
{
    let alen = a.unicode_len();
    let blen = b.unicode_len();
    if alen != blen {
        return false;
    }
    for i in 0..alen
        invariant
            alen == a@.len(),
            blen == b@.len(),
            alen == blen,
            forall|j: int| 0 <= j < i ==> a@[j] == b@[j],
    {
        if a.get_char(i) != b.get_char(i) {
            return false;
        }
    }
    proof {
        assert(a@ =~= b@);
    }
    true
}

} // verus!
