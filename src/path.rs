//! Paths are held as text with `/` as the separator. These are the few
//! operations that target resolution needs: joining, taking the last
//! component, and splitting a file name into stem and extension.
use vstd::prelude::*;
use vstd::string::*;

verus! {

/// Index of the last occurrence of `c` in `s`, or -1 when there is none.
pub open spec fn last_index_of(s: Seq<char>, c: char) -> int
    decreases s.len(),
{
    if s.len() == 0 {
        -1
    } else if s.last() == c {
        s.len() - 1
    } else {
        last_index_of(s.drop_last(), c)
    }
}

/// `rel` resolved against `base`: an absolute `rel` stands alone, otherwise
/// the two are joined with exactly one separator.
pub open spec fn joined(base: Seq<char>, rel: Seq<char>) -> Seq<char> {
    if rel.len() > 0 && rel[0] == '/' {
        rel
    } else if base.len() == 0 {
        rel
    } else if base.last() == '/' {
        base + rel
    } else {
        base + seq!['/'] + rel
    }
}

/// The last component of a path.
pub open spec fn file_name(p: Seq<char>) -> Seq<char> {
    p.subrange(last_index_of(p, '/') + 1, p.len() as int)
}

/// Position of the dot that starts a file name's extension; a leading dot
/// (a hidden file) starts none.
pub open spec fn extension_dot(name: Seq<char>) -> int {
    last_index_of(name, '.')
}

/// A file name without its extension.
pub open spec fn file_stem(name: Seq<char>) -> Seq<char> {
    let d = extension_dot(name);
    if d > 0 {
        name.subrange(0, d)
    } else {
        name
    }
}

/// A file name's extension, when it has one.
pub open spec fn file_extension(name: Seq<char>) -> Option<Seq<char>> {
    let d = extension_dot(name);
    if d > 0 {
        Some(name.subrange(d + 1, name.len() as int))
    } else {
        None
    }
}

/// The object file that compiling `source` writes into `dir`.
pub open spec fn object_path(dir: Seq<char>, source: Seq<char>) -> Seq<char> {
    joined(dir, file_stem(file_name(source)) + seq!['.', 'o'])
}

pub proof fn lemma_last_index_bounds(s: Seq<char>, c: char)
    ensures
        -1 <= last_index_of(s, c) < s.len(),
        last_index_of(s, c) >= 0 ==> s[last_index_of(s, c)] == c,
    decreases s.len(),
{
    if s.len() > 0 && s.last() != c {
        lemma_last_index_bounds(s.drop_last(), c);
    }
}

/// Position of the last `c` in `s`, if any.
pub fn find_last(s: &str, c: char) -> (r: Option<usize>)
    ensures
        match r {
            Some(i) => i as int == last_index_of(s@, c),
            None => last_index_of(s@, c) == -1,
        },
{
    let n = s.unicode_len();
    let mut i: usize = n;
    assert(s@.subrange(0, n as int) =~= s@);
    while i > 0
        invariant
            i <= n,
            n == s@.len(),
            last_index_of(s@, c) == last_index_of(s@.subrange(0, i as int), c),
        decreases i,
    {
        let ch = s.get_char(i - 1);
        if ch == c {
            proof {
                let p = s@.subrange(0, i as int);
                assert(p.last() == c);
            }
            return Some(i - 1);
        }
        proof {
            let p = s@.subrange(0, i as int);
            assert(p.drop_last() =~= s@.subrange(0, i - 1));
        }
        i = i - 1;
    }
    assert(s@.subrange(0, 0) =~= Seq::<char>::empty());
    None
}

/// Joins `rel` onto `base` (see `joined`).
pub fn join(base: &str, rel: &str) -> (r: String)
    ensures
        r@ == joined(base@, rel@),
{
    let rl = rel.unicode_len();
    if rl > 0 && rel.get_char(0) == '/' {
        return String::from_str(rel);
    }
    let bl = base.unicode_len();
    if bl == 0 {
        return String::from_str(rel);
    }
    let mut r = String::from_str(base);
    if base.get_char(bl - 1) != '/' {
        proof {
            reveal_strlit("/");
        }
        r.append("/");
    }
    r.append(rel);
    r
}

/// The last component of `p`.
pub fn file_name_of(p: &str) -> (r: String)
    ensures
        r@ == file_name(p@),
{
    proof {
        lemma_last_index_bounds(p@, '/');
    }
    let n = p.unicode_len();
    let start: usize = match find_last(p, '/') {
        Some(i) => i + 1,
        None => 0,
    };
    String::from_str(p.substring_char(start, n))
}

/// The stem of file name `name`.
pub fn stem_of(name: &str) -> (r: String)
    ensures
        r@ == file_stem(name@),
{
    proof {
        lemma_last_index_bounds(name@, '.');
    }
    match find_last(name, '.') {
        Some(d) => {
            if d > 0 {
                String::from_str(name.substring_char(0, d))
            } else {
                String::from_str(name)
            }
        },
        None => String::from_str(name),
    }
}

/// The extension of file name `name`, if it has one.
pub fn extension_of(name: &str) -> (r: Option<String>)
    ensures
        match r {
            Some(e) => file_extension(name@) == Some(e@),
            None => file_extension(name@) is None,
        },
{
    proof {
        lemma_last_index_bounds(name@, '.');
    }
    let n = name.unicode_len();
    match find_last(name, '.') {
        Some(d) => {
            if d > 0 {
                Some(String::from_str(name.substring_char(d + 1, n)))
            } else {
                None
            }
        },
        None => None,
    }
}

/// Where the object file for `source` goes inside `dir`.
pub fn object_path_for(dir: &str, source: &str) -> (r: String)
    ensures
        r@ == object_path(dir@, source@),
{
    let name = file_name_of(source);
    let stem = stem_of(name.as_str());
    proof {
        reveal_strlit(".o");
    }
    let obj = stem.concat(".o");
    assert(obj@ == file_stem(file_name(source@)) + seq!['.', 'o']);
    join(dir, obj.as_str())
}

} // verus!
