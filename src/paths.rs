//! Unix-style paths as character sequences: the base name of the watched
//! file and the backup path built from it. `/` is the only separator; a `\`
//! is an ordinary character of a name.
use vstd::prelude::*;

verus! {

/// `p` with trailing separators and trailing `.` components removed; a lone
/// `.` (the current directory) becomes empty.
pub open spec fn trimmed(p: Seq<char>) -> Seq<char>
    decreases p.len(),
{
    if p.len() == 0 {
        p
    } else if p.last() == '/' {
        trimmed(p.drop_last())
    } else if p.len() == 1 && p[0] == '.' {
        Seq::empty()
    } else if p.len() >= 2 && p.last() == '.' && p[p.len() - 2] == '/' {
        trimmed(p.drop_last())
    } else {
        p
    }
}

/// The characters of `p` after its last separator (all of `p` if it has none).
pub open spec fn last_piece(p: Seq<char>) -> Seq<char>
    decreases p.len(),
{
    if p.len() == 0 {
        p
    } else if p.last() == '/' {
        Seq::empty()
    } else {
        last_piece(p.drop_last()).push(p.last())
    }
}

/// The final component of `p` when that component names a file or directory
/// entry: none for an empty path, the root, `.` or `..`.
pub open spec fn file_name_of(p: Seq<char>) -> Option<Seq<char>> {
    let n = last_piece(trimmed(p));
    if n.len() == 0 || n == seq!['.', '.'] {
        None
    } else {
        Some(n)
    }
}

/// `name` appended to `dir` as one more component: a separator is put between
/// them unless `dir` is empty or already ends with one; an absolute `name`
/// replaces `dir`.
pub open spec fn joined(dir: Seq<char>, name: Seq<char>) -> Seq<char> {
    if name.len() > 0 && name[0] == '/' {
        name
    } else if dir.len() == 0 {
        name
    } else if dir.last() == '/' {
        dir + name
    } else {
        dir + seq!['/'] + name
    }
}

/// The file name of a path: its final component, unless that is missing, the
/// root, `.` or `..`.
pub fn base_name(path: &str) -> (r: Option<String>)
    ensures
        r matches Some(n) ==> file_name_of(path@) == Some(n@),
        r is None ==> file_name_of(path@) is None,
{
    let len = path.unicode_len();
    let mut end: usize = len;
    assert(path@.subrange(0, len as int) =~= path@);
    loop
        invariant
            len == path@.len(),
            end <= len,
            trimmed(path@) == trimmed(path@.subrange(0, end as int)),
        ensures
            end <= len,
            trimmed(path@) == path@.subrange(0, end as int),
        decreases end,
    {
        let ghost cur = path@.subrange(0, end as int);
        if end == 0 {
            break;
        }
        assert(cur.drop_last() =~= path@.subrange(0, end - 1));
        let c = path.get_char(end - 1);
        if c == '/' {
            end = end - 1;
        } else if c == '.' && end == 1 {
            end = 0;
            assert(path@.subrange(0, 0) =~= Seq::<char>::empty());
            break;
        } else if c == '.' && end >= 2 && path.get_char(end - 2) == '/' {
            end = end - 1;
        } else {
            break;
        }
    }
    let ghost t = path@.subrange(0, end as int);
    let mut start: usize = end;
    while start > 0 && path.get_char(start - 1) != '/'
        invariant
            start <= end <= len,
            len == path@.len(),
            t == path@.subrange(0, end as int),
            last_piece(t) == last_piece(path@.subrange(0, start as int)) + path@.subrange(
                start as int,
                end as int,
            ),
        decreases start,
    {
        let ghost s0 = path@.subrange(0, start as int);
        assert(s0.drop_last() =~= path@.subrange(0, start - 1));
        assert(last_piece(s0) == last_piece(path@.subrange(0, start - 1)).push(path@[start - 1]));
        assert(last_piece(path@.subrange(0, start - 1)).push(path@[start - 1]) + path@.subrange(
            start as int,
            end as int,
        ) =~= last_piece(path@.subrange(0, start - 1)) + path@.subrange(start - 1, end as int));
        start = start - 1;
    }
    proof {
        let s0 = path@.subrange(0, start as int);
        if start == 0 {
            assert(s0 =~= Seq::<char>::empty());
        }
        assert(last_piece(s0) =~= Seq::<char>::empty());
        assert(last_piece(t) =~= path@.subrange(start as int, end as int));
    }
    if start == end {
        None
    } else if end - start == 2 && path.get_char(start) == '.' && path.get_char(start + 1) == '.' {
        assert(path@.subrange(start as int, end as int) =~= seq!['.', '.']);
        None
    } else {
        let n = path.substring_char(start, end);
        assert(n@ != seq!['.', '.']) by {
            if n@ == seq!['.', '.'] {
                assert(n@[0] == path@[start as int]);
                assert(n@[1] == path@[start + 1]);
            }
        }
        Some(String::from_str(n))
    }
}

/// `name` appended to `dir` as a path component.
pub fn join_path(dir: &str, name: &str) -> (r: String)
    ensures
        r@ == joined(dir@, name@),
{
    let name_len = name.unicode_len();
    let dir_len = dir.unicode_len();
    if name_len > 0 && name.get_char(0) == '/' {
        String::from_str(name)
    } else if dir_len == 0 {
        String::from_str(name)
    } else if dir.get_char(dir_len - 1) == '/' {
        let mut r = String::from_str(dir);
        r.append(name);
        r
    } else {
        let mut r = String::from_str(dir);
        proof {
            reveal_strlit("/");
        }
        r.append("/");
        r.append(name);
        r
    }
}

} // verus!
