//! File names, extensions and joins of slash-separated paths.
//!
//! The rules are those of `std::path` on Unix: repeated and trailing slashes and `.` components
//! carry no meaning, `..` is not a file name, and a leading dot does not start an extension.

use crate::text::{chars_of, concat};
use vstd::prelude::*;
use vstd::string::*;
use vstd::utf8::encode_utf8;

verus! {

/// Where the text after the last slash of `s` begins.
pub open spec fn base_start(s: Seq<char>) -> int
    decreases s.len(),
{
    if s.len() == 0 {
        0
    } else if s.last() == '/' {
        s.len() as int
    } else {
        base_start(s.drop_last())
    }
}

/// `s` without the slashes and `.` components that follow its last component of another kind.
pub open spec fn trimmed_path(s: Seq<char>) -> Seq<char>
    decreases s.len(),
    via trimmed_path_decreases
{
    let start = base_start(s);
    let part = s.skip(start);
    if part.len() == 0 || part == seq!['.'] {
        if start == 0 {
            Seq::empty()
        } else {
            trimmed_path(s.take(start - 1))
        }
    } else {
        s
    }
}

#[via_fn]
proof fn trimmed_path_decreases(s: Seq<char>) {
    lemma_base_start_bounds(s);
}

/// The last component of `s`, when it names a file or directory.
pub open spec fn file_name_of(s: Seq<char>) -> Option<Seq<char>> {
    let t = trimmed_path(s);
    let part = t.skip(base_start(t));
    if part.len() == 0 || part == seq!['.', '.'] {
        None
    } else {
        Some(part)
    }
}

/// The position of the last dot in `s`, or -1 where there is none.
pub open spec fn last_dot(s: Seq<char>) -> int
    decreases s.len(),
{
    if s.len() == 0 {
        -1
    } else if s.last() == '.' {
        s.len() - 1
    } else {
        last_dot(s.drop_last())
    }
}

/// The extension of the file that `s` names: what follows the last dot of its file name, unless
/// that dot is the first character.
pub open spec fn extension_of(s: Seq<char>) -> Option<Seq<char>> {
    match file_name_of(s) {
        Some(name) => if last_dot(name) <= 0 {
            None
        } else {
            Some(name.skip(last_dot(name) + 1))
        },
        None => None,
    }
}

/// `s` up to the end of its file name, less the extension and the dot before it.
pub open spec fn stem_path(s: Seq<char>) -> Seq<char> {
    let t = trimmed_path(s);
    match extension_of(s) {
        Some(extension) => t.take(t.len() - extension.len() - 1),
        None => t,
    }
}

/// `s` with `extension` in place of its own, or without any where `extension` is empty; a path
/// without a file name stays as it is.
pub open spec fn with_extension_of(s: Seq<char>, extension: Seq<char>) -> Seq<char> {
    if file_name_of(s) is None {
        s
    } else if extension.len() == 0 {
        stem_path(s)
    } else {
        stem_path(s) + seq!['.'] + extension
    }
}

/// The path of the entry `name` in the directory `dir`; `name` itself where it starts at the root.
pub open spec fn joined_path(dir: Seq<char>, name: Seq<char>) -> Seq<char> {
    if name.len() > 0 && name[0] == '/' {
        name
    } else if dir.len() == 0 || dir.last() == '/' {
        dir + name
    } else {
        dir + seq!['/'] + name
    }
}

/// The path of the entry `name` in the directory `dir`, where paths are bytes; `name` itself where
/// it starts at the root.
pub open spec fn joined_bytes(dir: Seq<u8>, name: Seq<char>) -> Seq<u8> {
    if name.len() > 0 && name[0] == '/' {
        encode_utf8(name)
    } else if dir.len() == 0 || dir.last() == 0x2f {
        dir + encode_utf8(name)
    } else {
        dir.push(0x2f) + encode_utf8(name)
    }
}

proof fn lemma_base_start_bounds(s: Seq<char>)
    ensures
        0 <= base_start(s) <= s.len(),
    decreases s.len(),
{
    if s.len() > 0 && s.last() != '/' {
        lemma_base_start_bounds(s.drop_last());
    }
}

/// Where the text after the last slash of the first `end` characters begins.
fn find_base(chars: &Vec<char>, end: usize) -> (start: usize)
    requires
        end <= chars.len(),
    ensures
        start == base_start(chars@.take(end as int)),
        start <= end,
{
    let mut start: usize = end;
    while start > 0 && chars[start - 1] != '/'
        invariant
            start <= end <= chars.len(),
            base_start(chars@.take(end as int)) == base_start(chars@.take(start as int)),
        decreases start,
    {
        assert(chars@.take(start as int).drop_last() =~= chars@.take(start - 1));
        start -= 1;
    }
    start
}

/// The length of `trimmed_path`.
fn find_trimmed_end(chars: &Vec<char>) -> (end: usize)
    ensures
        end <= chars.len(),
        chars@.take(end as int) == trimmed_path(chars@),
{
    let mut end: usize = chars.len();
    assert(chars@.take(end as int) =~= chars@);
    loop
        invariant
            end <= chars.len(),
            trimmed_path(chars@) == trimmed_path(chars@.take(end as int)),
        decreases end,
    {
        let start = find_base(chars, end);
        let ghost t = chars@.take(end as int);
        let ghost part = t.skip(base_start(t));
        if start == end || (end - start == 1 && chars[start] == '.') {
            assert(part.len() == 0 || part =~= seq!['.']);
            if start == 0 {
                assert(chars@.take(0) =~= Seq::<char>::empty());
                return 0;
            }
            assert(t.take(start - 1) =~= chars@.take(start - 1));
            end = start - 1;
        } else {
            assert(part != seq!['.']) by {
                if end - start == 1 {
                    assert(part[0] == chars[start as int]);
                }
            }
            return end;
        }
    }
}

/// The position of the last dot of `chars` from `start` on and before `end`.
fn find_dot(chars: &Vec<char>, start: usize, end: usize) -> (dot: Option<usize>)
    requires
        start <= end <= chars.len(),
    ensures
        match dot {
            Some(d) => start <= d < end && last_dot(chars@.subrange(start as int, end as int)) == d
                - start,
            None => last_dot(chars@.subrange(start as int, end as int)) == -1,
        },
{
    let mut i: usize = end;
    while i > start
        invariant
            start <= i <= end <= chars.len(),
            last_dot(chars@.subrange(start as int, end as int)) == last_dot(
                chars@.subrange(start as int, i as int),
            ),
        decreases i,
    {
        let ghost part = chars@.subrange(start as int, i as int);
        assert(part.drop_last() =~= chars@.subrange(start as int, i - 1));
        assert(part.last() == chars[i - 1]);
        if chars[i - 1] == '.' {
            return Some(i - 1);
        }
        i -= 1;
    }
    None
}

/// What the components of a path tell of its file name: where the name begins and ends, and
/// where its extension begins.
struct FileName {
    start: usize,
    end: usize,
    dot: Option<usize>,
}

impl FileName {
    spec fn describes(self, s: Seq<char>) -> bool {
        &&& self.start < self.end <= s.len()
        &&& s.take(self.end as int) == trimmed_path(s)
        &&& file_name_of(s) == Some(s.subrange(self.start as int, self.end as int))
        &&& match self.dot {
            Some(d) => {
                &&& self.start < d < self.end
                &&& extension_of(s) == Some(s.subrange(d + 1, self.end as int))
                &&& stem_path(s) == s.take(d as int)
            },
            None => extension_of(s) is None && stem_path(s) == s.take(self.end as int),
        }
    }
}

/// The file name of the path that `chars` spells.
fn find_file_name(chars: &Vec<char>) -> (found: Option<FileName>)
    ensures
        match found {
            Some(name) => name.describes(chars@),
            None => file_name_of(chars@) is None,
        },
{
    let end = find_trimmed_end(chars);
    let start = find_base(chars, end);
    let ghost t = trimmed_path(chars@);
    let ghost part = t.skip(base_start(t));
    assert(part =~= chars@.subrange(start as int, end as int));
    if start == end {
        return None;
    }
    if end - start == 2 && chars[start] == '.' && chars[start + 1] == '.' {
        assert(part =~= seq!['.', '.']);
        return None;
    }
    assert(part != seq!['.', '.']) by {
        if end - start == 2 {
            assert(part[0] == chars[start as int] && part[1] == chars[start + 1]);
        }
    }
    let dot = match find_dot(chars, start, end) {
        Some(d) => if d == start {
            None
        } else {
            Some(d)
        },
        None => None,
    };
    proof {
        if let Some(d) = dot {
            assert(part.skip(last_dot(part) + 1) =~= chars@.subrange(d + 1, end as int));
            assert(t.take(d as int) =~= chars@.take(d as int));
        }
    }
    Some(FileName { start, end, dot })
}

/// The extension of the file that `path` names, if it has one.
pub fn extension(path: &str) -> (r: Option<String>)
    ensures
        match r {
            Some(extension) => extension_of(path@) == Some(extension@),
            None => extension_of(path@) is None,
        },
{
    let chars = chars_of(path);
    match find_file_name(&chars) {
        Some(FileName { start: _, end, dot: Some(d) }) => Some(
            path.substring_char(d + 1, end).to_owned(),
        ),
        _ => None,
    }
}

/// `path` with `extension`, which holds no slash, in place of its own.
pub fn with_extension(path: &str, extension: &str) -> (r: String)
    requires
        !extension@.contains('/'),
    ensures
        r@ == with_extension_of(path@, extension@),
{
    let chars = chars_of(path);
    match find_file_name(&chars) {
        Some(name) => {
            let stem_end = match name.dot {
                Some(d) => d,
                None => name.end,
            };
            let mut r = path.substring_char(0, stem_end).to_owned();
            assert(r@ =~= stem_path(path@));
            if extension.is_empty() {
                return r;
            }
            proof {
                reveal_strlit(".");
            }
            r.append(".");
            r.append(extension);
            assert(r@ =~= with_extension_of(path@, extension@));
            r
        },
        None => path.to_owned(),
    }
}

/// The path of the entry `name` in the directory `dir`.
pub fn join(dir: &str, name: &str) -> (r: String)
    ensures
        r@ == joined_path(dir@, name@),
{
    let chars = chars_of(dir);
    let entry = chars_of(name);
    if entry.len() > 0 && entry[0] == '/' {
        name.to_owned()
    } else if chars.len() == 0 || chars[chars.len() - 1] == '/' {
        concat(dir, name)
    } else {
        proof {
            reveal_strlit("/");
        }
        let mut r = concat(dir, "/");
        r.append(name);
        assert(r@ =~= joined_path(dir@, name@));
        r
    }
}

/// The path of the entry `name` in the directory `dir`, whose path may be any bytes.
pub fn join_bytes(dir: &[u8], name: &str) -> (r: Vec<u8>)
    ensures
        r@ == joined_bytes(dir@, name@),
{
    let entry = chars_of(name);
    let mut r: Vec<u8> = Vec::new();
    if entry.len() == 0 || entry[0] != '/' {
        r.extend_from_slice(dir);
        assert(r@ =~= dir@);
        if dir.len() > 0 && dir[dir.len() - 1] != 0x2f {
            r.push(0x2f);
        }
    }
    let ghost before = r@;
    r.extend_from_slice(name.as_bytes());
    assert(r@ =~= before + encode_utf8(name@));
    r
}

} // verus!
