//! What the parts of a path are, and how the files of the daemon are kept apart.

use crate::config::{config_file, fetched_file_dir};
use crate::path::{
    base_start, extension_of, file_name_of, joined_bytes, joined_path, last_dot, stem_path,
    trimmed_path, with_extension_of,
};
use vstd::prelude::*;
use vstd::utf8::encode_utf8;

verus! {

proof fn lemma_base_start(s: Seq<char>)
    ensures
        0 <= base_start(s) <= s.len(),
        forall|i: int| base_start(s) <= i < s.len() ==> s[i] != '/',
    decreases s.len(),
{
    if s.len() > 0 && s.last() != '/' {
        lemma_base_start(s.drop_last());
        assert forall|i: int| base_start(s) <= i < s.len() implies s[i] != '/' by {
            if i < s.len() - 1 {
                assert(s.drop_last()[i] == s[i]);
            }
        }
    }
}

proof fn lemma_base_start_of_longer(s: Seq<char>, tail: Seq<char>)
    requires
        !tail.contains('/'),
    ensures
        base_start(s + tail) == base_start(s),
    decreases tail.len(),
{
    if tail.len() == 0 {
        assert(s + tail =~= s);
    } else {
        assert((s + tail).last() == tail[tail.len() - 1]);
        assert((s + tail).drop_last() =~= s + tail.drop_last());
        assert(!tail.drop_last().contains('/')) by {
            assert forall|i: int| 0 <= i < tail.drop_last().len() implies tail.drop_last()[i]
                != '/' by {
                assert(tail.drop_last()[i] == tail[i]);
            }
        }
        lemma_base_start_of_longer(s, tail.drop_last());
    }
}

proof fn lemma_last_dot(s: Seq<char>)
    ensures
        -1 <= last_dot(s) < s.len(),
    decreases s.len(),
{
    if s.len() > 0 && s.last() != '.' {
        lemma_last_dot(s.drop_last());
    }
}

proof fn lemma_last_dot_of_longer(s: Seq<char>, tail: Seq<char>)
    requires
        !tail.contains('.'),
    ensures
        last_dot(s + seq!['.'] + tail) == s.len(),
    decreases tail.len(),
{
    let whole = s + seq!['.'] + tail;
    if tail.len() == 0 {
        assert(whole.last() == '.');
    } else {
        assert(whole.last() == tail[tail.len() - 1]);
        assert(whole.drop_last() =~= s + seq!['.'] + tail.drop_last());
        assert(!tail.drop_last().contains('.')) by {
            assert forall|i: int| 0 <= i < tail.drop_last().len() implies tail.drop_last()[i]
                != '.' by {
                assert(tail.drop_last()[i] == tail[i]);
            }
        }
        lemma_last_dot_of_longer(s, tail.drop_last());
    }
}

proof fn lemma_last_dot_is_a_dot(s: Seq<char>)
    ensures
        last_dot(s) >= 0 ==> s[last_dot(s)] == '.',
    decreases s.len(),
{
    if s.len() > 0 && s.last() != '.' {
        lemma_last_dot(s.drop_last());
        lemma_last_dot_is_a_dot(s.drop_last());
    }
}

proof fn lemma_component(dir: Seq<char>, name: Seq<char>)
    requires
        dir.len() == 0 || dir.last() == '/',
        name.len() > 0,
        !name.contains('/'),
        name != seq!['.'],
    ensures
        base_start(dir + name) == dir.len(),
        (dir + name).skip(dir.len() as int) == name,
        trimmed_path(dir + name) == dir + name,
{
    lemma_base_start_of_longer(dir, name);
    assert((dir + name).skip(dir.len() as int) =~= name);
}

/// What follows the last slash is the file name, unless it is `..` or has no meaning.
pub proof fn law_last_component_is_the_file_name(dir: Seq<char>, name: Seq<char>)
    requires
        dir.len() == 0 || dir.last() == '/',
        name.len() > 0,
        !name.contains('/'),
        name != seq!['.'],
    ensures
        name != seq!['.', '.'] ==> file_name_of(dir + name) == Some(name),
        name == seq!['.', '.'] ==> file_name_of(dir + name) is None,
{
    lemma_component(dir, name);
}

/// Slashes and `.` components at the end of a path carry no meaning, and a path of nothing else
/// has no file name.
pub proof fn law_trailing_slashes_and_dots_carry_no_meaning(
    path: Seq<char>,
    tail: Seq<char>,
    extension: Seq<char>,
)
    requires
        tail == seq!['/'] || tail == seq!['/', '.'],
    ensures
        file_name_of(path + tail) == file_name_of(path),
        extension_of(path + tail) == extension_of(path),
        file_name_of(path) is Some ==> with_extension_of(path + tail, extension)
            == with_extension_of(path, extension),
        file_name_of(Seq::empty()) is None,
        file_name_of(seq!['.']) is None,
{
    let whole = path + tail;
    let slashed = path.push('/');
    if tail == seq!['/'] {
        assert(whole =~= slashed);
        assert(whole.take(path.len() as int) =~= path);
        assert(base_start(whole) == path.len() + 1);
    } else {
        assert(whole =~= slashed + seq!['.']);
        lemma_base_start_of_longer(slashed, seq!['.']);
        assert(base_start(whole) == path.len() + 1);
        assert(whole.skip(path.len() as int + 1) =~= seq!['.']);
        assert(whole.take(path.len() as int) =~= path);
    }
    assert(trimmed_path(whole) == trimmed_path(path));
    let dot = seq!['.'];
    assert(dot.drop_last() =~= Seq::<char>::empty());
    assert(base_start(dot.drop_last()) == 0);
    assert(base_start(dot) == 0);
    assert(dot.skip(0) =~= dot);
    assert(trimmed_path(dot) =~= Seq::<char>::empty());
}

/// The extension is what follows the last dot of the file name, where something precedes that dot.
pub proof fn law_extension_follows_the_last_dot(
    path: Seq<char>,
    stem: Seq<char>,
    extension: Seq<char>,
)
    requires
        file_name_of(path) == Some(stem + seq!['.'] + extension),
        !extension.contains('.'),
    ensures
        stem.len() > 0 ==> extension_of(path) == Some(extension),
        stem.len() == 0 ==> extension_of(path) is None,
{
    let name = stem + seq!['.'] + extension;
    lemma_last_dot_of_longer(stem, extension);
    assert(name.skip(stem.len() as int + 1) =~= extension);
}

/// A file name without a dot has no extension, and neither has a path without a file name.
pub proof fn law_no_dot_makes_no_extension(path: Seq<char>, name: Seq<char>)
    ensures
        file_name_of(path) == Some(name) && !name.contains('.') ==> extension_of(path) is None,
        file_name_of(path) is None ==> extension_of(path) is None,
{
    lemma_last_dot(name);
    lemma_last_dot_is_a_dot(name);
}

/// Giving a path an extension changes nothing but the extension: what precedes the last dot of the
/// file name stays. An empty extension takes the dot away as well.
pub proof fn law_only_the_extension_is_replaced(
    dir: Seq<char>,
    stem: Seq<char>,
    old_extension: Seq<char>,
    extension: Seq<char>,
)
    requires
        dir.len() == 0 || dir.last() == '/',
        stem.len() > 0,
        !stem.contains('/'),
        !old_extension.contains('/'),
        !old_extension.contains('.'),
        stem + seq!['.'] + old_extension != seq!['.', '.'],
    ensures
        extension.len() > 0 ==> with_extension_of(
            dir + (stem + seq!['.'] + old_extension),
            extension,
        ) == dir + stem + seq!['.'] + extension,
        extension.len() == 0 ==> with_extension_of(
            dir + (stem + seq!['.'] + old_extension),
            extension,
        ) == dir + stem,
{
    let name = stem + seq!['.'] + old_extension;
    assert(!name.contains('/')) by {
        assert forall|i: int| 0 <= i < name.len() implies name[i] != '/' by {
            if i < stem.len() {
                assert(name[i] == stem[i]);
            } else if i > stem.len() {
                assert(name[i] == old_extension[i - stem.len() - 1]);
            }
        }
    }
    assert(name != seq!['.']) by {
        assert(name.len() >= 2);
    }
    let path = dir + name;
    lemma_component(dir, name);
    law_extension_follows_the_last_dot(path, stem, old_extension);
    assert(path.take(path.len() - old_extension.len() - 1) =~= dir + stem);
}

/// Giving an extension to a file name that has none adds a dot and the extension to the whole, and
/// an empty extension adds nothing.
pub proof fn law_missing_extension_is_added(dir: Seq<char>, name: Seq<char>, extension: Seq<char>)
    requires
        dir.len() == 0 || dir.last() == '/',
        name.len() > 0,
        !name.contains('/'),
        name != seq!['.'],
        name != seq!['.', '.'],
        extension_of(dir + name) is None,
    ensures
        extension.len() > 0 ==> with_extension_of(dir + name, extension) == dir + name + seq!['.']
            + extension,
        extension.len() == 0 ==> with_extension_of(dir + name, extension) == dir + name,
{
    lemma_component(dir, name);
}

/// A path without a file name keeps its extension from being set.
pub proof fn law_path_without_a_file_name_stays(path: Seq<char>, extension: Seq<char>)
    requires
        file_name_of(path) is None,
    ensures
        with_extension_of(path, extension) == path,
{
}

/// A joined path is the directory, the entry, and one slash between them unless the directory is
/// empty or ends with one. An entry that starts at the root stands alone.
pub proof fn law_joined_path_is_both_with_one_slash(dir: Seq<char>, name: Seq<char>)
    ensures
        ({
            let path = joined_path(dir, name);
            if name.len() > 0 && name[0] == '/' {
                path == name
            } else {
                &&& path.take(dir.len() as int) == dir
                &&& path.skip(path.len() - name.len()) == name
                &&& path.len() == dir.len() + name.len() + if dir.len() > 0 && dir.last() != '/' {
                    1int
                } else {
                    0int
                }
                &&& dir.len() > 0 ==> path[path.len() - name.len() - 1] == '/'
            }
        }),
{
    let path = joined_path(dir, name);
    if !(name.len() > 0 && name[0] == '/') {
        assert(path.take(dir.len() as int) =~= dir);
        assert(path.skip(path.len() - name.len()) =~= name);
    }
}

/// The same holds where paths are bytes, the entry being encoded in UTF-8.
pub proof fn law_joined_bytes_are_both_with_one_slash(dir: Seq<u8>, name: Seq<char>)
    ensures
        ({
            let path = joined_bytes(dir, name);
            let entry = encode_utf8(name);
            if name.len() > 0 && name[0] == '/' {
                path == entry
            } else {
                &&& path.take(dir.len() as int) == dir
                &&& path.skip(path.len() - entry.len()) == entry
                &&& path.len() == dir.len() + entry.len() + if dir.len() > 0 && dir.last() != 0x2f {
                    1int
                } else {
                    0int
                }
                &&& dir.len() > 0 ==> path[path.len() - entry.len() - 1] == 0x2f
            }
        }),
{
    let path = joined_bytes(dir, name);
    let entry = encode_utf8(name);
    if !(name.len() > 0 && name[0] == '/') {
        assert(path.take(dir.len() as int) =~= dir);
        assert(path.skip(path.len() - entry.len()) =~= entry);
    }
}

/// The configuration file is `config.yaml` in its directory, and fetched files are in `op-cache-fs`
/// in the temporary directory, which is `/tmp` where none is given.
pub proof fn law_files_stand_in_their_directories(dir: Seq<u8>, tmpdir: Seq<char>)
    ensures
        config_file(Some(dir)).take(dir.len() as int) == dir,
        config_file(Some(dir)).skip(config_file(Some(dir)).len() - encode_utf8("config.yaml"@).len())
            == encode_utf8("config.yaml"@),
        config_file(Some(dir)).len() <= dir.len() + 1 + encode_utf8("config.yaml"@).len(),
        dir.len() > 0 ==> config_file(Some(dir))[config_file(Some(dir)).len() - encode_utf8(
            "config.yaml"@,
        ).len() - 1] == 0x2f,
        fetched_file_dir(Some(tmpdir)).take(tmpdir.len() as int) == tmpdir,
        fetched_file_dir(Some(tmpdir)).skip(fetched_file_dir(Some(tmpdir)).len() - 11)
            == "op-cache-fs"@,
        fetched_file_dir(Some(tmpdir)).len() == tmpdir.len() + 11 + if tmpdir.len() > 0
            && tmpdir.last() != '/' {
            1int
        } else {
            0int
        },
        tmpdir.len() > 0 ==> fetched_file_dir(Some(tmpdir))[fetched_file_dir(Some(tmpdir)).len() - 12]
            == '/',
        fetched_file_dir(None) == fetched_file_dir(Some("/tmp"@)),
{
    reveal_strlit("config.yaml");
    reveal_strlit("op-cache-fs");
    law_joined_bytes_are_both_with_one_slash(dir, "config.yaml"@);
    law_joined_path_is_both_with_one_slash(tmpdir, "op-cache-fs"@);
}

/// A path that names a file has the extension that it is given.
pub proof fn law_extension_is_what_was_given(path: Seq<char>, extension: Seq<char>)
    requires
        file_name_of(path) is Some,
        extension.len() > 0,
        !extension.contains('/'),
        !extension.contains('.'),
    ensures
        extension_of(with_extension_of(path, extension)) == Some(extension),
{
    let t = trimmed_path(path);
    let start = base_start(t);
    let name = t.skip(start);
    let stem = stem_path(path);
    lemma_base_start(t);
    lemma_last_dot(name);
    assert(stem.len() > start);
    assert(stem =~= t.take(stem.len() as int));
    let rest = t.subrange(stem.len() as int, t.len() as int);
    assert(t =~= stem + rest);
    assert(!rest.contains('/')) by {
        assert forall|i: int| 0 <= i < rest.len() implies rest[i] != '/' by {
            assert(rest[i] == t[stem.len() + i]);
        }
    }
    lemma_base_start_of_longer(stem, rest);
    let tail = seq!['.'] + extension;
    let whole = with_extension_of(path, extension);
    assert(whole =~= stem + tail);
    assert(!tail.contains('/')) by {
        assert forall|i: int| 0 <= i < tail.len() implies tail[i] != '/' by {
            if i > 0 {
                assert(tail[i] == extension[i - 1]);
            }
        }
    }
    lemma_base_start_of_longer(stem, tail);
    assert(base_start(whole) == start);
    let part = whole.skip(start);
    let stem_name = stem.skip(start);
    assert(part =~= stem_name + seq!['.'] + extension);
    assert(part.len() >= 3);
    assert(trimmed_path(whole) == whole);
    assert(file_name_of(whole) == Some(part));
    lemma_last_dot_of_longer(stem_name, extension);
    assert(part.skip(last_dot(part) + 1) =~= extension);
}

/// The daemon's files are kept apart: next to a socket that names a file, the file with the
/// process id and the log are two different files, and neither is the socket unless the socket
/// has its extension.
pub proof fn law_daemon_files_differ(socket_path: Seq<char>)
    requires
        file_name_of(socket_path) is Some,
    ensures
        with_extension_of(socket_path, "pid"@) != with_extension_of(socket_path, "log"@),
        extension_of(socket_path) != Some("pid"@) ==> with_extension_of(socket_path, "pid"@)
            != socket_path,
        extension_of(socket_path) != Some("log"@) ==> with_extension_of(socket_path, "log"@)
            != socket_path,
{
    reveal_strlit("pid");
    reveal_strlit("log");
    assert("pid"@[0] == 'p' && "log"@[0] == 'l');
    law_extension_is_what_was_given(socket_path, "pid"@);
    law_extension_is_what_was_given(socket_path, "log"@);
}

} // verus!
