//! File paths as text.
use crate::text::text_of;
use vstd::prelude::*;
use vstd::string::*;

verus! {

/// Whether a path names something relative to where it is appended: it is not empty, has no
/// root and no drive.
pub open spec fn is_relative(name: Seq<char>) -> bool {
    &&& name.len() > 0
    &&& name[0] != '/' && name[0] != '\\'
    &&& name.len() > 1 ==> name[1] != ':'
}

/// Whether a path is of the verbatim form that Windows takes as it stands.
pub open spec fn is_verbatim(dir: Seq<char>) -> bool {
    &&& dir.len() >= 4
    &&& dir[0] == '\\' && dir[1] == '\\' && dir[2] == '?' && dir[3] == '\\'
}

/// Whether `path` is `dir`, one separator, and `name`.
pub open spec fn separated(dir: Seq<char>, name: Seq<char>, path: Seq<char>) -> bool {
    path == dir.push('/') + name || path == dir.push('\\') + name
}

/// Whether a character separates the components of a path on some system.
pub open spec fn is_separator(c: char) -> bool {
    c == '/' || c == '\\'
}

/// Whether a relative path is a single component that names something: it holds no separator and
/// is neither `.` nor `..`.
pub open spec fn is_file_name(name: Seq<char>) -> bool {
    &&& is_relative(name)
    &&& forall|i: int| 0 <= i < name.len() ==> !is_separator(#[trigger] name[i])
    &&& name != seq!['.']
    &&& name != seq!['.', '.']
}

/// Whether `path` ends with a separator and `name`.
pub open spec fn ends_with_entry(name: Seq<char>, path: Seq<char>) -> bool {
    &&& name.len() < path.len()
    &&& name.is_suffix_of(path)
    &&& is_separator(path[path.len() - name.len() - 1])
}

/// Whether `path` is `name` in the directory `dir`: the one after the other, with a separator
/// between them unless the directory is empty or ends with one. After a backslash or a colon,
/// which only some systems take for the end of a directory, both forms are possible. Of a file in a
/// verbatim directory, whose own path is rewritten, only the end is fixed.
pub open spec fn joined(dir: Seq<char>, name: Seq<char>, path: Seq<char>) -> bool {
    if is_verbatim(dir) {
        is_file_name(name) ==> ends_with_entry(name, path)
    } else if dir.len() == 0 || dir.last() == '/' {
        path == dir + name
    } else if dir.last() == '\\' || dir.last() == ':' {
        path == dir + name || separated(dir, name, path)
    } else {
        separated(dir, name, path)
    }
}

/// Appends a relative path to a directory.
///
/// The outside function is `std::path::Path::join`. The contract claims that a relative path is
/// adjoined to the directory, with a separator between them unless the directory is empty or ends
/// with one. The separator is `/` or `\` depending on the system; which of the two it is and
/// whether a backslash or a colon ends a directory are left unsaid. A verbatim directory, whose
/// path is normalised, is claimed to be followed by a separator and the name, where the name is a
/// single component.
#[verifier::external_body]
pub(crate) fn join(dir: &str, name: &str) -> (res: String)
    requires
        is_relative(name@),
    ensures
        joined(dir@, name@, res@),
{
    std::path::Path::new(dir).join(name).to_string_lossy().into_owned()
}

/// Whether a path begins with two separators, as the paths of network shares and devices do on
/// some systems.
pub open spec fn begins_with_two_separators(path: Seq<char>) -> bool {
    path.len() >= 2 && is_separator(path[0]) && is_separator(path[1])
}

/// Whether the last component of a path is a name on every system: the path ends with neither a
/// separator, a colon nor a dot, and is not that of a share.
pub open spec fn ends_in_a_name(path: Seq<char>) -> bool {
    &&& path.len() > 0
    &&& !is_separator(path.last()) && path.last() != ':' && path.last() != '.'
    &&& !begins_with_two_separators(path)
}

/// Whether a name is that of an entry of a directory on every system: it holds neither separator
/// nor colon and is not a single dot.
pub open spec fn is_entry_name(name: Seq<char>) -> bool {
    &&& name.len() > 0
    &&& name != seq!['.']
    &&& forall|i: int|
        0 <= i < name.len() ==> !is_separator(#[trigger] name[i]) && name[i] != ':'
}

/// Whether a path is a drive and its root, as in `C:\`.
pub open spec fn is_drive_root(dir: Seq<char>) -> bool {
    &&& dir.len() == 3
    &&& 'a' <= dir[0] <= 'z' || 'A' <= dir[0] <= 'Z'
    &&& dir[1] == ':' && dir[2] == '\\'
}

/// Whether `path` is the entry `name` of the directory `dir` where a backslash separates
/// components: the name under the root, under the root of a drive, or a directory, a backslash and
/// the name.
pub open spec fn is_backslash_entry(dir: Seq<char>, name: Seq<char>, path: Seq<char>) -> bool {
    &&& is_entry_name(name)
    &&& {
        ||| dir == seq!['\\'] && path == dir + name
        ||| is_drive_root(dir) && path == dir + name
        ||| ends_in_a_name(dir) && path == dir.push('\\') + name
    }
}

/// Whether `path` is the entry `rest` of the directory `outer` where only a slash separates
/// components: the entry alone, under the root, or a directory, a slash and the entry.
pub open spec fn is_slash_entry(outer: Seq<char>, rest: Seq<char>, path: Seq<char>) -> bool {
    &&& rest.len() > 0
    &&& forall|i: int| 0 <= i < rest.len() ==> #[trigger] rest[i] != '/'
    &&& {
        ||| outer.len() == 0 && path == rest
        ||| outer == seq!['/'] && path == outer + rest
        ||| outer.len() > 0 && outer.last() != '/' && outer.last() != '.' && path == outer.push('/')
            + rest
    }
}

/// Whether `path` is, on every system, the entry `name` of the directory `dir`: the name alone, the
/// name under the root, or a directory, a slash and the name.
pub open spec fn is_entry(dir: Seq<char>, name: Seq<char>, path: Seq<char>) -> bool {
    &&& is_entry_name(name)
    &&& {
        ||| dir.len() == 0 && path == name
        ||| dir == seq!['/'] && path == dir + name
        ||| ends_in_a_name(dir) && path == dir.push('/') + name
    }
}

/// Whether `parent` can be what is left of `path` without its last component.
pub open spec fn fits_parent(path: Seq<char>, parent: Option<Seq<char>>) -> bool {
    &&& path.len() == 0 ==> parent is None
    &&& parent is Some ==> parent->Some_0.len() < path.len() && parent->Some_0.is_prefix_of(path)
    &&& ends_in_a_name(path) ==> parent is Some
    &&& forall|dir: Seq<char>, name: Seq<char>| #[trigger]
        is_entry(dir, name, path) ==> parent == Some(dir)
    &&& forall|dir: Seq<char>, name: Seq<char>, outer: Seq<char>, rest: Seq<char>|
        #[trigger] is_backslash_entry(dir, name, path) && #[trigger] is_slash_entry(
            outer,
            rest,
            path,
        ) ==> parent == Some(dir) || parent == Some(outer)
}

/// The path without its last component.
///
/// The outside function is `std::path::Path::parent`. The contract claims that an empty path has
/// no parent, that a parent is a shorter path that the path begins with, that a path whose last
/// component is a name has one, and that the parent of an entry is its directory. Where the last
/// separator is a backslash, the parent is what stands before it, on a system where a backslash
/// separates, or what stands before the last slash, on one where it does not; which of the two is
/// left unsaid, since it depends on the system. So are the parents of paths that begin with two
/// separators, and of those that end with a separator, a colon or a dot.
#[verifier::external_body]
pub(crate) fn parent(path: &str) -> (res: Option<String>)
    ensures
        fits_parent(path@, text_of(res)),
{
    match std::path::Path::new(path).parent() {
        Some(p) => Some(p.to_string_lossy().into_owned()),
        None => None,
    }
}

/// Whether the last component of `path` is a name with the extension `ext`, and `stem` is what
/// stands before that.
pub open spec fn has_extension(stem: Seq<char>, ext: Seq<char>, path: Seq<char>) -> bool {
    &&& path == stem.push('.') + ext
    &&& stem.len() > 0 && !is_separator(stem.last()) && stem.last() != ':'
    &&& ext.len() > 0
    &&& forall|i: int|
        0 <= i < ext.len() ==> !is_separator(#[trigger] ext[i]) && ext[i] != '.' && ext[i] != ':'
    &&& !begins_with_two_separators(path)
}

/// Whether `res` can be `path` with another extension: it takes the place of the one that is
/// there, and is added where the path holds no dot.
pub open spec fn fits_extension(path: Seq<char>, extension: Seq<char>, res: Seq<char>) -> bool {
    &&& forall|stem: Seq<char>, ext: Seq<char>| #[trigger]
        has_extension(stem, ext, path) ==> res == stem.push('.') + extension
    &&& ends_in_a_name(path) && !path.contains('.') ==> res == path.push('.') + extension
}

/// The path with another extension.
///
/// The outside function is `std::path::Path::with_extension`. The contract claims that the
/// extension takes the place of the one that the last component has, and is added where there is no
/// dot in the path. Paths that begin with two separators, and those whose last component is no name
/// on some system or has a dot only at its start, are left unsaid.
#[verifier::external_body]
pub(crate) fn with_extension(path: &str, extension: &str) -> (res: String)
    requires
        extension@.len() > 0,
        forall|i: int| 0 <= i < extension@.len() ==> !is_separator(#[trigger] extension@[i]),
    ensures
        fits_extension(path@, extension@, res@),
{
    std::path::Path::new(path).with_extension(extension).to_string_lossy().into_owned()
}

/// A joined path begins with the directory and ends with the name.
pub proof fn joined_path_ends_with_the_name(dir: Seq<char>, name: Seq<char>, path: Seq<char>)
    requires
        !is_verbatim(dir),
        joined(dir, name, path),
    ensures
        dir.is_prefix_of(path),
        name.is_suffix_of(path),
        path.len() <= dir.len() + 1 + name.len(),
{
    assert(dir =~= path.take(dir.len() as int));
    assert(name =~= path.skip(path.len() - name.len()));
}

/// The path of a file ends with its name, in a verbatim directory too.
pub proof fn joined_path_ends_with_the_file_name(dir: Seq<char>, name: Seq<char>, path: Seq<char>)
    requires
        is_file_name(name),
        joined(dir, name, path),
    ensures
        name.is_suffix_of(path),
        dir.len() > 0 && dir.last() != ':' ==> ends_with_entry(name, path),
{
    if !is_verbatim(dir) {
        joined_path_ends_with_the_name(dir, name, path);
        if dir.len() > 0 && dir.last() != ':' {
            let at = path.len() - name.len() - 1;
            if path == dir + name {
                assert(at == dir.len() - 1);
                assert(path[at] == dir.last());
            } else {
                assert(at == dir.len());
                assert(path[at] == '/' || path[at] == '\\');
            }
        }
    }
}

/// A path that ends with a separator and a name ends with no other name that way.
pub proof fn entries_tell_names_apart(name: Seq<char>, other: Seq<char>, path: Seq<char>)
    requires
        is_file_name(name),
        is_file_name(other),
        ends_with_entry(name, path),
        ends_with_entry(other, path),
    ensures
        name == other,
{
    let n = path.len() as int;
    assert(name =~= path.skip(n - name.len()));
    assert(other =~= path.skip(n - other.len()));
    if name.len() < other.len() {
        assert(other[other.len() - name.len() - 1] == path[n - name.len() - 1]);
    }
    if other.len() < name.len() {
        assert(name[name.len() - other.len() - 1] == path[n - other.len() - 1]);
    }
}

/// Different files in a directory are different paths, in a verbatim directory too.
pub proof fn joined_paths_tell_files_apart(
    dir: Seq<char>,
    name: Seq<char>,
    other: Seq<char>,
    path: Seq<char>,
)
    requires
        is_file_name(name),
        is_file_name(other),
        joined(dir, name, path),
        joined(dir, other, path),
    ensures
        name == other,
{
    if is_verbatim(dir) {
        entries_tell_names_apart(name, other, path);
    } else {
        joined_paths_tell_names_apart(dir, name, other, path);
    }
}

/// Different names in a directory are different paths.
pub proof fn joined_paths_tell_names_apart(
    dir: Seq<char>,
    name: Seq<char>,
    other: Seq<char>,
    path: Seq<char>,
)
    requires
        !is_verbatim(dir),
        is_relative(name),
        is_relative(other),
        joined(dir, name, path),
        joined(dir, other, path),
    ensures
        name == other,
{
    let n = dir.len() as int;
    if path == dir + name {
        assert(path[n] == name[0]);
        if path != dir + other {
            assert(path[n] == '/' || path[n] == '\\');
        }
        assert(name =~= path.skip(n));
        assert(other =~= path.skip(n));
    } else {
        assert(path[n] == '/' || path[n] == '\\');
        if path == dir + other {
            assert(path[n] == other[0]);
        }
        assert(name =~= path.skip(n + 1));
        assert(other =~= path.skip(n + 1));
    }
}

/// The directory of an entry after a backslash, in a path without slashes, is that directory, or
/// the empty one on a system where a backslash is part of a name.
pub proof fn parent_of_a_backslash_entry(
    dir: Seq<char>,
    name: Seq<char>,
    path: Seq<char>,
    parent: Option<Seq<char>>,
)
    requires
        is_backslash_entry(dir, name, path),
        forall|i: int| 0 <= i < path.len() ==> #[trigger] path[i] != '/',
        fits_parent(path, parent),
    ensures
        parent == Some(dir) || parent == Some(Seq::<char>::empty()),
{
    assert(is_slash_entry(Seq::empty(), path, path));
}

/// The directory of a file in a directory is that directory.
pub proof fn parent_of_an_entry_is_its_directory(
    dir: Seq<char>,
    name: Seq<char>,
    path: Seq<char>,
    parent: Option<Seq<char>>,
)
    requires
        is_entry(dir, name, path),
        fits_parent(path, parent),
    ensures
        parent == Some(dir),
{
}

/// A name in a directory whose path ends in a name comes after one separator.
pub proof fn names_come_after_a_separator(
    dir: Seq<char>,
    name: Seq<char>,
    path: Seq<char>,
)
    requires
        joined(dir, name, path),
        !is_verbatim(dir),
        dir.len() > 0,
        dir.last() != '/' && dir.last() != '\\' && dir.last() != ':',
    ensures
        path == dir + seq!['/'] + name || path == dir + seq!['\\'] + name,
{
    assert(dir.push('/') =~= dir + seq!['/']);
    assert(dir.push('\\') =~= dir + seq!['\\']);
}

} // verus!
