//! Where files live: the raw files under `<base>/files/<group>/`, the
//! distributable artifacts under `<base>/dist/<group>/`. Paths are texts
//! whose components are separated by `/`.

use crate::manifest::{EntryView, ManifestEntry, Source, SourceView};
use crate::text::{
    chars_of, contains, contains_run, find_last, last_index_of, lemma_last_index_is,
    lemma_last_index_none, lemma_last_index_of,
};
use vstd::prelude::*;

verus! {

/// `part` adjoined to `base`. An absolute `part` (one that begins with `/`)
/// stands for itself; otherwise the two are put together, with a `/` between
/// them unless `base` is empty or already ends with one.
pub open spec fn joined(base: Seq<char>, part: Seq<char>) -> Seq<char> {
    if part.len() > 0 && part[0] == '/' {
        part
    } else if base.len() == 0 || base.last() == '/' {
        base + part
    } else {
        base + seq!['/'] + part
    }
}

/// Directory of the raw files of `group`: `<base>/files/<group>`.
pub open spec fn raw_dir_of(base: Seq<char>, group: Seq<char>) -> Seq<char> {
    joined(joined(base, "files"@), group)
}

/// Directory of the artifacts of `group`: `<base>/dist/<group>`.
pub open spec fn dist_dir_of(base: Seq<char>, group: Seq<char>) -> Seq<char> {
    joined(joined(base, "dist"@), group)
}

/// Path of the raw file of an entry: `<base>/files/<group>/<name>`.
pub open spec fn raw_path_of(base: Seq<char>, group: Seq<char>, name: Seq<char>) -> Seq<char> {
    joined(raw_dir_of(base, group), name)
}

/// Path of the file that an entry is compressed from: the raw file of a
/// remote entry, `<base>/<path>` for a local one.
pub open spec fn source_path_of(base: Seq<char>, entry: EntryView) -> Seq<char> {
    match entry.source {
        SourceView::Remote(_) => raw_path_of(base, entry.group, entry.name),
        SourceView::Local(path) => joined(base, path),
    }
}

/// The last component of `path`: what stands behind its last `/`.
pub open spec fn last_component(path: Seq<char>) -> Seq<char> {
    match last_index_of(path, '/') {
        Some(i) => path.skip(i + 1),
        None => path,
    }
}

/// The file name of `path`: its last component, unless that is empty, `.`
/// or `..`.
pub open spec fn file_name_of(path: Seq<char>) -> Option<Seq<char>> {
    let last = last_component(path);
    if last.len() == 0 || last == seq!['.'] || last == seq!['.', '.'] {
        None
    } else {
        Some(last)
    }
}

/// The extension of a file name: what stands behind its last `.`, unless
/// the name has no `.` or only one at its very beginning.
pub open spec fn extension_of(name: Seq<char>) -> Option<Seq<char>> {
    match last_index_of(name, '.') {
        Some(i) => if i > 0 {
            Some(name.skip(i + 1))
        } else {
            None
        },
        None => None,
    }
}

/// The stem of a file name: what stands in front of its extension.
pub open spec fn stem_of(name: Seq<char>) -> Seq<char> {
    match last_index_of(name, '.') {
        Some(i) => if i > 0 {
            name.take(i)
        } else {
            name
        },
        None => name,
    }
}

/// Why no artifact can be made from a source file.
#[derive(Debug, Clone, Copy, PartialEq, Eq, Structural)]
pub enum LayoutError {
    /// The path of the source file names no file.
    MissingFileName,
    /// The name of the source file has no extension.
    MissingExtension,
}

/// Name of the artifact made from the file at `source`:
/// `<stem>.<extension>.gz`.
pub open spec fn artifact_name_of(source: Seq<char>) -> Result<Seq<char>, LayoutError> {
    match file_name_of(source) {
        None => Err(LayoutError::MissingFileName),
        Some(name) => match extension_of(name) {
            None => Err(LayoutError::MissingExtension),
            Some(ext) => Ok(stem_of(name) + seq!['.'] + ext + ".gz"@),
        },
    }
}

/// Path of the artifact made from the file at `source`, placed in
/// `dist_dir`.
pub open spec fn artifact_path_of(source: Seq<char>, dist_dir: Seq<char>) -> Result<
    Seq<char>,
    LayoutError,
> {
    match artifact_name_of(source) {
        Ok(name) => Ok(joined(dist_dir, name)),
        Err(e) => Err(e),
    }
}

/// Whether the file at `path` is removed once it has been compressed: its
/// path holds the text `dist`.
pub open spec fn is_transient(path: Seq<char>) -> bool {
    contains_run(path, "dist"@)
}

/// Adjoins `part` to `base`.
pub fn join(base: &str, part: &str) -> (path: String)
    ensures
        path@ == joined(base@, part@),
{
    let b = chars_of(base);
    let p = chars_of(part);
    if p.len() > 0 && p[0] == '/' {
        part.to_owned()
    } else if b.len() == 0 || b[b.len() - 1] == '/' {
        let mut path = base.to_owned();
        path.append(part);
        path
    } else {
        let mut path = base.to_owned();
        proof {
            reveal_strlit("/");
            assert("/"@ =~= seq!['/']);
        }
        path.append("/");
        path.append(part);
        path
    }
}

/// Directory of the raw files of `group`.
pub fn raw_dir(base: &str, group: &str) -> (dir: String)
    ensures
        dir@ == raw_dir_of(base@, group@),
{
    let files = join(base, "files");
    join(files.as_str(), group)
}

/// Directory of the artifacts of `group`.
pub fn dist_dir(base: &str, group: &str) -> (dir: String)
    ensures
        dir@ == dist_dir_of(base@, group@),
{
    let dist = join(base, "dist");
    join(dist.as_str(), group)
}

/// Path of the raw file of an entry.
pub fn raw_path(base: &str, group: &str, name: &str) -> (path: String)
    ensures
        path@ == raw_path_of(base@, group@, name@),
{
    let dir = raw_dir(base, group);
    join(dir.as_str(), name)
}

/// Path of the file that `entry` is compressed from.
pub fn source_path(base: &str, entry: &ManifestEntry) -> (path: String)
    ensures
        path@ == source_path_of(base@, entry@),
{
    match &entry.source {
        Source::Remote(_) => raw_path(base, entry.group.as_str(), entry.name.as_str()),
        Source::Local(path) => join(base, path.as_str()),
    }
}

/// Name of the artifact made from the file at `source`.
pub fn artifact_name(source: &str) -> (r: Result<String, LayoutError>)
    ensures
        match r {
            Ok(name) => artifact_name_of(source@) == Ok::<Seq<char>, LayoutError>(name@),
            Err(e) => artifact_name_of(source@) == Err::<Seq<char>, LayoutError>(e),
        },
{
    let chars = chars_of(source);
    let start: usize = match find_last(&chars, '/') {
        Some(i) => i + 1,
        None => 0,
    };
    let len: usize = chars.len() - start;
    let ghost last = last_component(source@);
    assert(last =~= chars@.subrange(start as int, chars.len() as int));
    if len == 0 || (len == 1 && chars[start] == '.') || (len == 2 && chars[start] == '.'
        && chars[start + 1] == '.') {
        proof {
            if len == 1 {
                assert(last =~= seq!['.']);
            }
            if len == 2 {
                assert(last =~= seq!['.', '.']);
            }
        }
        return Err(LayoutError::MissingFileName);
    }
    proof {
        if last == seq!['.'] {
            assert(last.len() == 1 && last[0] == '.');
        }
        if last == seq!['.', '.'] {
            assert(last.len() == 2 && last[0] == '.' && last[1] == '.');
        }
    }
    let name = source.substring_char(start, chars.len());
    let name_chars = chars_of(name);
    match find_last(&name_chars, '.') {
        Some(dot) => {
            if dot == 0 {
                return Err(LayoutError::MissingExtension);
            }
            let stem = name.substring_char(0, dot);
            let ext = name.substring_char(dot + 1, name_chars.len());
            proof {
                reveal_strlit(".");
                assert("."@ =~= seq!['.']);
                assert(name@.take(dot as int) =~= name@.subrange(0, dot as int));
                assert(name@.skip(dot + 1) =~= name@.subrange(dot + 1, name@.len() as int));
            }
            let mut out = stem.to_owned();
            out.append(".");
            out.append(ext);
            out.append(".gz");
            Ok(out)
        },
        None => Err(LayoutError::MissingExtension),
    }
}

/// Path of the artifact made from the file at `source`, placed in
/// `dist_dir`.
pub fn artifact_path(source: &str, dist_dir: &str) -> (r: Result<String, LayoutError>)
    ensures
        match r {
            Ok(path) => artifact_path_of(source@, dist_dir@) == Ok::<Seq<char>, LayoutError>(path@),
            Err(e) => artifact_path_of(source@, dist_dir@) == Err::<Seq<char>, LayoutError>(e),
        },
{
    match artifact_name(source) {
        Ok(name) => Ok(join(dist_dir, name.as_str())),
        Err(e) => Err(e),
    }
}

/// Whether the file at `path` is removed once it has been compressed.
pub fn removes_source(path: &str) -> (r: bool)
    ensures
        r == is_transient(path@),
{
    let hay = chars_of(path);
    let needle = chars_of("dist");
    contains(&hay, &needle)
}

/// A name with an extension is its stem, a `.` and its extension, so the
/// name of an artifact is the name of its source file with `.gz` behind it.
pub proof fn lemma_artifact_name_appends_gz(source: Seq<char>)
    requires
        artifact_name_of(source) is Ok,
    ensures
        artifact_name_of(source) == Ok::<Seq<char>, LayoutError>(
            file_name_of(source)->Some_0 + ".gz"@,
        ),
{
    let name = file_name_of(source)->Some_0;
    lemma_last_index_of(name, '.');
    let i = last_index_of(name, '.')->Some_0;
    assert(name.take(i) + seq!['.'] + name.skip(i + 1) =~= name);
}

/// A plain name adjoined to a directory is the last component of the path.
pub proof fn lemma_last_component_of_joined(dir: Seq<char>, name: Seq<char>)
    requires
        name.len() > 0,
        forall|j: int| 0 <= j < name.len() ==> name[j] != '/',
    ensures
        last_component(joined(dir, name)) == name,
{
    let path = joined(dir, name);
    if dir.len() == 0 {
        assert(path =~= name);
        lemma_last_index_none(path, '/');
    } else if dir.last() == '/' {
        lemma_last_index_is(path, '/', dir.len() - 1);
        assert(path.skip(dir.len() as int) =~= name);
    } else {
        lemma_last_index_is(path, '/', dir.len() as int);
        assert(path.skip(dir.len() as int + 1) =~= name);
    }
}

/// The artifact of a file with a plain name `name`, a name with an
/// extension and without `/`, lies in `dist_dir` under that name with `.gz`
/// behind it, whatever directory the file lies in.
pub proof fn lemma_artifact_of_plain_name(dir: Seq<char>, name: Seq<char>, dist_dir: Seq<char>)
    requires
        name.len() > 0,
        forall|j: int| 0 <= j < name.len() ==> name[j] != '/',
        name != seq!['.', '.'],
        extension_of(name) is Some,
    ensures
        artifact_path_of(joined(dir, name), dist_dir) == Ok::<Seq<char>, LayoutError>(
            joined(dist_dir, name + ".gz"@),
        ),
{
    lemma_last_component_of_joined(dir, name);
    lemma_last_index_of(name, '.');
    if name == seq!['.'] {
        assert(name.len() == 1);
    }
    lemma_artifact_name_appends_gz(joined(dir, name));
}

/// Under a base directory that is not empty and does not end with `/`, for
/// a name that is not empty and does not begin with `/`, and for such a
/// group that does not end with `/` either, the raw file lies at
/// `<base>/files/<group>/<name>` and the artifacts of the group lie in
/// `<base>/dist/<group>`.
pub proof fn lemma_plain_layout(base: Seq<char>, group: Seq<char>, name: Seq<char>)
    requires
        base.len() > 0 && base.last() != '/',
        group.len() > 0 && group[0] != '/' && group.last() != '/',
        name.len() > 0 && name[0] != '/',
    ensures
        raw_dir_of(base, group) == base + "/files/"@ + group,
        dist_dir_of(base, group) == base + "/dist/"@ + group,
        raw_path_of(base, group, name) == base + "/files/"@ + group + "/"@ + name,
{
    reveal_strlit("files");
    reveal_strlit("dist");
    reveal_strlit("/files/");
    reveal_strlit("/dist/");
    reveal_strlit("/");
    let files = joined(base, "files"@);
    assert(files =~= base + seq!['/'] + "files"@);
    assert(files.last() == 's');
    let dist = joined(base, "dist"@);
    assert(dist =~= base + seq!['/'] + "dist"@);
    assert(dist.last() == 't');
    assert(raw_dir_of(base, group) =~= base + "/files/"@ + group);
    assert(dist_dir_of(base, group) =~= base + "/dist/"@ + group);
    assert(raw_dir_of(base, group).last() == group.last());
    assert(raw_path_of(base, group, name) =~= base + "/files/"@ + group + "/"@ + name);
}

/// The artifact of a remote entry lies at `<base>/dist/<group>/<name>.gz`,
/// where the base directory and the group are as in
/// [`lemma_plain_layout`] and the name is a plain name with an extension.
pub proof fn lemma_remote_artifact(base: Seq<char>, entry: EntryView)
    requires
        entry.source is Remote,
        base.len() > 0 && base.last() != '/',
        entry.group.len() > 0 && entry.group[0] != '/' && entry.group.last() != '/',
        entry.name.len() > 0,
        forall|j: int| 0 <= j < entry.name.len() ==> entry.name[j] != '/',
        entry.name != seq!['.', '.'],
        extension_of(entry.name) is Some,
    ensures
        artifact_path_of(source_path_of(base, entry), dist_dir_of(base, entry.group)) == Ok::<
            Seq<char>,
            LayoutError,
        >(base + "/dist/"@ + entry.group + "/"@ + entry.name + ".gz"@),
{
    let dist = dist_dir_of(base, entry.group);
    lemma_plain_layout(base, entry.group, entry.name);
    lemma_artifact_of_plain_name(raw_dir_of(base, entry.group), entry.name, dist);
    reveal_strlit("/");
    reveal_strlit(".gz");
    assert(dist.last() == entry.group.last());
    assert(joined(dist, entry.name + ".gz"@) =~= base + "/dist/"@ + entry.group + "/"@
        + entry.name + ".gz"@);
}

} // verus!
