//! The build context as an archive: which walked entries it holds, under
//! which names, and the compressed tar image of the chosen files.
use std::io::Write;
use vstd::prelude::*;

use crate::ignore::{excluded_by, Dockerignore};
use crate::text::{chars_of, push_char};

verus! {

/// `path` with every `\` turned into `/`.
pub open spec fn normalized(path: Seq<char>) -> Seq<char> {
    path.map_values(|c: char| if c == '\\' { '/' } else { c })
}

/// Turns the separators of a host path into `/`.
pub fn normalize_separators(path: &str) -> (r: String)
    ensures
        r@ == normalized(path@),
{
    let cs = chars_of(path);
    let mut out = String::new();
    let mut i: usize = 0;
    while i < cs.len()
        invariant
            i <= cs@.len(),
            cs@ == path@,
            out@ == normalized(cs@.subrange(0, i as int)),
        decreases cs@.len() - i,
    {
        let c = cs[i];
        let d = if c == '\\' {
            '/'
        } else {
            c
        };
        push_char(&mut out, d);
        assert(normalized(cs@.subrange(0, i + 1)) =~= normalized(cs@.subrange(0, i as int)).push(d));
        i = i + 1;
    }
    assert(cs@.subrange(0, i as int) =~= cs@);
    out
}

/// One entry of the walk of a build context: its path relative to the
/// context root, in the host's form, and whether it is a regular file.
pub struct WalkEntry {
    pub rel_path: String,
    pub is_file: bool,
}

impl View for WalkEntry {
    type V = (Seq<char>, bool);

    open spec fn view(&self) -> (Seq<char>, bool) {
        (self.rel_path@, self.is_file)
    }
}

/// Whether `name` names a path below the archive root: it is not empty, not
/// `.`, and not absolute.
pub open spec fn below_root(name: Seq<char>) -> bool {
    name.len() > 0 && name[0] != '/' && name != seq!['.']
}

/// Whether `name` names a path below the archive root.
pub fn is_below_root(name: &str) -> (r: bool)
    ensures
        r == below_root(name@),
{
    let cs = chars_of(name);
    if cs.len() == 0 || cs[0] == '/' {
        return false;
    }
    if cs.len() == 1 && cs[0] == '.' {
        assert(cs@ =~= seq!['.']);
        return false;
    }
    assert(cs@.len() != 1 ==> cs@ != seq!['.']);
    true
}

/// Whether the walked entry `e` goes into the archive: it is a regular file
/// below the root, and the rules, if any, do not exclude its path.
pub open spec fn kept(e: (Seq<char>, bool), rules: Option<Seq<(Seq<char>, bool)>>) -> bool {
    &&& below_root(normalized(e.0))
    &&& e.1
    &&& match rules {
        Some(r) => !excluded_by(r, normalized(e.0)),
        None => true,
    }
}

/// The archive names of the entries of `entries` that are kept, in walk order.
pub open spec fn selected(
    entries: Seq<(Seq<char>, bool)>,
    rules: Option<Seq<(Seq<char>, bool)>>,
) -> Seq<Seq<char>>
    decreases entries.len(),
{
    if entries.len() == 0 {
        Seq::empty()
    } else if kept(entries.last(), rules) {
        selected(entries.drop_last(), rules).push(normalized(entries.last().0))
    } else {
        selected(entries.drop_last(), rules)
    }
}

/// The view of optional rules.
pub open spec fn rules_view(rules: &Option<Dockerignore>) -> Option<Seq<(Seq<char>, bool)>> {
    match rules {
        Some(d) => Some(d@),
        None => None,
    }
}

/// The archive names of the walked entries that go into the archive, in walk
/// order, with `/` as separator.
pub fn select_entries(entries: &Vec<WalkEntry>, rules: &Option<Dockerignore>) -> (r: Vec<String>)
    ensures
        r@.map_values(|s: String| s@) == selected(
            entries@.map_values(|e: WalkEntry| e@),
            rules_view(rules),
        ),
{
    let ghost es = entries@.map_values(|e: WalkEntry| e@);
    let mut out: Vec<String> = Vec::new();
    let mut i: usize = 0;
    while i < entries.len()
        invariant
            i <= entries@.len(),
            es == entries@.map_values(|e: WalkEntry| e@),
            out@.map_values(|s: String| s@) == selected(es.subrange(0, i as int), rules_view(rules)),
        decreases entries@.len() - i,
    {
        let e = &entries[i];
        assert(es.subrange(0, i + 1).drop_last() =~= es.subrange(0, i as int));
        assert(es.subrange(0, i + 1).last() == e@);
        if e.is_file {
            let name = normalize_separators(e.rel_path.as_str());
            let keep = is_below_root(name.as_str()) && match rules {
                Some(d) => !d.is_ignored(name.as_str()),
                None => true,
            };
            if keep {
                let ghost before = out@;
                out.push(name);
                assert(out@.map_values(|s: String| s@) =~= before.map_values(|s: String| s@).push(
                    name@,
                ));
            }
        }
        i = i + 1;
    }
    assert(es.subrange(0, i as int) =~= es);
    out
}

/// Every archive name is a path below the root (not empty, not `.`, not
/// absolute) and uses `/` alone as separator.
pub proof fn lemma_selected_names_use_slash(
    entries: Seq<(Seq<char>, bool)>,
    rules: Option<Seq<(Seq<char>, bool)>>,
)
    ensures
        forall|k: int|
            0 <= k < selected(entries, rules).len() ==> {
                let name = #[trigger] selected(entries, rules)[k];
                &&& below_root(name)
                &&& forall|m: int| 0 <= m < name.len() ==> name[m] != '\\'
            },
    decreases entries.len(),
{
    if entries.len() > 0 {
        let prev = entries.drop_last();
        lemma_selected_names_use_slash(prev, rules);
        let last = normalized(entries.last().0);
        assert forall|m: int| 0 <= m < last.len() implies last[m] != '\\' by {}
        assert forall|k: int| 0 <= k < selected(prev, rules).len() implies #[trigger] selected(
            entries,
            rules,
        )[k] == selected(prev, rules)[k] by {}
    }
}

/// An entry is named in the archive exactly when the walk holds it and it is
/// kept; its name is its path with `/` separators.
pub proof fn lemma_selected_is_filter(
    entries: Seq<(Seq<char>, bool)>,
    rules: Option<Seq<(Seq<char>, bool)>>,
    name: Seq<char>,
)
    ensures
        selected(entries, rules).contains(name) <==> exists|i: int|
            0 <= i < entries.len() && kept(#[trigger] entries[i], rules) && normalized(entries[i].0)
                == name,
    decreases entries.len(),
{
    if entries.len() > 0 {
        let prev = entries.drop_last();
        lemma_selected_is_filter(prev, rules, name);
        let n = entries.len() - 1;
        if selected(entries, rules).contains(name) {
            if selected(prev, rules).contains(name) {
                let i = choose|i: int|
                    0 <= i < prev.len() && kept(#[trigger] prev[i], rules) && normalized(prev[i].0)
                        == name;
                assert(entries[i] == prev[i]);
            } else {
                let s = selected(prev, rules);
                let k = choose|k: int| 0 <= k < selected(entries, rules).len() && selected(entries, rules)[k] == name;
                if k < s.len() {
                    assert(s.contains(name));
                }
                assert(kept(entries[n], rules));
            }
        }
        if exists|i: int|
            0 <= i < entries.len() && kept(#[trigger] entries[i], rules) && normalized(entries[i].0)
                == name {
            let i = choose|i: int|
                0 <= i < entries.len() && kept(#[trigger] entries[i], rules) && normalized(
                    entries[i].0,
                ) == name;
            if i < n {
                assert(prev[i] == entries[i]);
                let s = selected(prev, rules);
                let k = choose|k: int| 0 <= k < s.len() && s[k] == name;
                if kept(entries.last(), rules) {
                    assert(selected(entries, rules)[k] == name);
                }
            } else {
                assert(selected(entries, rules).last() == name);
            }
        }
    }
}

/// One file of the archive: its name, permission bits, modification time
/// (seconds since the epoch) and content.
pub struct ArchiveFile {
    pub name: String,
    pub mode: u32,
    pub mtime: u64,
    pub data: Vec<u8>,
}

impl View for ArchiveFile {
    type V = (Seq<char>, u32, u64, Seq<u8>);

    open spec fn view(&self) -> (Seq<char>, u32, u64, Seq<u8>) {
        (self.name@, self.mode, self.mtime, self.data@)
    }
}

#[verifier::external_type_specification]
#[verifier::external_body]
pub struct ExIoError(std::io::Error);

/// A tar archive being written into memory.
#[verifier::external_body]
pub struct TarBuffer {
    inner: tar::Builder<Vec<u8>>,
}

/// A gzip stream being written into memory.
#[verifier::external_body]
pub struct GzBuffer {
    inner: flate2::write::GzEncoder<Vec<u8>>,
}

/// The regular-file entries `(name, mode, mtime, content)` appended to a tar
/// builder so far.
pub uninterp spec fn tar_entries(b: TarBuffer) -> Seq<(Seq<char>, u32, u64, Seq<u8>)>;

/// The bytes of the finished tar archive that holds `entries`, in order.
pub uninterp spec fn tar_image(entries: Seq<(Seq<char>, u32, u64, Seq<u8>)>) -> Seq<u8>;

/// The bytes written so far into a gzip encoder.
pub uninterp spec fn gz_input(e: GzBuffer) -> Seq<u8>;

/// Whether tar takes `name` as the path of an entry: the name is relative,
/// has no `..` component, no nul byte, and fits a GNU header or its long-name
/// extension.
pub uninterp spec fn tar_path_ok(name: Seq<char>) -> bool;

/// The gzip stream, at the default compression level, of `data`.
pub uninterp spec fn gzip_of(data: Seq<u8>) -> Seq<u8>;

/// Relies on `tar::Builder::new`: a builder over an empty buffer holds no entry.
#[verifier::external_body]
fn tar_new() -> (r: TarBuffer)
    ensures
        tar_entries(r) == Seq::<(Seq<char>, u32, u64, Seq<u8>)>::empty(),
{
    TarBuffer { inner: tar::Builder::new(Vec::new()) }
}

/// Relies on `tar::Builder::append_data`: it refuses an entry by its path
/// alone, since writing into a `Vec` does not fail; on success the builder
/// holds one more regular-file entry, with this header and content.
#[verifier::external_body]
fn tar_append(b: &mut TarBuffer, file: &ArchiveFile) -> (r: Result<(), std::io::Error>)
    ensures
        r is Ok <==> tar_path_ok(file.name@),
        r is Ok ==> tar_entries(*final(b)) == tar_entries(*old(b)).push(file@),
{
    let mut header = tar::Header::new_gnu();
    header.set_entry_type(tar::EntryType::Regular);
    header.set_size(file.data.len() as u64);
    header.set_mode(file.mode);
    header.set_mtime(file.mtime);
    b.inner.append_data(&mut header, file.name.as_str(), file.data.as_slice())
}

/// Relies on `tar::Builder::into_inner`: it writes the end of the archive,
/// which cannot fail on a `Vec`, and hands back the buffer.
#[verifier::external_body]
fn tar_finish(b: TarBuffer) -> (r: Result<Vec<u8>, std::io::Error>)
    ensures
        r is Ok,
        r matches Ok(v) ==> v@ == tar_image(tar_entries(b)),
{
    b.inner.into_inner()
}

/// Relies on `flate2::write::GzEncoder::new`, at `Compression::default()`.
#[verifier::external_body]
fn gz_new() -> (r: GzBuffer)
    ensures
        gz_input(r) == Seq::<u8>::empty(),
{
    GzBuffer { inner: flate2::write::GzEncoder::new(Vec::new(), flate2::Compression::default()) }
}

/// Relies on `Write::write_all` of `GzEncoder`: over a `Vec` it does not
/// fail, and all of `data` is taken in.
#[verifier::external_body]
fn gz_write_all(e: &mut GzBuffer, data: &Vec<u8>) -> (r: Result<
    (),
    std::io::Error,
>)
    ensures
        r is Ok,
        r is Ok ==> gz_input(*final(e)) == gz_input(*old(e)) + data@,
{
    e.inner.write_all(data.as_slice())
}

/// Relies on `flate2::write::GzEncoder::finish`: it ends the stream, which
/// cannot fail on a `Vec`, and hands back the compressed bytes.
#[verifier::external_body]
fn gz_finish(e: GzBuffer) -> (r: Result<Vec<u8>, std::io::Error>)
    ensures
        r is Ok,
        r matches Ok(v) ==> v@ == gzip_of(gz_input(e)),
{
    e.inner.finish()
}

/// A failure to write the archive. Over in-memory buffers only `Append`
/// arises, as the contract of `build_tar_gz` states.
#[derive(Debug)]
pub enum ArchiveError {
    /// The file named `name` could not be appended.
    Append { name: String, cause: std::io::Error },
    /// The tar archive could not be finished.
    Finish(std::io::Error),
    /// The archive could not be compressed.
    Compress(std::io::Error),
}

/// Packs `files`, in order, into a tar archive, and compresses it as a whole.
/// It succeeds exactly when tar takes every name; the result is then the
/// gzip stream of the tar image of the files. Otherwise it names the first
/// file that tar refuses.
pub fn build_tar_gz(files: &Vec<ArchiveFile>) -> (r: Result<Vec<u8>, ArchiveError>)
    ensures
        r is Ok <==> forall|k: int| 0 <= k < files@.len() ==> tar_path_ok(#[trigger] files@[k].name@),
        r matches Ok(v) ==> v@ == gzip_of(tar_image(files@.map_values(|f: ArchiveFile| f@))),
        r matches Err(e) ==> exists|k: int|
            0 <= k < files@.len() && !tar_path_ok(#[trigger] files@[k].name@) && (forall|m: int|
                0 <= m < k ==> tar_path_ok(#[trigger] files@[m].name@)) && (
            e matches ArchiveError::Append { name, .. } && name@ == files@[k].name@),
{
    let mut builder = tar_new();
    let mut i: usize = 0;
    while i < files.len()
        invariant
            i <= files@.len(),
            tar_entries(builder) == files@.subrange(0, i as int).map_values(|f: ArchiveFile| f@),
            forall|k: int| 0 <= k < i ==> tar_path_ok(#[trigger] files@[k].name@),
        decreases files@.len() - i,
    {
        let file = &files[i];
        match tar_append(&mut builder, file) {
            Ok(()) => {},
            Err(cause) => {
                let name = file.name.clone();
                return Err(ArchiveError::Append { name, cause });
            },
        }
        assert(files@.subrange(0, i + 1).map_values(|f: ArchiveFile| f@) =~= files@.subrange(
            0,
            i as int,
        ).map_values(|f: ArchiveFile| f@).push(file@));
        i = i + 1;
    }
    assert(files@.subrange(0, i as int) =~= files@);
    let tar = match tar_finish(builder) {
        Ok(v) => v,
        Err(e) => {
            return Err(ArchiveError::Finish(e));
        },
    };
    let mut encoder = gz_new();
    match gz_write_all(&mut encoder, &tar) {
        Ok(()) => {},
        Err(e) => {
            return Err(ArchiveError::Compress(e));
        },
    }
    assert(Seq::<u8>::empty() + tar@ =~= tar@);
    match gz_finish(encoder) {
        Ok(v) => Ok(v),
        Err(e) => Err(ArchiveError::Compress(e)),
    }
}

} // verus!
