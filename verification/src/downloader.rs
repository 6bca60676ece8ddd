//! Acquisition support: path helpers, in-memory archive decoding (behind
//! trusted readers for the gzip/tar and zip crates), and the planning of
//! the directory creations and file writes that extraction performs.  The
//! planned actions are values; performing them on disk is the caller's job.

use std::io::Read;
use vstd::prelude::*;
use crate::errors::AcquisitionError;
use crate::strutil::{contains_seq, str_contains};

verus! {

/// Relies on `std::path::Path::exists`: probes the file system, so nothing
/// can be promised of the result.
#[verifier::external_body]
pub fn path_exists(path: &str) -> bool {
    std::path::Path::new(path).exists()
}

/// `i` is the position of the last separator in `s`.
pub open spec fn is_last_sep(s: Seq<char>, i: int) -> bool {
    0 <= i < s.len() && s[i] == '/' && forall|j: int| i < j < s.len() ==> s[j] != '/'
}

/// The directory prefix of `s` before its final separator: `None` when `s`
/// has no separator or is the root itself, the leading `/` alone when the
/// final separator starts the string.
pub open spec fn parent_dir_spec(s: Seq<char>) -> Option<Seq<char>> {
    if forall|i: int| 0 <= i < s.len() ==> #[trigger] s[i] != '/' {
        None
    } else {
        let i = choose|i: int| is_last_sep(s, i);
        if i == 0 {
            if s.len() == 1 {
                None
            } else {
                Some(s.subrange(0, 1))
            }
        } else {
            Some(s.subrange(0, i))
        }
    }
}

/// The directory a path sits in: the prefix before the last `/`, the root
/// `/` itself for a path directly under it, `None` for the root or for a
/// path without separators.
pub fn get_parent_directory(path: &str) -> (r: Option<String>)
    ensures
        match r {
            Some(p) => parent_dir_spec(path@) matches Some(m) && p@ == m,
            None => parent_dir_spec(path@) is None,
        },
{
    let len = path.unicode_len();
    let mut i: usize = len;
    while i > 0
        invariant
            i <= len,
            len == path@.len(),
            forall|j: int| i <= j < len ==> #[trigger] path@[j] != '/',
        decreases i,
    {
        if path.get_char(i - 1) == '/' {
            let k = i - 1;
            proof {
                assert(is_last_sep(path@, k as int));
                let w = choose|w: int| is_last_sep(path@, w);
                assert(w == k as int) by {
                    if w < k as int {
                        assert(path@[k as int] == '/');
                    } else if w > k as int {
                        assert(path@[w] != '/');
                    }
                }
            }
            if k == 0 {
                if len == 1 {
                    return None;
                }
                return Some(String::from_str(path.substring_char(0, 1)));
            }
            return Some(String::from_str(path.substring_char(0, k)));
        }
        i = i - 1;
    }
    None
}

/// One entry of a gzipped tar archive, decoded in memory: its path inside
/// the archive, its contents, whether it is a directory, and its recorded
/// permission bits.
pub struct TarEntryData {
    pub name: String,
    pub data: Vec<u8>,
    pub is_dir: bool,
    pub mode: u32,
}

impl View for TarEntryData {
    type V = (Seq<char>, Seq<u8>, bool, u32);

    open spec fn view(&self) -> (Seq<char>, Seq<u8>, bool, u32) {
        (self.name@, self.data@, self.is_dir, self.mode)
    }
}

/// One entry of a zip archive, decoded in memory: its name inside the
/// archive and its contents.
pub struct ZipEntryData {
    pub name: String,
    pub data: Vec<u8>,
}

impl View for ZipEntryData {
    type V = (Seq<char>, Seq<u8>);

    open spec fn view(&self) -> (Seq<char>, Seq<u8>) {
        (self.name@, self.data@)
    }
}

/// What a gzipped tar stream holds: its entries in archive order, or
/// `None` when the bytes are not a valid gzipped tar stream.
pub uninterp spec fn tar_gz_entries_of(b: Seq<u8>) -> Option<
    Seq<(Seq<char>, Seq<u8>, bool, u32)>,
>;

/// Relies on `flate2::read::GzDecoder` and `tar::Archive`: decoding a
/// gzipped tar stream held in memory is a function of the bytes alone, and
/// fails exactly on invalid input.
#[verifier::external_body]
fn read_tar_gz(bytes: &Vec<u8>) -> (r: Result<Vec<TarEntryData>, String>)
    ensures
        match r {
            Ok(v) => tar_gz_entries_of(bytes@) == Some(
                v@.map_values(|e: TarEntryData| e@),
            ),
            Err(_) => tar_gz_entries_of(bytes@) is None,
        },
{
    let f = |e: std::io::Error| e.to_string();
    let mut archive = tar::Archive::new(flate2::read::GzDecoder::new(bytes.as_slice()));
    let mut out: Vec<TarEntryData> = Vec::new();
    for entry in archive.entries().map_err(f)? {
        let mut entry = entry.map_err(f)?;
        let name = String::from_utf8_lossy(&entry.path_bytes()).into_owned();
        let is_dir = entry.header().entry_type().is_dir();
        let mode = entry.header().mode().map_err(f)?;
        let mut data: Vec<u8> = Vec::new();
        entry.read_to_end(&mut data).map_err(f)?;
        out.push(TarEntryData { name, data, is_dir, mode });
    }
    Ok(out)
}

/// What a zip archive holds: its entries in index order, or `None` when
/// the bytes are not a valid zip archive.
pub uninterp spec fn zip_entries_of(b: Seq<u8>) -> Option<Seq<(Seq<char>, Seq<u8>)>>;

/// Relies on `zip::ZipArchive`: parsing a zip archive held in memory is a
/// function of the bytes alone, and fails exactly on invalid input.
#[verifier::external_body]
fn read_zip(bytes: &Vec<u8>) -> (r: Result<Vec<ZipEntryData>, String>)
    ensures
        match r {
            Ok(v) => zip_entries_of(bytes@) == Some(v@.map_values(|e: ZipEntryData| e@)),
            Err(_) => zip_entries_of(bytes@) is None,
        },
{
    let cursor = std::io::Cursor::new(bytes.as_slice());
    let mut archive = zip::ZipArchive::new(cursor).map_err(|e| e.to_string())?;
    let mut out: Vec<ZipEntryData> = Vec::new();
    for i in 0..archive.len() {
        let mut file = archive.by_index(i).map_err(|e| e.to_string())?;
        let name = file.name().to_string();
        let mut data: Vec<u8> = Vec::new();
        file.read_to_end(&mut data).map_err(|e| e.to_string())?;
        out.push(ZipEntryData { name, data });
    }
    Ok(out)
}

/// Joins a directory and a name with the Unix separator.
pub fn join_path(root: &str, name: &str) -> (r: String)
    ensures
        r@ == root@ + "/"@ + name@,
{
    let mut s = String::from_str(root);
    s.append("/");
    s.append(name);
    s
}

fn clone_bytes(v: &Vec<u8>) -> (r: Vec<u8>)
    ensures
        r@ == v@,
{
    let r = v.clone();
    proof {
        assert(r@ =~= v@);
    }
    r
}

/// One planned file write: destination path, contents, and whether the
/// execute permission is to be set.
pub struct WriteAction {
    pub path: String,
    pub bytes: Vec<u8>,
    pub executable: bool,
}

impl View for WriteAction {
    type V = (Seq<char>, Seq<u8>, bool);

    open spec fn view(&self) -> (Seq<char>, Seq<u8>, bool) {
        (self.path@, self.bytes@, self.executable)
    }
}

/// The planned effect of one acquisition: directories to create (in
/// order), then files to write.
pub struct AcquirePlan {
    pub dirs: Vec<String>,
    pub files: Vec<WriteAction>,
}

/// The directories of a plan, as values.
pub open spec fn plan_dirs_view(p: AcquirePlan) -> Seq<Seq<char>> {
    p.dirs@.map_values(|d: String| d@)
}

/// The file writes of a plan, as values.
pub open spec fn plan_files_view(p: AcquirePlan) -> Seq<(Seq<char>, Seq<u8>, bool)> {
    p.files@.map_values(|w: WriteAction| w@)
}

/// The file writes extracting tar entries under `root` performs: one write
/// per non-directory entry, in archive order, with the execute permission
/// taken from the entry's recorded mode bits.
pub open spec fn tar_write_actions(
    es: Seq<(Seq<char>, Seq<u8>, bool, u32)>,
    root: Seq<char>,
) -> Seq<(Seq<char>, Seq<u8>, bool)>
    decreases es.len(),
{
    if es.len() == 0 {
        Seq::empty()
    } else {
        let rest = tar_write_actions(es.drop_last(), root);
        let e = es.last();
        if e.2 {
            rest
        } else {
            rest.push((root + "/"@ + e.0, e.1, e.3 & 0o111u32 != 0u32))
        }
    }
}

/// The directories extracting tar entries under `root` creates, in archive
/// order.
pub open spec fn tar_dir_paths(
    es: Seq<(Seq<char>, Seq<u8>, bool, u32)>,
    root: Seq<char>,
) -> Seq<Seq<char>>
    decreases es.len(),
{
    if es.len() == 0 {
        Seq::empty()
    } else {
        let rest = tar_dir_paths(es.drop_last(), root);
        let e = es.last();
        if e.2 {
            rest.push(root + "/"@ + e.0)
        } else {
            rest
        }
    }
}

/// Plans the extraction of already-decoded tar entries under
/// `extract_path`: the extraction directory itself, the directory entries,
/// and one write per file entry.
pub fn plan_tar_entries(entries: &Vec<TarEntryData>, extract_path: &str) -> (r: AcquirePlan)
    ensures
        plan_dirs_view(r) == seq![extract_path@] + tar_dir_paths(
            entries@.map_values(|e: TarEntryData| e@),
            extract_path@,
        ),
        plan_files_view(r) == tar_write_actions(
            entries@.map_values(|e: TarEntryData| e@),
            extract_path@,
        ),
{
    let ghost m = entries@.map_values(|e: TarEntryData| e@);
    let mut dirs: Vec<String> = Vec::new();
    dirs.push(String::from_str(extract_path));
    let mut files: Vec<WriteAction> = Vec::new();
    proof {
        assert(dirs@.map_values(|d: String| d@) =~= seq![extract_path@] + tar_dir_paths(
            m.take(0),
            extract_path@,
        ));
        assert(files@.map_values(|w: WriteAction| w@) =~= tar_write_actions(
            m.take(0),
            extract_path@,
        ));
    }
    let mut i: usize = 0;
    while i < entries.len()
        invariant
            i <= entries.len(),
            m == entries@.map_values(|e: TarEntryData| e@),
            dirs@.map_values(|d: String| d@) == seq![extract_path@] + tar_dir_paths(
                m.take(i as int),
                extract_path@,
            ),
            files@.map_values(|w: WriteAction| w@) == tar_write_actions(
                m.take(i as int),
                extract_path@,
            ),
        decreases entries.len() - i,
    {
        let e = &entries[i];
        let full = join_path(extract_path, e.name.as_str());
        proof {
            assert(m.take(i as int + 1).drop_last() =~= m.take(i as int));
            assert(m.take(i as int + 1).last() == m[i as int]);
            assert(m[i as int] == entries@[i as int]@);
        }
        if e.is_dir {
            let ghost dirs_map0 = dirs@.map_values(|d: String| d@);
            dirs.push(full);
            proof {
                assert(dirs@.map_values(|d: String| d@) =~= dirs_map0.push(full@));
                assert(dirs@.map_values(|d: String| d@) =~= seq![extract_path@]
                    + tar_dir_paths(m.take(i as int + 1), extract_path@));
            }
        } else {
            let data = clone_bytes(&e.data);
            let executable = e.mode & 0o111 != 0;
            let ghost files_map0 = files@.map_values(|w: WriteAction| w@);
            files.push(WriteAction { path: full, bytes: data, executable });
            proof {
                assert(files@.map_values(|w: WriteAction| w@) =~= files_map0.push(
                    (full@, e.data@, executable),
                ));
                assert(files@.map_values(|w: WriteAction| w@) =~= tar_write_actions(
                    m.take(i as int + 1),
                    extract_path@,
                ));
            }
        }
        i = i + 1;
    }
    proof {
        assert(m.take(entries@.len() as int) =~= m);
    }
    AcquirePlan { dirs, files }
}

/// A zip entry whose name ends in a separator is a directory entry.
pub open spec fn ends_with_slash(n: Seq<char>) -> bool {
    n.len() > 0 && n[n.len() - 1] == '/'
}

/// Zip extraction marks binaries executable by name: entries whose name
/// mentions an exporter or an agent.
pub open spec fn zip_entry_executable(name: Seq<char>) -> bool {
    contains_seq(name, "exporter"@) || contains_seq(name, "agent"@)
}

/// The file writes extracting zip entries under `root` performs, in index
/// order.
pub open spec fn zip_write_actions(
    es: Seq<(Seq<char>, Seq<u8>)>,
    root: Seq<char>,
) -> Seq<(Seq<char>, Seq<u8>, bool)>
    decreases es.len(),
{
    if es.len() == 0 {
        Seq::empty()
    } else {
        let rest = zip_write_actions(es.drop_last(), root);
        let e = es.last();
        if ends_with_slash(e.0) {
            rest
        } else {
            rest.push((root + "/"@ + e.0, e.1, zip_entry_executable(e.0)))
        }
    }
}

/// The directories extracting zip entries under `root` creates, in index
/// order.
pub open spec fn zip_dir_paths(es: Seq<(Seq<char>, Seq<u8>)>, root: Seq<char>) -> Seq<Seq<char>>
    decreases es.len(),
{
    if es.len() == 0 {
        Seq::empty()
    } else {
        let rest = zip_dir_paths(es.drop_last(), root);
        let e = es.last();
        if ends_with_slash(e.0) {
            rest.push(root + "/"@ + e.0)
        } else {
            rest
        }
    }
}

/// Plans the extraction of already-decoded zip entries under
/// `extract_path`.
pub fn plan_zip_entries(entries: &Vec<ZipEntryData>, extract_path: &str) -> (r: AcquirePlan)
    ensures
        plan_dirs_view(r) == seq![extract_path@] + zip_dir_paths(
            entries@.map_values(|e: ZipEntryData| e@),
            extract_path@,
        ),
        plan_files_view(r) == zip_write_actions(
            entries@.map_values(|e: ZipEntryData| e@),
            extract_path@,
        ),
{
    let ghost m = entries@.map_values(|e: ZipEntryData| e@);
    let mut dirs: Vec<String> = Vec::new();
    dirs.push(String::from_str(extract_path));
    let mut files: Vec<WriteAction> = Vec::new();
    proof {
        assert(dirs@.map_values(|d: String| d@) =~= seq![extract_path@] + zip_dir_paths(
            m.take(0),
            extract_path@,
        ));
        assert(files@.map_values(|w: WriteAction| w@) =~= zip_write_actions(
            m.take(0),
            extract_path@,
        ));
    }
    let mut i: usize = 0;
    while i < entries.len()
        invariant
            i <= entries.len(),
            m == entries@.map_values(|e: ZipEntryData| e@),
            dirs@.map_values(|d: String| d@) == seq![extract_path@] + zip_dir_paths(
                m.take(i as int),
                extract_path@,
            ),
            files@.map_values(|w: WriteAction| w@) == zip_write_actions(
                m.take(i as int),
                extract_path@,
            ),
        decreases entries.len() - i,
    {
        let e = &entries[i];
        let full = join_path(extract_path, e.name.as_str());
        let name_len = e.name.as_str().unicode_len();
        let is_dir = name_len > 0 && e.name.as_str().get_char(name_len - 1) == '/';
        proof {
            assert(m.take(i as int + 1).drop_last() =~= m.take(i as int));
            assert(m.take(i as int + 1).last() == m[i as int]);
            assert(m[i as int] == entries@[i as int]@);
            assert(is_dir == ends_with_slash(e.name@));
        }
        if is_dir {
            let ghost dirs_map0 = dirs@.map_values(|d: String| d@);
            dirs.push(full);
            proof {
                assert(dirs@.map_values(|d: String| d@) =~= dirs_map0.push(full@));
                assert(dirs@.map_values(|d: String| d@) =~= seq![extract_path@]
                    + zip_dir_paths(m.take(i as int + 1), extract_path@));
            }
        } else {
            let executable = str_contains(e.name.as_str(), "exporter") || str_contains(
                e.name.as_str(),
                "agent",
            );
            let data = clone_bytes(&e.data);
            let ghost files_map0 = files@.map_values(|w: WriteAction| w@);
            files.push(WriteAction { path: full, bytes: data, executable });
            proof {
                assert(files@.map_values(|w: WriteAction| w@) =~= files_map0.push(
                    (full@, e.data@, executable),
                ));
                assert(files@.map_values(|w: WriteAction| w@) =~= zip_write_actions(
                    m.take(i as int + 1),
                    extract_path@,
                ));
            }
        }
        i = i + 1;
    }
    proof {
        assert(m.take(entries@.len() as int) =~= m);
    }
    AcquirePlan { dirs, files }
}

/// Decodes a gzipped tar archive held in memory and plans its extraction
/// under `extract_path`.  Invalid bytes yield an `Archive` error and no
/// plan, so nothing is ever partially extracted.
pub fn plan_tar_gz_extraction(bytes: &Vec<u8>, extract_path: &str) -> (r: Result<
    AcquirePlan,
    AcquisitionError,
>)
    ensures
        match r {
            Ok(plan) => tar_gz_entries_of(bytes@) matches Some(es) && plan_dirs_view(plan)
                == seq![extract_path@] + tar_dir_paths(es, extract_path@) && plan_files_view(plan)
                == tar_write_actions(es, extract_path@),
            Err(e) => tar_gz_entries_of(bytes@) is None && e
                matches AcquisitionError::Archive(_),
        },
{
    match read_tar_gz(bytes) {
        Ok(entries) => Ok(plan_tar_entries(&entries, extract_path)),
        Err(m) => {
            let mut msg = String::from_str("invalid gzipped tar archive: ");
            msg.append(m.as_str());
            Err(AcquisitionError::Archive(msg))
        },
    }
}

/// Decodes a zip archive held in memory and plans its extraction under
/// `extract_path`.  Invalid bytes yield an `Archive` error and no plan.
pub fn plan_zip_extraction(bytes: &Vec<u8>, extract_path: &str) -> (r: Result<
    AcquirePlan,
    AcquisitionError,
>)
    ensures
        match r {
            Ok(plan) => zip_entries_of(bytes@) matches Some(es) && plan_dirs_view(plan)
                == seq![extract_path@] + zip_dir_paths(es, extract_path@) && plan_files_view(plan)
                == zip_write_actions(es, extract_path@),
            Err(e) => zip_entries_of(bytes@) is None && e matches AcquisitionError::Archive(_),
        },
{
    match read_zip(bytes) {
        Ok(entries) => Ok(plan_zip_entries(&entries, extract_path)),
        Err(m) => {
            let mut msg = String::from_str("invalid zip archive: ");
            msg.append(m.as_str());
            Err(AcquisitionError::Archive(msg))
        },
    }
}

} // verus!
