//! Installing a downloaded tool: where the download is saved, what is done
//! with it afterwards, and finding the tool's executable inside a zip or a
//! tar.xz archive.

use vstd::prelude::*;
use crate::config::{ArchiveType, Dependency, Platform, ToolPath, executable_name};
use crate::text::{ends_with, ends_with_spec, same_text};

verus! {

/// Where a dependency's download is saved: the archive location for a packed
/// download, else the executable's own location.
pub fn download_target(dep: &Dependency) -> (res: &ToolPath)
    ensures
        res@ == (if dep.archive_type != ArchiveType::NoArchive {
            dep.zip_path@
        } else {
            dep.path@
        }),
{
    if dep.archive_type != ArchiveType::NoArchive {
        &dep.zip_path
    } else {
        &dep.path
    }
}

/// What is left to do once a dependency's download is saved.
#[derive(Clone, Copy, Debug, PartialEq, Eq, Structural)]
pub enum AfterDownload {
    /// Take the executable out of the saved zip archive.
    ExtractZip,
    /// Take the executable out of the saved tar.xz archive.
    ExtractTarXz,
    /// Mark the saved executable as executable.
    MakeExecutable,
    /// Nothing.
    Done,
}

impl AfterDownload {
    /// The line printed before this step, for the tool `name`: only unpacking
    /// is announced.
    pub fn start_notice(&self, name: &str) -> (res: Option<String>)
        ensures
            match *self {
                AfterDownload::ExtractZip => res matches Some(t) && t@ == "Extraxting "@
                    + name@ + " from zip."@,
                AfterDownload::ExtractTarXz => res matches Some(t) && t@ == "Extracting "@
                    + name@ + " from tar.xz."@,
                _ => res is None,
            },
    {
        match self {
            AfterDownload::ExtractZip => {
                let mut t = String::from_str("Extraxting ");
                t.append(name);
                t.append(" from zip.");
                Some(t)
            },
            AfterDownload::ExtractTarXz => {
                let mut t = String::from_str("Extracting ");
                t.append(name);
                t.append(" from tar.xz.");
                Some(t)
            },
            _ => None,
        }
    }

    /// The line printed once this step is done, for the tool `name`: only
    /// unpacking is reported.
    pub fn finish_notice(&self, name: &str) -> (res: Option<String>)
        ensures
            (*self is ExtractZip || *self is ExtractTarXz) ==> (res matches Some(t) && t@
                == "Extracted "@ + name@ + "."@),
            !(*self is ExtractZip || *self is ExtractTarXz) ==> res is None,
    {
        match self {
            AfterDownload::ExtractZip | AfterDownload::ExtractTarXz => {
                let mut t = String::from_str("Extracted ");
                t.append(name);
                t.append(".");
                Some(t)
            },
            _ => None,
        }
    }
}

/// What is left to do after saving a download packed as `archive_type`:
/// unpack an archive; a bare executable is marked executable on Linux only.
pub fn after_download(archive_type: ArchiveType, platform: Platform) -> (res: AfterDownload)
    ensures
        res == (match archive_type {
            ArchiveType::Zip => AfterDownload::ExtractZip,
            ArchiveType::TarXz => AfterDownload::ExtractTarXz,
            ArchiveType::NoArchive => if platform == Platform::Linux {
                AfterDownload::MakeExecutable
            } else {
                AfterDownload::Done
            },
        }),
{
    match archive_type {
        ArchiveType::Zip => AfterDownload::ExtractZip,
        ArchiveType::TarXz => AfterDownload::ExtractTarXz,
        ArchiveType::NoArchive => if platform == Platform::Linux {
            AfterDownload::MakeExecutable
        } else {
            AfterDownload::Done
        },
    }
}

/// The indices of the tools that are missing (`present[i]` is false), in
/// order: these are the ones to fetch.
pub open spec fn missing_tools_spec(present: Seq<bool>) -> Seq<int>
    decreases present.len(),
{
    if present.len() == 0 {
        Seq::<int>::empty()
    } else if present.last() {
        missing_tools_spec(present.drop_last())
    } else {
        missing_tools_spec(present.drop_last()).push(present.len() - 1)
    }
}

/// The tools to fetch: the index of every tool that is not present, in
/// order. Each is fetched whatever happens to the others.
pub fn tools_to_fetch(present: &Vec<bool>) -> (res: Vec<usize>)
    ensures
        res@.map_values(|i: usize| i as int) == missing_tools_spec(present@),
{
    let mut out: Vec<usize> = Vec::new();
    let mut i: usize = 0;
    while i < present.len()
        invariant
            i <= present@.len(),
            out@.map_values(|k: usize| k as int) == missing_tools_spec(present@.take(i as int)),
        decreases present.len() - i,
    {
        assert(present@.take(i + 1).drop_last() =~= present@.take(i as int));
        if !present[i] {
            out.push(i);
        }
        assert(out@.map_values(|k: usize| k as int) =~= missing_tools_spec(present@.take(i + 1)));
        i = i + 1;
    }
    assert(present@.take(present@.len() as int) =~= present@);
    out
}

/// The line printed when fetching the tool `name` starts.
pub fn fetching_message(name: &str) -> (res: String)
    ensures
        res@ == "Fetching "@ + name@ + "."@,
{
    let mut t = String::from_str("Fetching ");
    t.append(name);
    t.append(".");
    t
}

/// The line printed when the tool `name` was fetched.
pub fn fetched_message(name: &str) -> (res: String)
    ensures
        res@ == name@ + " download."@,
{
    let mut t = String::from_str(name);
    t.append(" download.");
    t
}

/// The line printed when fetching the tool `name` failed with `error`.
pub fn fetch_failed_message(name: &str, error: &str) -> (res: String)
    ensures
        res@ == "Failed to fetch "@ + name@ + ": "@ + error@,
{
    let mut t = String::from_str("Failed to fetch ");
    t.append(name);
    t.append(": ");
    t.append(error);
    t
}

/// Whether fetching the missing tools succeeded: `outcomes[i]` is none for a
/// tool that was already there and was not fetched, else whether fetching it
/// worked. Every tool is tried, and the whole succeeds only when no fetch
/// failed.
pub fn fetch_succeeded(outcomes: &Vec<Option<bool>>) -> (ok: bool)
    ensures
        ok == forall|i: int| 0 <= i < outcomes@.len() ==> #[trigger] outcomes@[i] != Some(false),
{
    let mut failed = false;
    let mut i: usize = 0;
    while i < outcomes.len()
        invariant
            i <= outcomes@.len(),
            failed == exists|k: int| 0 <= k < i && #[trigger] outcomes@[k] == Some(false),
        decreases outcomes.len() - i,
    {
        match outcomes[i] {
            Some(false) => {
                failed = true;
            },
            _ => {},
        }
        i = i + 1;
    }
    !failed
}

/// The file name of the executable of the tool `name` (with `.exe` on
/// Windows, as `std::env::consts::EXE_SUFFIX` gives it).
pub fn binary_file_name(name: &str, platform: Platform) -> (res: String)
    ensures
        res@ == executable_name(name@, platform),
{
    let mut s = String::from_str(name);
    if platform == Platform::Windows {
        s.append(".exe");
    }
    s
}

// ---------------------------------------------------------------------------
// Errors
// ---------------------------------------------------------------------------

/// Why no executable could be taken out of an archive.
#[derive(Debug)]
pub enum ExtractError {
    /// The archive could not be read; the message says why.
    Archive(String),
    /// The archive holds no entry for the executable of this file name.
    BinaryNotFound(String),
}

/// The abstract form of an [`ExtractError`].
pub enum ExtractFailure {
    Archive(Seq<char>),
    BinaryNotFound(Seq<char>),
}

impl View for ExtractError {
    type V = ExtractFailure;

    open spec fn view(&self) -> ExtractFailure {
        match self {
            ExtractError::Archive(m) => ExtractFailure::Archive(m@),
            ExtractError::BinaryNotFound(b) => ExtractFailure::BinaryNotFound(b@),
        }
    }
}

/// The message of an extraction failure.
pub open spec fn failure_message(f: ExtractFailure) -> Seq<char> {
    match f {
        ExtractFailure::Archive(m) => m,
        ExtractFailure::BinaryNotFound(b) => b + " was not found in the archive"@,
    }
}

impl ExtractError {
    /// The message shown for this failure.
    pub fn message(&self) -> (res: String)
        ensures
            res@ == failure_message(self@),
    {
        match self {
            ExtractError::Archive(m) => m.clone(),
            ExtractError::BinaryNotFound(b) => {
                let mut s = b.clone();
                s.append(" was not found in the archive");
                s
            },
        }
    }
}

/// The abstract form of the outcome of an extraction.
pub open spec fn extract_view(r: Result<Vec<u8>, ExtractError>) -> Result<Seq<u8>, ExtractFailure> {
    match r {
        Ok(d) => Ok(d@),
        Err(e) => Err(e@),
    }
}

/// The abstract form of an outcome whose error is a message.
pub open spec fn text_result_view(r: Result<String, String>) -> Result<Seq<char>, Seq<char>> {
    match r {
        Ok(t) => Ok(t@),
        Err(e) => Err(e@),
    }
}

/// The abstract form of an outcome whose error is a message.
pub open spec fn bytes_result_view(r: Result<Vec<u8>, String>) -> Result<Seq<u8>, Seq<char>> {
    match r {
        Ok(d) => Ok(d@),
        Err(e) => Err(e@),
    }
}

/// The abstract form of an outcome whose error is a message.
pub open spec fn count_result_view(r: Result<usize, String>) -> Result<usize, Seq<char>> {
    match r {
        Ok(n) => Ok(n),
        Err(e) => Err(e@),
    }
}

// ---------------------------------------------------------------------------
// Zip archives
// ---------------------------------------------------------------------------

/// The number of entries that the `zip` crate finds in the archive `archive`,
/// or the message of its error.
pub uninterp spec fn zip_entry_count_of(archive: Seq<u8>) -> Result<usize, Seq<char>>;

/// The name of entry `index` of the archive as the `zip` crate reads it, or
/// the message of its error.
pub uninterp spec fn zip_entry_name_of(archive: Seq<u8>, index: usize) -> Result<Seq<char>, Seq<char>>;

/// The unpacked contents of entry `index` of the archive as the `zip` crate
/// reads them, or the message of its error.
pub uninterp spec fn zip_entry_data_of(archive: Seq<u8>, index: usize) -> Result<Seq<u8>, Seq<char>>;

/// Calls `zip::ZipArchive::new` on the bytes and `len` on the result: the
/// number of entries in the central directory, or the error's message. Its
/// result is named, not stated.
#[verifier::external_body]
fn zip_entry_count(archive: &[u8]) -> (res: Result<usize, String>)
    ensures
        count_result_view(res) == zip_entry_count_of(archive@),
{
    match zip::ZipArchive::new(std::io::Cursor::new(archive)) {
        Ok(a) => Ok(a.len()),
        Err(e) => Err(e.to_string()),
    }
}

/// Calls `zip::ZipArchive::by_index` on the archive read from the bytes and
/// `name` on the entry it gives, or gives the error's message. Its result is
/// named, not stated.
#[verifier::external_body]
fn zip_entry_name(archive: &[u8], index: usize) -> (res: Result<String, String>)
    ensures
        text_result_view(res) == zip_entry_name_of(archive@, index),
{
    let name = zip::ZipArchive::new(std::io::Cursor::new(archive)).and_then(
        |mut a| a.by_index(index).map(|f| f.name().to_string()),
    );
    name.map_err(|e| e.to_string())
}

/// Calls `zip::ZipArchive::by_index` on the archive read from the bytes and
/// reads the entry it gives to its end (which checks its CRC), or gives the
/// error's message. Its result is named, not stated.
#[verifier::external_body]
fn zip_entry_data(archive: &[u8], index: usize) -> (res: Result<Vec<u8>, String>)
    ensures
        bytes_result_view(res) == zip_entry_data_of(archive@, index),
{
    let mut out = Vec::new();
    let read = zip::ZipArchive::new(std::io::Cursor::new(archive)).and_then(
        |mut a| {
            let mut f = a.by_index(index)?;
            std::io::Read::read_to_end(&mut f, &mut out).map_err(zip::result::ZipError::from)
        },
    );
    read.map(|_| out).map_err(|e| e.to_string())
}

/// The first entry, from entry `i` on among the first `count`, whose name ends
/// with `binary`; an unreadable entry on the way stops the search.
pub open spec fn zip_scan(archive: Seq<u8>, binary: Seq<char>, count: nat, i: nat) -> Result<
    nat,
    ExtractFailure,
>
    decreases count - i,
{
    if i >= count {
        Err(ExtractFailure::BinaryNotFound(binary))
    } else {
        match zip_entry_name_of(archive, i as usize) {
            Err(e) => Err(ExtractFailure::Archive(e)),
            Ok(name) => if ends_with_spec(name, binary) {
                Ok(i)
            } else {
                zip_scan(archive, binary, count, i + 1)
            },
        }
    }
}

/// The first entry of the zip archive whose name ends with `binary`.
pub open spec fn zip_find_spec(archive: Seq<u8>, binary: Seq<char>) -> Result<nat, ExtractFailure> {
    match zip_entry_count_of(archive) {
        Err(e) => Err(ExtractFailure::Archive(e)),
        Ok(n) => zip_scan(archive, binary, n as nat, 0),
    }
}

/// The executable `binary` taken out of the zip archive: the contents of the
/// first entry whose name ends with it.
pub open spec fn zip_extract_spec(archive: Seq<u8>, binary: Seq<char>) -> Result<
    Seq<u8>,
    ExtractFailure,
> {
    match zip_find_spec(archive, binary) {
        Err(f) => Err(f),
        Ok(i) => match zip_entry_data_of(archive, i as usize) {
            Ok(d) => Ok(d),
            Err(e) => Err(ExtractFailure::Archive(e)),
        },
    }
}

/// What the search from entry `i` on finds: the first entry whose name ends
/// with `binary`, all entries before it being readable; or, when it reports
/// the executable missing, every entry from `i` on is readable and none
/// matches.
proof fn lemma_zip_scan(archive: Seq<u8>, binary: Seq<char>, count: nat, i: nat)
    ensures
        zip_scan(archive, binary, count, i) matches Ok(k) ==> {
            &&& i <= k < count
            &&& zip_entry_name_of(archive, k as usize) matches Ok(name) && ends_with_spec(
                name,
                binary,
            )
            &&& forall|j: nat|
                i <= j < k ==> (#[trigger] zip_entry_name_of(archive, j as usize) matches Ok(m)
                    && !ends_with_spec(m, binary))
        },
        zip_scan(archive, binary, count, i) == Err::<nat, ExtractFailure>(
            ExtractFailure::BinaryNotFound(binary),
        ) ==> forall|j: nat|
            i <= j < count ==> (#[trigger] zip_entry_name_of(archive, j as usize) matches Ok(m)
                && !ends_with_spec(m, binary)),
    decreases count - i,
{
    if i < count {
        lemma_zip_scan(archive, binary, count, i + 1);
    }
}

/// The zip search finds the first entry whose name ends with the
/// executable's file name; it reports the executable missing only when
/// every entry was read and none matched.
pub proof fn lemma_zip_find_is_first(archive: Seq<u8>, binary: Seq<char>)
    ensures
        zip_find_spec(archive, binary) matches Ok(k) ==> {
            &&& zip_entry_count_of(archive) matches Ok(n) && k < n
            &&& zip_entry_name_of(archive, k as usize) matches Ok(name) && ends_with_spec(
                name,
                binary,
            )
            &&& forall|j: nat|
                j < k ==> (#[trigger] zip_entry_name_of(archive, j as usize) matches Ok(m)
                    && !ends_with_spec(m, binary))
        },
        zip_find_spec(archive, binary) == Err::<nat, ExtractFailure>(
            ExtractFailure::BinaryNotFound(binary),
        ) ==> (zip_entry_count_of(archive) matches Ok(n) && forall|j: nat|
            j < n ==> (#[trigger] zip_entry_name_of(archive, j as usize) matches Ok(m)
                && !ends_with_spec(m, binary))),
{
    if let Ok(n) = zip_entry_count_of(archive) {
        lemma_zip_scan(archive, binary, n as nat, 0);
    }
}

/// From entry `i` on, when every entry name can be read, the search reports
/// no unreadable archive, and it finds an entry exactly when one from `i` on
/// ends with `binary`.
proof fn lemma_zip_scan_readable(archive: Seq<u8>, binary: Seq<char>, count: nat, i: nat)
    requires
        forall|j: nat| i <= j < count ==> (#[trigger] zip_entry_name_of(archive, j as usize)) is Ok,
    ensures
        zip_scan(archive, binary, count, i) is Ok || zip_scan(archive, binary, count, i) == Err::<
            nat,
            ExtractFailure,
        >(ExtractFailure::BinaryNotFound(binary)),
        zip_scan(archive, binary, count, i) is Ok <==> exists|k: nat|
            i <= k < count && ends_with_spec(
                (#[trigger] zip_entry_name_of(archive, k as usize))->Ok_0,
                binary,
            ),
    decreases count - i,
{
    if i < count {
        lemma_zip_scan_readable(archive, binary, count, i + 1);
        let name = zip_entry_name_of(archive, i as usize)->Ok_0;
        if ends_with_spec(name, binary) {
            assert(i <= i < count && ends_with_spec(zip_entry_name_of(archive, i as usize)->Ok_0, binary));
        } else {
            if exists|k: nat| i <= k < count && ends_with_spec(
                (#[trigger] zip_entry_name_of(archive, k as usize))->Ok_0,
                binary,
            ) {
                let k = choose|k: nat| i <= k < count && ends_with_spec(
                    (#[trigger] zip_entry_name_of(archive, k as usize))->Ok_0,
                    binary,
                );
                assert(k != i);
                assert(i + 1 <= k < count);
            }
        }
    }
}

/// An unreadable-archive failure of the search from entry `i` on comes from
/// the zip crate: it is the error of reading some entry name from `i` on.
proof fn lemma_zip_scan_archive_error(archive: Seq<u8>, binary: Seq<char>, count: nat, i: nat)
    ensures
        zip_scan(archive, binary, count, i) matches Err(ExtractFailure::Archive(e)) ==> exists|
            j: nat,
        |
            i <= j < count && #[trigger] zip_entry_name_of(archive, j as usize) == Err::<
                Seq<char>,
                Seq<char>,
            >(e),
    decreases count - i,
{
    if i < count {
        lemma_zip_scan_archive_error(archive, binary, count, i + 1);
        if let Err(e) = zip_entry_name_of(archive, i as usize) {
            assert(zip_entry_name_of(archive, i as usize) == Err::<Seq<char>, Seq<char>>(e));
        }
    }
}

/// What the zip search is for, in terms of what the `zip` crate reads:
/// - when the entry list and every entry name can be read, the search never
///   reports an unreadable archive; it finds an entry exactly when some
///   entry's name ends with `binary`, and then the first such entry;
/// - an unreadable-archive failure is always the `zip` crate's own error, on
///   the entry list or on an entry name.
pub proof fn lemma_zip_find_law(archive: Seq<u8>, binary: Seq<char>)
    ensures
        (zip_entry_count_of(archive) is Ok && forall|j: nat|
            j < zip_entry_count_of(archive)->Ok_0 ==> (#[trigger] zip_entry_name_of(
                archive,
                j as usize,
            )) is Ok) ==> {
            &&& zip_find_spec(archive, binary) is Ok || zip_find_spec(archive, binary) == Err::<
                nat,
                ExtractFailure,
            >(ExtractFailure::BinaryNotFound(binary))
            &&& (zip_find_spec(archive, binary) is Ok <==> exists|k: nat|
                k < zip_entry_count_of(archive)->Ok_0 && ends_with_spec(
                    (#[trigger] zip_entry_name_of(archive, k as usize))->Ok_0,
                    binary,
                ))
        },
        zip_find_spec(archive, binary) matches Ok(k) ==> (forall|j: nat|
            j < k ==> (#[trigger] zip_entry_name_of(archive, j as usize) matches Ok(m)
                && !ends_with_spec(m, binary))) && (zip_entry_name_of(archive, k as usize) matches Ok(
            name,
        ) && ends_with_spec(name, binary)),
        zip_find_spec(archive, binary) matches Err(ExtractFailure::Archive(e)) ==> (
        zip_entry_count_of(archive) == Err::<usize, Seq<char>>(e) || exists|j: nat|
            #[trigger] zip_entry_name_of(archive, j as usize) == Err::<Seq<char>, Seq<char>>(e)),
{
    lemma_zip_find_is_first(archive, binary);
    if let Ok(n) = zip_entry_count_of(archive) {
        lemma_zip_scan_archive_error(archive, binary, n as nat, 0);
        if forall|j: nat| j < n ==> (#[trigger] zip_entry_name_of(archive, j as usize)) is Ok {
            lemma_zip_scan_readable(archive, binary, n as nat, 0);
        }
    }
}

/// Finds the first entry of the zip archive whose name ends with
/// `binary_name`, in the archive's order.
pub fn find_in_zip(archive: &[u8], binary_name: &str) -> (res: Result<usize, ExtractError>)
    ensures
        match zip_find_spec(archive@, binary_name@) {
            Ok(i) => res matches Ok(j) && j == i,
            Err(f) => res matches Err(e) && e@ == f,
        },
{
    let count = match zip_entry_count(archive) {
        Ok(n) => n,
        Err(e) => {
            return Err(ExtractError::Archive(e));
        },
    };
    let mut i: usize = 0;
    while i < count
        invariant
            i <= count,
            zip_entry_count_of(archive@) == Ok::<usize, Seq<char>>(count),
            zip_find_spec(archive@, binary_name@) == zip_scan(
                archive@,
                binary_name@,
                count as nat,
                i as nat,
            ),
        decreases count - i,
    {
        match zip_entry_name(archive, i) {
            Err(e) => {
                return Err(ExtractError::Archive(e));
            },
            Ok(name) => {
                if ends_with(name.as_str(), binary_name) {
                    return Ok(i);
                }
            },
        }
        i = i + 1;
    }
    Err(ExtractError::BinaryNotFound(String::from_str(binary_name)))
}

/// Takes the executable of the tool `name` out of a zip archive: the contents
/// of the first entry whose name ends with the executable's file name.
pub fn extract_zip_binary(archive: &[u8], name: &str, platform: Platform) -> (res: Result<
    Vec<u8>,
    ExtractError,
>)
    ensures
        extract_view(res) == zip_extract_spec(archive@, executable_name(name@, platform)),
{
    let binary = binary_file_name(name, platform);
    let index = match find_in_zip(archive, binary.as_str()) {
        Ok(i) => i,
        Err(e) => {
            return Err(e);
        },
    };
    match zip_entry_data(archive, index) {
        Ok(d) => Ok(d),
        Err(e) => Err(ExtractError::Archive(e)),
    }
}

// ---------------------------------------------------------------------------
// tar.xz archives
// ---------------------------------------------------------------------------

/// Entry `index` of the tar archive that the xz stream `archive` unpacks to,
/// as the `tar` crate reads it while `xz2` unpacks: no entry (`Ok(None)`), an
/// entry whose path has no file name (`Ok(Some(None))`), an entry with its
/// file name (lossily made UTF-8), or the message of the error that reading
/// it, or an entry before it, gives.
pub uninterp spec fn tar_xz_entry_slot_of(archive: Seq<u8>, index: usize) -> Result<
    Option<Option<Seq<char>>>,
    Seq<char>,
>;

/// The contents of entry `index` of the tar archive that the xz stream
/// `archive` unpacks to, as the `tar` crate reads them while `xz2` unpacks,
/// or the message of its error.
pub uninterp spec fn tar_xz_entry_data_of(archive: Seq<u8>, index: usize) -> Result<
    Seq<u8>,
    Seq<char>,
>;

/// The abstract form of a tar entry slot.
pub open spec fn slot_view(r: Result<Option<Option<String>>, String>) -> Result<
    Option<Option<Seq<char>>>,
    Seq<char>,
> {
    match r {
        Ok(None) => Ok(None),
        Ok(Some(None)) => Ok(Some(None)),
        Ok(Some(Some(n))) => Ok(Some(Some(n@))),
        Err(e) => Err(e@),
    }
}

/// Calls `tar::Archive::entries` on the bytes read through
/// `xz2::read::XzDecoder`, takes entry `index` of the iterator (`nth`) and
/// its `path`'s file name, or gives the error's message. The stream is
/// unpacked only as far as that entry. Its result is named, not stated.
#[verifier::external_body]
fn tar_xz_entry_slot(archive: &[u8], index: usize) -> (res: Result<Option<Option<String>>, String>)
    ensures
        slot_view(res) == tar_xz_entry_slot_of(archive@, index),
{
    let mut ar = tar::Archive::new(xz2::read::XzDecoder::new(archive));
    let slot = ar.entries().and_then(|mut es| match es.nth(index) {
        None => Ok(None),
        Some(e) => e.and_then(
            |e| e.path().map(|p| Some(p.file_name().map(|n| n.to_string_lossy().into_owned()))),
        ),
    });
    slot.map_err(|e| e.to_string())
}

/// Calls `tar::Archive::entries` on the bytes read through
/// `xz2::read::XzDecoder`, takes entry `index` of the iterator (`nth`) and
/// reads it to its end, or gives the error's message. Its result is named,
/// not stated.
#[verifier::external_body]
fn tar_xz_entry_data(archive: &[u8], index: usize) -> (res: Result<Vec<u8>, String>)
    ensures
        bytes_result_view(res) == tar_xz_entry_data_of(archive@, index),
{
    let mut ar = tar::Archive::new(xz2::read::XzDecoder::new(archive));
    let mut out = Vec::new();
    let read = ar.entries().and_then(|mut es| match es.nth(index) {
        None => Ok(0),
        Some(e) => e.and_then(|mut e| std::io::Read::read_to_end(&mut e, &mut out)),
    });
    read.map(|_| out).map_err(|e| e.to_string())
}

/// The first entry, from entry `i` on, whose file name is `binary`. The
/// search ends at the archive's last entry, at the first entry that cannot be
/// read, or after `limit` entries.
pub open spec fn tar_scan(archive: Seq<u8>, binary: Seq<char>, limit: nat, i: nat) -> Result<
    nat,
    ExtractFailure,
>
    decreases limit - i,
{
    if i >= limit {
        Err(ExtractFailure::BinaryNotFound(binary))
    } else {
        match tar_xz_entry_slot_of(archive, i as usize) {
            Err(e) => Err(ExtractFailure::Archive(e)),
            Ok(None) => Err(ExtractFailure::BinaryNotFound(binary)),
            Ok(Some(None)) => tar_scan(archive, binary, limit, i + 1),
            Ok(Some(Some(name))) => if name == binary {
                Ok(i)
            } else {
                tar_scan(archive, binary, limit, i + 1)
            },
        }
    }
}

/// The first entry of the tar archive packed in the xz stream `archive` whose
/// file name is `binary`; entry indices are `usize` values, so the search
/// gives up after `usize::MAX` entries.
pub open spec fn tar_find_spec(archive: Seq<u8>, binary: Seq<char>) -> Result<nat, ExtractFailure> {
    tar_scan(archive, binary, usize::MAX as nat, 0)
}

/// The executable `binary` taken out of the tar.xz archive `archive`.
pub open spec fn tar_xz_extract_spec(archive: Seq<u8>, binary: Seq<char>) -> Result<
    Seq<u8>,
    ExtractFailure,
> {
    match tar_find_spec(archive, binary) {
        Err(f) => Err(f),
        Ok(i) => match tar_xz_entry_data_of(archive, i as usize) {
            Ok(d) => Ok(d),
            Err(e) => Err(ExtractFailure::Archive(e)),
        },
    }
}

/// The entries from `i` up to `end` are readable and none is named `binary`,
/// and the archive has no entry `end` unless `end` is at or past the search
/// limit.
pub open spec fn tar_entries_miss(
    archive: Seq<u8>,
    binary: Seq<char>,
    limit: nat,
    i: nat,
    end: nat,
) -> bool {
    &&& i <= end
    &&& forall|j: nat|
        i <= j < end ==> (#[trigger] tar_xz_entry_slot_of(archive, j as usize) matches Ok(Some(m))
            && m != Some(binary))
    &&& end < limit ==> tar_xz_entry_slot_of(archive, end as usize) == Ok::<
        Option<Option<Seq<char>>>,
        Seq<char>,
    >(None)
}

/// What the search from entry `i` on finds: the first entry whose file name
/// is `binary`, every entry before it being readable and named otherwise; or,
/// when it reports the executable missing, every entry up to the archive's
/// end (or the search limit) was read and none is so named.
proof fn lemma_tar_scan(archive: Seq<u8>, binary: Seq<char>, limit: nat, i: nat)
    ensures
        tar_scan(archive, binary, limit, i) matches Ok(k) ==> {
            &&& i <= k < limit
            &&& tar_xz_entry_slot_of(archive, k as usize) == Ok::<
                Option<Option<Seq<char>>>,
                Seq<char>,
            >(Some(Some(binary)))
            &&& forall|j: nat|
                i <= j < k ==> (#[trigger] tar_xz_entry_slot_of(archive, j as usize) matches Ok(
                    Some(m),
                ) && m != Some(binary))
        },
        tar_scan(archive, binary, limit, i) == Err::<nat, ExtractFailure>(
            ExtractFailure::BinaryNotFound(binary),
        ) ==> exists|end: nat| tar_entries_miss(archive, binary, limit, i, end),
    decreases limit - i,
{
    if i >= limit {
        assert(tar_entries_miss(archive, binary, limit, i, i));
    } else {
        lemma_tar_scan(archive, binary, limit, i + 1);
        if tar_scan(archive, binary, limit, i) == Err::<nat, ExtractFailure>(
            ExtractFailure::BinaryNotFound(binary),
        ) {
            match tar_xz_entry_slot_of(archive, i as usize) {
                Ok(None) => {
                    assert(tar_entries_miss(archive, binary, limit, i, i));
                },
                Ok(Some(m)) => {
                    let next: nat = i + 1;
                    let end = choose|end: nat| #[trigger] tar_entries_miss(archive, binary, limit, next, end);
                    assert(tar_entries_miss(archive, binary, limit, i, end));
                },
                Err(_) => {},
            }
        }
    }
}

/// The tar search finds the first entry whose file name is the executable's
/// file name; it reports the executable missing only when every entry up to
/// the archive's end (or the search limit) was read and none is so named.
pub proof fn lemma_tar_find_is_first(archive: Seq<u8>, binary: Seq<char>)
    ensures
        tar_find_spec(archive, binary) matches Ok(k) ==> {
            &&& tar_xz_entry_slot_of(archive, k as usize) == Ok::<
                Option<Option<Seq<char>>>,
                Seq<char>,
            >(Some(Some(binary)))
            &&& forall|j: nat|
                j < k ==> (#[trigger] tar_xz_entry_slot_of(archive, j as usize) matches Ok(
                    Some(m),
                ) && m != Some(binary))
        },
        tar_find_spec(archive, binary) == Err::<nat, ExtractFailure>(
            ExtractFailure::BinaryNotFound(binary),
        ) ==> exists|end: nat| tar_entries_miss(archive, binary, usize::MAX as nat, 0, end),
{
    lemma_tar_scan(archive, binary, usize::MAX as nat, 0);
}

/// Finds the first entry of the tar archive packed in the xz stream `archive`
/// whose file name is `binary_name`, in the archive's order.
pub fn find_in_tar_xz(archive: &[u8], binary_name: &str) -> (res: Result<usize, ExtractError>)
    ensures
        match tar_find_spec(archive@, binary_name@) {
            Ok(i) => res matches Ok(j) && j == i,
            Err(f) => res matches Err(e) && e@ == f,
        },
{
    let mut i: usize = 0;
    while i < usize::MAX
        invariant
            tar_find_spec(archive@, binary_name@) == tar_scan(
                archive@,
                binary_name@,
                usize::MAX as nat,
                i as nat,
            ),
        decreases usize::MAX - i,
    {
        match tar_xz_entry_slot(archive, i) {
            Err(e) => {
                return Err(ExtractError::Archive(e));
            },
            Ok(None) => {
                return Err(ExtractError::BinaryNotFound(String::from_str(binary_name)));
            },
            Ok(Some(None)) => {},
            Ok(Some(Some(name))) => {
                if same_text(name.as_str(), binary_name) {
                    return Ok(i);
                }
            },
        }
        i = i + 1;
    }
    Err(ExtractError::BinaryNotFound(String::from_str(binary_name)))
}

/// Takes the executable of the tool `name` out of a tar.xz archive: the
/// contents of the first tar entry whose file name is the executable's file
/// name. The xz stream is unpacked only as far as that entry, so what follows
/// it is not looked at.
pub fn extract_tar_xz_binary(archive: &[u8], name: &str, platform: Platform) -> (res: Result<
    Vec<u8>,
    ExtractError,
>)
    ensures
        extract_view(res) == tar_xz_extract_spec(archive@, executable_name(name@, platform)),
{
    let binary = binary_file_name(name, platform);
    let index = match find_in_tar_xz(archive, binary.as_str()) {
        Ok(i) => i,
        Err(e) => {
            return Err(e);
        },
    };
    match tar_xz_entry_data(archive, index) {
        Ok(d) => Ok(d),
        Err(e) => Err(ExtractError::Archive(e)),
    }
}

} // verus!
