//! What building the frontend decides: whether the build tool is there in
//! the right version, where to get it from, which entry of its archive to
//! unpack, how it is called, and what its end means.

use vstd::prelude::*;
use vstd::string::StringSliceAdditionalSpecFns;
use crate::path::{file_name, file_name_of, file_stem, same_bytes, stem_of};

verus! {

/// The version of the build tool that is asked for.
pub const VERSION: &'static str = "0.9.1";

/// Where the build tool lies.
pub const WASM_PACK: &'static str = "frontend/wasm-pack";

/// The argument that makes the build tool tell its version.
pub const VERSION_FLAG: &'static str = "-V";

/// What the build tool answers in the version that is asked for.
pub const EXPECTED_VERSION_OUTPUT: &'static str = "wasm-pack 0.9.1\n";

/// The name of the build tool in its archive, without what follows the
/// last dot.
pub const WASM_PACK_STEM: &'static str = "wasm-pack";

/// The directory that the build tool is unpacked to.
pub const FRONTEND_DIR: &'static str = "frontend";

/// The address of the archive, up to the name of the platform.
pub const DOWNLOAD_URL_UP_TO_TARGET: &'static str =
    "https://github.com/rustwasm/wasm-pack/releases/download/v0.9.1/wasm-pack-v0.9.1-";

/// The address of the archive, after the name of the platform.
pub const DOWNLOAD_URL_AFTER_TARGET: &'static str = ".tar.gz";

/// The words about a failed download, up to the address.
pub const DOWNLOAD_FAILED_UP_TO_URL: &'static str = "Failed to download wasm-pack from the url '";

/// The words about a failed download, after the address.
pub const DOWNLOAD_FAILED_AFTER_URL: &'static str = "'";

/// What the operator is told when the build tool could not be unpacked.
pub const UNPACK_FAILED: &'static str = "Failed to unpack wasm-pack";

/// What the operator is told when the build tool is installed.
pub const INSTALLING: &'static str = "Installing wasm-pack...";

/// What the operator is told when the build tool has been installed.
pub const INSTALLED: &'static str = "wasm-pack installed";

/// Why the build tool could not be had or failed.
#[derive(Clone, Copy, Debug, PartialEq, Eq, Structural)]
pub enum WasmPackError {
    /// The build tool could not be run to tell its version.
    NotRun,
    /// The build tool is there in another version.
    Version,
    /// The archive could not be read.
    Archive,
    /// An entry of the archive has no file name.
    EntryWithoutFileName,
    /// The archive holds no build tool.
    NotFound,
    /// The build tool could not be run or did not tell how it ended.
    Status,
    /// The build tool ended with a failure.
    Failed,
}

impl WasmPackError {
    /// The failure in the words that the operator reads.
    pub open spec fn text(self) -> Seq<char> {
        match self {
            WasmPackError::NotRun => "Failed to run wasm-pack"@,
            WasmPackError::Version => "wasm-pack's expected version is 0.9.1"@,
            WasmPackError::Archive => "Failed to read the archive of wasm-pack"@,
            WasmPackError::EntryWithoutFileName => "Entry without a file name"@,
            WasmPackError::NotFound => "Failed to find wasm-pack in the downloaded archive"@,
            WasmPackError::Status => "Failed to get frontend build status"@,
            WasmPackError::Failed => "Failed to build frontend"@,
        }
    }

    /// The failure in the words that the operator reads.
    pub fn message(self) -> (message: &'static str)
        ensures
            message@ == self.text(),
    {
        match self {
            WasmPackError::NotRun => "Failed to run wasm-pack",
            WasmPackError::Version => "wasm-pack's expected version is 0.9.1",
            WasmPackError::Archive => "Failed to read the archive of wasm-pack",
            WasmPackError::EntryWithoutFileName => "Entry without a file name",
            WasmPackError::NotFound => "Failed to find wasm-pack in the downloaded archive",
            WasmPackError::Status => "Failed to get frontend build status",
            WasmPackError::Failed => "Failed to build frontend",
        }
    }
}

/// The address of the archive of the build tool for the platform `target`.
pub open spec fn download_url_of(target: Seq<char>) -> Seq<char> {
    DOWNLOAD_URL_UP_TO_TARGET@ + target + DOWNLOAD_URL_AFTER_TARGET@
}

/// The address of the archive of the build tool for the platform `target`.
pub fn download_url(target: &str) -> (url: String)
    ensures
        url@ == download_url_of(target@),
{
    let mut url = String::from_str(DOWNLOAD_URL_UP_TO_TARGET);
    url.append(target);
    url.append(DOWNLOAD_URL_AFTER_TARGET);
    url
}

/// What the operator is told when the archive for the platform `target`
/// could not be downloaded.
pub fn download_failed_message(target: &str) -> (message: String)
    ensures
        message@ == DOWNLOAD_FAILED_UP_TO_URL@ + download_url_of(target@) + DOWNLOAD_FAILED_AFTER_URL@,
{
    let mut message = String::from_str(DOWNLOAD_FAILED_UP_TO_URL);
    message.append(download_url(target).as_str());
    message.append(DOWNLOAD_FAILED_AFTER_URL);
    message
}

/// Judges what the build tool answered when asked for its version.
/// `output` holds the bytes that it wrote, or nothing where it could not
/// be run. The answer has to be the expected one to the byte.
pub fn check_wasm_pack(output: Option<&[u8]>) -> (checked: Result<(), WasmPackError>)
    ensures
        checked == match output {
            None => Err::<(), WasmPackError>(WasmPackError::NotRun),
            Some(version) => if version@ == EXPECTED_VERSION_OUTPUT.spec_bytes() {
                Ok(())
            } else {
                Err(WasmPackError::Version)
            },
        },
{
    match output {
        None => Err(WasmPackError::NotRun),
        Some(version) => {
            if same_bytes(version, EXPECTED_VERSION_OUTPUT.as_bytes()) {
                Ok(())
            } else {
                Err(WasmPackError::Version)
            }
        },
    }
}

/// Decides whether the build tool is to be installed, and from where:
/// the address of its archive for the platform `target`, unless the check
/// of the version went well.
pub fn check_or_install_wasm_pack(checked: Result<(), WasmPackError>, target: &str) -> (download: Option<
    String,
>)
    ensures
        checked is Ok ==> download is None,
        checked is Err ==> download is Some && download->0@ == download_url_of(target@),
{
    match checked {
        Ok(_) => None,
        Err(_) => Some(download_url(target)),
    }
}

/// The arguments that the build tool is called with.
pub open spec fn frontend_args(release: bool) -> Seq<Seq<char>> {
    let args = seq![
        "--log-level"@,
        "warn"@,
        "build"@,
        "frontend"@,
        "--target"@,
        "web"@,
        "--no-typescript"@,
    ];
    if release {
        args
    } else {
        args.push("--dev"@)
    }
}

/// How the frontend is built.
pub struct FrontendBuild {
    /// The build tool.
    pub program: &'static str,
    /// The arguments that it is called with.
    pub args: Vec<&'static str>,
}

/// Lays down how the frontend is built: for development unless
/// `release` is set.
pub fn build_with_wasm_pack(release: bool) -> (build: FrontendBuild)
    ensures
        build.program@ == WASM_PACK@,
        build.args@.map_values(|arg: &'static str| arg@) == frontend_args(release),
{
    let mut args = vec![
        "--log-level",
        "warn",
        "build",
        "frontend",
        "--target",
        "web",
        "--no-typescript",
    ];
    if !release {
        args.push("--dev");
    }
    assert(args@.map_values(|arg: &'static str| arg@) =~= frontend_args(release));
    FrontendBuild { program: WASM_PACK, args }
}

/// Judges how the build tool ended. `status` holds whether it ended well,
/// or nothing where it could not be run or did not tell.
pub fn build_verdict(status: Option<bool>) -> (verdict: Result<(), WasmPackError>)
    ensures
        verdict == match status {
            None => Err::<(), WasmPackError>(WasmPackError::Status),
            Some(false) => Err(WasmPackError::Failed),
            Some(true) => Ok(()),
        },
{
    match status {
        None => Err(WasmPackError::Status),
        Some(false) => Err(WasmPackError::Failed),
        Some(true) => Ok(()),
    }
}

/// What is done with an entry of the archive.
pub enum Unpacking {
    /// The entry is the build tool: it is unpacked into the directory of
    /// the frontend under this file name, and the search is over.
    Unpack { file_name: Vec<u8> },
    /// The entry is something else: the search goes on.
    Skip,
}

/// The bytes of the name that the build tool has in its archive, without
/// extension.
pub open spec fn wasm_pack_stem() -> Seq<u8> {
    WASM_PACK_STEM.spec_bytes()
}

/// What is done with the entry of the archive that lies at `path`: an
/// entry without a file name ends the search with a failure; the entry
/// whose file name without extension is that of the build tool is
/// unpacked under its file name; any other is passed over.
pub open spec fn unpacking_at(path: Seq<u8>) -> Result<Option<Seq<u8>>, WasmPackError> {
    match file_name_of(path) {
        None => Err(WasmPackError::EntryWithoutFileName),
        Some(name) => if stem_of(name) == wasm_pack_stem() {
            Ok(Some(name))
        } else {
            Ok(None)
        },
    }
}

/// What `unpacking` says, as plain values.
pub open spec fn unpacking_view(unpacking: Result<Unpacking, WasmPackError>) -> Result<
    Option<Seq<u8>>,
    WasmPackError,
> {
    match unpacking {
        Ok(Unpacking::Unpack { file_name }) => Ok(Some(file_name@)),
        Ok(Unpacking::Skip) => Ok(None),
        Err(error) => Err(error),
    }
}

/// Decides what is done with the entry of the archive that lies at
/// `path`.
pub fn unpack_path(path: &[u8]) -> (unpacking: Result<Unpacking, WasmPackError>)
    ensures
        unpacking_view(unpacking) == unpacking_at(path@),
{
    match file_stem(path) {
        None => Err(WasmPackError::EntryWithoutFileName),
        Some(stem) => {
            if same_bytes(stem.as_slice(), WASM_PACK_STEM.as_bytes()) {
                match file_name(path) {
                    Some(file_name) => Ok(Unpacking::Unpack { file_name }),
                    None => Err(WasmPackError::EntryWithoutFileName),
                }
            } else {
                Ok(Unpacking::Skip)
            }
        },
    }
}

/// The build tool as it was found in the archive.
pub struct Found {
    /// The place of its entry among the entries, counted from zero.
    pub index: usize,
    /// The file name that it is unpacked under.
    pub file_name: Vec<u8>,
}

/// What the `tar` crate lists of the archive that the `flate2` crate
/// unpacks from the gzip stream `tar_gz`: nothing where the entries cannot
/// be listed at all; else the entries in the order of the archive, each
/// as the bytes of its path, or as nothing where the archive cannot be
/// read on from there.
pub uninterp spec fn archive_entries(tar_gz: Seq<u8>) -> Option<Seq<Option<Seq<u8>>>>;

/// The bytes that `path` holds, if it holds any.
pub open spec fn bytes_of(path: Option<Vec<u8>>) -> Option<Seq<u8>> {
    match path {
        Some(bytes) => Some(bytes@),
        None => None,
    }
}

/// What `entries` holds, as plain values.
pub open spec fn entries_view(entries: Option<Vec<Option<Vec<u8>>>>) -> Option<
    Seq<Option<Seq<u8>>>,
> {
    match entries {
        Some(entries) => Some(entries@.map_values(|entry: Option<Vec<u8>>| bytes_of(entry))),
        None => None,
    }
}

/// Lists the entries of the archive in the gzip stream `tar_gz`, which is
/// read from memory. This opens the stream with `GzDecoder::new` of the
/// `flate2` crate and the archive with `Archive::new` of the `tar` crate,
/// walks what `Archive::entries` hands out and takes the path of each
/// entry with `Entry::path_bytes`. Both crates work on the bytes alone, so
/// the same bytes always give the same list; what the list holds is not
/// stated here. An entry that cannot be read comes out as nothing and is
/// the last.
#[verifier::external_body]
fn list_archive(tar_gz: &[u8]) -> (entries: Option<Vec<Option<Vec<u8>>>>)
    ensures
        entries_view(entries) == archive_entries(tar_gz@),
{
    let mut archive = tar::Archive::new(flate2::read::GzDecoder::new(tar_gz));
    let Ok(entries) = archive.entries() else { return None };
    let mut paths = Vec::new();
    for entry in entries {
        paths.push(match entry {
            Ok(entry) => Some(entry.path_bytes().into_owned()),
            Err(_) => None,
        });
    }
    Some(paths)
}

/// How the search through `entries` ends when it starts at entry `i`:
/// with the first entry that is not passed over, be it the build tool, an
/// entry without a file name or one that cannot be read. Where all are
/// passed over, the build tool is not in the archive.
pub open spec fn search_from(entries: Seq<Option<Seq<u8>>>, i: int) -> Result<
    (int, Seq<u8>),
    WasmPackError,
>
    decreases entries.len() - i,
{
    if i < 0 || i >= entries.len() {
        Err(WasmPackError::NotFound)
    } else {
        match entries[i] {
            None => Err(WasmPackError::Archive),
            Some(path) => match unpacking_at(path) {
                Ok(Some(name)) => Ok((i, name)),
                Ok(None) => search_from(entries, i + 1),
                Err(error) => Err(error),
            },
        }
    }
}

/// Where the build tool lies in an archive that lists as `listing`.
pub open spec fn search(listing: Option<Seq<Option<Seq<u8>>>>) -> Result<
    (int, Seq<u8>),
    WasmPackError,
> {
    match listing {
        None => Err(WasmPackError::Archive),
        Some(entries) => search_from(entries, 0),
    }
}

/// What `found` says, as plain values.
pub open spec fn found_view(found: Result<Found, WasmPackError>) -> Result<
    (int, Seq<u8>),
    WasmPackError,
> {
    match found {
        Ok(found) => Ok((found.index as int, found.file_name@)),
        Err(error) => Err(error),
    }
}

/// Searches the entries of an archive, in their order, for the build
/// tool: the first entry whose file name without extension is that of the
/// build tool. An entry before it that has no file name or cannot be read
/// ends the search with a failure, and so does an archive whose entries
/// cannot be listed.
pub fn find_wasm_pack(entries: Option<Vec<Option<Vec<u8>>>>) -> (found: Result<Found, WasmPackError>)
    ensures
        found_view(found) == search(entries_view(entries)),
{
    let ghost listing = entries_view(entries);
    let list = match entries {
        Some(list) => list,
        None => {
            return Err(WasmPackError::Archive);
        },
    };
    let ghost listed = list@.map_values(|entry: Option<Vec<u8>>| bytes_of(entry));
    let mut i: usize = 0;
    while i < list.len()
        invariant
            0 <= i <= list.len(),
            listing == entries_view(entries),
            listing == Some(listed),
            listed == list@.map_values(|entry: Option<Vec<u8>>| bytes_of(entry)),
            search_from(listed, 0) == search_from(listed, i as int),
        decreases list.len() - i,
    {
        assert(listed[i as int] == bytes_of(list@[i as int]));
        match &list[i] {
            None => {
                return Err(WasmPackError::Archive);
            },
            Some(path) => {
                match unpack_path(path.as_slice()) {
                    Ok(Unpacking::Unpack { file_name }) => {
                        return Ok(Found { index: i, file_name });
                    },
                    Ok(Unpacking::Skip) => {},
                    Err(error) => {
                        return Err(error);
                    },
                }
            },
        }
        i = i + 1;
    }
    Err(WasmPackError::NotFound)
}

/// Finds the build tool in the archive that the gzip stream `tar_gz`
/// holds, so that it can be unpacked into the directory of the frontend.
pub fn unpack_wasm_pack(tar_gz: &[u8]) -> (found: Result<Found, WasmPackError>)
    ensures
        found_view(found) == search(archive_entries(tar_gz@)),
{
    find_wasm_pack(list_archive(tar_gz))
}

} // verus!
