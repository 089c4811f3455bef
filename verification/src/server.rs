//! What the server decides when it answers: which file of the compiled
//! client to send for a request, and what it tells a client that connects.

use vstd::prelude::*;
use vstd::string::StringSliceAdditionalSpecFns;
use crate::decimal::{decimal, to_decimal};
use crate::path::{extension, extension_of};

verus! {

/// A message that a client sent up to the server.
pub struct UpMsgRequest {}

/// The directory of the compiled client, with the separator that follows.
pub const PKG_DIR: &'static str = "frontend/pkg/";

/// The name of the Brotli coding in a request.
pub const BROTLI: &'static str = "br";

/// The name of the gzip coding in a request.
pub const GZIP: &'static str = "gzip";

/// What the name of a file compressed with Brotli ends in.
pub const BROTLI_SUFFIX: &'static str = ".br";

/// What the name of a file compressed with gzip ends in.
pub const GZIP_SUFFIX: &'static str = ".gz";

/// The event that tells a client the build id of the backend.
pub const BACKEND_BUILD_ID_EVENT: &'static str = "backend_build_id";

/// The event that tells the clients to load the page anew.
pub const RELOAD_EVENT: &'static str = "reload";

/// What all requests are answered with in common.
#[derive(Clone, Copy, Debug, PartialEq, Eq, Structural)]
pub struct SharedData {
    /// Whether the files of the compiled client lie compressed on disk.
    pub compressed_pkg: bool,
    /// The build id of the backend that runs.
    pub backend_build_id: u128,
}

/// How a file of the compiled client is coded when it is sent.
#[derive(Clone, Copy, Debug, PartialEq, Eq, Structural)]
pub enum PkgEncoding {
    /// As it is.
    Identity,
    /// Compressed with Brotli.
    Brotli,
    /// Compressed with gzip.
    Gzip,
}

impl PkgEncoding {
    /// What the name of a file in this coding ends in.
    pub open spec fn suffix(self) -> Seq<char> {
        match self {
            PkgEncoding::Identity => Seq::empty(),
            PkgEncoding::Brotli => BROTLI_SUFFIX@,
            PkgEncoding::Gzip => GZIP_SUFFIX@,
        }
    }
}

/// The media type that the table of the `mime_guess` crate gives for the
/// file extension `extension`, or `application/octet-stream` where it
/// gives none.
pub uninterp spec fn guessed_media_type(extension: Seq<u8>) -> Seq<char>;

/// The media type that a file at `path` is declared as: the one that is
/// guessed for its extension, where a path without extension counts as
/// one with the empty extension.
pub open spec fn media_type_of(path: Seq<u8>) -> Seq<char> {
    guessed_media_type(
        match extension_of(path) {
            Some(extension) => extension,
            None => Seq::empty(),
        },
    )
}

/// One of `names` is `name`.
pub open spec fn names_hold(names: Seq<Seq<char>>, name: Seq<char>) -> bool {
    exists|i: int| 0 <= i < names.len() && #[trigger] names[i] == name
}

/// The coding in which a file of the compiled client is sent to a client
/// that accepts the codings `accepted`: a compressed one only where the
/// files lie compressed on disk, Brotli rather than gzip.
pub open spec fn chosen_encoding(compressed_pkg: bool, accepted: Seq<Seq<char>>) -> PkgEncoding {
    if compressed_pkg && names_hold(accepted, BROTLI@) {
        PkgEncoding::Brotli
    } else if compressed_pkg && names_hold(accepted, GZIP@) {
        PkgEncoding::Gzip
    } else {
        PkgEncoding::Identity
    }
}

/// The file of the compiled client that answers a request.
pub struct PkgFile {
    /// Where the file lies on disk.
    pub path: String,
    /// How it is coded.
    pub encoding: PkgEncoding,
    /// The media type that it is declared as.
    pub content_type: String,
}

/// Guesses the media type of a file from its extension. This calls
/// `mime_guess::from_ext` and, on its result,
/// `MimeGuess::first_or_octet_stream`, and writes the media type out as
/// text. The crate looks the extension up, whatever its case, in a table
/// that is fixed when it is compiled, so the same extension always gives
/// the same media type; which one is not stated here. Bytes that are no
/// text are no extension that the table knows.
#[verifier::external_body]
fn guess_media_type(extension: &[u8]) -> (media_type: String)
    ensures
        media_type@ == guessed_media_type(extension@),
{
    mime_guess::from_ext(&String::from_utf8_lossy(extension)).first_or_octet_stream().to_string()
}

/// Guesses the media type of the file at `path` from its extension.
pub fn media_type(path: &[u8]) -> (media_type: String)
    ensures
        media_type@ == media_type_of(path@),
{
    match extension(path) {
        Some(extension) => guess_media_type(extension.as_slice()),
        None => {
            let none: Vec<u8> = Vec::new();
            guess_media_type(none.as_slice())
        },
    }
}

fn holds(names: &Vec<String>, name: &str) -> (found: bool)
    ensures
        found == names_hold(names@.map_values(|n: String| n@), name@),
{
    let wanted = String::from_str(name);
    let ghost views = names@.map_values(|n: String| n@);
    let mut i: usize = 0;
    while i < names.len()
        invariant
            0 <= i <= names.len(),
            wanted@ == name@,
            views == names@.map_values(|n: String| n@),
            forall|j: int| 0 <= j < i ==> views[j] != name@,
        decreases names.len() - i,
    {
        if names[i] == wanted {
            assert(views[i as int] == name@);
            return true;
        }
        i = i + 1;
    }
    false
}

/// Chooses the coding in which a file of the compiled client is sent.
/// `accepted` holds the values of the request's headers that name accepted
/// codings, each as a whole.
pub fn choose_encoding(compressed_pkg: bool, accepted: &Vec<String>) -> (encoding: PkgEncoding)
    ensures
        encoding == chosen_encoding(compressed_pkg, accepted@.map_values(|n: String| n@)),
{
    if compressed_pkg && holds(accepted, BROTLI) {
        PkgEncoding::Brotli
    } else if compressed_pkg && holds(accepted, GZIP) {
        PkgEncoding::Gzip
    } else {
        PkgEncoding::Identity
    }
}

/// Puts together the answer to a request for `file`, to be sent in the
/// coding `encoding` and declared as `content_type`: the file lies in the
/// directory of the compiled client, under its name followed by what the
/// coding adds to it.
pub fn pkg_file(file: &str, encoding: PkgEncoding, content_type: String) -> (answer: PkgFile)
    ensures
        answer.path@ == PKG_DIR@ + file@ + encoding.suffix(),
        answer.encoding == encoding,
        answer.content_type == content_type,
{
    let mut path = String::from_str(PKG_DIR);
    path.append(file);
    match encoding {
        PkgEncoding::Identity => {
            assert(path@ =~= PKG_DIR@ + file@ + encoding.suffix());
        },
        PkgEncoding::Brotli => {
            path.append(BROTLI_SUFFIX);
        },
        PkgEncoding::Gzip => {
            path.append(GZIP_SUFFIX);
        },
    }
    PkgFile { path, encoding, content_type }
}

/// Decides how a request for the file `file` of the compiled client is
/// answered. The media type is guessed from the name that was asked for,
/// whatever coding the file is sent in.
pub fn pkg_responder(file: &str, accepted: &Vec<String>, shared_data: SharedData) -> (answer: PkgFile)
    ensures
        answer.encoding == chosen_encoding(
            shared_data.compressed_pkg,
            accepted@.map_values(|n: String| n@),
        ),
        answer.path@ == PKG_DIR@ + file@ + answer.encoding.suffix(),
        answer.content_type@ == media_type_of(file.spec_bytes()),
{
    let content_type = media_type(file.as_bytes());
    let encoding = choose_encoding(shared_data.compressed_pkg, accepted);
    pkg_file(file, encoding, content_type)
}

/// What a client is told about the backend when it connects: the build id
/// of the backend, in decimal digits.
pub fn sse_responder(shared_data: SharedData) -> (data: String)
    ensures
        data@ == decimal(shared_data.backend_build_id as nat),
{
    to_decimal(shared_data.backend_build_id)
}

} // verus!
