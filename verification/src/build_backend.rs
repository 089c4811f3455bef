//! What building the backend decides: whether a certificate is made
//! first, how the compiler is called, and what its end means.

use vstd::prelude::*;

verus! {

/// The program that compiles the backend.
pub const CARGO: &'static str = "cargo";

/// What the operator is told when the build starts.
pub const BUILDING: &'static str = "Building backend...";

/// What the operator is told when the build has ended well.
pub const BUILT: &'static str = "Backend built";

/// What the operator is told when a certificate is made.
pub const GENERATING_CERTIFICATE: &'static str = "Generate TLS certificate";

/// Where the certificate of the server lies.
pub const PUBLIC_PEM_PATH: &'static str = "backend/private/public.pem";

/// Where the private key of the server lies.
pub const PRIVATE_PEM_PATH: &'static str = "backend/private/private.pem";

/// The domain that the certificate is made out for.
pub const CERTIFICATE_DOMAIN: &'static str = "localhost";

/// What the operator is told when the certificate could not be written.
pub const PUBLIC_KEY_FAILED: &'static str = "Failed to write the public key";

/// What the operator is told when the private key could not be written.
pub const PRIVATE_KEY_FAILED: &'static str = "Failed to write the private key";

/// What the operator is told when the build id could not be written.
pub const BUILD_ID_FAILED: &'static str = "Failed to write the backend build id";

/// Why the compiler did not build the backend.
#[derive(Clone, Copy, Debug, PartialEq, Eq, Structural)]
pub enum BuildError {
    /// The compiler could not be run or did not tell how it ended.
    Status,
    /// The compiler ended with a failure.
    Failed,
}

impl BuildError {
    /// The failure in the words that the operator reads.
    pub open spec fn text(self) -> Seq<char> {
        match self {
            BuildError::Status => "Failed to get frontend build status"@,
            BuildError::Failed => "Failed to build backend"@,
        }
    }

    /// The failure in the words that the operator reads.
    pub fn message(self) -> (message: &'static str)
        ensures
            message@ == self.text(),
    {
        match self {
            BuildError::Status => "Failed to get frontend build status",
            BuildError::Failed => "Failed to build backend",
        }
    }
}

/// The arguments that the compiler is called with.
pub open spec fn backend_args(release: bool) -> Seq<Seq<char>> {
    if release {
        seq!["build"@, "--package"@, "backend"@, "--release"@]
    } else {
        seq!["build"@, "--package"@, "backend"@]
    }
}

/// How the backend is built.
pub struct BackendBuild {
    /// Whether the certificate of the server is looked for first, and made
    /// where it is missing.
    pub certificate: bool,
    /// The program that compiles.
    pub program: &'static str,
    /// The arguments that it is called with.
    pub args: Vec<&'static str>,
}

/// Lays down how the backend is built: the certificate matters only to a
/// server that serves over TLS, and the compiler optimises only where
/// `release` is set.
pub fn build_backend(release: bool, https: bool) -> (build: BackendBuild)
    ensures
        build.certificate == https,
        build.program@ == CARGO@,
        build.args@.map_values(|arg: &'static str| arg@) == backend_args(release),
{
    let mut args = vec!["build", "--package", "backend"];
    if release {
        args.push("--release");
    }
    assert(args@.map_values(|arg: &'static str| arg@) =~= backend_args(release));
    BackendBuild { certificate: https, program: CARGO, args }
}

/// Whether a certificate is to be made: it is, unless both the
/// certificate and its private key are there as files.
pub fn generate_certificate_if_not_present(public_pem_is_file: bool, private_pem_is_file: bool) -> (generate:
    bool)
    ensures
        generate == !(public_pem_is_file && private_pem_is_file),
{
    !(public_pem_is_file && private_pem_is_file)
}

/// Judges how the compiler ended. `status` holds whether it ended well,
/// or nothing where it could not be run or did not tell.
pub fn build_verdict(status: Option<bool>) -> (verdict: Result<(), BuildError>)
    ensures
        verdict == match status {
            None => Err::<(), BuildError>(BuildError::Status),
            Some(false) => Err(BuildError::Failed),
            Some(true) => Ok(()),
        },
{
    match status {
        None => Err(BuildError::Status),
        Some(false) => Err(BuildError::Failed),
        Some(true) => Ok(()),
    }
}

} // verus!
