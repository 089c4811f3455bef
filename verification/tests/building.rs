use std::io::Write;

use moonzoon::build_backend::{
    build_backend, build_verdict, generate_certificate_if_not_present, BuildError,
    BUILD_ID_FAILED, CERTIFICATE_DOMAIN, PRIVATE_KEY_FAILED, PRIVATE_PEM_PATH, PUBLIC_KEY_FAILED,
    PUBLIC_PEM_PATH,
};
use moonzoon::wasm_pack::{
    build_with_wasm_pack, check_or_install_wasm_pack, check_wasm_pack, download_failed_message,
    download_url, find_wasm_pack, unpack_path, unpack_wasm_pack, Unpacking, WasmPackError,
    FRONTEND_DIR, UNPACK_FAILED, VERSION, VERSION_FLAG,
};

#[test]
fn the_backend_is_built_with_cargo() {
    let build = build_backend(false, false);
    assert_eq!(build.program, "cargo");
    assert_eq!(build.args, vec!["build", "--package", "backend"]);
    assert!(!build.certificate);
}

#[test]
fn a_release_build_of_the_backend_is_optimised() {
    let build = build_backend(true, true);
    assert_eq!(build.program, "cargo");
    assert_eq!(build.args, vec!["build", "--package", "backend", "--release"]);
    assert!(build.certificate);
    assert!(build_backend(false, true).certificate);
    assert!(!build_backend(true, false).certificate);
}

#[test]
fn a_certificate_is_made_unless_both_files_are_there() {
    assert!(generate_certificate_if_not_present(false, false));
    assert!(generate_certificate_if_not_present(true, false));
    assert!(generate_certificate_if_not_present(false, true));
    assert!(!generate_certificate_if_not_present(true, true));
    assert_eq!(PUBLIC_PEM_PATH, "backend/private/public.pem");
    assert_eq!(PRIVATE_PEM_PATH, "backend/private/private.pem");
    assert_eq!(CERTIFICATE_DOMAIN, "localhost");
}

#[test]
fn the_end_of_the_backend_build_is_judged() {
    assert_eq!(build_verdict(Some(true)), Ok(()));
    assert_eq!(build_verdict(Some(false)), Err(BuildError::Failed));
    assert_eq!(build_verdict(None), Err(BuildError::Status));
}

#[test]
fn backend_build_failures_in_words() {
    assert_eq!(PUBLIC_KEY_FAILED, "Failed to write the public key");
    assert_eq!(PRIVATE_KEY_FAILED, "Failed to write the private key");
    assert_eq!(BuildError::Status.message(), "Failed to get frontend build status");
    assert_eq!(BuildError::Failed.message(), "Failed to build backend");
    assert_eq!(BUILD_ID_FAILED, "Failed to write the backend build id");
}

#[test]
fn the_frontend_is_built_for_development_unless_asked_otherwise() {
    let build = build_with_wasm_pack(false);
    assert_eq!(build.program, "frontend/wasm-pack");
    assert_eq!(
        build.args,
        vec!["--log-level", "warn", "build", "frontend", "--target", "web", "--no-typescript", "--dev"]
    );
    let build = build_with_wasm_pack(true);
    assert_eq!(build.program, "frontend/wasm-pack");
    assert_eq!(
        build.args,
        vec!["--log-level", "warn", "build", "frontend", "--target", "web", "--no-typescript"]
    );
}

#[test]
fn the_end_of_the_frontend_build_is_judged() {
    assert_eq!(moonzoon::wasm_pack::build_verdict(Some(true)), Ok(()));
    assert_eq!(moonzoon::wasm_pack::build_verdict(Some(false)), Err(WasmPackError::Failed));
    assert_eq!(moonzoon::wasm_pack::build_verdict(None), Err(WasmPackError::Status));
}

#[test]
fn the_version_of_the_build_tool_is_checked_to_the_byte() {
    assert_eq!(VERSION, "0.9.1");
    assert_eq!(VERSION_FLAG, "-V");
    assert_eq!(check_wasm_pack(Some(b"wasm-pack 0.9.1\n")), Ok(()));
    assert_eq!(check_wasm_pack(Some(b"wasm-pack 0.9.1")), Err(WasmPackError::Version));
    assert_eq!(check_wasm_pack(Some(b"wasm-pack 0.9.1\r\n")), Err(WasmPackError::Version));
    assert_eq!(check_wasm_pack(Some(b"wasm-pack 0.9.2\n")), Err(WasmPackError::Version));
    assert_eq!(check_wasm_pack(Some(b"wasm-pack 0.10.0\n")), Err(WasmPackError::Version));
    assert_eq!(check_wasm_pack(Some(b"")), Err(WasmPackError::Version));
    assert_eq!(check_wasm_pack(None), Err(WasmPackError::NotRun));
}

#[test]
fn the_build_tool_is_downloaded_for_the_platform() {
    assert_eq!(
        download_url("x86_64-unknown-linux-musl"),
        "https://github.com/rustwasm/wasm-pack/releases/download/v0.9.1/wasm-pack-v0.9.1-x86_64-unknown-linux-musl.tar.gz"
    );
    assert_eq!(
        download_failed_message("x86_64-apple-darwin"),
        "Failed to download wasm-pack from the url 'https://github.com/rustwasm/wasm-pack/releases/download/v0.9.1/wasm-pack-v0.9.1-x86_64-apple-darwin.tar.gz'"
    );
}

#[test]
fn the_build_tool_is_installed_only_where_the_check_fails() {
    assert_eq!(check_or_install_wasm_pack(Ok(()), "x86_64-unknown-linux-musl"), None);
    assert_eq!(
        check_or_install_wasm_pack(Err(WasmPackError::Version), "t"),
        Some(download_url("t"))
    );
    assert_eq!(
        check_or_install_wasm_pack(Err(WasmPackError::NotRun), "t"),
        Some(download_url("t"))
    );
}

#[test]
fn build_tool_failures_in_words() {
    assert_eq!(WasmPackError::Version.message(), "wasm-pack's expected version is 0.9.1");
    assert_eq!(UNPACK_FAILED, "Failed to unpack wasm-pack");
    assert_eq!(WasmPackError::EntryWithoutFileName.message(), "Entry without a file name");
    assert_eq!(
        WasmPackError::NotFound.message(),
        "Failed to find wasm-pack in the downloaded archive"
    );
    assert_eq!(WasmPackError::Status.message(), "Failed to get frontend build status");
    assert_eq!(WasmPackError::Failed.message(), "Failed to build frontend");
    assert!(!WasmPackError::NotRun.message().is_empty());
    assert!(!WasmPackError::Archive.message().is_empty());
}

fn unpacked(path: &str) -> Result<Option<String>, WasmPackError> {
    match unpack_path(path.as_bytes()) {
        Ok(Unpacking::Unpack { file_name }) => Ok(Some(String::from_utf8(file_name).unwrap())),
        Ok(Unpacking::Skip) => Ok(None),
        Err(error) => Err(error),
    }
}

fn text(value: &str) -> Option<String> {
    Some(value.to_string())
}

#[test]
fn an_entry_is_the_build_tool_by_its_stem() {
    assert_eq!(FRONTEND_DIR, "frontend");
    assert_eq!(
        unpacked("wasm-pack-v0.9.1-x86_64-unknown-linux-musl/wasm-pack"),
        Ok(text("wasm-pack"))
    );
    assert_eq!(unpacked("dir/wasm-pack.exe"), Ok(text("wasm-pack.exe")));
    assert_eq!(unpacked("wasm-pack"), Ok(text("wasm-pack")));
    assert_eq!(unpacked("dir/wasm-pack/"), Ok(text("wasm-pack")));
}

#[test]
fn any_other_entry_is_passed_over() {
    assert_eq!(unpacked("wasm-pack/README.md"), Ok(None));
    assert_eq!(unpacked("dir/LICENSE-MIT"), Ok(None));
    assert_eq!(unpacked("dir/wasm-pack.tar.gz"), Ok(None));
    assert_eq!(unpacked("dir/wasm-pack-init"), Ok(None));
    assert_eq!(unpacked("dir/Wasm-Pack"), Ok(None));
    assert_eq!(unpacked("dir/.wasm-pack"), Ok(None));
}

#[test]
fn an_entry_without_a_file_name_is_a_failure() {
    assert_eq!(unpacked("dir/.."), Err(WasmPackError::EntryWithoutFileName));
    assert_eq!(unpacked("/"), Err(WasmPackError::EntryWithoutFileName));
    assert_eq!(unpacked(""), Err(WasmPackError::EntryWithoutFileName));
}

fn found(entries: Option<Vec<Option<&str>>>) -> Result<(usize, String), WasmPackError> {
    let entries = entries
        .map(|list| list.into_iter().map(|entry| entry.map(|e| e.as_bytes().to_vec())).collect());
    find_wasm_pack(entries).map(|found| (found.index, String::from_utf8(found.file_name).unwrap()))
}

#[test]
fn the_first_entry_that_is_the_build_tool_is_found() {
    assert_eq!(
        found(Some(vec![Some("pkg/README.md"), Some("pkg/wasm-pack"), Some("other/wasm-pack.exe")])),
        Ok((1, "wasm-pack".to_string()))
    );
    assert_eq!(found(Some(vec![Some("wasm-pack.exe")])), Ok((0, "wasm-pack.exe".to_string())));
}

#[test]
fn an_archive_without_the_build_tool() {
    assert_eq!(found(Some(vec![])), Err(WasmPackError::NotFound));
    assert_eq!(
        found(Some(vec![Some("pkg/README.md"), Some("pkg/LICENSE")])),
        Err(WasmPackError::NotFound)
    );
}

#[test]
fn an_entry_without_a_file_name_ends_the_search() {
    assert_eq!(
        found(Some(vec![Some("pkg/.."), Some("pkg/wasm-pack")])),
        Err(WasmPackError::EntryWithoutFileName)
    );
    assert_eq!(
        found(Some(vec![Some("pkg/wasm-pack"), Some("pkg/..")])),
        Ok((0, "wasm-pack".to_string()))
    );
}

#[test]
fn an_archive_that_cannot_be_read_ends_the_search() {
    assert_eq!(found(None), Err(WasmPackError::Archive));
    assert_eq!(found(Some(vec![Some("a"), None])), Err(WasmPackError::Archive));
    assert_eq!(
        found(Some(vec![Some("pkg/wasm-pack"), None])),
        Ok((0, "wasm-pack".to_string()))
    );
}

fn archive(files: &[(&str, &[u8])]) -> Vec<u8> {
    let encoder = flate2::write::GzEncoder::new(Vec::new(), flate2::Compression::default());
    let mut builder = tar::Builder::new(encoder);
    for (path, content) in files {
        let mut header = tar::Header::new_gnu();
        header.set_size(content.len() as u64);
        header.set_mode(0o755);
        header.set_cksum();
        builder.append_data(&mut header, path, *content).unwrap();
    }
    builder.into_inner().unwrap().finish().unwrap()
}

fn located(tar_gz: &[u8]) -> Result<(usize, String), WasmPackError> {
    unpack_wasm_pack(tar_gz)
        .map(|found| (found.index, String::from_utf8(found.file_name).unwrap()))
}

#[test]
fn the_build_tool_is_found_in_a_real_archive() {
    let tar_gz = archive(&[
        ("wasm-pack-v0.9.1-x86_64-unknown-linux-musl/LICENSE-APACHE", b"licence"),
        ("wasm-pack-v0.9.1-x86_64-unknown-linux-musl/README.md", b"read me"),
        ("wasm-pack-v0.9.1-x86_64-unknown-linux-musl/wasm-pack", b"\x7fELF"),
    ]);
    assert_eq!(located(&tar_gz), Ok((2, "wasm-pack".to_string())));
}

#[test]
fn a_real_archive_without_the_build_tool() {
    let tar_gz = archive(&[("pkg/README.md", b"read me"), ("pkg/wasm-pack-init", b"x")]);
    assert_eq!(located(&tar_gz), Err(WasmPackError::NotFound));
    assert_eq!(located(&archive(&[])), Err(WasmPackError::NotFound));
}

#[test]
fn bytes_that_are_no_archive() {
    assert_eq!(located(b"this is no gzip stream"), Err(WasmPackError::Archive));
    assert_eq!(located(b""), Err(WasmPackError::Archive));
}

#[test]
fn an_archive_that_breaks_off() {
    let tar_gz = archive(&[("pkg/README.md", &[7u8; 4000]), ("pkg/wasm-pack", b"\x7fELF")]);
    let mut plain = Vec::new();
    std::io::Read::read_to_end(&mut flate2::read::GzDecoder::new(&tar_gz[..]), &mut plain).unwrap();
    plain.truncate(1000);
    let mut encoder = flate2::write::GzEncoder::new(Vec::new(), flate2::Compression::default());
    encoder.write_all(&plain).unwrap();
    let broken = encoder.finish().unwrap();
    assert_eq!(located(&broken), Err(WasmPackError::Archive));
}
