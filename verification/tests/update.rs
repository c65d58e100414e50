use std::io::Cursor;

use sha2::{Digest, Sha256};
use taiga::update::{
    archive_name, binary_file_name, checksum_entry, download_response, extract_binary, hex,
    latest_release_url, path_matches, release_response, verify_checksum, version_string, Asset,
    Release, UpdateError, Version,
};
use taiga::json::Json;
use taiga::upgrade::{plan_update, updated_output, verified_binary, UpdatePlan};

#[test]
fn names_archives_like_the_release_workflow() {
    let version = Version::new(1, 2, 3);
    assert_eq!(
        archive_name(&version, "x86_64-unknown-linux-gnu"),
        ("taiga-cli-1.2.3-x86_64-unknown-linux-gnu.tar.gz".to_owned(), "tar.gz")
    );
    assert_eq!(
        archive_name(&version, "x86_64-pc-windows-msvc"),
        ("taiga-cli-1.2.3-x86_64-pc-windows-msvc.zip".to_owned(), "zip")
    );
    assert_eq!(binary_file_name("x86_64-pc-windows-msvc"), "taiga-cli.exe");
    assert_eq!(binary_file_name("aarch64-apple-darwin"), "taiga-cli");
}

#[test]
fn verifies_sha256sums_entries() {
    let digest = hex(&Sha256::digest(b"payload"));
    let sums = format!("{digest}  a.tar.gz\n0000  b.zip\n");
    verify_checksum(&sums, "a.tar.gz", b"payload").unwrap();
    assert!(matches!(
        verify_checksum(&sums, "a.tar.gz", b"tampered"),
        Err(UpdateError::ChecksumMismatch { .. })
    ));
    assert!(matches!(
        verify_checksum(&sums, "c.zip", b"payload"),
        Err(UpdateError::MissingChecksum(_))
    ));
}

#[test]
fn checksum_lines_accept_binary_marks_case_and_crlf() {
    let digest = hex(&Sha256::digest(b"payload")).to_uppercase();
    let sums = format!("bad line\r\n{digest} *a.tar.gz\r\n");
    assert_eq!(checksum_entry(&sums, "a.tar.gz"), Some(digest.to_lowercase()));
    verify_checksum(&sums, "a.tar.gz", b"payload").unwrap();
    assert_eq!(checksum_entry("one\nx y\n", "y"), Some("x".to_owned()));
    assert_eq!(checksum_entry("", "y"), None);
    let mismatch = verify_checksum("00  a\n", "a", b"payload").unwrap_err();
    assert_eq!(
        mismatch.message(),
        format!("checksum mismatch for a: expected 00, got {}", hex(&Sha256::digest(b"payload")))
    );
}

#[test]
fn hex_is_two_lowercase_digits_per_byte() {
    assert_eq!(hex(&[0x00, 0x0f, 0xa5, 0xff]), "000fa5ff");
    assert_eq!(hex(&[]), "");
    assert_eq!(hex(&Sha256::digest(b"")).len(), 64);
}

#[test]
fn extracts_the_binary_from_both_archive_kinds() {
    let mut tar_bytes = Vec::new();
    {
        let encoder = flate2::write::GzEncoder::new(&mut tar_bytes, flate2::Compression::fast());
        let mut builder = tar::Builder::new(encoder);
        let mut header = tar::Header::new_gnu();
        header.set_size(5);
        header.set_mode(0o755);
        header.set_cksum();
        builder.append_data(&mut header, "taiga-cli", &b"hello"[..]).unwrap();
        builder.into_inner().unwrap().finish().unwrap();
    }
    assert_eq!(extract_binary(&tar_bytes, "tar.gz", "taiga-cli").unwrap(), b"hello");
    assert!(matches!(
        extract_binary(&tar_bytes, "tar.gz", "other"),
        Err(UpdateError::MissingBinary(_))
    ));

    let mut zip_bytes = Vec::new();
    {
        let mut writer = zip::ZipWriter::new(Cursor::new(&mut zip_bytes));
        writer
            .start_file("taiga-cli.exe", zip::write::SimpleFileOptions::default())
            .unwrap();
        std::io::Write::write_all(&mut writer, b"world").unwrap();
        writer.finish().unwrap();
    }
    assert_eq!(extract_binary(&zip_bytes, "zip", "taiga-cli.exe").unwrap(), b"world");
}

#[test]
fn extraction_finds_nested_paths_and_rejects_garbage() {
    let mut tar_bytes = Vec::new();
    {
        let encoder = flate2::write::GzEncoder::new(&mut tar_bytes, flate2::Compression::fast());
        let mut builder = tar::Builder::new(encoder);
        for (path, data) in [("./dist/README", &b"docs"[..]), ("./dist/taiga-cli", &b"binary"[..])] {
            let mut header = tar::Header::new_gnu();
            header.set_size(data.len() as u64);
            header.set_mode(0o755);
            header.set_cksum();
            builder.append_data(&mut header, path, data).unwrap();
        }
        builder.into_inner().unwrap().finish().unwrap();
    }
    assert_eq!(extract_binary(&tar_bytes, "tar.gz", "taiga-cli").unwrap(), b"binary");
    assert!(matches!(
        extract_binary(b"not an archive", "zip", "taiga-cli.exe"),
        Err(UpdateError::Archive(_))
    ));
    assert!(matches!(
        extract_binary(b"not an archive", "tar.gz", "taiga-cli"),
        Err(UpdateError::Archive(_))
    ));
}

#[test]
fn paths_match_on_their_last_component() {
    assert!(path_matches("./taiga-cli", "taiga-cli"));
    assert!(path_matches("././dir/sub/taiga-cli", "taiga-cli"));
    assert!(path_matches("dir\\taiga-cli.exe", "taiga-cli.exe"));
    assert!(!path_matches("taiga-cli/", "taiga-cli"));
    assert!(!path_matches("taiga-cli-old", "taiga-cli"));
}

#[test]
fn parses_release_versions() {
    let release = Release {
        tag_name: "v1.4.0".into(),
        html_url: String::new(),
        assets: Vec::new(),
    };
    assert_eq!(release.version().unwrap(), Version::new(1, 4, 0));
}

#[test]
fn versions_display_their_pre_release_and_build() {
    let release = Release {
        tag_name: "2.0.0-rc.1+build.5".into(),
        html_url: String::new(),
        assets: Vec::new(),
    };
    let version = release.version().unwrap();
    assert_eq!(version_string(&version), "2.0.0-rc.1+build.5");
    let bad = Release { tag_name: "vnext".into(), html_url: String::new(), assets: Vec::new() };
    match bad.version() {
        Err(UpdateError::Parse(message)) => assert!(message.starts_with("tag vnext: ")),
        other => panic!("unexpected {other:?}"),
    }
}

#[test]
fn finds_assets_by_name() {
    let release = Release {
        tag_name: "v1.0.0".into(),
        html_url: String::new(),
        assets: vec![
            Asset { name: "SHA256SUMS".into(), browser_download_url: "u1".into() },
            Asset { name: "a.zip".into(), browser_download_url: "u2".into() },
            Asset { name: "a.zip".into(), browser_download_url: "u3".into() },
        ],
    };
    assert_eq!(release.asset("a.zip").unwrap().browser_download_url, "u2");
    assert!(release.asset("b.zip").is_none());
}

#[test]
fn release_answers_map_to_api_errors() {
    assert_eq!(
        latest_release_url("https://api.github.com//"),
        "https://api.github.com/repos/andersou/taiga-cli-rs/releases/latest"
    );
    assert!(release_response(200, "{}").is_ok());
    match release_response(403, r#"{"message":"API rate limit exceeded"}"#) {
        Err(UpdateError::Api { status, message }) => {
            assert_eq!(status, 403);
            assert_eq!(message, "API rate limit exceeded");
        }
        other => panic!("unexpected {other:?}"),
    }
    match release_response(502, "bad gateway") {
        Err(UpdateError::Api { message, .. }) => assert_eq!(message, "bad gateway"),
        other => panic!("unexpected {other:?}"),
    }
    let error = download_response(404, "https://x/a.zip").unwrap_err();
    assert_eq!(error.message(), "releases API answered 404: downloading https://x/a.zip");
    assert!(download_response(204, "https://x/a.zip").is_ok());
}

#[test]
fn github_token_is_sent_only_when_set_and_not_empty() {
    assert_eq!(taiga::update::github_bearer(Some("g".into())), Some("g".to_owned()));
    assert_eq!(taiga::update::github_bearer(Some(String::new())), None);
    assert_eq!(taiga::update::github_bearer(None), None);
}

const TARGET: &str = "x86_64-unknown-linux-gnu";

fn release_archive(payload: &[u8]) -> (String, Vec<u8>) {
    let name = format!("taiga-cli-9.9.9-{TARGET}.tar.gz");
    let mut bytes = Vec::new();
    {
        let encoder = flate2::write::GzEncoder::new(&mut bytes, flate2::Compression::fast());
        let mut builder = tar::Builder::new(encoder);
        let mut header = tar::Header::new_gnu();
        header.set_size(payload.len() as u64);
        header.set_mode(0o755);
        header.set_cksum();
        builder.append_data(&mut header, "taiga-cli", payload).unwrap();
        builder.into_inner().unwrap().finish().unwrap();
    }
    (name, bytes)
}

fn release(tag: &str, archive_name: &str) -> Release {
    Release {
        tag_name: tag.into(),
        html_url: "https://github.com/andersou/taiga-cli-rs/releases/latest".into(),
        assets: vec![
            Asset { name: archive_name.into(), browser_download_url: format!("https://dl/{archive_name}") },
            Asset { name: "SHA256SUMS".into(), browser_download_url: "https://dl/SHA256SUMS".into() },
        ],
    }
}

fn member<'a>(json: &'a Json, key: &str) -> &'a Json {
    json.get(key).unwrap_or_else(|| panic!("missing {key}"))
}

#[test]
fn update_replaces_the_binary_after_verifying_the_checksum() {
    let payload = b"#!/bin/sh\necho updated\n".to_vec();
    let (archive_name, archive) = release_archive(&payload);
    let sums = format!("{}  {archive_name}\n", hex(&Sha256::digest(&archive)));
    let latest = release("v9.9.9", &archive_name);

    match plan_update(&latest, "0.1.0", TARGET, true).unwrap() {
        UpdatePlan::Report(report) => {
            assert!(matches!(member(&report, "update_available"), Json::Bool(true)));
            assert!(matches!(member(&report, "latest"), Json::Str(v) if v == "9.9.9"));
        }
        other => panic!("--check must not install: {other:?}"),
    }

    match plan_update(&latest, "0.1.0", TARGET, false).unwrap() {
        UpdatePlan::Download(download) => {
            assert_eq!(download.archive_name, archive_name);
            assert_eq!(download.archive_url, format!("https://dl/{archive_name}"));
            assert_eq!(download.sums_url, "https://dl/SHA256SUMS");
            assert_eq!(download.binary, "taiga-cli");
            let binary = verified_binary(&download, &sums, &archive).unwrap();
            assert_eq!(binary, payload);
            let output = updated_output(&download, "/usr/local/bin/taiga-cli");
            assert!(matches!(member(&output, "updated"), Json::Bool(true)));
            assert!(matches!(member(&output, "latest"), Json::Str(v) if v == "9.9.9"));
        }
        other => panic!("unexpected {other:?}"),
    }
}

#[test]
fn update_refuses_archives_that_fail_the_checksum() {
    let (archive_name, archive) = release_archive(b"tampered");
    let sums = format!("{}  {archive_name}\n", "0".repeat(64));
    match plan_update(&release("v9.9.9", &archive_name), "0.1.0", TARGET, false).unwrap() {
        UpdatePlan::Download(download) => {
            let error = verified_binary(&download, &sums, &archive).unwrap_err();
            assert!(matches!(error, UpdateError::ChecksumMismatch { .. }));
            assert!(error.message().contains("checksum mismatch"));
        }
        other => panic!("unexpected {other:?}"),
    }
}

#[test]
fn update_reports_when_already_current_without_downloading() {
    let (archive_name, _) = release_archive(b"same");
    match plan_update(&release("v0.1.0", &archive_name), "0.1.0", TARGET, false).unwrap() {
        UpdatePlan::Current(output) => {
            assert!(matches!(member(&output, "updated"), Json::Bool(false)));
        }
        other => panic!("unexpected {other:?}"),
    }
}

#[test]
fn update_needs_an_archive_and_checksums_and_a_readable_tag() {
    let (archive_name, _) = release_archive(b"x");
    let mut no_sums = release("v9.9.9", &archive_name);
    no_sums.assets.pop();
    let error = plan_update(&no_sums, "0.1.0", TARGET, false).unwrap_err();
    assert_eq!(error.message(), "release v9.9.9 has no SHA256SUMS asset");
    let other_target = plan_update(&no_sums, "0.1.0", "aarch64-apple-darwin", false).unwrap_err();
    assert_eq!(other_target.message(), "release v9.9.9 has no archive for aarch64-apple-darwin");
    assert!(matches!(plan_update(&release("nightly", &archive_name), "0.1.0", TARGET, false), Err(UpdateError::Parse(_))));
    let bad_current = plan_update(&release("v9.9.9", &archive_name), "dev", TARGET, false).unwrap_err();
    assert_eq!(bad_current.message(), "unable to parse the release: current version dev is not a semantic version");
    match plan_update(&release("v0.0.9", &archive_name), "0.1.0", TARGET, false).unwrap() {
        UpdatePlan::Current(_) => {}
        other => panic!("an older release is not installed: {other:?}"),
    }
}
