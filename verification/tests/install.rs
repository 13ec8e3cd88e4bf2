use std::io::Write;

use cloudpipe::error::{Error, InstallError};
use cloudpipe::install::{
    ensure_installed, extract_tgz, find_binary, find_in_path, path_candidates, spawn_args,
    spawn_env, unpack, walkable_part, Candidate, Fetch, FetchError, FoundFile, Listed, Located,
};

fn tgz(entries: &[(&str, &[u8])]) -> Vec<u8> {
    let mut builder = tar::Builder::new(Vec::new());
    for (path, content) in entries {
        let mut header = tar::Header::new_gnu();
        header.set_size(content.len() as u64);
        header.set_mode(0o644);
        builder.append_data(&mut header, path, *content).unwrap();
    }
    gzip(&builder.into_inner().unwrap())
}

fn gzip(bytes: &[u8]) -> Vec<u8> {
    let mut encoder = flate2::write::GzEncoder::new(Vec::new(), flate2::Compression::fast());
    encoder.write_all(bytes).unwrap();
    encoder.finish().unwrap()
}

#[test]
fn the_binary_is_found_in_an_archive() {
    let archive = tgz(&[
        ("README", b"hello"),
        ("dist/cloudflared", b"the binary"),
        ("cloudflared", b"another"),
    ]);
    assert_eq!(extract_tgz(&archive).unwrap(), b"the binary");
    assert_eq!(unpack(archive, true).unwrap(), b"the binary");
    assert_eq!(unpack(b"raw".to_vec(), false).unwrap(), b"raw");
}

fn plain(error: Error) -> FetchError {
    FetchError::Plain(error)
}

fn step(text: &str, reason: &str) -> FetchError {
    FetchError::Step {
        text: text.to_string(),
        chain: format!("{text}: {reason}"),
    }
}

#[test]
fn an_archive_without_the_binary_is_refused() {
    let archive = tgz(&[("cloudflared.txt", b"no"), ("cloudflared/readme", b"no")]);
    assert_eq!(
        extract_tgz(&archive).unwrap_err(),
        plain(Error::Cloudflared(InstallError::MissingBinary))
    );
    assert_eq!(
        extract_tgz(&tgz(&[])).unwrap_err(),
        plain(Error::Cloudflared(InstallError::MissingBinary))
    );
}

#[test]
fn broken_archives_are_refused() {
    assert_eq!(
        extract_tgz(&b"no archive at all".to_vec()).unwrap_err(),
        step("reading tar entry", "invalid gzip header")
    );
    let bytes = extract_tgz(&gzip(&[1u8; 1024])).unwrap_err();
    assert!(matches!(
        bytes,
        FetchError::Step { text, chain }
            if text == "reading tar entry" && chain.starts_with("reading tar entry: numeric field")
    ));
    let content: Vec<u8> = (0u32..40000).map(|i| (i * i % 251) as u8).collect();
    let mut cut = tgz(&[("cloudflared", &content)]);
    cut.truncate(cut.len() / 2);
    let FetchError::Step { text, chain } = extract_tgz(&cut).unwrap_err() else {
        panic!("expected a failed step");
    };
    assert_eq!(text, "extracting cloudflared");
    assert!(chain.len() > "extracting cloudflared: ".len());
}

/// A file of 512 bytes in one piece, with a map that goes on in one further,
/// empty block. Its header claims the given size.
fn sparse(path: &str, claimed: u64) -> Vec<u8> {
    let mut header = tar::Header::new_gnu();
    header.set_path(path).unwrap();
    header.set_entry_type(tar::EntryType::GNUSparse);
    header.set_mode(0o644);
    header.set_size(claimed);
    let bytes = header.as_mut_bytes();
    bytes[386..398].copy_from_slice(b"00000000000\0");
    bytes[398..410].copy_from_slice(b"00000001000\0");
    bytes[482] = 1;
    bytes[483..495].copy_from_slice(b"00000001000\0");
    header.set_cksum();
    let mut r = header.as_bytes().to_vec();
    r.extend([0; 512]);
    r.extend([7; 512]);
    r
}

fn file(path: &str, content: &[u8]) -> Vec<u8> {
    let mut header = tar::Header::new_gnu();
    header.set_path(path).unwrap();
    header.set_size(content.len() as u64);
    header.set_mode(0o644);
    header.set_cksum();
    let mut r = header.as_bytes().to_vec();
    r.extend(content);
    r.resize(r.len().div_ceil(512) * 512, 0);
    r
}

fn attributes(record: &str) -> Vec<u8> {
    let mut header = tar::Header::new_ustar();
    header.set_path("attributes").unwrap();
    header.set_entry_type(tar::EntryType::XHeader);
    header.set_size(record.len() as u64);
    header.set_mode(0o644);
    header.set_cksum();
    let mut r = header.as_bytes().to_vec();
    r.extend(record.as_bytes());
    r.resize(1024, 0);
    r
}

fn parts(parts: &[Vec<u8>]) -> Vec<u8> {
    let mut data = parts.concat();
    data.extend([0; 1024]);
    data
}

const VAST: u64 = u64::MAX - 2047;

#[test]
fn sparse_files_do_not_stand_in_the_way() {
    let binary = file("cloudflared", b"the binary");
    let small = "12 size=512\n";
    assert_eq!(small.len(), 12);
    let cases: Vec<Vec<Vec<u8>>> = vec![
        vec![sparse("hole", 512), binary.clone()],
        vec![attributes(small), sparse("hole", 512), binary.clone()],
        vec![attributes(small), sparse("hole", VAST), binary.clone()],
        vec![file("x", &attributes(small)), sparse("hole", 512), binary.clone()],
        vec![binary.clone(), sparse("hole", VAST)],
        vec![binary.clone(), attributes(small), sparse("hole", 512)],
        vec![file("data", &sparse("hole", VAST)), binary.clone()],
        vec![
            file("README", b"26 size=18446744073709549568\n"),
            sparse("hole", 512),
            binary.clone(),
        ],
    ];
    for case in &cases {
        let data = parts(case);
        assert_eq!(extract_tgz(&gzip(&data)).unwrap(), b"the binary");
    }
    let own = parts(&[sparse("cloudflared", 512)]);
    assert_eq!(extract_tgz(&gzip(&own)).unwrap(), vec![7; 512]);
}

#[test]
fn a_walk_keeps_room_to_count() {
    let binary = file("cloudflared", b"the binary");
    let data = parts(&[sparse("hole", u64::MAX - 1023), binary.clone()]);
    assert_eq!(walkable_part(&data), 512);
    assert_eq!(
        extract_tgz(&gzip(&data)).unwrap_err(),
        step("reading tar entry", "failed to read extension")
    );
    let wrong = "mismatch in sparse file chunks and entry size in header";
    for (claimed, part) in [(u64::MAX - 1535, 1024), (VAST, 1536)] {
        let data = parts(&[sparse("hole", claimed), binary.clone()]);
        assert_eq!(walkable_part(&data), part);
        assert_eq!(
            extract_tgz(&gzip(&data)).unwrap_err(),
            step("reading tar entry", wrong)
        );
    }
    let data = parts(&[sparse("hole", 1 << 63), binary.clone()]);
    assert_eq!(walkable_part(&data), data.len());
    let data = parts(&[file("data", &sparse("hole", VAST)), binary.clone()]);
    assert_eq!(walkable_part(&data), data.len());
    let data = parts(&[attributes("12 size=512\n"), sparse("hole", VAST)]);
    assert_eq!(walkable_part(&data), data.len());
    let record = "29 size=18446744073709549568\n";
    assert_eq!(record.len(), 29);
    let data = parts(&[attributes(record), sparse("hole", 512), binary.clone()]);
    assert!(walkable_part(&data) < data.len());
    assert!(extract_tgz(&gzip(&data)).is_err());
    let data = parts(&[file("a", b"a"), binary, sparse("hole", u64::MAX - 2047)]);
    assert_eq!(extract_tgz(&gzip(&data)).unwrap(), b"the binary");
    assert_eq!(walkable_part(&Vec::new()), 0);
    assert_eq!(walkable_part(&vec![1; 700]), 700);
}

#[test]
fn an_archive_cut_short_gives_what_there_is() {
    let mut header = tar::Header::new_gnu();
    header.set_path("cloudflared").unwrap();
    header.set_size(1000);
    header.set_cksum();
    let mut data = header.as_bytes().to_vec();
    data.extend([9; 100]);
    assert_eq!(extract_tgz(&gzip(&data)).unwrap(), vec![9; 100]);
}

#[test]
fn an_archive_that_ends_badly_is_read_up_to_there() {
    let mut archive = tgz(&[("cloudflared", b"the binary"), ("other", b"x")]);
    let end = archive.len();
    archive[end - 6] ^= 0xff;
    assert_eq!(extract_tgz(&archive).unwrap(), b"the binary");
}

fn listing(paths: &[Option<&str>]) -> Result<Vec<Listed>, String> {
    Ok(paths
        .iter()
        .map(|p| match p {
            Some(path) => Listed::Entry {
                path: path.as_bytes().to_vec(),
                position: 0,
                size: 0,
            },
            None => Listed::Fault("bad".to_string()),
        })
        .collect())
}

#[test]
fn the_first_entry_of_interest_decides() {
    assert_eq!(find_binary(&listing(&[Some("a"), Some("cloudflared")])), Ok(1));
    assert_eq!(find_binary(&listing(&[Some("x/cloudflared/.")])), Ok(0));
    assert_eq!(find_binary(&listing(&[Some("./cloudflared//")])), Ok(0));
    assert_eq!(find_binary(&listing(&[Some("cloudflared"), None])), Ok(0));
    assert_eq!(
        find_binary(&listing(&[None, Some("cloudflared")])),
        Err(step("reading tar entry", "bad"))
    );
    assert_eq!(
        find_binary(&Err("closed".to_string())),
        Err(step("reading tar archive", "closed"))
    );
    for path in [
        "cloudflared/..", "Cloudflared", "cloudflared2", "xcloudflared", "", ".", "/", "a/.cloudflared",
    ] {
        assert_eq!(
            find_binary(&listing(&[Some(path)])),
            Err(plain(Error::Cloudflared(InstallError::MissingBinary))),
            "{path}"
        );
    }
}

#[test]
fn components_are_those_of_path() {
    for path in [
        "cloudflared", "a/cloudflared", "a/./cloudflared", "cloudflared/", "cloudflared/.", "cloudflared/./",
        "cloudflared/..", "/cloudflared", "a/cloudflared/b", "cloudflared/.x", "./.", "..", "cloudflared//.//",
    ] {
        let named = std::path::Path::new(path)
            .file_name()
            .is_some_and(|n| n == "cloudflared");
        assert_eq!(find_binary(&listing(&[Some(path)])).is_ok(), named, "{path}");
    }
}

fn candidate(dir: usize, name: &str) -> Candidate {
    Candidate {
        dir,
        name: name.to_string(),
    }
}

#[test]
fn the_search_follows_path() {
    let none: Vec<String> = Vec::new();
    assert_eq!(
        path_candidates(2, &none, false),
        vec![candidate(0, "cloudflared"), candidate(1, "cloudflared")]
    );
    let exts = vec![".COM".to_string(), String::new(), ".EXE".to_string()];
    assert_eq!(
        path_candidates(2, &exts, true),
        vec![
            candidate(0, "cloudflared.exe"),
            candidate(1, "cloudflared.exe"),
            candidate(0, "cloudflared.COM"),
            candidate(1, "cloudflared.COM"),
            candidate(0, "cloudflared.EXE"),
            candidate(1, "cloudflared.EXE"),
        ]
    );
    assert_eq!(path_candidates(1, &exts, false), vec![candidate(0, "cloudflared")]);
    assert_eq!(path_candidates(0, &exts, true), vec![]);
}

#[test]
fn the_first_file_hides_the_others() {
    let nothing = FoundFile {
        is_file: false,
        executable: false,
    };
    let plain = FoundFile {
        is_file: true,
        executable: false,
    };
    let program = FoundFile {
        is_file: true,
        executable: true,
    };
    assert_eq!(find_in_path(&vec![nothing, program, program]), Some(1));
    assert_eq!(find_in_path(&vec![nothing, plain, program]), None);
    assert_eq!(find_in_path(&vec![nothing]), None);
    assert_eq!(find_in_path(&vec![]), None);
}

#[test]
fn a_binary_at_hand_is_used() {
    assert_eq!(
        ensure_installed(Some(3), true, "plan9", "mips", None, None),
        Ok(Located::InPath(3))
    );
    assert_eq!(
        ensure_installed(None, true, "plan9", "mips", None, None),
        Ok(Located::Installed)
    );
    assert!(ensure_installed(None, false, "plan9", "mips", None, None).is_err());
    assert_eq!(
        ensure_installed(None, false, "macos", "riscv64", None, None).unwrap_err(),
        Error::Cloudflared(InstallError::UnsupportedPlatform {
            platform: "macos".to_string(),
            arch: "riscv64".to_string(),
        })
    );
}

#[test]
fn sources_are_tried_in_order() {
    let located = ensure_installed(None, false, "macos", "aarch64", Some("https://m/"), None);
    let Ok(Located::Missing(first)) = located else {
        panic!("expected a download");
    };
    assert!(first.is_tgz);
    assert_eq!(
        first.url(),
        "https://m/https://github.com/cloudflare/cloudflared/releases/latest/download/cloudflared-darwin-arm64.tgz"
    );
    let Fetch::Retry { rest, notice } = first.fetched(Err(FetchError::Step {
        text: "cannot download".to_string(),
        chain: "cannot download: timeout".to_string(),
    })) else {
        panic!("expected another source");
    };
    assert_eq!(
        notice,
        "Download failed (https://m/https://github.com/cloudflare/cloudflared/releases/latest/download/cloudflared-darwin-arm64.tgz): cannot download: timeout; trying next source"
    );
    assert_eq!(
        rest.url(),
        "https://github.com/cloudflare/cloudflared/releases/latest/download/cloudflared-darwin-arm64.tgz"
    );
    assert_eq!(rest.last_error.as_deref(), Some("cannot download"));
    let reset = FetchError::Plain(Error::Io("reset".to_string()));
    let Fetch::Failed { error, notice } = rest.fetched(Err(reset)) else {
        panic!("expected the end");
    };
    assert_eq!(
        error,
        Error::Cloudflared(InstallError::Download("io error: reset".to_string()))
    );
    assert!(notice.unwrap().ends_with("): io error: reset; trying next source"));
}

#[test]
fn one_source_is_not_announced() {
    let located = ensure_installed(None, false, "linux", "arm", Some(""), None);
    let Ok(Located::Missing(only)) = located else {
        panic!("expected a download");
    };
    assert!(!only.is_tgz);
    assert_eq!(only.urls.len(), 1);
    let failed = FetchError::Step {
        text: "x".to_string(),
        chain: "x: y".to_string(),
    };
    match only.fetched(Err(failed)) {
        Fetch::Failed { error, notice } => {
            assert_eq!(notice, None);
            assert_eq!(error.message(), "cloudflared binary: download failed: x");
        }
        _ => panic!("expected the end"),
    }
    let Ok(Located::Missing(again)) =
        ensure_installed(None, false, "linux", "arm", Some(""), None)
    else {
        panic!("expected a download");
    };
    assert_eq!(again.fetched(Ok(())), Fetch::Installed);
}

#[test]
fn cloudflared_is_run_with_the_token() {
    assert_eq!(spawn_args("s3"), vec!["tunnel", "run", "--token", "s3"]);
    assert_eq!(spawn_env(), vec![("NO_AUTOUPDATE", "true")]);
}
