use std::io::Write;
use ytdl_helper::config::{ArchiveType, Config, Platform};
use ytdl_helper::network::{
    after_download, binary_file_name, download_target, extract_tar_xz_binary, extract_zip_binary,
    fetch_failed_message, fetch_succeeded, fetched_message, fetching_message, find_in_tar_xz,
    tools_to_fetch, find_in_zip, AfterDownload, ExtractError,
};

fn zip_of(entries: &[(&str, &[u8])]) -> Vec<u8> {
    let mut w = zip::ZipWriter::new(std::io::Cursor::new(Vec::new()));
    for (name, data) in entries {
        w.start_file(*name, zip::write::SimpleFileOptions::default()).unwrap();
        w.write_all(data).unwrap();
    }
    w.finish().unwrap().into_inner()
}

fn tar_of(entries: &[(&str, &[u8])]) -> Vec<u8> {
    let mut b = tar::Builder::new(Vec::new());
    for (name, data) in entries {
        let mut h = tar::Header::new_gnu();
        h.set_size(data.len() as u64);
        h.set_mode(0o755);
        h.set_cksum();
        b.append_data(&mut h, name, *data).unwrap();
    }
    b.into_inner().unwrap()
}

fn xz_of(data: &[u8]) -> Vec<u8> {
    let mut e = xz2::write::XzEncoder::new(Vec::new(), 6);
    e.write_all(data).unwrap();
    e.finish().unwrap()
}

#[test]
fn zip_extraction_takes_first_matching_entry() {
    let archive = zip_of(&[
        ("deno-x86_64/README.md", b"readme"),
        ("deno-x86_64/deno", b"ELF deno"),
        ("other/deno", b"second"),
    ]);
    assert_eq!(find_in_zip(&archive, "deno").unwrap(), 1);
    assert_eq!(extract_zip_binary(&archive, "deno", Platform::Linux).unwrap(), b"ELF deno");
}

#[test]
fn zip_extraction_on_windows_looks_for_exe() {
    let archive = zip_of(&[("ffmpeg/bin/ffmpeg.exe", b"MZ ffmpeg"), ("ffmpeg/bin/ffprobe.exe", b"MZ probe")]);
    assert_eq!(extract_zip_binary(&archive, "ffmpeg", Platform::Windows).unwrap(), b"MZ ffmpeg");
    match extract_zip_binary(&archive, "ffmpeg", Platform::Linux) {
        Err(e) => assert_eq!(e.message(), "ffmpeg was not found in the archive"),
        Ok(_) => panic!("found a Linux binary in a Windows archive"),
    }
}

#[test]
fn zip_extraction_refuses_garbage() {
    match extract_zip_binary(b"not a zip archive", "deno", Platform::Linux) {
        Err(ExtractError::Archive(m)) => assert!(!m.is_empty()),
        other => panic!("unexpected {:?}", other.map(|d| d.len())),
    }
}

#[test]
fn tar_xz_extraction_matches_file_name_exactly() {
    let tar = tar_of(&[
        ("ffmpeg-7.0-amd64-static/ffmpeg-helper", b"no"),
        ("ffmpeg-7.0-amd64-static/ffmpeg", b"ELF ffmpeg"),
        ("ffmpeg-7.0-amd64-static/ffprobe", b"ELF ffprobe"),
    ]);
    let archive = xz_of(&tar);
    assert_eq!(find_in_tar_xz(&archive, "ffprobe").unwrap(), 2);
    assert_eq!(extract_tar_xz_binary(&archive, "ffmpeg", Platform::Linux).unwrap(), b"ELF ffmpeg");
    match extract_tar_xz_binary(&archive, "deno", Platform::Linux) {
        Err(e) => assert_eq!(e.message(), "deno was not found in the archive"),
        Ok(_) => panic!("found a missing binary"),
    }
}

#[test]
fn tar_xz_extraction_refuses_garbage() {
    match extract_tar_xz_binary(b"plain bytes", "ffmpeg", Platform::Linux) {
        Err(ExtractError::Archive(m)) => assert!(!m.is_empty()),
        other => panic!("unexpected {:?}", other.map(|d| d.len())),
    }
}

#[test]
fn binary_names() {
    assert_eq!(binary_file_name("ffmpeg", Platform::Windows), "ffmpeg.exe");
    assert_eq!(binary_file_name("ffmpeg", Platform::Linux), "ffmpeg");
    assert_eq!(binary_file_name("deno", Platform::Other), "deno");
}

#[test]
fn download_targets_and_steps() {
    let c = Config::new("/h", Platform::Linux);
    let deps = c.get_dependencies();
    assert_eq!(download_target(&deps[0]).parts.last().unwrap(), "deno.zip");
    assert_eq!(download_target(&deps[1]).parts.last().unwrap(), "ffmpeg.tar.xz");
    assert_eq!(download_target(&deps[2]).parts.last().unwrap(), "yt_dlp");
    assert_eq!(after_download(ArchiveType::Zip, Platform::Linux), AfterDownload::ExtractZip);
    assert_eq!(after_download(ArchiveType::TarXz, Platform::Other), AfterDownload::ExtractTarXz);
    assert_eq!(after_download(ArchiveType::NoArchive, Platform::Linux), AfterDownload::MakeExecutable);
    assert_eq!(after_download(ArchiveType::NoArchive, Platform::Windows), AfterDownload::Done);
    assert_eq!(after_download(ArchiveType::NoArchive, Platform::Other), AfterDownload::Done);
}

#[test]
fn tar_xz_damage_after_the_executable_is_not_looked_at() {
    let mut noise = Vec::new();
    let mut x: u32 = 12345;
    for _ in 0..300_000 {
        x = x.wrapping_mul(1_103_515_245).wrapping_add(12_345);
        noise.push((x >> 16) as u8);
    }
    let tar = tar_of(&[("pkg/ffmpeg", b"ELF ffmpeg"), ("pkg/big", &noise)]);
    let mut archive = xz_of(&tar);
    archive.truncate(archive.len() - 100);
    assert_eq!(extract_tar_xz_binary(&archive, "ffmpeg", Platform::Linux).unwrap(), b"ELF ffmpeg");
    match extract_tar_xz_binary(&archive, "big", Platform::Linux) {
        Err(ExtractError::Archive(m)) => assert!(!m.is_empty()),
        other => panic!("unexpected {:?}", other.map(|d| d.len())),
    }
}

#[test]
fn fetching_succeeds_only_without_failures() {
    assert!(fetch_succeeded(&vec![]));
    assert!(fetch_succeeded(&vec![None, Some(true), None]));
    assert!(!fetch_succeeded(&vec![Some(true), Some(false), None]));
    assert!(!fetch_succeeded(&vec![Some(false)]));
}

#[test]
fn fetch_plan_and_messages() {
    assert_eq!(tools_to_fetch(&vec![true, false, false]), vec![1, 2]);
    assert_eq!(tools_to_fetch(&vec![true, true, true]), Vec::<usize>::new());
    assert_eq!(tools_to_fetch(&vec![false, true, false]), vec![0, 2]);
    assert_eq!(fetching_message("deno"), "Fetching deno.");
    assert_eq!(fetched_message("deno"), "deno download.");
    assert_eq!(fetch_failed_message("ffmpeg", "HTTP error status: 404 Not Found"), "Failed to fetch ffmpeg: HTTP error status: 404 Not Found");
    assert_eq!(AfterDownload::ExtractZip.start_notice("deno"), Some("Extraxting deno from zip.".to_string()));
    assert_eq!(AfterDownload::ExtractTarXz.start_notice("ffmpeg"), Some("Extracting ffmpeg from tar.xz.".to_string()));
    assert_eq!(AfterDownload::MakeExecutable.start_notice("yt_dlp"), None);
    assert_eq!(AfterDownload::ExtractZip.finish_notice("deno"), Some("Extracted deno.".to_string()));
    assert_eq!(AfterDownload::Done.finish_notice("yt_dlp"), None);
}
