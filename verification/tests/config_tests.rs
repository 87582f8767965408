use std::path::PathBuf;
use ytdl_helper::config::{ArchiveType, Config, Dependency, Platform, ToolPath};

fn parts(p: &ToolPath) -> Vec<&str> {
    p.parts.iter().map(|s| s.as_str()).collect()
}

fn render(p: &ToolPath) -> PathBuf {
    let mut buf = PathBuf::from(&p.root);
    for part in &p.parts {
        buf.push(part);
    }
    buf
}

#[test]
fn tool_locations_on_linux() {
    let c = Config::new("/home/ann", Platform::Linux);
    assert_eq!(c.get_home_path().root, "/home/ann");
    assert!(c.get_home_path().parts.is_empty());
    assert_eq!(parts(c.get_yt_dlp_path()), ["tools", "yt_dlp", "yt_dlp"]);
    assert_eq!(parts(c.get_ffmpeg_path()), ["tools", "ffmpeg", "ffmpeg"]);
    assert_eq!(parts(c.get_deno_path()), ["tools", "deno", "deno"]);
    assert_eq!(parts(c.get_download_dir()), ["tools", "yt_dlp", "downloads"]);
    assert_eq!(render(c.get_download_dir()), PathBuf::from("/home/ann/tools/yt_dlp/downloads"));
    assert_eq!(render(c.get_yt_dlp_path()), PathBuf::from("/home/ann/tools/yt_dlp/yt_dlp"));
}

#[test]
fn tool_locations_on_windows() {
    let c = Config::new("C:\\Users\\ann", Platform::Windows);
    assert_eq!(parts(c.get_yt_dlp_path()), ["tools", "yt_dlp", "yt_dlp.exe"]);
    assert_eq!(parts(c.get_ffmpeg_path()), ["tools", "ffmpeg", "ffmpeg.exe"]);
    assert_eq!(parts(c.get_deno_path()), ["tools", "deno", "deno.exe"]);
    assert_eq!(parts(c.get_download_dir()), ["tools", "yt_dlp", "downloads"]);
}

#[test]
fn download_dir_is_beside_yt_dlp() {
    for platform in [Platform::Linux, Platform::Windows, Platform::Other] {
        let c = Config::new("/h", platform);
        let expected = c.get_yt_dlp_path().parent().join("downloads");
        assert_eq!(render(c.get_download_dir()), render(&expected));
        assert_eq!(render(c.get_download_dir()), render(c.get_yt_dlp_path()).parent().unwrap().join("downloads"));
    }
}

#[test]
fn dependencies_on_linux() {
    let c = Config::new("/home/ann", Platform::Linux);
    let deps = c.get_dependencies();
    assert_eq!(deps.len(), 3);
    assert_eq!(deps[0].name, "deno");
    assert_eq!(deps[0].download_url, "https://github.com/denoland/deno/releases/latest/download/deno-x86_64-unknown-linux-gnu.zip");
    assert_eq!(deps[0].archive_type, ArchiveType::Zip);
    assert_eq!(parts(&deps[0].path), ["tools", "deno", "deno"]);
    assert_eq!(parts(&deps[0].zip_path), ["tools", "deno", "deno.zip"]);
    assert_eq!(deps[1].name, "ffmpeg");
    assert_eq!(deps[1].download_url, "https://johnvansickle.com/ffmpeg/releases/ffmpeg-release-amd64-static.tar.xz");
    assert_eq!(deps[1].archive_type, ArchiveType::TarXz);
    assert_eq!(parts(&deps[1].zip_path), ["tools", "ffmpeg", "ffmpeg.tar.xz"]);
    assert_eq!(deps[2].name, "yt_dlp");
    assert_eq!(deps[2].download_url, "https://github.com/yt-dlp/yt-dlp/releases/latest/download/yt-dlp");
    assert_eq!(deps[2].archive_type, ArchiveType::NoArchive);
    assert_eq!(parts(&deps[2].path), ["tools", "yt_dlp", "yt_dlp"]);
    assert_eq!(deps[2].zip_path.root, "");
    assert!(deps[2].zip_path.parts.is_empty());
    assert_eq!(render(&deps[2].zip_path), PathBuf::from(""));
}

#[test]
fn dependencies_on_windows() {
    let c = Config::new("C:\\Users\\ann", Platform::Windows);
    let deps = c.get_dependencies();
    assert_eq!(deps[0].download_url, "https://github.com/denoland/deno/releases/latest/download/deno-x86_64-pc-windows-msvc.zip");
    assert_eq!(deps[1].download_url, "https://www.gyan.dev/ffmpeg/builds/ffmpeg-release-essentials.zip");
    assert_eq!(deps[1].archive_type, ArchiveType::Zip);
    assert_eq!(parts(&deps[1].zip_path), ["tools", "ffmpeg", "ffmpeg.zip"]);
    assert_eq!(deps[2].download_url, "https://github.com/yt-dlp/yt-dlp/releases/latest/download/yt-dlp.exe");
    assert_eq!(parts(&deps[2].path), ["tools", "yt_dlp", "yt_dlp.exe"]);
}

#[test]
fn dependency_paths_match_getters() {
    let c = Config::new("/x", Platform::Other);
    let deps = c.get_dependencies();
    assert_eq!(render(&deps[0].path), render(c.get_deno_path()));
    assert_eq!(render(&deps[1].path), render(c.get_ffmpeg_path()));
    assert_eq!(render(&deps[2].path), render(c.get_yt_dlp_path()));
}

#[test]
fn tool_path_join_parent_duplicate() {
    let p = ToolPath::from_root("/r").join("a").join("b");
    assert_eq!(parts(&p), ["a", "b"]);
    assert_eq!(parts(&p.parent()), ["a"]);
    let q = p.duplicate();
    assert_eq!(q.root, "/r");
    assert_eq!(parts(&q), ["a", "b"]);
}

#[test]
fn dependency_new_copies_fields() {
    let p = ToolPath::from_root("/r").join("bin");
    let z = ToolPath::from_root("/r").join("bin.zip");
    let d = Dependency::new("tool".to_string(), "https://x".to_string(), &p, ArchiveType::Zip, &z);
    assert_eq!(d.name, "tool");
    assert_eq!(d.download_url, "https://x");
    assert_eq!(parts(&d.path), ["bin"]);
    assert_eq!(parts(&d.zip_path), ["bin.zip"]);
    assert_eq!(d.archive_type, ArchiveType::Zip);
}

#[test]
fn archive_type_default_is_no_archive() {
    assert_eq!(ArchiveType::default(), ArchiveType::NoArchive);
}

#[test]
fn defaults_are_empty() {
    let c = Config::default();
    assert_eq!(render(c.get_home_path()), PathBuf::new());
    assert_eq!(render(c.get_yt_dlp_path()), PathBuf::new());
    assert_eq!(render(c.get_download_dir()), PathBuf::new());
    assert!(c.get_dependencies().is_empty());
    let d = Dependency::default();
    assert_eq!(d.name, "");
    assert_eq!(d.download_url, "");
    assert_eq!(d.archive_type, ArchiveType::NoArchive);
    assert_eq!(render(&d.path), PathBuf::new());
    assert_eq!(render(&ToolPath::default()), PathBuf::new());
}
