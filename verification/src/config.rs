//! Where the helper tools (yt-dlp, ffmpeg, deno) are installed under the
//! user's home directory, where downloads go, and where each tool is fetched
//! from.

use vstd::prelude::*;
use crate::text::ends_with_spec;

verus! {

/// The system the program runs on, as far as file names and download
/// locations depend on it.
#[derive(Clone, Copy, Debug, PartialEq, Eq, Structural)]
pub enum Platform {
    Windows,
    Linux,
    /// Any other system that is not Windows (macOS, the BSDs, ...).
    Other,
}

/// How a downloaded tool is packed.
#[derive(Clone, Copy, Debug, PartialEq, Eq, Structural)]
pub enum ArchiveType {
    /// The download is the executable itself.
    NoArchive,
    Zip,
    TarXz,
}

impl Default for ArchiveType {
    fn default() -> (res: Self)
        ensures
            res == ArchiveType::NoArchive,
    {
        ArchiveType::NoArchive
    }
}

/// A file-system location: a root (the user's home directory, as the
/// environment gives it) followed by the names joined onto it, one directory
/// level each. `PathBuf::from(root)` with each part pushed in turn is the
/// location it stands for.
#[derive(Debug)]
pub struct ToolPath {
    pub root: String,
    pub parts: Vec<String>,
}

/// The abstract form of a [`ToolPath`]: its root and its joined names.
pub type PathView = (Seq<char>, Seq<Seq<char>>);

/// The joined names of a location, as character sequences.
pub open spec fn parts_view(parts: Seq<String>) -> Seq<Seq<char>> {
    parts.map_values(|p: String| p@)
}

impl View for ToolPath {
    type V = PathView;

    open spec fn view(&self) -> PathView {
        (self.root@, parts_view(self.parts@))
    }
}

/// `base` with `name` joined onto it.
pub open spec fn join_spec(base: PathView, name: Seq<char>) -> PathView {
    (base.0, base.1.push(name))
}

/// `base/a/b/c`.
pub open spec fn join3(base: Seq<char>, a: Seq<char>, b: Seq<char>, c: Seq<char>) -> PathView {
    (base, seq![a, b, c])
}

impl ToolPath {
    /// The location `root` itself, with nothing joined.
    pub fn from_root(root: &str) -> (res: ToolPath)
        ensures
            res@ == (root@, Seq::<Seq<char>>::empty()),
    {
        let res = ToolPath { root: String::from_str(root), parts: Vec::new() };
        assert(parts_view(res.parts@) =~= Seq::<Seq<char>>::empty());
        res
    }

    /// This location with `name` joined onto it (`Path::join` with a plain
    /// file or directory name).
    pub fn join(&self, name: &str) -> (res: ToolPath)
        ensures
            res@ == join_spec(self@, name@),
    {
        let mut res = self.duplicate();
        res.parts.push(String::from_str(name));
        assert(parts_view(res.parts@) =~= parts_view(self.parts@).push(name@));
        res
    }

    /// The directory that holds this location, for a location with at least
    /// one joined name (`Path::parent` of such a path).
    pub fn parent(&self) -> (res: ToolPath)
        requires
            self@.1.len() > 0,
        ensures
            res@ == (self@.0, self@.1.drop_last()),
    {
        let mut res = self.duplicate();
        res.parts.pop();
        assert(parts_view(res.parts@) =~= parts_view(self.parts@).drop_last());
        res
    }

    /// A copy of this location.
    pub fn duplicate(&self) -> (res: ToolPath)
        ensures
            res@ == self@,
    {
        let mut parts: Vec<String> = Vec::new();
        let mut i: usize = 0;
        while i < self.parts.len()
            invariant
                i <= self.parts.len(),
                parts.len() == i,
                forall|k: int| 0 <= k < i ==> #[trigger] parts@[k]@ == self.parts@[k]@,
            decreases self.parts.len() - i,
        {
            parts.push(self.parts[i].clone());
            i = i + 1;
        }
        let res = ToolPath { root: self.root.clone(), parts };
        assert(parts_view(res.parts@) =~= parts_view(self.parts@));
        res
    }
}


impl Default for ToolPath {
    /// The empty location (`PathBuf::default()`).
    fn default() -> (res: Self)
        ensures
            res@ == empty_path(),
    {
        let res = ToolPath { root: String::new(), parts: Vec::new() };
        assert(parts_view(res.parts@) =~= Seq::<Seq<char>>::empty());
        res
    }
}

/// A helper tool: what it is called, where it is downloaded from, where its
/// executable goes, how the download is packed and, for a packed download,
/// where the archive is kept until it is unpacked.
#[derive(Debug)]
pub struct Dependency {
    pub name: String,
    pub download_url: String,
    pub path: ToolPath,
    pub archive_type: ArchiveType,
    pub zip_path: ToolPath,
}

/// The abstract form of a [`Dependency`], field by field.
pub type DependencyView = (Seq<char>, Seq<char>, PathView, ArchiveType, PathView);

impl View for Dependency {
    type V = DependencyView;

    open spec fn view(&self) -> DependencyView {
        (self.name@, self.download_url@, self.path@, self.archive_type, self.zip_path@)
    }
}

impl Dependency {
    /// A dependency with the given fields; the two locations are copied.
    pub fn new(
        name: String,
        download_url: String,
        path: &ToolPath,
        archive_type: ArchiveType,
        zip_path: &ToolPath,
    ) -> (res: Dependency)
        ensures
            res@ == (name@, download_url@, path@, archive_type, zip_path@),
    {
        Dependency {
            name,
            download_url,
            path: path.duplicate(),
            archive_type,
            zip_path: zip_path.duplicate(),
        }
    }
}

impl Default for Dependency {
    /// A dependency with empty texts and locations, and no archive.
    fn default() -> (res: Self)
        ensures
            res@ == (
                Seq::<char>::empty(),
                Seq::<char>::empty(),
                empty_path(),
                ArchiveType::NoArchive,
                empty_path(),
            ),
    {
        Dependency {
            name: String::new(),
            download_url: String::new(),
            path: ToolPath::default(),
            archive_type: ArchiveType::default(),
            zip_path: ToolPath::default(),
        }
    }
}

/// The dependency views of a list of dependencies.
pub open spec fn dependencies_view(deps: Seq<Dependency>) -> Seq<DependencyView> {
    deps.map_values(|d: Dependency| d@)
}

/// The file name of a tool's executable.
pub open spec fn executable_name(tool: Seq<char>, platform: Platform) -> Seq<char> {
    if platform == Platform::Windows {
        tool + ".exe"@
    } else {
        tool
    }
}

/// Where the yt-dlp executable goes under `home`.
pub open spec fn yt_dlp_path_spec(home: Seq<char>, platform: Platform) -> PathView {
    join3(
        home,
        "tools"@,
        "yt_dlp"@,
        if platform == Platform::Windows {
            "yt_dlp.exe"@
        } else {
            "yt_dlp"@
        },
    )
}

/// Where the ffmpeg executable goes under `home`.
pub open spec fn ffmpeg_path_spec(home: Seq<char>, platform: Platform) -> PathView {
    join3(
        home,
        "tools"@,
        "ffmpeg"@,
        if platform == Platform::Windows {
            "ffmpeg.exe"@
        } else {
            "ffmpeg"@
        },
    )
}

/// Where the downloaded ffmpeg archive is kept under `home`.
pub open spec fn ffmpeg_zip_path_spec(home: Seq<char>, platform: Platform) -> PathView {
    join3(
        home,
        "tools"@,
        "ffmpeg"@,
        if platform == Platform::Windows {
            "ffmpeg.zip"@
        } else {
            "ffmpeg.tar.xz"@
        },
    )
}

/// Where the deno executable goes under `home`.
pub open spec fn deno_path_spec(home: Seq<char>, platform: Platform) -> PathView {
    join3(
        home,
        "tools"@,
        "deno"@,
        if platform == Platform::Windows {
            "deno.exe"@
        } else {
            "deno"@
        },
    )
}

/// Where the downloaded deno archive is kept under `home`.
pub open spec fn deno_zip_path_spec(home: Seq<char>) -> PathView {
    join3(home, "tools"@, "deno"@, "deno.zip"@)
}

/// Where downloaded videos go under `home`: beside the yt-dlp executable.
pub open spec fn download_dir_spec(home: Seq<char>) -> PathView {
    join3(home, "tools"@, "yt_dlp"@, "downloads"@)
}

/// The empty location (`PathBuf::from("")`).
pub open spec fn empty_path() -> PathView {
    (Seq::<char>::empty(), Seq::<Seq<char>>::empty())
}

/// The deno dependency, installed at `path`, its archive kept at `zip_path`.
pub open spec fn deno_dependency_at(
    platform: Platform,
    path: PathView,
    zip_path: PathView,
) -> DependencyView {
    (
        "deno"@,
        if platform == Platform::Windows {
            "https://github.com/denoland/deno/releases/latest/download/deno-x86_64-pc-windows-msvc.zip"@
        } else {
            "https://github.com/denoland/deno/releases/latest/download/deno-x86_64-unknown-linux-gnu.zip"@
        },
        path,
        ArchiveType::Zip,
        zip_path,
    )
}

/// The ffmpeg dependency, installed at `path`, its archive kept at `zip_path`.
pub open spec fn ffmpeg_dependency_at(
    platform: Platform,
    path: PathView,
    zip_path: PathView,
) -> DependencyView {
    (
        "ffmpeg"@,
        if platform == Platform::Windows {
            "https://www.gyan.dev/ffmpeg/builds/ffmpeg-release-essentials.zip"@
        } else {
            "https://johnvansickle.com/ffmpeg/releases/ffmpeg-release-amd64-static.tar.xz"@
        },
        path,
        if platform == Platform::Windows {
            ArchiveType::Zip
        } else {
            ArchiveType::TarXz
        },
        zip_path,
    )
}

/// The yt-dlp dependency, installed at `path`; it comes unpacked, so it has
/// no archive location.
pub open spec fn yt_dlp_dependency_at(platform: Platform, path: PathView) -> DependencyView {
    (
        "yt_dlp"@,
        if platform == Platform::Windows {
            "https://github.com/yt-dlp/yt-dlp/releases/latest/download/yt-dlp.exe"@
        } else {
            "https://github.com/yt-dlp/yt-dlp/releases/latest/download/yt-dlp"@
        },
        path,
        ArchiveType::NoArchive,
        empty_path(),
    )
}

/// The packing that a download URL's file name shows: a `.zip` file is a zip
/// archive, a `.tar.xz` file an xz-compressed tar archive, and anything else
/// the executable itself.
pub open spec fn packing_of_url(url: Seq<char>) -> ArchiveType {
    if ends_with_spec(url, ".zip"@) {
        ArchiveType::Zip
    } else if ends_with_spec(url, ".tar.xz"@) {
        ArchiveType::TarXz
    } else {
        ArchiveType::NoArchive
    }
}

/// Every tool is unpacked as what its URL downloads: on every platform, and
/// wherever it is installed, the archive type of each of the three
/// dependencies is the packing that its URL's file name shows; the yt-dlp
/// executable, which comes bare, has the empty archive location.
pub proof fn lemma_archive_type_matches_url(
    platform: Platform,
    path: PathView,
    zip_path: PathView,
)
    ensures
        deno_dependency_at(platform, path, zip_path).3 == packing_of_url(
            deno_dependency_at(platform, path, zip_path).1,
        ),
        ffmpeg_dependency_at(platform, path, zip_path).3 == packing_of_url(
            ffmpeg_dependency_at(platform, path, zip_path).1,
        ),
        yt_dlp_dependency_at(platform, path).3 == packing_of_url(
            yt_dlp_dependency_at(platform, path).1,
        ),
        yt_dlp_dependency_at(platform, path).4 == empty_path(),
{
    reveal_strlit(".zip");
    reveal_strlit(".tar.xz");
    reveal_strlit("https://github.com/denoland/deno/releases/latest/download/deno-x86_64-pc-windows-msvc.zip");
    reveal_strlit("https://github.com/denoland/deno/releases/latest/download/deno-x86_64-unknown-linux-gnu.zip");
    reveal_strlit("https://www.gyan.dev/ffmpeg/builds/ffmpeg-release-essentials.zip");
    reveal_strlit("https://johnvansickle.com/ffmpeg/releases/ffmpeg-release-amd64-static.tar.xz");
    reveal_strlit("https://github.com/yt-dlp/yt-dlp/releases/latest/download/yt-dlp.exe");
    reveal_strlit("https://github.com/yt-dlp/yt-dlp/releases/latest/download/yt-dlp");
    let deno = deno_dependency_at(platform, path, zip_path).1;
    assert(deno.subrange(deno.len() - 4, deno.len() as int) =~= ".zip"@);
    let ffmpeg = ffmpeg_dependency_at(platform, path, zip_path).1;
    if platform == Platform::Windows {
        assert(ffmpeg.subrange(ffmpeg.len() - 4, ffmpeg.len() as int) =~= ".zip"@);
    } else {
        assert(ffmpeg.subrange(ffmpeg.len() - 4, ffmpeg.len() as int)[3] != ".zip"@[3]);
        assert(ffmpeg.subrange(ffmpeg.len() - 7, ffmpeg.len() as int) =~= ".tar.xz"@);
    }
    let yt = yt_dlp_dependency_at(platform, path).1;
    if platform == Platform::Windows {
        assert(yt.subrange(yt.len() - 4, yt.len() as int)[3] != ".zip"@[3]);
        assert(yt.subrange(yt.len() - 7, yt.len() as int)[6] != ".tar.xz"@[6]);
    } else {
        assert(yt.subrange(yt.len() - 4, yt.len() as int)[2] != ".zip"@[2]);
        assert(yt.subrange(yt.len() - 7, yt.len() as int)[6] != ".tar.xz"@[6]);
    }
}

/// The deno dependency of the configuration for `home`.
pub open spec fn deno_dependency(home: Seq<char>, platform: Platform) -> DependencyView {
    deno_dependency_at(platform, deno_path_spec(home, platform), deno_zip_path_spec(home))
}

/// The ffmpeg dependency of the configuration for `home`.
pub open spec fn ffmpeg_dependency(home: Seq<char>, platform: Platform) -> DependencyView {
    ffmpeg_dependency_at(
        platform,
        ffmpeg_path_spec(home, platform),
        ffmpeg_zip_path_spec(home, platform),
    )
}

/// The yt-dlp dependency of the configuration for `home`.
pub open spec fn yt_dlp_dependency(home: Seq<char>, platform: Platform) -> DependencyView {
    yt_dlp_dependency_at(platform, yt_dlp_path_spec(home, platform))
}

/// The three tools, in the order in which they are fetched.
pub open spec fn dependencies_spec(home: Seq<char>, platform: Platform) -> Seq<DependencyView> {
    seq![
        deno_dependency(home, platform),
        ffmpeg_dependency(home, platform),
        yt_dlp_dependency(home, platform),
    ]
}

/// The locations of the helper tools and of the download directory, and the
/// list of tools to fetch.
#[derive(Debug)]
pub struct Config {
    home_path: ToolPath,
    yt_dlp_path: ToolPath,
    ffmpeg_path: ToolPath,
    ffmpeg_zip_path: ToolPath,
    deno_path: ToolPath,
    deno_zip_path: ToolPath,
    download_dir: ToolPath,
    dependencies: Vec<Dependency>,
}

impl Default for Config {
    /// The configuration with every location empty and no tools to fetch.
    fn default() -> (res: Config)
        ensures
            res.home_spec() == empty_path(),
            res.yt_dlp_spec() == empty_path(),
            res.ffmpeg_spec() == empty_path(),
            res.ffmpeg_zip_spec() == empty_path(),
            res.deno_spec() == empty_path(),
            res.deno_zip_spec() == empty_path(),
            res.download_dir_view() == empty_path(),
            res.dependencies_view() == Seq::<DependencyView>::empty(),
    {
        let res = Config {
            home_path: ToolPath::default(),
            yt_dlp_path: ToolPath::default(),
            ffmpeg_path: ToolPath::default(),
            ffmpeg_zip_path: ToolPath::default(),
            deno_path: ToolPath::default(),
            deno_zip_path: ToolPath::default(),
            download_dir: ToolPath::default(),
            dependencies: Vec::new(),
        };
        assert(dependencies_view(res.dependencies@) =~= Seq::<DependencyView>::empty());
        res
    }
}

impl Config {
    /// The home directory the configuration was built from.
    pub closed spec fn home_spec(&self) -> PathView {
        self.home_path@
    }

    /// The yt-dlp executable's location.
    pub closed spec fn yt_dlp_spec(&self) -> PathView {
        self.yt_dlp_path@
    }

    /// The ffmpeg executable's location.
    pub closed spec fn ffmpeg_spec(&self) -> PathView {
        self.ffmpeg_path@
    }

    /// The ffmpeg archive's location.
    pub closed spec fn ffmpeg_zip_spec(&self) -> PathView {
        self.ffmpeg_zip_path@
    }

    /// The deno executable's location.
    pub closed spec fn deno_spec(&self) -> PathView {
        self.deno_path@
    }

    /// The deno archive's location.
    pub closed spec fn deno_zip_spec(&self) -> PathView {
        self.deno_zip_path@
    }

    /// The download directory.
    pub closed spec fn download_dir_view(&self) -> PathView {
        self.download_dir@
    }

    /// The tools to fetch.
    pub closed spec fn dependencies_view(&self) -> Seq<DependencyView> {
        dependencies_view(self.dependencies@)
    }

    /// The configuration for a user whose home directory is `home`: every
    /// tool lives in its own directory under `home/tools`, downloads go to
    /// `downloads` beside the yt-dlp executable, and the tools to fetch are
    /// deno, ffmpeg and yt-dlp, each installed at the location that the
    /// getters report.
    pub fn new(home: &str, platform: Platform) -> (res: Config)
        ensures
            res.home_spec() == (home@, Seq::<Seq<char>>::empty()),
            res.yt_dlp_spec() == yt_dlp_path_spec(home@, platform),
            res.ffmpeg_spec() == ffmpeg_path_spec(home@, platform),
            res.ffmpeg_zip_spec() == ffmpeg_zip_path_spec(home@, platform),
            res.deno_spec() == deno_path_spec(home@, platform),
            res.deno_zip_spec() == deno_zip_path_spec(home@),
            res.download_dir_view() == download_dir_spec(home@),
            res.download_dir_view() == join_spec(
                (res.yt_dlp_spec().0, res.yt_dlp_spec().1.drop_last()),
                "downloads"@,
            ),
            res.dependencies_view() == dependencies_spec(home@, platform),
    {
        let windows = platform == Platform::Windows;
        let home_path = ToolPath::from_root(home);
        let yt_dlp_path = home_path.join("tools").join("yt_dlp").join(
            if windows {
                "yt_dlp.exe"
            } else {
                "yt_dlp"
            },
        );
        let ffmpeg_path = home_path.join("tools").join("ffmpeg").join(
            if windows {
                "ffmpeg.exe"
            } else {
                "ffmpeg"
            },
        );
        let ffmpeg_zip_path = home_path.join("tools").join("ffmpeg").join(
            if windows {
                "ffmpeg.zip"
            } else {
                "ffmpeg.tar.xz"
            },
        );
        let deno_path = home_path.join("tools").join("deno").join(
            if windows {
                "deno.exe"
            } else {
                "deno"
            },
        );
        let deno_zip_path = home_path.join("tools").join("deno").join("deno.zip");
        let download_dir = yt_dlp_path.parent().join("downloads");
        let mut config = Config {
            home_path,
            yt_dlp_path,
            ffmpeg_path,
            ffmpeg_zip_path,
            deno_path,
            deno_zip_path,
            download_dir,
            dependencies: Vec::new(),
        };
        assert(config.yt_dlp_path@.1 =~= seq!["tools"@, "yt_dlp"@, (if windows { "yt_dlp.exe"@ } else { "yt_dlp"@ })]);
        assert(config.ffmpeg_path@.1 =~= seq!["tools"@, "ffmpeg"@, (if windows { "ffmpeg.exe"@ } else { "ffmpeg"@ })]);
        assert(config.ffmpeg_zip_path@.1 =~= seq!["tools"@, "ffmpeg"@, (if windows { "ffmpeg.zip"@ } else { "ffmpeg.tar.xz"@ })]);
        assert(config.deno_path@.1 =~= seq!["tools"@, "deno"@, (if windows { "deno.exe"@ } else { "deno"@ })]);
        assert(config.deno_zip_path@.1 =~= seq!["tools"@, "deno"@, "deno.zip"@]);
        assert(config.download_dir@.1 =~= seq!["tools"@, "yt_dlp"@, "downloads"@]);
        assert(dependencies_view(config.dependencies@) =~= Seq::<DependencyView>::empty());
        config.init_dependencies(platform);
        config
    }

    /// Appends the three tools to fetch (deno, ffmpeg, yt-dlp), each pointing
    /// at this configuration's locations.
    fn init_dependencies(&mut self, platform: Platform)
        ensures
            final(self).home_path@ == old(self).home_path@,
            final(self).yt_dlp_path@ == old(self).yt_dlp_path@,
            final(self).ffmpeg_path@ == old(self).ffmpeg_path@,
            final(self).ffmpeg_zip_path@ == old(self).ffmpeg_zip_path@,
            final(self).deno_path@ == old(self).deno_path@,
            final(self).deno_zip_path@ == old(self).deno_zip_path@,
            final(self).download_dir@ == old(self).download_dir@,
            dependencies_view(final(self).dependencies@) == dependencies_view(
                old(self).dependencies@,
            ) + seq![
                deno_dependency_at(platform, old(self).deno_path@, old(self).deno_zip_path@),
                ffmpeg_dependency_at(
                    platform,
                    old(self).ffmpeg_path@,
                    old(self).ffmpeg_zip_path@,
                ),
                yt_dlp_dependency_at(platform, old(self).yt_dlp_path@),
            ],
    {
        let windows = platform == Platform::Windows;
        let ghost before = dependencies_view(self.dependencies@);
        let deno = Dependency::new(
            String::from_str("deno"),
            String::from_str(
                if windows {
                    "https://github.com/denoland/deno/releases/latest/download/deno-x86_64-pc-windows-msvc.zip"
                } else {
                    "https://github.com/denoland/deno/releases/latest/download/deno-x86_64-unknown-linux-gnu.zip"
                },
            ),
            &self.deno_path,
            ArchiveType::Zip,
            &self.deno_zip_path,
        );
        assert(deno@ == deno_dependency_at(platform, self.deno_path@, self.deno_zip_path@));
        self.dependencies.push(deno);
        let ffmpeg = Dependency::new(
            String::from_str("ffmpeg"),
            String::from_str(
                if windows {
                    "https://www.gyan.dev/ffmpeg/builds/ffmpeg-release-essentials.zip"
                } else {
                    "https://johnvansickle.com/ffmpeg/releases/ffmpeg-release-amd64-static.tar.xz"
                },
            ),
            &self.ffmpeg_path,
            if windows {
                ArchiveType::Zip
            } else {
                ArchiveType::TarXz
            },
            &self.ffmpeg_zip_path,
        );
        assert(ffmpeg@ == ffmpeg_dependency_at(platform, self.ffmpeg_path@, self.ffmpeg_zip_path@));
        self.dependencies.push(ffmpeg);
        let no_archive = ToolPath::from_root("");
        proof {
            reveal_strlit("");
        }
        assert(no_archive@ == empty_path());
        let yt_dlp = Dependency::new(
            String::from_str("yt_dlp"),
            String::from_str(
                if windows {
                    "https://github.com/yt-dlp/yt-dlp/releases/latest/download/yt-dlp.exe"
                } else {
                    "https://github.com/yt-dlp/yt-dlp/releases/latest/download/yt-dlp"
                },
            ),
            &self.yt_dlp_path,
            ArchiveType::NoArchive,
            &no_archive,
        );
        assert(yt_dlp@ == yt_dlp_dependency_at(platform, self.yt_dlp_path@));
        self.dependencies.push(yt_dlp);
        assert(dependencies_view(self.dependencies@) =~= before + seq![
            deno_dependency_at(platform, self.deno_path@, self.deno_zip_path@),
            ffmpeg_dependency_at(platform, self.ffmpeg_path@, self.ffmpeg_zip_path@),
            yt_dlp_dependency_at(platform, self.yt_dlp_path@),
        ]);
    }

    /// The home directory.
    pub fn get_home_path(&self) -> (res: &ToolPath)
        ensures
            res@ == self.home_spec(),
    {
        &self.home_path
    }

    /// The directory that downloaded videos go to.
    pub fn get_download_dir(&self) -> (res: &ToolPath)
        ensures
            res@ == self.download_dir_view(),
    {
        &self.download_dir
    }

    /// The tools to fetch, in order.
    pub fn get_dependencies(&self) -> (res: &Vec<Dependency>)
        ensures
            dependencies_view(res@) == self.dependencies_view(),
    {
        &self.dependencies
    }

    /// The yt-dlp executable's location.
    pub fn get_yt_dlp_path(&self) -> (res: &ToolPath)
        ensures
            res@ == self.yt_dlp_spec(),
    {
        &self.yt_dlp_path
    }

    /// The ffmpeg executable's location.
    pub fn get_ffmpeg_path(&self) -> (res: &ToolPath)
        ensures
            res@ == self.ffmpeg_spec(),
    {
        &self.ffmpeg_path
    }

    /// The deno executable's location.
    pub fn get_deno_path(&self) -> (res: &ToolPath)
        ensures
            res@ == self.deno_spec(),
    {
        &self.deno_path
    }
}

} // verus!
