//! The decisions of the interactive menu: which video resolutions are
//! offered, what each menu answer means, which browser the user picked, and
//! the command line handed to yt-dlp.

use vstd::prelude::*;
use crate::text::{
    lemma_decimal_roundtrip, lemma_digits_untrimmed, decimal, decimal_spec, parse_unsigned, parse_unsigned_spec, same_text, signed_decimal,
    signed_decimal_spec, trim, trim_spec,
};
use crate::utility::{format_string_spec, resolution_to_format_string};

verus! {

/// A maximum video height that yt-dlp is asked to pick a format for.
#[derive(Clone, Copy, Debug, PartialEq, Eq, Structural)]
pub enum VideoResolution {
    R2160,
    R1440,
    R1080,
    R720,
    R480,
    R360,
    R240,
    R144,
}

/// The text given for a resolution was none of the offered heights.
#[derive(Clone, Copy, Debug, PartialEq, Eq, Structural)]
pub struct ParseVideoResolutionError;

/// The height in pixels that a resolution stands for.
pub open spec fn height_spec(r: VideoResolution) -> nat {
    match r {
        VideoResolution::R2160 => 2160,
        VideoResolution::R1440 => 1440,
        VideoResolution::R1080 => 1080,
        VideoResolution::R720 => 720,
        VideoResolution::R480 => 480,
        VideoResolution::R360 => 360,
        VideoResolution::R240 => 240,
        VideoResolution::R144 => 144,
    }
}

/// The resolution that a text names: exactly one of the heights written in
/// decimal, with nothing around it.
pub open spec fn resolution_from_text(s: Seq<char>) -> Option<VideoResolution> {
    if s == "144"@ {
        Some(VideoResolution::R144)
    } else if s == "240"@ {
        Some(VideoResolution::R240)
    } else if s == "360"@ {
        Some(VideoResolution::R360)
    } else if s == "480"@ {
        Some(VideoResolution::R480)
    } else if s == "720"@ {
        Some(VideoResolution::R720)
    } else if s == "1080"@ {
        Some(VideoResolution::R1080)
    } else if s == "1440"@ {
        Some(VideoResolution::R1440)
    } else if s == "2160"@ {
        Some(VideoResolution::R2160)
    } else {
        None
    }
}

impl VideoResolution {
    /// The height in pixels.
    pub fn height(&self) -> (h: u32)
        ensures
            h == height_spec(*self),
    {
        match self {
            VideoResolution::R2160 => 2160,
            VideoResolution::R1440 => 1440,
            VideoResolution::R1080 => 1080,
            VideoResolution::R720 => 720,
            VideoResolution::R480 => 480,
            VideoResolution::R360 => 360,
            VideoResolution::R240 => 240,
            VideoResolution::R144 => 144,
        }
    }

    /// Reads a resolution from its height ("144", "240", "360", "480", "720",
    /// "1080", "1440" or "2160"); any other text is refused.
    pub fn parse(s: &str) -> (res: Result<VideoResolution, ParseVideoResolutionError>)
        ensures
            match resolution_from_text(s@) {
                Some(r) => res == Ok::<VideoResolution, ParseVideoResolutionError>(r),
                None => res == Err::<VideoResolution, ParseVideoResolutionError>(
                    ParseVideoResolutionError,
                ),
            },
    {
        if same_text(s, "144") {
            Ok(VideoResolution::R144)
        } else if same_text(s, "240") {
            Ok(VideoResolution::R240)
        } else if same_text(s, "360") {
            Ok(VideoResolution::R360)
        } else if same_text(s, "480") {
            Ok(VideoResolution::R480)
        } else if same_text(s, "720") {
            Ok(VideoResolution::R720)
        } else if same_text(s, "1080") {
            Ok(VideoResolution::R1080)
        } else if same_text(s, "1440") {
            Ok(VideoResolution::R1440)
        } else if same_text(s, "2160") {
            Ok(VideoResolution::R2160)
        } else {
            Err(ParseVideoResolutionError)
        }
    }
}

/// Each resolution is read back from its height written in decimal.
pub proof fn lemma_resolution_height_roundtrip(r: VideoResolution)
    ensures
        resolution_from_text(decimal_spec(height_spec(r))) == Some(r),
{
    reveal_strlit("144");
    reveal_strlit("240");
    reveal_strlit("360");
    reveal_strlit("480");
    reveal_strlit("720");
    reveal_strlit("1080");
    reveal_strlit("1440");
    reveal_strlit("2160");
    reveal_with_fuel(decimal_spec, 5);
    let d = decimal_spec(height_spec(r));
    match r {
        VideoResolution::R144 => {
            assert(d =~= "144"@);
        },
        VideoResolution::R240 => {
            assert(d =~= "240"@);
            assert(d[0] != "144"@[0]);
        },
        VideoResolution::R360 => {
            assert(d =~= "360"@);
            assert(d[0] != "144"@[0]);
            assert(d[0] != "240"@[0]);
        },
        VideoResolution::R480 => {
            assert(d =~= "480"@);
            assert(d[0] != "144"@[0]);
            assert(d[0] != "240"@[0]);
            assert(d[0] != "360"@[0]);
        },
        VideoResolution::R720 => {
            assert(d =~= "720"@);
            assert(d[0] != "144"@[0]);
            assert(d[0] != "240"@[0]);
            assert(d[0] != "360"@[0]);
            assert(d[0] != "480"@[0]);
        },
        VideoResolution::R1080 => {
            assert(d =~= "1080"@);
            assert(d.len() != "144"@.len());
            assert(d.len() != "240"@.len());
            assert(d.len() != "360"@.len());
            assert(d.len() != "480"@.len());
            assert(d.len() != "720"@.len());
        },
        VideoResolution::R1440 => {
            assert(d =~= "1440"@);
            assert(d.len() != "144"@.len());
            assert(d.len() != "240"@.len());
            assert(d.len() != "360"@.len());
            assert(d.len() != "480"@.len());
            assert(d.len() != "720"@.len());
            assert(d[1] != "1080"@[1]);
        },
        VideoResolution::R2160 => {
            assert(d =~= "2160"@);
            assert(d.len() != "144"@.len());
            assert(d.len() != "240"@.len());
            assert(d.len() != "360"@.len());
            assert(d.len() != "480"@.len());
            assert(d.len() != "720"@.len());
            assert(d[0] != "1080"@[0]);
            assert(d[0] != "1440"@[0]);
        },
    }
}

/// The line printed when `input`, typed at the resolution prompt, names no
/// resolution; the prompt is then asked again.
pub fn invalid_resolution_message(input: &str) -> (res: String)
    ensures
        res@ == "Invalid resolution: "@ + input@,
{
    let mut t = String::from_str("Invalid resolution: ");
    t.append(input);
    t
}

impl std::str::FromStr for VideoResolution {
    type Err = ParseVideoResolutionError;

    fn from_str(s: &str) -> (res: Result<Self, Self::Err>)
        ensures
            match resolution_from_text(s@) {
                Some(r) => res == Ok::<VideoResolution, ParseVideoResolutionError>(r),
                None => res == Err::<VideoResolution, ParseVideoResolutionError>(
                    ParseVideoResolutionError,
                ),
            },
    {
        VideoResolution::parse(s)
    }
}

// ---------------------------------------------------------------------------
// The main menu
// ---------------------------------------------------------------------------

/// The menu text before the download directory.
pub open spec fn menu_head() -> Seq<char> {
    "\n*********************************************************\n*               Youtube Video Downloader!               *\n*                  author: 0xmadumere                   *\n*********************************************************\n\n[1] Download video (best quality)\n[2] Download video (choose resolution)\n[3] Download audio only (mp3) COMING SOON\n[4] Set output folder COMING SOON\n[5] Exit\n\noutput folder: "@
}

/// The menu text after the download directory.
pub open spec fn menu_tail() -> Seq<char> {
    "\n---------------------------------------------------------\n"@
}

/// The main menu, showing `download_dir` as the output folder.
pub fn menu_text(download_dir: &str) -> (res: String)
    ensures
        res@ == menu_head() + download_dir@ + menu_tail(),
{
    let mut s = String::from_str(
        "\n*********************************************************\n*               Youtube Video Downloader!               *\n*                  author: 0xmadumere                   *\n*********************************************************\n\n[1] Download video (best quality)\n[2] Download video (choose resolution)\n[3] Download audio only (mp3) COMING SOON\n[4] Set output folder COMING SOON\n[5] Exit\n\noutput folder: ",
    );
    s.append(download_dir);
    s.append("\n---------------------------------------------------------\n");
    s
}

/// What an answer at the main menu asks for.
#[derive(Clone, Copy, Debug, PartialEq, Eq, Structural)]
pub enum MenuAction {
    /// The answer is not a number from 0 to 255.
    InvalidInput,
    /// Download a video: at the given resolution, or at one the user is
    /// asked for when there is none.
    Download(Option<VideoResolution>),
    /// An option that is announced but not offered yet.
    ComingSoon,
    /// Leave the program.
    Exit,
    /// A number that is no option.
    InvalidOption(u8),
}

/// What the menu answer `s` asks for: option 1 downloads at the best
/// resolution (2160), option 2 at a resolution asked for, options 3 and 4 are
/// not offered yet and option 5 leaves.
pub open spec fn menu_action_spec(s: Seq<char>) -> MenuAction {
    match parse_unsigned_spec(s, 255) {
        None => MenuAction::InvalidInput,
        Some(n) => if n == 1 {
            MenuAction::Download(Some(VideoResolution::R2160))
        } else if n == 2 {
            MenuAction::Download(None)
        } else if n == 3 || n == 4 {
            MenuAction::ComingSoon
        } else if n == 5 {
            MenuAction::Exit
        } else {
            MenuAction::InvalidOption(n as u8)
        },
    }
}

/// Reads an answer at the main menu.
pub fn menu_action(input: &str) -> (res: MenuAction)
    ensures
        res == menu_action_spec(input@),
{
    match parse_unsigned(input, 255) {
        None => MenuAction::InvalidInput,
        Some(n) => if n == 1 {
            MenuAction::Download(Some(VideoResolution::R2160))
        } else if n == 2 {
            MenuAction::Download(None)
        } else if n == 3 || n == 4 {
            MenuAction::ComingSoon
        } else if n == 5 {
            MenuAction::Exit
        } else {
            MenuAction::InvalidOption(n as u8)
        },
    }
}

/// What is printed in answer to the menu answer `input` that asks for
/// `action`, before anything else is done.
pub open spec fn menu_notice_spec(action: MenuAction, input: Seq<char>) -> Option<Seq<char>> {
    match action {
        MenuAction::InvalidInput => Some("Invalid input: "@ + input),
        MenuAction::Download(_) => None,
        MenuAction::ComingSoon => Some("Coming soon."@),
        MenuAction::Exit => Some("Goodbye!"@),
        MenuAction::InvalidOption(op) => Some("invalid option: "@ + decimal_spec(op as nat)),
    }
}

impl MenuAction {
    /// The line printed in answer to `input`, which asked for this action.
    pub fn notice(&self, input: &str) -> (res: Option<String>)
        ensures
            match menu_notice_spec(*self, input@) {
                Some(m) => res matches Some(t) && t@ == m,
                None => res is None,
            },
    {
        match self {
            MenuAction::InvalidInput => {
                let mut t = String::from_str("Invalid input: ");
                t.append(input);
                Some(t)
            },
            MenuAction::Download(_) => None,
            MenuAction::ComingSoon => Some(String::from_str("Coming soon.")),
            MenuAction::Exit => Some(String::from_str("Goodbye!")),
            MenuAction::InvalidOption(op) => {
                let mut t = String::from_str("invalid option: ");
                let n = decimal(*op as u64);
                t.append(n.as_str());
                Some(t)
            },
        }
    }

    /// Whether the menu is shown again after this action: only after a
    /// download; after anything else but leaving, the option is asked for
    /// again straight away.
    pub fn shows_menu_again(&self) -> (res: bool)
        ensures
            res == (*self is Download),
    {
        match self {
            MenuAction::Download(_) => true,
            _ => false,
        }
    }
}

// ---------------------------------------------------------------------------
// Downloading a video
// ---------------------------------------------------------------------------

/// Why an answer at the browser prompt picks no browser.
#[derive(Clone, Copy, Debug, PartialEq, Eq, Structural)]
pub enum BrowserChoiceError {
    /// The answer is not a number.
    InvalidInput,
    /// The number is not that of a listed browser (they are numbered from 1).
    InvalidOption(usize),
}

/// Why a video cannot be downloaded when no browser was found: yt-dlp needs
/// the cookies of a browser the user is logged in with.
pub open spec fn no_browser_message() -> Seq<char> {
    "no browsers found, need a browser to get cookies from"@
}

/// The refusal to go on with a download when `browsers` is empty; none when
/// there is a browser to choose.
pub fn no_browser_error(browsers: &Vec<String>) -> (res: Option<String>)
    ensures
        res is Some <==> browsers@.len() == 0,
        res matches Some(m) ==> m@ == no_browser_message(),
{
    if browsers.len() == 0 {
        Some(String::from_str("no browsers found, need a browser to get cookies from"))
    } else {
        None
    }
}

/// The line listing the browser `name` as choice number `index + 1`.
pub open spec fn browser_line_spec(index: nat, name: Seq<char>) -> Seq<char> {
    "["@ + decimal_spec(index + 1) + "]: "@ + name
}

/// The lines listing `browsers` as numbered choices, from 1.
pub fn browser_list_lines(browsers: &Vec<String>) -> (res: Vec<String>)
    ensures
        res@.len() == browsers@.len(),
        forall|i: int|
            0 <= i < browsers@.len() ==> #[trigger] res@[i]@ == browser_line_spec(
                i as nat,
                browsers@[i]@,
            ),
{
    let mut lines: Vec<String> = Vec::new();
    let mut i: usize = 0;
    while i < browsers.len()
        invariant
            i <= browsers@.len(),
            lines@.len() == i,
            forall|k: int|
                0 <= k < i ==> #[trigger] lines@[k]@ == browser_line_spec(
                    k as nat,
                    browsers@[k]@,
                ),
        decreases browsers.len() - i,
    {
        let mut line = String::from_str("[");
        let number = decimal((i + 1) as u64);
        line.append(number.as_str());
        line.append("]: ");
        line.append(browsers[i].as_str());
        lines.push(line);
        i = i + 1;
    }
    lines
}

/// What is printed when the answer `input` at the browser prompt picks no
/// browser.
pub open spec fn browser_choice_message_spec(e: BrowserChoiceError, input: Seq<char>) -> Seq<char> {
    match e {
        BrowserChoiceError::InvalidInput => "Invalid input: "@ + input,
        BrowserChoiceError::InvalidOption(n) => "Invalid option: "@ + decimal_spec(n as nat),
    }
}

impl BrowserChoiceError {
    /// The line printed when `input` picked no browser for this reason.
    pub fn message(&self, input: &str) -> (res: String)
        ensures
            res@ == browser_choice_message_spec(*self, input@),
    {
        match self {
            BrowserChoiceError::InvalidInput => {
                let mut t = String::from_str("Invalid input: ");
                t.append(input);
                t
            },
            BrowserChoiceError::InvalidOption(n) => {
                let mut t = String::from_str("Invalid option: ");
                let d = decimal(*n as u64);
                t.append(d.as_str());
                t
            },
        }
    }
}

/// The browser that the answer `s` picks among `count` listed browsers, as an
/// index from 0.
pub open spec fn browser_choice_spec(count: nat, s: Seq<char>) -> Result<usize, BrowserChoiceError> {
    match parse_unsigned_spec(trim_spec(s), usize::MAX as int) {
        None => Err(BrowserChoiceError::InvalidInput),
        Some(n) => if 1 <= n <= count {
            Ok((n - 1) as usize)
        } else {
            Err(BrowserChoiceError::InvalidOption(n as usize))
        },
    }
}

/// Every listed browser can be chosen: for a list of `count` browsers, the
/// answer `n` written in decimal, `1 <= n <= count`, picks the browser at
/// index `n - 1`.
pub proof fn lemma_every_listed_browser_can_be_chosen(count: nat, n: nat)
    requires
        1 <= n <= count,
        count <= usize::MAX,
    ensures
        browser_choice_spec(count, decimal_spec(n)) == Ok::<usize, BrowserChoiceError>(
            (n - 1) as usize,
        ),
{
    lemma_digits_untrimmed(n);
    lemma_decimal_roundtrip(n, usize::MAX as int);
}

/// Reads the answer at the browser prompt: the listed number of one of
/// `browsers`, white space around it allowed.
pub fn choose_browser(browsers: &Vec<String>, input: &str) -> (res: Result<usize, BrowserChoiceError>)
    ensures
        res == browser_choice_spec(browsers@.len(), input@),
        res matches Ok(i) ==> i < browsers@.len(),
{
    let trimmed = trim(input);
    match parse_unsigned(trimmed.as_str(), usize::MAX as u64) {
        None => Err(BrowserChoiceError::InvalidInput),
        Some(n) => {
            let n = n as usize;
            if 1 <= n && n <= browsers.len() {
                Ok(n - 1)
            } else {
                Err(BrowserChoiceError::InvalidOption(n))
            }
        },
    }
}

/// The command-line arguments for yt-dlp, in order.
pub open spec fn yt_dlp_arguments_spec(
    ffmpeg_location: Seq<char>,
    deno_location: Seq<char>,
    browser: Seq<char>,
    resolution: VideoResolution,
    download_dir: Seq<char>,
    filename_template: Seq<char>,
    url: Seq<char>,
) -> Seq<Seq<char>> {
    seq![
        "--ffmpeg-location"@,
        ffmpeg_location,
        "--js-runtimes"@,
        "deno:"@ + deno_location,
        "--cookies-from-browser"@,
        browser,
        "-f"@,
        format_string_spec(resolution),
        "--merge-output-format"@,
        "mp4"@,
        "-P"@,
        download_dir,
        "-o"@,
        filename_template,
        url,
    ]
}

/// The texts of a list of strings.
pub open spec fn strings_view(v: Seq<String>) -> Seq<Seq<char>> {
    v.map_values(|s: String| s@)
}

/// Appends `s` to `v`.
fn push_text(v: &mut Vec<String>, s: &str)
    ensures
        strings_view(final(v)@) == strings_view(old(v)@).push(s@),
{
    v.push(String::from_str(s));
    assert(strings_view(v@) =~= strings_view(old(v)@).push(s@));
}

/// The arguments that run yt-dlp with the given ffmpeg and deno, the cookies
/// of `browser`, the best format up to `resolution` merged into mp4, saving
/// into `download_dir` under `filename_template`, for the video at `url`.
pub fn yt_dlp_arguments(
    ffmpeg_location: &str,
    deno_location: &str,
    browser: &str,
    resolution: VideoResolution,
    download_dir: &str,
    filename_template: &str,
    url: &str,
) -> (res: Vec<String>)
    ensures
        strings_view(res@) == yt_dlp_arguments_spec(
            ffmpeg_location@,
            deno_location@,
            browser@,
            resolution,
            download_dir@,
            filename_template@,
            url@,
        ),
{
    let mut args: Vec<String> = Vec::new();
    push_text(&mut args, "--ffmpeg-location");
    push_text(&mut args, ffmpeg_location);
    push_text(&mut args, "--js-runtimes");
    let mut deno = String::from_str("deno:");
    deno.append(deno_location);
    push_text(&mut args, deno.as_str());
    push_text(&mut args, "--cookies-from-browser");
    push_text(&mut args, browser);
    push_text(&mut args, "-f");
    let format = resolution_to_format_string(resolution);
    push_text(&mut args, format.as_str());
    push_text(&mut args, "--merge-output-format");
    push_text(&mut args, "mp4");
    push_text(&mut args, "-P");
    push_text(&mut args, download_dir);
    push_text(&mut args, "-o");
    push_text(&mut args, filename_template);
    push_text(&mut args, url);
    assert(strings_view(args@) =~= yt_dlp_arguments_spec(
        ffmpeg_location@,
        deno_location@,
        browser@,
        resolution,
        download_dir@,
        filename_template@,
        url@,
    ));
    args
}

/// The error of a yt-dlp run that ended with exit code `code`.
pub fn yt_dlp_failure_message(code: i32) -> (res: String)
    ensures
        res@ == "yt-dlp exited with ("@ + signed_decimal_spec(code as int) + ")"@,
{
    let mut t = String::from_str("yt-dlp exited with (");
    let n = signed_decimal(code);
    t.append(n.as_str());
    t.append(")");
    t
}

/// The line printed when a video was saved into `download_dir`.
pub fn download_done_message(download_dir: &str) -> (res: String)
    ensures
        res@ == "Video downloaded to: "@ + download_dir@,
{
    let mut t = String::from_str("Video downloaded to: ");
    t.append(download_dir);
    t
}

/// How a finished yt-dlp run ended: fine when it succeeded, else with its
/// exit code, or 1 when it has none (it was killed by a signal).
pub fn yt_dlp_outcome(success: bool, code: Option<i32>) -> (res: Result<(), i32>)
    ensures
        success ==> res == Ok::<(), i32>(()),
        !success ==> res == Err::<(), i32>(
            match code {
                Some(c) => c,
                None => 1,
            },
        ),
{
    let exit_code = match code {
        Some(c) => c,
        None => 1,
    };
    if !success {
        Err(exit_code)
    } else {
        Ok(())
    }
}

} // verus!
