use ytdl_helper::repl::{
    browser_list_lines, choose_browser, download_done_message, invalid_resolution_message,
    menu_action, no_browser_error, yt_dlp_failure_message, menu_text, yt_dlp_arguments, yt_dlp_outcome, BrowserChoiceError,
    MenuAction, ParseVideoResolutionError, VideoResolution,
};
use ytdl_helper::text::decimal;

const ALL: [VideoResolution; 8] = [
    VideoResolution::R2160,
    VideoResolution::R1440,
    VideoResolution::R1080,
    VideoResolution::R720,
    VideoResolution::R480,
    VideoResolution::R360,
    VideoResolution::R240,
    VideoResolution::R144,
];

#[test]
fn resolutions_parse_from_heights() {
    assert_eq!("144".parse::<VideoResolution>(), Ok(VideoResolution::R144));
    assert_eq!("240".parse::<VideoResolution>(), Ok(VideoResolution::R240));
    assert_eq!("360".parse::<VideoResolution>(), Ok(VideoResolution::R360));
    assert_eq!("480".parse::<VideoResolution>(), Ok(VideoResolution::R480));
    assert_eq!("720".parse::<VideoResolution>(), Ok(VideoResolution::R720));
    assert_eq!("1080".parse::<VideoResolution>(), Ok(VideoResolution::R1080));
    assert_eq!("1440".parse::<VideoResolution>(), Ok(VideoResolution::R1440));
    assert_eq!("2160".parse::<VideoResolution>(), Ok(VideoResolution::R2160));
}

#[test]
fn other_texts_are_no_resolution() {
    for s in ["", "1080p", " 144", "144 ", "100", "0720", "+720", "4320"] {
        assert_eq!(VideoResolution::parse(s), Err(ParseVideoResolutionError), "{:?}", s);
    }
}

#[test]
fn height_text_parses_back() {
    for r in ALL {
        assert_eq!(VideoResolution::parse(&decimal(r.height() as u64)), Ok(r));
    }
    assert_eq!(VideoResolution::R720.height(), 720);
}

#[test]
fn menu_answers() {
    assert_eq!(menu_action("1"), MenuAction::Download(Some(VideoResolution::R2160)));
    assert_eq!(menu_action("2"), MenuAction::Download(None));
    assert_eq!(menu_action("3"), MenuAction::ComingSoon);
    assert_eq!(menu_action("4"), MenuAction::ComingSoon);
    assert_eq!(menu_action("5"), MenuAction::Exit);
    assert_eq!(menu_action("+5"), MenuAction::Exit);
    assert_eq!(menu_action("0"), MenuAction::InvalidOption(0));
    assert_eq!(menu_action("6"), MenuAction::InvalidOption(6));
    assert_eq!(menu_action("255"), MenuAction::InvalidOption(255));
    assert_eq!(menu_action("256"), MenuAction::InvalidInput);
    assert_eq!(menu_action("abc"), MenuAction::InvalidInput);
    assert_eq!(menu_action("-1"), MenuAction::InvalidInput);
}

#[test]
fn menu_shows_output_folder() {
    let text = menu_text("/home/ann/tools/yt_dlp/downloads");
    assert!(text.starts_with("\n*********************************************************\n*               Youtube Video Downloader!"));
    assert!(text.contains("[5] Exit\n\noutput folder: /home/ann/tools/yt_dlp/downloads\n-----"));
    assert!(text.ends_with("---------------------------------------------------------\n"));
}

#[test]
fn browser_answers() {
    let browsers = vec!["Chrome".to_string(), "Firefox".to_string(), "Edge".to_string()];
    assert_eq!(choose_browser(&browsers, "1"), Ok(0));
    assert_eq!(choose_browser(&browsers, " 3 \n"), Ok(2));
    assert_eq!(choose_browser(&browsers, "0"), Err(BrowserChoiceError::InvalidOption(0)));
    assert_eq!(choose_browser(&browsers, "4"), Err(BrowserChoiceError::InvalidOption(4)));
    assert_eq!(choose_browser(&browsers, "two"), Err(BrowserChoiceError::InvalidInput));
    assert_eq!(choose_browser(&browsers, ""), Err(BrowserChoiceError::InvalidInput));
    assert_eq!(choose_browser(&Vec::new(), "1"), Err(BrowserChoiceError::InvalidOption(1)));
}

#[test]
fn yt_dlp_command_line() {
    let args = yt_dlp_arguments(
        "/h/tools/ffmpeg/ffmpeg",
        "/h/tools/deno/deno",
        "Firefox",
        VideoResolution::R720,
        "/h/tools/yt_dlp/downloads",
        "%(title)s [%(id)s].%(ext)s",
        "https://www.youtube.com/watch?v=x",
    );
    let expected = [
        "--ffmpeg-location",
        "/h/tools/ffmpeg/ffmpeg",
        "--js-runtimes",
        "deno:/h/tools/deno/deno",
        "--cookies-from-browser",
        "Firefox",
        "-f",
        "bestvideo[height<=720]+bestaudio/best[height<=720]",
        "--merge-output-format",
        "mp4",
        "-P",
        "/h/tools/yt_dlp/downloads",
        "-o",
        "%(title)s [%(id)s].%(ext)s",
        "https://www.youtube.com/watch?v=x",
    ];
    assert_eq!(args, expected);
}

#[test]
fn yt_dlp_outcomes() {
    assert_eq!(yt_dlp_outcome(true, Some(0)), Ok(()));
    assert_eq!(yt_dlp_outcome(false, Some(2)), Err(2));
    assert_eq!(yt_dlp_outcome(false, None), Err(1));
}

#[test]
fn download_needs_a_browser() {
    assert_eq!(
        no_browser_error(&Vec::new()),
        Some("no browsers found, need a browser to get cookies from".to_string())
    );
    assert_eq!(no_browser_error(&vec!["Chrome".to_string()]), None);
}

#[test]
fn download_messages() {
    assert_eq!(invalid_resolution_message("720p"), "Invalid resolution: 720p");
    assert_eq!(yt_dlp_failure_message(2), "yt-dlp exited with (2)");
    assert_eq!(yt_dlp_failure_message(-9), "yt-dlp exited with (-9)");
    assert_eq!(yt_dlp_failure_message(i32::MIN), format!("yt-dlp exited with ({})", i32::MIN));
    assert_eq!(download_done_message("/h/dl"), "Video downloaded to: /h/dl");
    assert_eq!(
        browser_list_lines(&vec!["Chrome".to_string(), "Opera".to_string()]),
        vec!["[1]: Chrome", "[2]: Opera"]
    );
}
