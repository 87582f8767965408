use ytdl_helper::repl::VideoResolution;
use ytdl_helper::utility::{
    browser_candidates, fetch_found_broswers, found_browser_names, output_filename_template,
    prompt_answer, resolution_to_format_string, BrowserKind,
};

#[test]
fn format_strings() {
    assert_eq!(
        resolution_to_format_string(VideoResolution::R1080),
        "bestvideo[height<=1080]+bestaudio/best[height<=1080]"
    );
    assert_eq!(
        resolution_to_format_string(VideoResolution::R144),
        "bestvideo[height<=144]+bestaudio/best[height<=144]"
    );
    assert_eq!(
        resolution_to_format_string(VideoResolution::R2160),
        "bestvideo[height<=2160]+bestaudio/best[height<=2160]"
    );
}

#[test]
fn prompt_answers() {
    assert_eq!(prompt_answer("https://youtu.be/x\n"), Some("https://youtu.be/x".to_string()));
    assert_eq!(prompt_answer("  2  \r\n"), Some("2".to_string()));
    assert_eq!(prompt_answer("\n"), None);
    assert_eq!(prompt_answer(""), None);
}

#[test]
fn output_templates() {
    assert_eq!(output_filename_template("\n"), "%(title)s [%(id)s].%(ext)s");
    assert_eq!(output_filename_template("  my video \n"), "my video.%(ext)s");
}

#[test]
fn browser_names_in_order() {
    assert_eq!(
        browser_candidates(),
        vec![BrowserKind::Chrome, BrowserKind::Firefox, BrowserKind::Edge, BrowserKind::Brave, BrowserKind::Opera]
    );
    assert_eq!(found_browser_names(&vec![true, false, true, false, true]), vec!["Chrome", "Edge", "Opera"]);
    assert_eq!(found_browser_names(&vec![false, true, false, true, false]), vec!["Firefox", "Brave"]);
    assert_eq!(found_browser_names(&vec![true; 5]), vec!["Chrome", "Firefox", "Edge", "Brave", "Opera"]);
    assert!(found_browser_names(&vec![false; 5]).is_empty());
}

#[test]
fn found_browsers_are_known_names() {
    let known = ["Chrome", "Firefox", "Edge", "Brave", "Opera"];
    let found = fetch_found_broswers();
    let mut last = None;
    for name in &found {
        let pos = known.iter().position(|k| k == name).expect("known browser");
        assert!(last.map_or(true, |l| l < pos));
        last = Some(pos);
    }
}
