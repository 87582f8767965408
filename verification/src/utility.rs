//! Reading the user's answers at the prompts, the yt-dlp format selector and
//! the names of the browsers whose cookies can be used.

use vstd::prelude::*;
use crate::repl::{VideoResolution, height_spec, strings_view};
use crate::text::{decimal, decimal_spec, lemma_trim_idempotent, trim, trim_spec};

verus! {

/// The yt-dlp format selector: the best video no taller than the height of
/// `res` with the best audio, or else the best single file no taller.
pub open spec fn format_string_spec(res: VideoResolution) -> Seq<char> {
    "bestvideo[height<="@ + decimal_spec(height_spec(res)) + "]+bestaudio/best[height<="@
        + decimal_spec(height_spec(res)) + "]"@
}

/// The yt-dlp format selector for `res`.
pub fn resolution_to_format_string(res: VideoResolution) -> (s: String)
    ensures
        s@ == format_string_spec(res),
{
    let height = decimal(res.height() as u64);
    let mut s = String::from_str("bestvideo[height<=");
    s.append(height.as_str());
    s.append("]+bestaudio/best[height<=");
    s.append(height.as_str());
    s.append("]");
    s
}

/// The answer in a line read at a prompt: the line without surrounding white
/// space, or none when nothing else is left.
pub open spec fn prompt_answer_spec(line: Seq<char>) -> Option<Seq<char>> {
    if trim_spec(line).len() == 0 {
        None
    } else {
        Some(trim_spec(line))
    }
}

/// Reads the answer in a line typed at a prompt; a blank line gives none, and
/// the prompt is asked again.
pub fn prompt_answer(line: &str) -> (res: Option<String>)
    ensures
        match res {
            Some(a) => prompt_answer_spec(line@) == Some(a@),
            None => prompt_answer_spec(line@) is None,
        },
        res matches Some(a) ==> a@.len() > 0 && trim_spec(a@) == a@,
{
    let t = trim(line);
    proof {
        lemma_trim_idempotent(line@);
    }
    if t.as_str().is_empty() {
        None
    } else {
        Some(t)
    }
}

/// yt-dlp's own file name template, used when no name is given.
pub open spec fn default_template() -> Seq<char> {
    "%(title)s [%(id)s].%(ext)s"@
}

/// The output file name template for the name typed on `line`: yt-dlp's
/// default for a blank line, else the name followed by yt-dlp's extension
/// placeholder.
pub open spec fn output_template_spec(line: Seq<char>) -> Seq<char> {
    if trim_spec(line).len() == 0 {
        default_template()
    } else {
        trim_spec(line) + ".%(ext)s"@
    }
}

/// The typed name is kept whole, whatever its length: for a line with a
/// non-blank name, the template starts with the name without its surrounding
/// white space and then has exactly yt-dlp's extension placeholder; a blank
/// line gives yt-dlp's default template.
pub proof fn lemma_template_keeps_whole_name(line: Seq<char>)
    ensures
        trim_spec(line).len() > 0 ==> {
            let name = trim_spec(line);
            let t = output_template_spec(line);
            &&& t.len() == name.len() + 8
            &&& t.subrange(0, name.len() as int) == name
            &&& t.subrange(name.len() as int, t.len() as int) == ".%(ext)s"@
        },
        trim_spec(line).len() == 0 ==> output_template_spec(line) == "%(title)s [%(id)s].%(ext)s"@,
{
    reveal_strlit(".%(ext)s");
    if trim_spec(line).len() > 0 {
        let name = trim_spec(line);
        let t = output_template_spec(line);
        assert(t.subrange(0, name.len() as int) =~= name);
        assert(t.subrange(name.len() as int, t.len() as int) =~= ".%(ext)s"@);
    }
}

/// The output file name template for the name typed on `line`.
pub fn output_filename_template(line: &str) -> (res: String)
    ensures
        res@ == output_template_spec(line@),
{
    let t = trim(line);
    if t.as_str().is_empty() {
        String::from_str("%(title)s [%(id)s].%(ext)s")
    } else {
        let mut s = t;
        s.append(".%(ext)s");
        s
    }
}


// ---------------------------------------------------------------------------
// Browsers
// ---------------------------------------------------------------------------

/// A browser whose cookies yt-dlp can be told to use.
#[derive(Clone, Copy, Debug, PartialEq, Eq, Structural)]
pub enum BrowserKind {
    Chrome,
    Firefox,
    Edge,
    Brave,
    Opera,
}

/// The name under which a browser is shown and handed to yt-dlp.
pub open spec fn browser_name_spec(b: BrowserKind) -> Seq<char> {
    match b {
        BrowserKind::Chrome => "Chrome"@,
        BrowserKind::Firefox => "Firefox"@,
        BrowserKind::Edge => "Edge"@,
        BrowserKind::Brave => "Brave"@,
        BrowserKind::Opera => "Opera"@,
    }
}

/// The browsers looked for, in the order in which they are listed.
pub open spec fn browser_candidates_spec() -> Seq<BrowserKind> {
    seq![
        BrowserKind::Chrome,
        BrowserKind::Firefox,
        BrowserKind::Edge,
        BrowserKind::Brave,
        BrowserKind::Opera,
    ]
}

/// The browsers looked for, in the order in which they are listed.
pub fn browser_candidates() -> (res: Vec<BrowserKind>)
    ensures
        res@ == browser_candidates_spec(),
{
    let mut v: Vec<BrowserKind> = Vec::new();
    v.push(BrowserKind::Chrome);
    v.push(BrowserKind::Firefox);
    v.push(BrowserKind::Edge);
    v.push(BrowserKind::Brave);
    v.push(BrowserKind::Opera);
    assert(v@ =~= browser_candidates_spec());
    v
}

/// Calls `browser_locations::locate_any_stable` for the browser and tells
/// whether it found an installation (any release channel, stable first).
/// What it finds depends on the files and environment of the machine, so
/// nothing is stated of the answer.
#[verifier::external_body]
fn is_browser_installed(kind: BrowserKind) -> bool {
    let browser = match kind {
        BrowserKind::Chrome => browser_locations::Browser::Chrome,
        BrowserKind::Firefox => browser_locations::Browser::Firefox,
        BrowserKind::Edge => browser_locations::Browser::Edge,
        BrowserKind::Brave => browser_locations::Browser::Brave,
        BrowserKind::Opera => browser_locations::Browser::Opera,
    };
    browser_locations::locate_any_stable(browser).is_ok()
}

/// Calls `Display` of `browser_locations::Browser` (through `to_string`).
/// The crate writes each browser's display name: "Chrome", "Firefox",
/// "Edge", "Brave" and "Opera" for the five browsers used here.
#[verifier::external_body]
fn browser_display_name(kind: BrowserKind) -> (res: String)
    ensures
        res@ == browser_name_spec(kind),
{
    let browser = match kind {
        BrowserKind::Chrome => browser_locations::Browser::Chrome,
        BrowserKind::Firefox => browser_locations::Browser::Firefox,
        BrowserKind::Edge => browser_locations::Browser::Edge,
        BrowserKind::Brave => browser_locations::Browser::Brave,
        BrowserKind::Opera => browser_locations::Browser::Opera,
    };
    browser.to_string()
}

/// The names of the first `installed.len()` candidate browsers whose flag in
/// `installed` is set, in candidate order.
pub open spec fn found_browser_names_spec(installed: Seq<bool>) -> Seq<Seq<char>>
    decreases installed.len(),
{
    if installed.len() == 0 {
        Seq::<Seq<char>>::empty()
    } else {
        let before = found_browser_names_spec(installed.drop_last());
        if installed.last() {
            before.push(browser_name_spec(browser_candidates_spec()[installed.len() - 1]))
        } else {
            before
        }
    }
}

/// The names of the candidate browsers that are marked as installed, in
/// candidate order; `installed[i]` tells whether the `i`-th candidate is.
pub fn found_browser_names(installed: &Vec<bool>) -> (res: Vec<String>)
    requires
        installed@.len() <= browser_candidates_spec().len(),
    ensures
        strings_view(res@) == found_browser_names_spec(installed@),
{
    let candidates = browser_candidates();
    let mut found: Vec<String> = Vec::new();
    let mut i: usize = 0;
    while i < installed.len()
        invariant
            installed@.len() <= candidates@.len(),
            candidates@ == browser_candidates_spec(),
            i <= installed@.len(),
            strings_view(found@) == found_browser_names_spec(installed@.take(i as int)),
        decreases installed.len() - i,
    {
        assert(installed@.take(i + 1).drop_last() =~= installed@.take(i as int));
        if installed[i] {
            let name = browser_display_name(candidates[i]);
            found.push(name);
        }
        assert(strings_view(found@) =~= found_browser_names_spec(installed@.take(i + 1)));
        i = i + 1;
    }
    assert(installed@.take(installed@.len() as int) =~= installed@);
    found
}

/// The place in the candidate list of the browser whose name starts with `c`
/// (the five names start with different letters).
pub open spec fn candidate_place(c: char) -> int {
    if c == 'C' {
        0
    } else if c == 'F' {
        1
    } else if c == 'E' {
        2
    } else if c == 'B' {
        3
    } else if c == 'O' {
        4
    } else {
        5
    }
}

/// The name of each candidate starts with the letter of its place.
proof fn lemma_candidate_initials(k: int)
    requires
        0 <= k < 5,
    ensures
        browser_name_spec(browser_candidates_spec()[k]).len() > 0,
        candidate_place(browser_name_spec(browser_candidates_spec()[k])[0]) == k,
{
    reveal_strlit("Chrome");
    reveal_strlit("Firefox");
    reveal_strlit("Edge");
    reveal_strlit("Brave");
    reveal_strlit("Opera");
}

/// The found names come in candidate order, each from a candidate among the
/// first `installed.len()`.
proof fn lemma_found_names_ordered(installed: Seq<bool>)
    requires
        installed.len() <= 5,
    ensures
        forall|k: int|
            0 <= k < found_browser_names_spec(installed).len() ==> #[trigger] found_browser_names_spec(
                installed,
            )[k].len() > 0 && 0 <= candidate_place(found_browser_names_spec(installed)[k][0])
                < installed.len(),
        forall|i: int, j: int|
            0 <= i < j < found_browser_names_spec(installed).len() ==> candidate_place(
                #[trigger] found_browser_names_spec(installed)[i][0],
            ) < candidate_place(#[trigger] found_browser_names_spec(installed)[j][0]),
    decreases installed.len(),
{
    if installed.len() > 0 {
        let n = installed.len() - 1;
        let b = found_browser_names_spec(installed.drop_last());
        let f = found_browser_names_spec(installed);
        lemma_found_names_ordered(installed.drop_last());
        lemma_candidate_initials(n);
        let name = browser_name_spec(browser_candidates_spec()[n]);
        if installed.last() {
            assert(f == b.push(name));
            assert forall|k: int| 0 <= k < f.len() implies #[trigger] f[k].len() > 0 && 0
                <= candidate_place(f[k][0]) < installed.len() by {
                if k < b.len() {
                    assert(f[k] == b[k]);
                }
            }
            assert forall|i: int, j: int| 0 <= i < j < f.len() implies candidate_place(
                #[trigger] f[i][0],
            ) < candidate_place(#[trigger] f[j][0]) by {
                assert(f[i] == b[i]);
                if j < b.len() {
                    assert(f[j] == b[j]);
                }
            }
        } else {
            assert(f == b);
        }
    }
}

/// Each browser is found at most once: no two found names are the same.
pub proof fn lemma_found_browsers_distinct(installed: Seq<bool>)
    requires
        installed.len() <= browser_candidates_spec().len(),
    ensures
        forall|i: int, j: int|
            0 <= i < j < found_browser_names_spec(installed).len() ==> #[trigger] found_browser_names_spec(
                installed,
            )[i] != #[trigger] found_browser_names_spec(installed)[j],
{
    lemma_found_names_ordered(installed);
    let f = found_browser_names_spec(installed);
    assert forall|i: int, j: int| 0 <= i < j < f.len() implies #[trigger] f[i] != #[trigger] f[j] by {
        assert(candidate_place(f[i][0]) < candidate_place(f[j][0]));
    }
}

/// Looks for each candidate browser on this machine and returns the names of
/// those found, in candidate order.
pub fn fetch_found_broswers() -> (res: Vec<String>)
    ensures
        exists|installed: Seq<bool>|
            installed.len() == browser_candidates_spec().len() && strings_view(res@)
                == found_browser_names_spec(installed),
{
    let candidates = browser_candidates();
    let mut installed: Vec<bool> = Vec::new();
    let mut i: usize = 0;
    while i < candidates.len()
        invariant
            candidates@ == browser_candidates_spec(),
            i <= candidates@.len(),
            installed@.len() == i,
        decreases candidates.len() - i,
    {
        installed.push(is_browser_installed(candidates[i]));
        i = i + 1;
    }
    found_browser_names(&installed)
}

} // verus!
