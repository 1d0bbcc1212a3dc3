//! Interpreting what the text-capture helpers hand back: the selection or
//! clipboard reader, the interactive region capture tool and the image text
//! extractor. Running those helpers is left to the caller; the decisions on
//! their output are made here.

use vstd::prelude::*;
use vstd::string::*;

verus! {

/// Most characters that a preview keeps before it is cut.
pub const PREVIEW_CHARS: usize = 200;

/// What `str::trim` leaves of a text.
pub uninterp spec fn trimmed(s: Seq<char>) -> Seq<char>;

/// Relies on `str::trim`: the text without leading and trailing whitespace,
/// which depends on the characters alone.
#[verifier::external_body]
fn trim_text<'a>(s: &'a str) -> (r: &'a str)
    ensures
        r@ == trimmed(s@),
{
    s.trim()
}

/// How a helper command ended, with what it wrote.
pub struct CommandOutcome {
    pub success: bool,
    pub exit_code: Option<i32>,
    pub stdout: String,
    pub stderr: String,
}

pub open spec fn preview_of(t: Seq<char>) -> Seq<char> {
    if t.len() > PREVIEW_CHARS {
        t.take(PREVIEW_CHARS as int) + "..."@
    } else {
        t
    }
}

/// A short form of `text` for logs: the first 200 characters followed by an
/// ellipsis when the text is longer, else the text itself.
pub fn text_preview(text: &str) -> (r: String)
    ensures
        r@ == preview_of(text@),
{
    if text.unicode_len() > PREVIEW_CHARS {
        let head = text.substring_char(0, PREVIEW_CHARS);
        head.to_owned().concat("...")
    } else {
        text.to_owned()
    }
}

/// The selected text carried by what a selection or clipboard reader
/// returned: the text without surrounding whitespace, or `None` when nothing
/// but whitespace was there.
pub fn get_selected_text(raw: &str) -> (r: Option<String>)
    ensures
        r is None <==> trimmed(raw@).len() == 0,
        r is Some ==> r.unwrap()@ == trimmed(raw@),
{
    let t = trim_text(raw);
    if t.unicode_len() == 0 {
        None
    } else {
        Some(t.to_owned())
    }
}

pub open spec fn exited_with(o: CommandOutcome, code: i32) -> bool {
    o.exit_code == Some(code)
}

pub open spec fn err_text(r: Result<String, String>, msg: Seq<char>) -> bool {
    r is Err && r->Err_0@ == msg
}

pub open spec fn ok_text(r: Result<String, String>, msg: Seq<char>) -> bool {
    r is Ok && r->Ok_0@ == msg
}

/// The result of an interactive region capture, from how the capture tool
/// ended, whether it wrote its image, and where: exit code 1 means that the
/// user cancelled; another failure reports the tool's diagnostics; on success
/// the image's path, provided the file exists.
pub fn capture_region(outcome: &CommandOutcome, file_created: bool, path: &str) -> (r: Result<
    String,
    String,
>)
    ensures
        !outcome.success && exited_with(*outcome, 1) ==> err_text(
            r,
            "Screenshot selection cancelled"@,
        ),
        !outcome.success && !exited_with(*outcome, 1) ==> err_text(
            r,
            "Screenshot failed: "@ + trimmed(outcome.stderr@),
        ),
        outcome.success && !file_created ==> err_text(r, "Screenshot file was not created"@),
        outcome.success && file_created ==> ok_text(r, path@),
{
    if !outcome.success {
        if outcome.exit_code == Some(1i32) {
            return Err("Screenshot selection cancelled".to_owned());
        }
        let diag = trim_text(outcome.stderr.as_str());
        return Err("Screenshot failed: ".to_owned().concat(diag));
    }
    if !file_created {
        return Err("Screenshot file was not created".to_owned());
    }
    Ok(path.to_owned())
}

/// The text that the image text extractor found, from how it ended: exit
/// code 1 with no diagnostics means that the image holds no text; another
/// failure reports the diagnostics; on success the trimmed output, unless it
/// is empty.
pub fn extract_text_from_image(outcome: &CommandOutcome) -> (r: Result<String, String>)
    ensures
        !outcome.success && exited_with(*outcome, 1) && trimmed(outcome.stderr@).len() == 0
            ==> err_text(r, "No text found in image"@),
        !outcome.success && !(exited_with(*outcome, 1) && trimmed(outcome.stderr@).len() == 0)
            ==> err_text(r, "Text extraction failed: "@ + trimmed(outcome.stderr@)),
        outcome.success && trimmed(outcome.stdout@).len() == 0 ==> err_text(
            r,
            "No text found in image"@,
        ),
        outcome.success && trimmed(outcome.stdout@).len() > 0 ==> ok_text(
            r,
            trimmed(outcome.stdout@),
        ),
{
    if !outcome.success {
        let diag = trim_text(outcome.stderr.as_str());
        if outcome.exit_code == Some(1i32) && diag.unicode_len() == 0 {
            return Err("No text found in image".to_owned());
        }
        return Err("Text extraction failed: ".to_owned().concat(diag));
    }
    let text = trim_text(outcome.stdout.as_str());
    if text.unicode_len() == 0 {
        return Err("No text found in image".to_owned());
    }
    Ok(text.to_owned())
}

} // verus!
