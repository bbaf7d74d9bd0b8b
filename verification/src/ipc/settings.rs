//! The settings commands: which files a vault sync takes in, and what it
//! reports. Reading, writing and walking files is the application's; the
//! settings text itself is handled by `crate::settings`.

use vstd::prelude::*;

verus! {

/// What a vault sync reports: how many files it ingested, and the first
/// errors it met.
#[derive(Debug, Clone)]
pub struct SyncResult {
    pub processed: u32,
    pub errors: Vec<String>,
}

/// The most errors a sync report carries.
pub const MAX_REPORTED_ERRORS: usize = 20;

/// The report of a sync that ingested `processed` files and met `errors`:
/// the first twenty errors are kept.
pub fn vault_sync_result(processed: u32, errors: Vec<String>) -> (r: SyncResult)
    ensures
        r.processed == processed,
        r.errors@ == errors@.take(
            if errors@.len() < MAX_REPORTED_ERRORS { errors@.len() as int } else { 20 },
        ),
{
    let mut errors = errors;
    let ghost all = errors@;
    if errors.len() > MAX_REPORTED_ERRORS {
        errors.truncate(MAX_REPORTED_ERRORS);
    }
    proof {
        if all.len() <= 20 {
            assert(all.take(all.len() as int) =~= all);
        }
    }
    SyncResult { processed, errors }
}

/// `ext` (already lowercased) is the extension of a text note: md, txt,
/// org, note or markdown.
pub open spec fn is_note_extension(ext: Seq<char>) -> bool {
    ||| ext == "md"@
    ||| ext == "txt"@
    ||| ext == "org"@
    ||| ext == "note"@
    ||| ext == "markdown"@
}

/// What `str::to_lowercase` makes of a text (Unicode lowercase mapping).
pub uninterp spec fn lowercase(s: Seq<char>) -> Seq<char>;

/// `str::to_lowercase`: the lowercase equivalent of `s`, by the Unicode
/// `Lowercase` property and its special casing. The mapping takes pages
/// to state and depends on the text alone, so it is named.
#[verifier::external_body]
fn to_lowercase(s: &str) -> (r: String)
    ensures
        r@ == lowercase(s@),
{
    s.to_lowercase()
}

/// A lowercased extension names a text note.
pub fn is_note_extension_lowered(ext: &str) -> (r: bool)
    ensures
        r == is_note_extension(ext@),
{
    let e = String::from_str(ext);
    let md = String::from_str("md");
    let txt = String::from_str("txt");
    let org = String::from_str("org");
    let note = String::from_str("note");
    let markdown = String::from_str("markdown");
    e == md || e == txt || e == org || e == note || e == markdown
}

/// A file with extension `ext` is a text note the vault sync ingests: its
/// extension, lowercased, is one of md, txt, org, note or markdown.
pub fn is_text_extension(ext: &str) -> (r: bool)
    ensures
        r == is_note_extension(lowercase(ext@)),
{
    let lowered = to_lowercase(ext);
    is_note_extension_lowered(lowered.as_str())
}

} // verus!
