//! The trusted boundary to the JSON parser.  The backup tool's run
//! report arrives as text; the one probe here hands back, as plain
//! values, what the report holds at the eight documented field paths —
//! or nothing when the text is not JSON at all.  The probe's outcome
//! is a function of the text alone, so it carries a name that the
//! extractor's contract is stated over.

use vstd::prelude::*;

use crate::extract::ReportFields;

verus! {

/// What probing a report text yields: nothing when the text is not
/// parseable JSON, otherwise each documented field path's value where
/// it is present with its documented type.
pub uninterp spec fn report_probe_of(s: Seq<char>) -> Option<ReportFields>;

/// Probes a report text for the eight documented field paths.
///
/// Relies on serde_json::from_str (None exactly when the text is not
/// parseable JSON), Value::get, Value::as_str, Value::as_i64 (None for
/// non-integers) and the decimal rendering of Value's Number variant —
/// all functions of the text alone.
#[verifier::external_body]
pub(crate) fn probe_report(text: &str) -> (r: Option<ReportFields>)
    ensures
        r == report_probe_of(text@),
{
    let root: serde_json::Value = serde_json::from_str(text).ok()?;
    let path = |a, b| root.get(a)?.get(b);
    let txt = |a, b| Some(path(a, b)?.as_str()?.to_owned());
    let num = |b| path("archive", "stats")?.get(b)?.as_i64();
    let dur = || Some(path("archive", "duration")?.as_number()?.to_string());
    Some(ReportFields {
        archive_name: txt("archive", "name"),
        duration: dur(),
        compressed_size: num("compressed_size"),
        deduplicated_size: num("deduplicated_size"),
        number_of_files: num("nfiles"),
        original_size: num("original_size"),
        encryption_mode: txt("encryption", "mode"),
        repo_location: txt("repository", "location"),
    })
}

} // verus!
