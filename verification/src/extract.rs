//! The backup statistics extractor: turns the backup tool's structured
//! run report into a typed summary, all-or-nothing.  Every required
//! field must be present and of its documented type, or the whole
//! extraction fails with an error naming the first gap; nothing is
//! silently defaulted and nothing panics.

use vstd::prelude::*;

use crate::json::{probe_report, report_probe_of};
use crate::point::Backup;

verus! {

/// One required field of the structured report, by its documented path.
#[derive(Clone, Copy, PartialEq, Eq, Structural, Debug)]
pub enum ReportField {
    ArchiveName,
    Duration,
    CompressedSize,
    DeduplicatedSize,
    NumberOfFiles,
    OriginalSize,
    EncryptionMode,
    RepoLocation,
}

/// Why an extraction failed: the report was not parseable JSON, or a
/// required field was absent or not of its documented type.
#[derive(Clone, Copy, PartialEq, Eq, Structural, Debug)]
pub enum ExtractionError {
    InvalidJson,
    MissingField(ReportField),
}

/// The documented path of a required report field.
pub open spec fn field_path_of(f: ReportField) -> Seq<char> {
    match f {
        ReportField::ArchiveName => "archive.name"@,
        ReportField::Duration => "archive.duration"@,
        ReportField::CompressedSize => "archive.stats.compressed_size"@,
        ReportField::DeduplicatedSize => "archive.stats.deduplicated_size"@,
        ReportField::NumberOfFiles => "archive.stats.nfiles"@,
        ReportField::OriginalSize => "archive.stats.original_size"@,
        ReportField::EncryptionMode => "encryption.mode"@,
        ReportField::RepoLocation => "repository.location"@,
    }
}

/// The diagnostic text of an extraction error.
pub open spec fn message_of(e: ExtractionError) -> Seq<char> {
    match e {
        ExtractionError::InvalidJson => "Couldn't read the JSON file correctly!"@,
        ExtractionError::MissingField(f) => "The backup report has no usable "@ + field_path_of(f)
            + "!"@,
    }
}

impl ReportField {
    /// The documented path of this field.
    pub fn path(&self) -> (r: &'static str)
        ensures
            r@ == field_path_of(*self),
    {
        match self {
            ReportField::ArchiveName => "archive.name",
            ReportField::Duration => "archive.duration",
            ReportField::CompressedSize => "archive.stats.compressed_size",
            ReportField::DeduplicatedSize => "archive.stats.deduplicated_size",
            ReportField::NumberOfFiles => "archive.stats.nfiles",
            ReportField::OriginalSize => "archive.stats.original_size",
            ReportField::EncryptionMode => "encryption.mode",
            ReportField::RepoLocation => "repository.location",
        }
    }
}

impl ExtractionError {
    /// The diagnostic text of this error; never empty, so the error
    /// point built from it always carries an observable message.
    pub fn message(&self) -> (r: String)
        ensures
            r@ == message_of(*self),
            r@.len() > 0,
    {
        match self {
            ExtractionError::InvalidJson => {
                let r = String::from_str("Couldn't read the JSON file correctly!");
                proof {
                    reveal_strlit("Couldn't read the JSON file correctly!");
                }
                r
            },
            ExtractionError::MissingField(f) => {
                let mut r = String::from_str("The backup report has no usable ");
                r.append(f.path());
                r.append("!");
                proof {
                    reveal_strlit("The backup report has no usable ");
                }
                r
            },
        }
    }
}

/// The probed raw values of the eight required report fields, each
/// present only when the report holds it with its documented type.
pub struct ReportFields {
    pub archive_name: Option<String>,
    pub duration: Option<String>,
    pub compressed_size: Option<i64>,
    pub deduplicated_size: Option<i64>,
    pub number_of_files: Option<i64>,
    pub original_size: Option<i64>,
    pub encryption_mode: Option<String>,
    pub repo_location: Option<String>,
}

/// The first required field a probed report lacks, in the documented
/// order, if any.
pub open spec fn first_gap(f: ReportFields) -> Option<ReportField> {
    if f.archive_name is None {
        Some(ReportField::ArchiveName)
    } else if f.duration is None {
        Some(ReportField::Duration)
    } else if f.compressed_size is None {
        Some(ReportField::CompressedSize)
    } else if f.deduplicated_size is None {
        Some(ReportField::DeduplicatedSize)
    } else if f.number_of_files is None {
        Some(ReportField::NumberOfFiles)
    } else if f.original_size is None {
        Some(ReportField::OriginalSize)
    } else if f.encryption_mode is None {
        Some(ReportField::EncryptionMode)
    } else if f.repo_location is None {
        Some(ReportField::RepoLocation)
    } else {
        None
    }
}

/// The summary carries exactly the probed values, nothing defaulted.
pub open spec fn summary_matches(b: Backup, fields: ReportFields, host: Seq<char>) -> bool {
    &&& b.host@ == host
    &&& (fields.archive_name matches Some(s) && b.backup_name@ == s@)
    &&& (fields.duration matches Some(s) && b.duration@ == s@)
    &&& (fields.compressed_size matches Some(n) && b.compressed_size == n)
    &&& (fields.deduplicated_size matches Some(n) && b.deduplicated_size == n)
    &&& (fields.number_of_files matches Some(n) && b.number_of_files == n)
    &&& (fields.original_size matches Some(n) && b.original_size == n)
    &&& (fields.encryption_mode matches Some(s) && b.encryption@ == s@)
    &&& (fields.repo_location matches Some(s) && b.repo_location@ == s@)
}

/// Law: extraction is all-or-nothing.  A summary is produced exactly
/// when every required field resolved, and then it carries the probed
/// values unchanged; otherwise the error names the first missing or
/// mistyped field and nothing is defaulted.
pub fn summary_from_fields(fields: ReportFields, host: String) -> (r: Result<
    Backup,
    ExtractionError,
>)
    ensures
        r is Ok <==> first_gap(fields) is None,
        first_gap(fields) is Some ==> r == Err::<Backup, ExtractionError>(
            ExtractionError::MissingField(first_gap(fields).unwrap()),
        ),
        r matches Ok(b) ==> summary_matches(b, fields, host@),
{
    let backup_name = match fields.archive_name {
        Some(s) => s,
        None => {
            return Err(ExtractionError::MissingField(ReportField::ArchiveName));
        },
    };
    let duration = match fields.duration {
        Some(s) => s,
        None => {
            return Err(ExtractionError::MissingField(ReportField::Duration));
        },
    };
    let compressed_size = match fields.compressed_size {
        Some(n) => n,
        None => {
            return Err(ExtractionError::MissingField(ReportField::CompressedSize));
        },
    };
    let deduplicated_size = match fields.deduplicated_size {
        Some(n) => n,
        None => {
            return Err(ExtractionError::MissingField(ReportField::DeduplicatedSize));
        },
    };
    let number_of_files = match fields.number_of_files {
        Some(n) => n,
        None => {
            return Err(ExtractionError::MissingField(ReportField::NumberOfFiles));
        },
    };
    let original_size = match fields.original_size {
        Some(n) => n,
        None => {
            return Err(ExtractionError::MissingField(ReportField::OriginalSize));
        },
    };
    let encryption = match fields.encryption_mode {
        Some(s) => s,
        None => {
            return Err(ExtractionError::MissingField(ReportField::EncryptionMode));
        },
    };
    let repo_location = match fields.repo_location {
        Some(s) => s,
        None => {
            return Err(ExtractionError::MissingField(ReportField::RepoLocation));
        },
    };
    Ok(
        Backup {
            host,
            backup_name,
            encryption,
            repo_location,
            duration,
            compressed_size,
            deduplicated_size,
            number_of_files,
            original_size,
        },
    )
}

/// Parses the raw run report and extracts the backup summary for the
/// given host.  Fails with `InvalidJson` exactly when the text is not
/// parseable JSON; otherwise succeeds exactly when every required
/// field resolved, carries the probed values unchanged, and names the
/// first missing or mistyped field on failure — all stated over the
/// probe outcome of the text itself.
pub fn extract_data_from_json(raw_report: &str, host: &str) -> (r: Result<Backup, ExtractionError>)
    ensures
        report_probe_of(raw_report@) is None ==> r == Err::<Backup, ExtractionError>(
            ExtractionError::InvalidJson,
        ),
        report_probe_of(raw_report@) matches Some(f) ==> {
            &&& r is Ok <==> first_gap(f) is None
            &&& first_gap(f) is Some ==> r == Err::<Backup, ExtractionError>(
                ExtractionError::MissingField(first_gap(f).unwrap()),
            )
            &&& (r matches Ok(b) ==> summary_matches(b, f, host@))
        },
{
    match probe_report(raw_report) {
        None => Err(ExtractionError::InvalidJson),
        Some(fields) => summary_from_fields(fields, String::from_str(host)),
    }
}

} // verus!
