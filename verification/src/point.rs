//! Telemetry points: measurement name, tags and fields in insertion
//! order, and the builders that shape the pipeline's start, end, error
//! and data points.

use vstd::prelude::*;

use crate::config::BorgFluxConfig;
use crate::encode::int_rep;

verus! {

/// One indexed key/value pair attached to a point, used for filtering.
pub struct InfluxTag {
    pub name: String,
    pub value: String,
}

/// A field value: the quantity being measured.  A floating-point value
/// is carried as its decimal rendering, which the encoder writes onto
/// the wire verbatim; integers are rendered by the encoder itself;
/// strings go out as they are, unquoted.
pub enum InfluxFieldValue {
    Float(String),
    Int(i64),
    Text(String),
}

/// One named, typed value attached to a point.
pub struct InfluxField {
    pub name: String,
    pub value: InfluxFieldValue,
}

/// An abstract telemetry point.  Tags and fields keep their insertion
/// order; uniqueness of keys is not enforced at this layer.  A point
/// with no fields is representable and encodes to a well-formed line.
pub struct InfluxPoint {
    pub measurement: String,
    pub tags: Vec<InfluxTag>,
    pub fields: Vec<InfluxField>,
}

/// Statistics of one backup run, as read from the backup tool's
/// structured report.  The duration is carried as the report's decimal
/// rendering of the number of seconds, written onto the wire verbatim.
#[derive(PartialEq, Debug)]
pub struct Backup {
    pub host: String,
    pub backup_name: String,
    pub encryption: String,
    pub repo_location: String,
    pub duration: String,
    pub compressed_size: i64,
    pub deduplicated_size: i64,
    pub number_of_files: i64,
    pub original_size: i64,
}

/// The wire text of one field value.
pub open spec fn value_text(v: InfluxFieldValue) -> Seq<char> {
    match v {
        InfluxFieldValue::Float(s) => s@,
        InfluxFieldValue::Int(i) => int_rep(i as int),
        InfluxFieldValue::Text(s) => s@,
    }
}

/// The exact shape of the measurement point built from a backup summary:
/// the four documented tags and the five documented fields, in the
/// documented order.
pub open spec fn is_data_point(p: InfluxPoint, b: Backup) -> bool {
    &&& p.measurement@ == "backup_data"@
    &&& p.tags@.len() == 4
    &&& p.tags@[0].name@ == "host"@ && p.tags@[0].value@ == b.host@
    &&& p.tags@[1].name@ == "backup_name"@ && p.tags@[1].value@ == b.backup_name@
    &&& p.tags@[2].name@ == "encryption"@ && p.tags@[2].value@ == b.encryption@
    &&& p.tags@[3].name@ == "repo_location"@ && p.tags@[3].value@ == b.repo_location@
    &&& p.fields@.len() == 5
    &&& p.fields@[0].name@ == "duration"@
    &&& (p.fields@[0].value matches InfluxFieldValue::Float(s) && s@ == b.duration@)
    &&& p.fields@[1].name@ == "compressed_size"@
    &&& (p.fields@[1].value matches InfluxFieldValue::Int(n) && n == b.compressed_size)
    &&& p.fields@[2].name@ == "deduplicated_size"@
    &&& (p.fields@[2].value matches InfluxFieldValue::Int(n) && n == b.deduplicated_size)
    &&& p.fields@[3].name@ == "number_of_files"@
    &&& (p.fields@[3].value matches InfluxFieldValue::Int(n) && n == b.number_of_files)
    &&& p.fields@[4].name@ == "original_size"@
    &&& (p.fields@[4].value matches InfluxFieldValue::Int(n) && n == b.original_size)
}

/// The three tags every framing and error point carries: the host this
/// agent reports for, the backup repository and the source path.
pub open spec fn has_run_tags(p: InfluxPoint, cfg: BorgFluxConfig) -> bool {
    &&& p.tags@.len() == 3
    &&& p.tags@[0].name@ == "host"@ && p.tags@[0].value@ == cfg.hostname@
    &&& p.tags@[1].name@ == "repository"@ && p.tags@[1].value@ == cfg.borg_repository@
    &&& p.tags@[2].name@ == "source_path"@ && p.tags@[2].value@ == cfg.borg_source_path@
}

/// The exact shape of a framing point ("backup_start", "backup_end"):
/// the three run tags and a single placeholder integer field.
pub open spec fn is_frame_point(p: InfluxPoint, cfg: BorgFluxConfig, measurement: Seq<char>) -> bool {
    &&& p.measurement@ == measurement
    &&& has_run_tags(p, cfg)
    &&& p.fields@.len() == 1
    &&& p.fields@[0].name@ == "dummy"@
    &&& (p.fields@[0].value matches InfluxFieldValue::Int(n) && n == 0)
}

/// The exact shape of an error point: the three run tags and a single
/// string field holding the diagnostic text.
pub open spec fn is_error_point(p: InfluxPoint, cfg: BorgFluxConfig, error_text: Seq<char>) -> bool {
    &&& p.measurement@ == "backup_error"@
    &&& has_run_tags(p, cfg)
    &&& p.fields@.len() == 1
    &&& p.fields@[0].name@ == "error"@
    &&& (p.fields@[0].value matches InfluxFieldValue::Text(s) && s@ == error_text)
}

/// Builds the "backup_data" measurement point from a backup summary:
/// tags host, backup_name, encryption and repo_location, then fields
/// duration, compressed_size, deduplicated_size, number_of_files and
/// original_size, in that order.
pub fn create_influx_point_from_backup(backup: Backup) -> (p: InfluxPoint)
    ensures
        is_data_point(p, backup),
{
    let mut tags: Vec<InfluxTag> = Vec::new();
    tags.push(InfluxTag { name: String::from_str("host"), value: backup.host });
    tags.push(InfluxTag { name: String::from_str("backup_name"), value: backup.backup_name });
    tags.push(InfluxTag { name: String::from_str("encryption"), value: backup.encryption });
    tags.push(InfluxTag { name: String::from_str("repo_location"), value: backup.repo_location });
    let mut fields: Vec<InfluxField> = Vec::new();
    fields.push(InfluxField {
        name: String::from_str("duration"),
        value: InfluxFieldValue::Float(backup.duration),
    });
    fields.push(InfluxField {
        name: String::from_str("compressed_size"),
        value: InfluxFieldValue::Int(backup.compressed_size),
    });
    fields.push(InfluxField {
        name: String::from_str("deduplicated_size"),
        value: InfluxFieldValue::Int(backup.deduplicated_size),
    });
    fields.push(InfluxField {
        name: String::from_str("number_of_files"),
        value: InfluxFieldValue::Int(backup.number_of_files),
    });
    fields.push(InfluxField {
        name: String::from_str("original_size"),
        value: InfluxFieldValue::Int(backup.original_size),
    });
    InfluxPoint { measurement: String::from_str("backup_data"), tags, fields }
}

/// Builds a framing point ("backup_start" or "backup_end") that marks
/// the boundary of one pipeline run.
pub fn build_frame_point(credentials: &BorgFluxConfig, measurement: String) -> (p: InfluxPoint)
    ensures
        is_frame_point(p, *credentials, measurement@),
{
    let mut tags: Vec<InfluxTag> = Vec::new();
    tags.push(InfluxTag {
        name: String::from_str("host"),
        value: credentials.hostname.clone(),
    });
    tags.push(InfluxTag {
        name: String::from_str("repository"),
        value: credentials.borg_repository.clone(),
    });
    tags.push(InfluxTag {
        name: String::from_str("source_path"),
        value: credentials.borg_source_path.clone(),
    });
    let mut fields: Vec<InfluxField> = Vec::new();
    fields.push(InfluxField {
        name: String::from_str("dummy"),
        value: InfluxFieldValue::Int(0),
    });
    InfluxPoint { measurement, tags, fields }
}

/// Builds the "backup_error" point that makes a failed stage observable:
/// the run tags and the diagnostic text as a string field.
pub fn build_error_point(credentials: &BorgFluxConfig, error_text: &str) -> (p: InfluxPoint)
    ensures
        is_error_point(p, *credentials, error_text@),
{
    let mut tags: Vec<InfluxTag> = Vec::new();
    tags.push(InfluxTag {
        name: String::from_str("host"),
        value: credentials.hostname.clone(),
    });
    tags.push(InfluxTag {
        name: String::from_str("repository"),
        value: credentials.borg_repository.clone(),
    });
    tags.push(InfluxTag {
        name: String::from_str("source_path"),
        value: credentials.borg_source_path.clone(),
    });
    let mut fields: Vec<InfluxField> = Vec::new();
    fields.push(InfluxField {
        name: String::from_str("error"),
        value: InfluxFieldValue::Text(String::from_str(error_text)),
    });
    InfluxPoint { measurement: String::from_str("backup_error"), tags, fields }
}

} // verus!
