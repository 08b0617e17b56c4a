//! The pipeline orchestrator as an explicit state machine.
//!
//! One run walks a single forward path — emit "backup_start", check the
//! backup tool is resolvable, run it, extract statistics, send the
//! "backup_data" point, emit "backup_end" — with one failure branch:
//! any failing stage emits a "backup_error" point instead and the run
//! ends in failure.  A failing error send is never answered with
//! another network call; the run stops with a local diagnostic, so
//! error reporting cannot recurse.
//!
//! The decisions live here, verified.  The caller performs each
//! returned [`Action`] — the HTTP post, the tool lookup, the backup
//! subprocess — and hands the outcome back as the next [`Event`].

use vstd::prelude::*;

use crate::config::{api_url_of, auth_header_of, BorgFluxConfig};
use crate::encode::{
    build_raw_data_from_point, data_line_of, dec_rep, error_line_of, frame_line_of,
    lemma_data_point_line, lemma_error_point_line, lemma_frame_point_line, line_of, u64_to_string,
};
use crate::extract::{extract_data_from_json, first_gap, message_of, summary_matches,
    ExtractionError};
use crate::json::report_probe_of;
use crate::point::{build_error_point, build_frame_point, create_influx_point_from_backup, Backup,
    InfluxPoint};

verus! {

/// A fully prepared HTTP POST to the database's write endpoint: the
/// URL with bucket, organization and precision, the Authorization
/// header value, and one encoded line as the body.
#[derive(Debug)]
pub struct HttpRequest {
    pub url: String,
    pub auth: String,
    pub body: String,
}

/// Where one pipeline run stands: which outcome it is waiting for.
#[derive(Clone, Copy, PartialEq, Eq, Structural, Debug)]
pub enum Stage {
    /// The "backup_start" point was posted.
    StartSend,
    /// The tool lookup was requested.
    ToolCheck,
    /// The backup subprocess was started.
    BackupRun,
    /// The "backup_data" point was posted.
    DataSend,
    /// The "backup_end" point was posted.
    EndSend,
    /// The "backup_error" point was posted.
    ErrorSend,
    /// The run is over; no further event is expected.
    Done,
}

/// What the caller observed while performing the last action.
#[derive(Debug)]
pub enum Event {
    /// Whether the posted point was delivered.
    SendDone(bool),
    /// Whether the backup tool is resolvable on the search path.
    ToolPresent(bool),
    /// The backup tool's captured standard output, or nothing when the
    /// process could not be run.
    BackupOutput(Option<String>),
}

/// What the caller must perform next.
#[derive(Debug)]
pub enum Action {
    /// Post the request; answer with `SendDone`.
    Post(HttpRequest),
    /// Look the backup tool up on the search path; answer with
    /// `ToolPresent`.
    CheckTool,
    /// Run the backup tool with this target name and source path;
    /// answer with `BackupOutput`.
    RunBackup(String, String),
    /// The run is over: whether it succeeded, and a diagnostic to
    /// report locally when telemetry itself could not be delivered.
    Stop(bool, Option<String>),
}

/// Which events a stage can be answered with.
pub open spec fn expects(stage: Stage, event: Event) -> bool {
    match stage {
        Stage::StartSend => event is SendDone,
        Stage::ToolCheck => event is ToolPresent,
        Stage::BackupRun => event is BackupOutput,
        Stage::DataSend => event is SendDone,
        Stage::EndSend => event is SendDone,
        Stage::ErrorSend => event is SendDone,
        Stage::Done => false,
    }
}

/// The action posts this body to the configured write endpoint with
/// the configured token.
pub open spec fn posts_line(a: Action, cfg: BorgFluxConfig, body: Seq<char>) -> bool {
    a matches Action::Post(r) && r.url@ == api_url_of(cfg) && r.auth@ == auth_header_of(cfg)
        && r.body@ == body
}

/// The action posts a framing point with this measurement, stamped at
/// this timestamp.
pub open spec fn posts_frame(a: Action, cfg: BorgFluxConfig, measurement: Seq<char>, ts: u64) -> bool {
    posts_line(a, cfg, frame_line_of(cfg, measurement, ts))
}

/// The action posts an error point carrying this diagnostic text,
/// stamped at this timestamp.
pub open spec fn posts_error(a: Action, cfg: BorgFluxConfig, text: Seq<char>, ts: u64) -> bool {
    posts_line(a, cfg, error_line_of(cfg, text, ts))
}

/// The action posts the data point of this backup summary, stamped at
/// this timestamp.
pub open spec fn posts_data(a: Action, cfg: BorgFluxConfig, b: Backup, ts: u64) -> bool {
    posts_line(a, cfg, data_line_of(b, ts))
}

/// The unique backup target for one invocation: the configured
/// repository locator, the separator, and the invocation's Unix
/// timestamp in seconds.  Two invocations within the same second may
/// collide; a documented limitation.
pub open spec fn target_of(cfg: BorgFluxConfig, ts: u64) -> Seq<char> {
    cfg.borg_repository@ + "::"@ + dec_rep(ts as nat)
}

/// Builds the prepared write request for one point and timestamp.
pub fn build_write_request(credentials: &BorgFluxConfig, point: &InfluxPoint, timestamp: u64) -> (r:
    HttpRequest)
    ensures
        r.url@ == api_url_of(*credentials),
        r.auth@ == auth_header_of(*credentials),
        r.body@ == line_of(*point, timestamp),
{
    HttpRequest {
        url: credentials.api_url(),
        auth: credentials.auth_header(),
        body: build_raw_data_from_point(point, timestamp),
    }
}

/// Builds the target name the backup tool is invoked with.
pub fn build_backup_target(credentials: &BorgFluxConfig, timestamp: u64) -> (r: String)
    ensures
        r@ == target_of(*credentials, timestamp),
{
    let mut target = credentials.borg_repository.clone();
    target.append("::");
    let ts_text = u64_to_string(timestamp);
    target.append(ts_text.as_str());
    target
}

/// The move into the failure branch: post an error point carrying the
/// diagnostic text.
fn error_transition(credentials: &BorgFluxConfig, text: &str, timestamp: u64) -> (r: (Stage, Action))
    ensures
        r.0 == Stage::ErrorSend,
        posts_error(r.1, *credentials, text@, timestamp),
{
    let point = build_error_point(credentials, text);
    let req = build_write_request(credentials, &point, timestamp);
    proof {
        lemma_error_point_line(point, *credentials, text@, timestamp);
    }
    (Stage::ErrorSend, Action::Post(req))
}

/// Opens one pipeline run: the "backup_start" framing point is the
/// first action, before any backup work.
pub fn start_run(credentials: &BorgFluxConfig, timestamp: u64) -> (r: (Stage, Action))
    ensures
        r.0 == Stage::StartSend,
        posts_frame(r.1, *credentials, "backup_start"@, timestamp),
{
    let point = build_frame_point(credentials, String::from_str("backup_start"));
    let req = build_write_request(credentials, &point, timestamp);
    proof {
        lemma_frame_point_line(point, *credentials, "backup_start"@, timestamp);
    }
    (Stage::StartSend, Action::Post(req))
}

/// Advances the run by one observed outcome.  The contract pins every
/// transition:
///
/// - a failed send of the start, data or end point, a missing tool, a
///   failed subprocess and a failed extraction all branch to the error
///   point, with the documented diagnostic;
/// - the tool check precedes the backup run, and a missing tool never
///   reaches `RunBackup`;
/// - a failed send of the error point itself stops the run with a
///   local diagnostic instead of another network call;
/// - an event the stage does not expect stops the run as a failure.
pub fn step(credentials: &BorgFluxConfig, stage: Stage, event: Event, timestamp: u64) -> (r: (
    Stage,
    Action,
))
    ensures
        !expects(stage, event) ==> r.0 == Stage::Done && (r.1 matches Action::Stop(ok, d) && ok
            == false && (d matches Some(m) && m@
            == "The pipeline driver answered with an unexpected event!"@)),
        stage == Stage::StartSend && event == Event::SendDone(true) ==> r.0 == Stage::ToolCheck
            && r.1 == Action::CheckTool,
        stage == Stage::StartSend && event == Event::SendDone(false) ==> r.0 == Stage::ErrorSend
            && posts_error(r.1, *credentials, "Unable to send data to InfluxDB!"@, timestamp),
        stage == Stage::ToolCheck && event == Event::ToolPresent(true) ==> r.0 == Stage::BackupRun
            && (r.1 matches Action::RunBackup(target, source) && target@ == target_of(
            *credentials,
            timestamp,
        ) && source@ == credentials.borg_source_path@),
        stage == Stage::ToolCheck && event == Event::ToolPresent(false) ==> r.0 == Stage::ErrorSend
            && posts_error(r.1, *credentials, "BorgBackup is not installed!"@, timestamp),
        stage == Stage::BackupRun && (event matches Event::BackupOutput(o) && o is None) ==> r.0
            == Stage::ErrorSend && posts_error(
            r.1,
            *credentials,
            "Unable to run BorgBackup. Something went wrong!"@,
            timestamp,
        ),
        stage == Stage::BackupRun ==> (event matches Event::BackupOutput(Some(out)) ==> {
            let probe = report_probe_of(out@);
            &&& probe is None ==> r.0 == Stage::ErrorSend && posts_error(
                r.1,
                *credentials,
                message_of(ExtractionError::InvalidJson),
                timestamp,
            )
            &&& (probe matches Some(f) ==> {
                &&& (first_gap(f) matches Some(g) ==> r.0 == Stage::ErrorSend && posts_error(
                    r.1,
                    *credentials,
                    message_of(ExtractionError::MissingField(g)),
                    timestamp,
                ))
                &&& first_gap(f) is None ==> r.0 == Stage::DataSend && (exists|b: Backup|
                    summary_matches(b, f, credentials.hostname@) && #[trigger] posts_data(
                        r.1,
                        *credentials,
                        b,
                        timestamp,
                    ))
            })
        }),
        stage == Stage::DataSend && event == Event::SendDone(true) ==> r.0 == Stage::EndSend
            && posts_frame(r.1, *credentials, "backup_end"@, timestamp),
        stage == Stage::DataSend && event == Event::SendDone(false) ==> r.0 == Stage::ErrorSend
            && posts_error(r.1, *credentials, "Unable to send data to InfluxDB!"@, timestamp),
        stage == Stage::EndSend && event == Event::SendDone(true) ==> r.0 == Stage::Done && (
        r.1 matches Action::Stop(ok, d) && ok == true && d is None),
        stage == Stage::EndSend && event == Event::SendDone(false) ==> r.0 == Stage::ErrorSend
            && posts_error(r.1, *credentials, "Unable to send data to InfluxDB!"@, timestamp),
        stage == Stage::ErrorSend && event == Event::SendDone(true) ==> r.0 == Stage::Done && (
        r.1 matches Action::Stop(ok, d) && ok == false && d is None),
        stage == Stage::ErrorSend && event == Event::SendDone(false) ==> r.0 == Stage::Done && (
        r.1 matches Action::Stop(ok, d) && ok == false && (d matches Some(m) && m@
            == "Unable to send data to InfluxDB!"@)),
{
    match (stage, event) {
        (Stage::StartSend, Event::SendDone(true)) => (Stage::ToolCheck, Action::CheckTool),
        (Stage::StartSend, Event::SendDone(false)) => error_transition(
            credentials,
            "Unable to send data to InfluxDB!",
            timestamp,
        ),
        (Stage::ToolCheck, Event::ToolPresent(true)) => {
            let target = build_backup_target(credentials, timestamp);
            (Stage::BackupRun, Action::RunBackup(target, credentials.borg_source_path.clone()))
        },
        (Stage::ToolCheck, Event::ToolPresent(false)) => error_transition(
            credentials,
            "BorgBackup is not installed!",
            timestamp,
        ),
        (Stage::BackupRun, Event::BackupOutput(None)) => error_transition(
            credentials,
            "Unable to run BorgBackup. Something went wrong!",
            timestamp,
        ),
        (Stage::BackupRun, Event::BackupOutput(Some(output))) => {
            match extract_data_from_json(output.as_str(), credentials.hostname.as_str()) {
                Ok(backup) => {
                    let ghost summary = backup;
                    let point = create_influx_point_from_backup(backup);
                    let req = build_write_request(credentials, &point, timestamp);
                    proof {
                        lemma_data_point_line(point, summary, timestamp);
                    }
                    let r = (Stage::DataSend, Action::Post(req));
                    proof {
                        assert(posts_data(r.1, *credentials, summary, timestamp));
                    }
                    r
                },
                Err(extraction_error) => {
                    let text = extraction_error.message();
                    let r = error_transition(credentials, text.as_str(), timestamp);
                    proof {
                        assert(posts_error(
                            r.1,
                            *credentials,
                            message_of(extraction_error),
                            timestamp,
                        ));
                    }
                    r
                },
            }
        },
        (Stage::DataSend, Event::SendDone(true)) => {
            let point = build_frame_point(credentials, String::from_str("backup_end"));
            let req = build_write_request(credentials, &point, timestamp);
            proof {
                lemma_frame_point_line(point, *credentials, "backup_end"@, timestamp);
            }
            (Stage::EndSend, Action::Post(req))
        },
        (Stage::DataSend, Event::SendDone(false)) => error_transition(
            credentials,
            "Unable to send data to InfluxDB!",
            timestamp,
        ),
        (Stage::EndSend, Event::SendDone(true)) => (Stage::Done, Action::Stop(true, None)),
        (Stage::EndSend, Event::SendDone(false)) => error_transition(
            credentials,
            "Unable to send data to InfluxDB!",
            timestamp,
        ),
        (Stage::ErrorSend, Event::SendDone(true)) => (Stage::Done, Action::Stop(false, None)),
        (Stage::ErrorSend, Event::SendDone(false)) => (
            Stage::Done,
            Action::Stop(false, Some(String::from_str("Unable to send data to InfluxDB!"))),
        ),
        (_, _) => (
            Stage::Done,
            Action::Stop(
                false,
                Some(String::from_str("The pipeline driver answered with an unexpected event!")),
            ),
        ),
    }
}

} // verus!
