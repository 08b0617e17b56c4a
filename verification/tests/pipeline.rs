use touls::config::BorgFluxConfig;
use touls::pipeline::{start_run, step, Action, Event, Stage};

fn config() -> BorgFluxConfig {
    BorgFluxConfig {
        influx_url: "http://db.example:8086".to_string(),
        influx_token: "tok123".to_string(),
        influx_org: "ops".to_string(),
        influx_bucket: "backups".to_string(),
        hostname: "srv1".to_string(),
        borg_repository: "/mnt/backup".to_string(),
        borg_source_path: "/home".to_string(),
    }
}

fn report() -> String {
    "{\"archive\":{\"name\":\"daily-2024\",\"duration\":12.5,\
     \"stats\":{\"compressed_size\":1000,\"deduplicated_size\":800,\
     \"nfiles\":42,\"original_size\":5000}},\
     \"encryption\":{\"mode\":\"aes256\"},\
     \"repository\":{\"location\":\"/mnt/backup\"}}"
        .to_string()
}

fn posted_body(action: Action) -> String {
    match action {
        Action::Post(request) => {
            assert_eq!(
                request.url,
                "http://db.example:8086/api/v2/write?bucket=backups&org=ops&precision=s"
            );
            assert_eq!(request.auth, "Token tok123");
            request.body
        }
        other => panic!("expected a post, got {:?}", other),
    }
}

#[test]
fn test_happy_path_sends_start_data_end() {
    let cfg = config();
    let ts = 1700000000;

    let (stage, action) = start_run(&cfg, ts);
    assert_eq!(stage, Stage::StartSend);
    assert_eq!(
        posted_body(action),
        "backup_start,host=srv1,repository=/mnt/backup,source_path=/home dummy=0 1700000000"
    );

    let (stage, action) = step(&cfg, stage, Event::SendDone(true), ts);
    assert_eq!(stage, Stage::ToolCheck);
    assert!(matches!(action, Action::CheckTool));

    let (stage, action) = step(&cfg, stage, Event::ToolPresent(true), ts);
    assert_eq!(stage, Stage::BackupRun);
    match action {
        Action::RunBackup(target, source) => {
            assert_eq!(target, "/mnt/backup::1700000000");
            assert_eq!(source, "/home");
        }
        other => panic!("expected a backup run, got {:?}", other),
    }

    let (stage, action) = step(&cfg, stage, Event::BackupOutput(Some(report())), ts);
    assert_eq!(stage, Stage::DataSend);
    assert_eq!(
        posted_body(action),
        "backup_data,host=srv1,backup_name=daily-2024,encryption=aes256,\
         repo_location=/mnt/backup duration=12.5,compressed_size=1000,\
         deduplicated_size=800,number_of_files=42,original_size=5000 1700000000"
    );

    let (stage, action) = step(&cfg, stage, Event::SendDone(true), ts);
    assert_eq!(stage, Stage::EndSend);
    assert_eq!(
        posted_body(action),
        "backup_end,host=srv1,repository=/mnt/backup,source_path=/home dummy=0 1700000000"
    );

    let (stage, action) = step(&cfg, stage, Event::SendDone(true), ts);
    assert_eq!(stage, Stage::Done);
    assert!(matches!(action, Action::Stop(true, None)));
}

#[test]
fn test_missing_tool_reports_before_running() {
    let cfg = config();
    let ts = 42;

    let (stage, _) = start_run(&cfg, ts);
    let (stage, _) = step(&cfg, stage, Event::SendDone(true), ts);
    assert_eq!(stage, Stage::ToolCheck);

    // The tool is not resolvable: no backup is attempted, a
    // distinguishable error point goes out instead.
    let (stage, action) = step(&cfg, stage, Event::ToolPresent(false), ts);
    assert_eq!(stage, Stage::ErrorSend);
    assert_eq!(
        posted_body(action),
        "backup_error,host=srv1,repository=/mnt/backup,source_path=/home \
         error=BorgBackup is not installed! 42"
    );

    let (stage, action) = step(&cfg, stage, Event::SendDone(true), ts);
    assert_eq!(stage, Stage::Done);
    assert!(matches!(action, Action::Stop(false, None)));
}

#[test]
fn test_failed_backup_process_reports_error() {
    let cfg = config();
    let ts = 7;
    let (stage, action) = step(&cfg, Stage::BackupRun, Event::BackupOutput(None), ts);
    assert_eq!(stage, Stage::ErrorSend);
    assert_eq!(
        posted_body(action),
        "backup_error,host=srv1,repository=/mnt/backup,source_path=/home \
         error=Unable to run BorgBackup. Something went wrong! 7"
    );
}

#[test]
fn test_unreadable_report_reports_error() {
    let cfg = config();
    let ts = 7;
    let (stage, action) = step(
        &cfg,
        Stage::BackupRun,
        Event::BackupOutput(Some("not json".to_string())),
        ts,
    );
    assert_eq!(stage, Stage::ErrorSend);
    assert_eq!(
        posted_body(action),
        "backup_error,host=srv1,repository=/mnt/backup,source_path=/home \
         error=Couldn't read the JSON file correctly! 7"
    );
}

#[test]
fn test_failed_data_send_emits_error_point() {
    let cfg = config();
    let ts = 1700000001;

    // The success send fails on the wire: an error point with a
    // non-empty diagnostic goes out, and the run ends in failure
    // without any panic.
    let (stage, action) = step(&cfg, Stage::DataSend, Event::SendDone(false), ts);
    assert_eq!(stage, Stage::ErrorSend);
    assert_eq!(
        posted_body(action),
        "backup_error,host=srv1,repository=/mnt/backup,source_path=/home \
         error=Unable to send data to InfluxDB! 1700000001"
    );

    let (stage, action) = step(&cfg, stage, Event::SendDone(true), ts);
    assert_eq!(stage, Stage::Done);
    assert!(matches!(action, Action::Stop(false, None)));
}

#[test]
fn test_failed_error_send_stops_without_recursing() {
    let cfg = config();
    let ts = 9;
    let (stage, action) = step(&cfg, Stage::ErrorSend, Event::SendDone(false), ts);
    assert_eq!(stage, Stage::Done);
    match action {
        Action::Stop(false, Some(diagnostic)) => {
            assert_eq!(diagnostic, "Unable to send data to InfluxDB!");
        }
        other => panic!("expected a local stop, got {:?}", other),
    }
}

#[test]
fn test_failed_start_send_emits_error_point() {
    let cfg = config();
    let ts = 3;
    let (stage, action) = step(&cfg, Stage::StartSend, Event::SendDone(false), ts);
    assert_eq!(stage, Stage::ErrorSend);
    assert!(posted_body(action).contains("error=Unable to send data to InfluxDB!"));
}

#[test]
fn test_failed_end_send_emits_error_point() {
    let cfg = config();
    let ts = 3;
    let (stage, action) = step(&cfg, Stage::EndSend, Event::SendDone(false), ts);
    assert_eq!(stage, Stage::ErrorSend);
    assert!(posted_body(action).contains("error=Unable to send data to InfluxDB!"));
}

#[test]
fn test_unexpected_event_stops_the_run() {
    let cfg = config();
    let (stage, action) = step(&cfg, Stage::ToolCheck, Event::SendDone(true), 1);
    assert_eq!(stage, Stage::Done);
    match action {
        Action::Stop(false, Some(diagnostic)) => {
            assert!(!diagnostic.is_empty());
        }
        other => panic!("expected a failing stop, got {:?}", other),
    }
}
