use touls::extract::{extract_data_from_json, summary_from_fields, ExtractionError, ReportField,
    ReportFields};

fn report(archive_body: &str, encryption: &str, repository: &str) -> String {
    format!(
        "{{\"archive\":{archive_body},\"encryption\":{encryption},\"repository\":{repository}}}"
    )
}

fn full_report() -> String {
    report(
        "{\"name\":\"daily-2024\",\"duration\":12.5,\"stats\":{\"compressed_size\":1000,\
         \"deduplicated_size\":800,\"nfiles\":42,\"original_size\":5000}}",
        "{\"mode\":\"aes256\"}",
        "{\"location\":\"/mnt/backup\"}",
    )
}

fn full_fields() -> ReportFields {
    ReportFields {
        archive_name: Some("daily-2024".to_string()),
        duration: Some("12.5".to_string()),
        compressed_size: Some(1000),
        deduplicated_size: Some(800),
        number_of_files: Some(42),
        original_size: Some(5000),
        encryption_mode: Some("aes256".to_string()),
        repo_location: Some("/mnt/backup".to_string()),
    }
}

#[test]
fn test_extract_complete_report() {
    let summary = extract_data_from_json(&full_report(), "srv1").unwrap();
    assert_eq!(summary.host, "srv1");
    assert_eq!(summary.backup_name, "daily-2024");
    assert_eq!(summary.encryption, "aes256");
    assert_eq!(summary.repo_location, "/mnt/backup");
    assert_eq!(summary.duration, "12.5");
    assert_eq!(summary.compressed_size, 1000);
    assert_eq!(summary.deduplicated_size, 800);
    assert_eq!(summary.number_of_files, 42);
    assert_eq!(summary.original_size, 5000);
}

#[test]
fn test_extract_rejects_non_json() {
    assert_eq!(
        extract_data_from_json("not json at all", "srv1"),
        Err(ExtractionError::InvalidJson)
    );
    assert_eq!(
        extract_data_from_json("", "srv1"),
        Err(ExtractionError::InvalidJson)
    );
}

#[test]
fn test_extract_rejects_missing_fields() {
    // No archive.name.
    let missing_name = report(
        "{\"duration\":12.5,\"stats\":{\"compressed_size\":1000,\"deduplicated_size\":800,\
         \"nfiles\":42,\"original_size\":5000}}",
        "{\"mode\":\"aes256\"}",
        "{\"location\":\"/mnt/backup\"}",
    );
    assert_eq!(
        extract_data_from_json(&missing_name, "srv1"),
        Err(ExtractionError::MissingField(ReportField::ArchiveName))
    );

    // No stats object at all: the first counter in order is reported.
    let missing_stats = report(
        "{\"name\":\"daily-2024\",\"duration\":12.5}",
        "{\"mode\":\"aes256\"}",
        "{\"location\":\"/mnt/backup\"}",
    );
    assert_eq!(
        extract_data_from_json(&missing_stats, "srv1"),
        Err(ExtractionError::MissingField(ReportField::CompressedSize))
    );

    // No encryption.mode.
    let missing_mode = report(
        "{\"name\":\"daily-2024\",\"duration\":12.5,\"stats\":{\"compressed_size\":1000,\
         \"deduplicated_size\":800,\"nfiles\":42,\"original_size\":5000}}",
        "{}",
        "{\"location\":\"/mnt/backup\"}",
    );
    assert_eq!(
        extract_data_from_json(&missing_mode, "srv1"),
        Err(ExtractionError::MissingField(ReportField::EncryptionMode))
    );
}

#[test]
fn test_extract_rejects_mistyped_fields() {
    // A fractional file count is not an integer.
    let fractional_nfiles = report(
        "{\"name\":\"daily-2024\",\"duration\":12.5,\"stats\":{\"compressed_size\":1000,\
         \"deduplicated_size\":800,\"nfiles\":42.5,\"original_size\":5000}}",
        "{\"mode\":\"aes256\"}",
        "{\"location\":\"/mnt/backup\"}",
    );
    assert_eq!(
        extract_data_from_json(&fractional_nfiles, "srv1"),
        Err(ExtractionError::MissingField(ReportField::NumberOfFiles))
    );

    // A numeric name is not a string.
    let numeric_name = report(
        "{\"name\":7,\"duration\":12.5,\"stats\":{\"compressed_size\":1000,\
         \"deduplicated_size\":800,\"nfiles\":42,\"original_size\":5000}}",
        "{\"mode\":\"aes256\"}",
        "{\"location\":\"/mnt/backup\"}",
    );
    assert_eq!(
        extract_data_from_json(&numeric_name, "srv1"),
        Err(ExtractionError::MissingField(ReportField::ArchiveName))
    );

    // A textual duration is not a number.
    let textual_duration = report(
        "{\"name\":\"daily-2024\",\"duration\":\"12.5\",\"stats\":{\"compressed_size\":1000,\
         \"deduplicated_size\":800,\"nfiles\":42,\"original_size\":5000}}",
        "{\"mode\":\"aes256\"}",
        "{\"location\":\"/mnt/backup\"}",
    );
    assert_eq!(
        extract_data_from_json(&textual_duration, "srv1"),
        Err(ExtractionError::MissingField(ReportField::Duration))
    );
}

#[test]
fn test_summary_takes_first_gap_in_order() {
    let mut fields = full_fields();
    fields.duration = None;
    fields.original_size = None;
    assert_eq!(
        summary_from_fields(fields, "srv1".to_string()),
        Err(ExtractionError::MissingField(ReportField::Duration))
    );

    let mut fields = full_fields();
    fields.repo_location = None;
    assert_eq!(
        summary_from_fields(fields, "srv1".to_string()),
        Err(ExtractionError::MissingField(ReportField::RepoLocation))
    );

    let summary = summary_from_fields(full_fields(), "srv1".to_string()).unwrap();
    assert_eq!(summary.backup_name, "daily-2024");
    assert_eq!(summary.deduplicated_size, 800);
}

#[test]
fn test_error_messages_name_the_field() {
    assert_eq!(
        ExtractionError::InvalidJson.message(),
        "Couldn't read the JSON file correctly!"
    );
    assert_eq!(
        ExtractionError::MissingField(ReportField::DeduplicatedSize).message(),
        "The backup report has no usable archive.stats.deduplicated_size!"
    );
    assert_eq!(
        ExtractionError::MissingField(ReportField::RepoLocation).message(),
        "The backup report has no usable repository.location!"
    );
}

#[test]
fn test_integer_duration_keeps_integer_text() {
    let integer_duration = report(
        "{\"name\":\"daily-2024\",\"duration\":12,\"stats\":{\"compressed_size\":1000,\
         \"deduplicated_size\":800,\"nfiles\":42,\"original_size\":5000}}",
        "{\"mode\":\"aes256\"}",
        "{\"location\":\"/mnt/backup\"}",
    );
    let summary = extract_data_from_json(&integer_duration, "srv1").unwrap();
    assert_eq!(summary.duration, "12");
}
