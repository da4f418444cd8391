use restic2influx::pipeline::{Outcome, Pipeline};
use restic2influx::record::{FieldValue, MetricPoint};

fn emitted(p: &mut Pipeline, line: &str, now_ms: i64) -> MetricPoint {
    match p.handle_line(line, now_ms) {
        Outcome::Emit(q) => q,
        _ => panic!("expected an emitted point for {line}"),
    }
}

fn field<'a>(p: &'a MetricPoint, name: &str) -> &'a FieldValue {
    for (n, v) in p.fields.iter() {
        if n == name {
            return v;
        }
    }
    panic!("missing field {name}");
}

fn count(p: &MetricPoint, name: &str) -> u64 {
    match field(p, name) {
        FieldValue::Count(x) => *x,
        _ => panic!("field {name} is not a count"),
    }
}

fn text<'a>(p: &'a MetricPoint, name: &str) -> &'a str {
    match field(p, name) {
        FieldValue::Text(s) => s.as_str(),
        _ => panic!("field {name} is not text"),
    }
}

fn num<'a>(p: &'a MetricPoint, name: &str) -> &'a str {
    match field(p, name) {
        FieldValue::Num(s) => s.as_str(),
        _ => panic!("field {name} is not a number"),
    }
}

const STATUS_LINE: &str = r#"{"message_type":"status","seconds_elapsed":34,"percent_done":1.0,"total_files":10,"total_bytes":1000,"files_done":10,"bytes_done":1000}"#;

const SUMMARY_LINE: &str = r#"{"message_type":"summary","files_new":4,"files_changed":10,"files_unmodified":2331042,"dirs_new":0,"dirs_changed":15,"dirs_unmodified":888795,"data_blobs":28,"tree_blobs":14,"data_added":27699291,"total_files_processed":2331056,"total_bytes_processed":2306593302132,"total_duration":555.877498816,"snapshot_id":"59717ddd"}"#;

const ERROR_LINE: &str = r#"{"message_type":"error","during":"backup","item":"/etc/shadow"}"#;

#[test]
fn malformed_json_is_dropped_silently() {
    let mut p = Pipeline::new(10, 0);
    assert!(matches!(p.handle_line("{not json", 0), Outcome::BadLine));
    assert!(matches!(p.handle_line("", 1), Outcome::BadLine));
    // The stream goes on: the next good line is still emitted.
    let q = emitted(&mut p, ERROR_LINE, 2);
    assert_eq!(q.measurement, "error_message");
}

#[test]
fn missing_or_unknown_discriminant_is_dropped_silently() {
    let mut p = Pipeline::new(10, 0);
    assert!(matches!(p.handle_line(r#"{"a":1}"#, 0), Outcome::Unclassified));
    assert!(matches!(p.handle_line(r#"{"message_type":"bogus"}"#, 1), Outcome::Unclassified));
    assert!(matches!(p.handle_line(r#"{"message_type":7}"#, 2), Outcome::Unclassified));
    assert!(matches!(p.handle_line(r#"{"message_type":""}"#, 3), Outcome::Unclassified));
    // Valid JSON that is not an object carries no discriminant.
    assert!(matches!(p.handle_line("42", 4), Outcome::Unclassified));
    // Case-sensitive match: a different case is unrecognized.
    assert!(matches!(p.handle_line(r#"{"message_type":"Status"}"#, 5), Outcome::Unclassified));
}

#[test]
fn status_optional_fields_resolve_to_defaults() {
    let mut p = Pipeline::new(10, 0);
    let q = emitted(&mut p, STATUS_LINE, 7);
    assert_eq!(q.measurement, "status_message");
    assert_eq!(q.timestamp_ms, 7);
    assert_eq!(text(&q, "message_type"), "status");
    assert_eq!(count(&q, "seconds_elapsed"), 34);
    assert_eq!(num(&q, "percent_done"), "1.0");
    assert_eq!(count(&q, "total_files"), 10);
    assert_eq!(count(&q, "total_bytes"), 1000);
    assert_eq!(count(&q, "files_done"), 10);
    assert_eq!(count(&q, "bytes_done"), 1000);
    // Absent optional fields: 0 / 0 and the empty path list.
    assert_eq!(count(&q, "seconds_remaining"), 0);
    assert_eq!(count(&q, "error_count"), 0);
    assert_eq!(text(&q, "current_files"), "");
    assert_eq!(q.fields.len(), 10);
}

#[test]
fn status_defaults_when_only_required_fields_come() {
    let mut p = Pipeline::new(10, 0);
    let line = r#"{"message_type":"status","seconds_elapsed":1,"percent_done":0.5,"total_files":2,"total_bytes":3}"#;
    let q = emitted(&mut p, line, 0);
    assert_eq!(count(&q, "files_done"), 0);
    assert_eq!(count(&q, "bytes_done"), 0);
    assert_eq!(count(&q, "seconds_remaining"), 0);
    assert_eq!(count(&q, "error_count"), 0);
    assert_eq!(text(&q, "current_files"), "");
}

#[test]
fn summary_missing_required_field_is_reported() {
    let mut p = Pipeline::new(10, 0);
    let line = r#"{"message_type":"summary","files_new":4}"#;
    assert!(matches!(
        p.handle_line(line, 0),
        Outcome::DecodeFailed(restic2influx::record::MsgKind::Summary)
    ));
    // Subsequent lines are still processed.
    let q = emitted(&mut p, SUMMARY_LINE, 1);
    assert_eq!(q.measurement, "summary_message");
}

#[test]
fn error_missing_required_field_is_reported() {
    let mut p = Pipeline::new(10, 0);
    let line = r#"{"message_type":"error","during":"backup"}"#;
    assert!(matches!(
        p.handle_line(line, 0),
        Outcome::DecodeFailed(restic2influx::record::MsgKind::Error)
    ));
    let q = emitted(&mut p, ERROR_LINE, 1);
    assert_eq!(text(&q, "during"), "backup");
    assert_eq!(text(&q, "item"), "/etc/shadow");
    assert_eq!(text(&q, "message_type"), "error");
    assert_eq!(q.fields.len(), 3);
}

#[test]
fn status_missing_required_field_is_reported() {
    let mut p = Pipeline::new(10, 0);
    let line = r#"{"message_type":"status","seconds_elapsed":3}"#;
    assert!(matches!(
        p.handle_line(line, 0),
        Outcome::DecodeFailed(restic2influx::record::MsgKind::Status)
    ));
}

#[test]
fn status_ill_typed_fields_are_reported() {
    let mut p = Pipeline::new(0, 0);
    // A required count that is negative, or fractional, does not decode.
    let negative = r#"{"message_type":"status","seconds_elapsed":-5,"percent_done":1.0,"total_files":1,"total_bytes":1}"#;
    assert!(matches!(
        p.handle_line(negative, 0),
        Outcome::DecodeFailed(restic2influx::record::MsgKind::Status)
    ));
    let fractional = r#"{"message_type":"status","seconds_elapsed":1.5,"percent_done":1.0,"total_files":1,"total_bytes":1}"#;
    assert!(matches!(
        p.handle_line(fractional, 1),
        Outcome::DecodeFailed(restic2influx::record::MsgKind::Status)
    ));
    // An optional field that is present but ill typed is a failure,
    // not a default.
    let bad_optional = r#"{"message_type":"status","seconds_elapsed":1,"percent_done":1.0,"total_files":1,"total_bytes":1,"seconds_remaining":"soon"}"#;
    assert!(matches!(
        p.handle_line(bad_optional, 2),
        Outcome::DecodeFailed(restic2influx::record::MsgKind::Status)
    ));
    let bad_files = r#"{"message_type":"status","seconds_elapsed":1,"percent_done":1.0,"total_files":1,"total_bytes":1,"current_files":42}"#;
    assert!(matches!(
        p.handle_line(bad_files, 3),
        Outcome::DecodeFailed(restic2influx::record::MsgKind::Status)
    ));
}

#[test]
fn status_throttled_to_one_point_per_interval() {
    // Status lines every second for 25 seconds with a 10 s interval:
    // exactly three points, at 0 s, 10 s and 20 s.
    let mut p = Pipeline::new(10, 0);
    let mut stamps: Vec<i64> = Vec::new();
    for s in 0..25i64 {
        match p.handle_line(STATUS_LINE, s * 1000) {
            Outcome::Emit(q) => stamps.push(q.timestamp_ms),
            Outcome::Throttled => {}
            _ => panic!("unexpected outcome at {s}"),
        }
    }
    assert_eq!(stamps, vec![0, 10_000, 20_000]);
}

#[test]
fn first_status_is_always_emitted() {
    // Even a very long interval does not suppress the first status.
    let start: i64 = 1_700_000_000_000;
    let mut p = Pipeline::new(86_400, start);
    let q = emitted(&mut p, STATUS_LINE, start);
    assert_eq!(q.timestamp_ms, start);
    // The second one right after is throttled.
    assert!(matches!(p.handle_line(STATUS_LINE, start + 1), Outcome::Throttled));
}

#[test]
fn summary_and_error_bypass_the_sampler() {
    let mut p = Pipeline::new(10, 0);
    // Back-to-back, with zero delay: every decoded one is emitted.
    for _ in 0..3 {
        let q = emitted(&mut p, SUMMARY_LINE, 5);
        assert_eq!(q.measurement, "summary_message");
        let q = emitted(&mut p, ERROR_LINE, 5);
        assert_eq!(q.measurement, "error_message");
    }
}

#[test]
fn timestamp_comes_from_the_clock_not_the_payload() {
    let mut p = Pipeline::new(10, 0);
    let line = r#"{"message_type":"status","time":"1999-01-01T00:00:00Z","timestamp":915148800,"seconds_elapsed":1,"percent_done":0.1,"total_files":1,"total_bytes":1}"#;
    let now: i64 = 1_234_567;
    let q = emitted(&mut p, line, now);
    assert_eq!(q.timestamp_ms, now);
    assert_ne!(q.timestamp_ms, 915_148_800);
}

#[test]
fn summary_point_keeps_every_field_verbatim() {
    let mut p = Pipeline::new(10, 0);
    let q = emitted(&mut p, SUMMARY_LINE, 99);
    assert_eq!(q.measurement, "summary_message");
    assert_eq!(q.timestamp_ms, 99);
    assert_eq!(text(&q, "message_type"), "summary");
    assert_eq!(count(&q, "files_new"), 4);
    assert_eq!(count(&q, "files_changed"), 10);
    assert_eq!(count(&q, "files_unmodified"), 2_331_042);
    assert_eq!(count(&q, "dirs_new"), 0);
    assert_eq!(count(&q, "dirs_changed"), 15);
    assert_eq!(count(&q, "dirs_unmodified"), 888_795);
    assert_eq!(count(&q, "data_blobs"), 28);
    assert_eq!(count(&q, "tree_blobs"), 14);
    assert_eq!(count(&q, "data_added"), 27_699_291);
    assert_eq!(count(&q, "total_files_processed"), 2_331_056);
    assert_eq!(count(&q, "total_bytes_processed"), 2_306_593_302_132);
    assert_eq!(num(&q, "total_duration"), "555.877498816");
    assert_eq!(text(&q, "snapshot_id"), "59717ddd");
    assert_eq!(q.fields.len(), 14);
}

#[test]
fn current_files_are_joined_with_commas() {
    let mut p = Pipeline::new(10, 0);
    let line = r#"{"message_type":"status","seconds_elapsed":1,"percent_done":0.2,"total_files":5,"total_bytes":50,"current_files":["/a/b","/c d","/e"]}"#;
    let q = emitted(&mut p, line, 0);
    assert_eq!(text(&q, "current_files"), "/a/b,/c d,/e");
    // One path: no separator. Null: the empty string.
    let mut p2 = Pipeline::new(10, 0);
    let one = r#"{"message_type":"status","seconds_elapsed":1,"percent_done":0.2,"total_files":5,"total_bytes":50,"current_files":["/only"]}"#;
    let q = emitted(&mut p2, one, 0);
    assert_eq!(text(&q, "current_files"), "/only");
    let mut p3 = Pipeline::new(10, 0);
    let null = r#"{"message_type":"status","seconds_elapsed":1,"percent_done":0.2,"total_files":5,"total_bytes":50,"current_files":null}"#;
    let q = emitted(&mut p3, null, 0);
    assert_eq!(text(&q, "current_files"), "");
}

#[test]
fn integer_percent_done_is_kept_as_its_text() {
    let mut p = Pipeline::new(10, 0);
    let line = r#"{"message_type":"status","seconds_elapsed":1,"percent_done":1,"total_files":1,"total_bytes":1}"#;
    let q = emitted(&mut p, line, 0);
    assert_eq!(num(&q, "percent_done"), "1");
}

#[test]
fn status_field_order_is_fixed() {
    let mut p = Pipeline::new(10, 0);
    let q = emitted(&mut p, STATUS_LINE, 0);
    let names: Vec<&str> = q.fields.iter().map(|(n, _)| n.as_str()).collect();
    assert_eq!(
        names,
        vec![
            "message_type",
            "seconds_elapsed",
            "seconds_remaining",
            "percent_done",
            "files_done",
            "total_files",
            "bytes_done",
            "total_bytes",
            "error_count",
            "current_files",
        ]
    );
}

#[test]
fn handle_line_now_stamps_with_the_wall_clock() {
    let mut p = Pipeline::new(0, 0);
    let before = 1_500_000_000_000i64;
    match p.handle_line_now(SUMMARY_LINE) {
        Outcome::Emit(q) => {
            // A real clock reading: well past 2017, taken at emission.
            assert!(q.timestamp_ms > before);
        }
        _ => panic!("expected an emitted point"),
    }
}
