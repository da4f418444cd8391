//! Conversion of a typed record into a metric point.
//!
//! The point's timestamp is the emission-time wall clock handed in by
//! the caller, never a value taken from the input payload. The kind
//! becomes the measurement name and every record field becomes a
//! point field, in a fixed order, led by the `message_type` value.

use vstd::prelude::*;

use crate::record::{ErrorRecord, ErrorView, FieldValue, FieldView, MetricPoint, MsgKind,
    PointView, StatusRecord, StatusView, SummaryRecord, SummaryView};

verus! {

/// The fields of a status point, in emission order.
pub open spec fn spec_status_fields(r: StatusView) -> Seq<(Seq<char>, FieldView)> {
    seq![
        ("message_type"@, FieldView::Text("status"@)),
        ("seconds_elapsed"@, FieldView::Count(r.seconds_elapsed)),
        ("seconds_remaining"@, FieldView::Count(r.seconds_remaining)),
        ("percent_done"@, FieldView::Num(r.percent_done)),
        ("files_done"@, FieldView::Count(r.files_done)),
        ("total_files"@, FieldView::Count(r.total_files)),
        ("bytes_done"@, FieldView::Count(r.bytes_done)),
        ("total_bytes"@, FieldView::Count(r.total_bytes)),
        ("error_count"@, FieldView::Count(r.error_count)),
        ("current_files"@, FieldView::Text(r.current_files)),
    ]
}

/// The fields of a summary point, in emission order.
pub open spec fn spec_summary_fields(r: SummaryView) -> Seq<(Seq<char>, FieldView)> {
    seq![
        ("message_type"@, FieldView::Text("summary"@)),
        ("data_added"@, FieldView::Count(r.data_added)),
        ("data_blobs"@, FieldView::Count(r.data_blobs)),
        ("dirs_changed"@, FieldView::Count(r.dirs_changed)),
        ("dirs_new"@, FieldView::Count(r.dirs_new)),
        ("dirs_unmodified"@, FieldView::Count(r.dirs_unmodified)),
        ("files_changed"@, FieldView::Count(r.files_changed)),
        ("files_new"@, FieldView::Count(r.files_new)),
        ("files_unmodified"@, FieldView::Count(r.files_unmodified)),
        ("snapshot_id"@, FieldView::Text(r.snapshot_id)),
        ("total_bytes_processed"@, FieldView::Count(r.total_bytes_processed)),
        ("total_duration"@, FieldView::Num(r.total_duration)),
        ("total_files_processed"@, FieldView::Count(r.total_files_processed)),
        ("tree_blobs"@, FieldView::Count(r.tree_blobs)),
    ]
}

/// The fields of an error point, in emission order.
pub open spec fn spec_error_fields(r: ErrorView) -> Seq<(Seq<char>, FieldView)> {
    seq![
        ("message_type"@, FieldView::Text("error"@)),
        ("during"@, FieldView::Text(r.during)),
        ("item"@, FieldView::Text(r.item)),
    ]
}

/// The point emitted for a record of the given kind with the given
/// fields, stamped with the emission time.
pub open spec fn spec_point(kind: MsgKind, fields: Seq<(Seq<char>, FieldView)>, now_ms: i64)
    -> PointView {
    PointView { measurement: kind.spec_measurement(), timestamp_ms: now_ms, fields }
}

pub fn status_point(r: &StatusRecord, now_ms: i64) -> (p: MetricPoint)
    ensures
        p@ == spec_point(MsgKind::Status, spec_status_fields(r@), now_ms),
{
    let mut fields: Vec<(String, FieldValue)> = Vec::new();
    fields.push((String::from_str("message_type"), FieldValue::Text(String::from_str("status"))));
    fields.push((String::from_str("seconds_elapsed"), FieldValue::Count(r.seconds_elapsed)));
    fields.push((String::from_str("seconds_remaining"), FieldValue::Count(r.seconds_remaining)));
    fields.push((String::from_str("percent_done"), FieldValue::Num(r.percent_done.clone())));
    fields.push((String::from_str("files_done"), FieldValue::Count(r.files_done)));
    fields.push((String::from_str("total_files"), FieldValue::Count(r.total_files)));
    fields.push((String::from_str("bytes_done"), FieldValue::Count(r.bytes_done)));
    fields.push((String::from_str("total_bytes"), FieldValue::Count(r.total_bytes)));
    fields.push((String::from_str("error_count"), FieldValue::Count(r.error_count)));
    fields.push((String::from_str("current_files"), FieldValue::Text(r.current_files.clone())));
    let p = MetricPoint {
        measurement: MsgKind::Status.measurement(),
        timestamp_ms: now_ms,
        fields,
    };
    proof {
        assert(p@.fields =~= spec_status_fields(r@));
        assert(p@ =~= spec_point(MsgKind::Status, spec_status_fields(r@), now_ms));
    }
    p
}

pub fn summary_point(r: &SummaryRecord, now_ms: i64) -> (p: MetricPoint)
    ensures
        p@ == spec_point(MsgKind::Summary, spec_summary_fields(r@), now_ms),
{
    let mut fields: Vec<(String, FieldValue)> = Vec::new();
    fields.push((String::from_str("message_type"), FieldValue::Text(String::from_str("summary"))));
    fields.push((String::from_str("data_added"), FieldValue::Count(r.data_added)));
    fields.push((String::from_str("data_blobs"), FieldValue::Count(r.data_blobs)));
    fields.push((String::from_str("dirs_changed"), FieldValue::Count(r.dirs_changed)));
    fields.push((String::from_str("dirs_new"), FieldValue::Count(r.dirs_new)));
    fields.push((String::from_str("dirs_unmodified"), FieldValue::Count(r.dirs_unmodified)));
    fields.push((String::from_str("files_changed"), FieldValue::Count(r.files_changed)));
    fields.push((String::from_str("files_new"), FieldValue::Count(r.files_new)));
    fields.push((String::from_str("files_unmodified"), FieldValue::Count(r.files_unmodified)));
    fields.push((String::from_str("snapshot_id"), FieldValue::Text(r.snapshot_id.clone())));
    fields.push((String::from_str("total_bytes_processed"),
        FieldValue::Count(r.total_bytes_processed)));
    fields.push((String::from_str("total_duration"), FieldValue::Num(r.total_duration.clone())));
    fields.push((String::from_str("total_files_processed"),
        FieldValue::Count(r.total_files_processed)));
    fields.push((String::from_str("tree_blobs"), FieldValue::Count(r.tree_blobs)));
    let p = MetricPoint {
        measurement: MsgKind::Summary.measurement(),
        timestamp_ms: now_ms,
        fields,
    };
    proof {
        assert(p@.fields =~= spec_summary_fields(r@));
        assert(p@ =~= spec_point(MsgKind::Summary, spec_summary_fields(r@), now_ms));
    }
    p
}

pub fn error_point(r: &ErrorRecord, now_ms: i64) -> (p: MetricPoint)
    ensures
        p@ == spec_point(MsgKind::Error, spec_error_fields(r@), now_ms),
{
    let mut fields: Vec<(String, FieldValue)> = Vec::new();
    fields.push((String::from_str("message_type"), FieldValue::Text(String::from_str("error"))));
    fields.push((String::from_str("during"), FieldValue::Text(r.during.clone())));
    fields.push((String::from_str("item"), FieldValue::Text(r.item.clone())));
    let p = MetricPoint {
        measurement: MsgKind::Error.measurement(),
        timestamp_ms: now_ms,
        fields,
    };
    proof {
        assert(p@.fields =~= spec_error_fields(r@));
        assert(p@ =~= spec_point(MsgKind::Error, spec_error_fields(r@), now_ms));
    }
    p
}

} // verus!
