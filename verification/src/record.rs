//! The typed records a line can normalize into, and the metric point
//! handed to the sink.

use vstd::prelude::*;

verus! {

/// The kind of a classified message, as selected by the
/// `message_type` discriminant of the input line.
#[derive(Clone, Copy, Debug, PartialEq, Eq, Structural)]
pub enum MsgKind {
    Status,
    Summary,
    Error,
}

impl MsgKind {
    /// The measurement name under which points of this kind are written.
    pub open spec fn spec_measurement(self) -> Seq<char> {
        match self {
            MsgKind::Status => "status_message"@,
            MsgKind::Summary => "summary_message"@,
            MsgKind::Error => "error_message"@,
        }
    }

    pub fn measurement(self) -> (r: String)
        ensures
            r@ == self.spec_measurement(),
    {
        match self {
            MsgKind::Status => String::from_str("status_message"),
            MsgKind::Summary => String::from_str("summary_message"),
            MsgKind::Error => String::from_str("error_message"),
        }
    }
}

/// A progress snapshot. Optional input fields have already been
/// resolved to their defaults; the list of active files has been
/// joined into one comma-separated string. The completion fraction
/// is kept as the decimal text of the input number.
pub struct StatusRecord {
    pub seconds_elapsed: u64,
    pub seconds_remaining: u64,
    pub percent_done: String,
    pub files_done: u64,
    pub total_files: u64,
    pub bytes_done: u64,
    pub total_bytes: u64,
    pub error_count: u64,
    pub current_files: String,
}

#[verifier::ext_equal]
pub struct StatusView {
    pub seconds_elapsed: u64,
    pub seconds_remaining: u64,
    pub percent_done: Seq<char>,
    pub files_done: u64,
    pub total_files: u64,
    pub bytes_done: u64,
    pub total_bytes: u64,
    pub error_count: u64,
    pub current_files: Seq<char>,
}

impl View for StatusRecord {
    type V = StatusView;

    open spec fn view(&self) -> StatusView {
        StatusView {
            seconds_elapsed: self.seconds_elapsed,
            seconds_remaining: self.seconds_remaining,
            percent_done: self.percent_done@,
            files_done: self.files_done,
            total_files: self.total_files,
            bytes_done: self.bytes_done,
            total_bytes: self.total_bytes,
            error_count: self.error_count,
            current_files: self.current_files@,
        }
    }
}

/// The terminal snapshot of a completed run. Every field is required
/// in the input. The duration is kept as the decimal text of the
/// input number.
pub struct SummaryRecord {
    pub data_added: u64,
    pub data_blobs: u64,
    pub dirs_changed: u64,
    pub dirs_new: u64,
    pub dirs_unmodified: u64,
    pub files_changed: u64,
    pub files_new: u64,
    pub files_unmodified: u64,
    pub snapshot_id: String,
    pub total_bytes_processed: u64,
    pub total_duration: String,
    pub total_files_processed: u64,
    pub tree_blobs: u64,
}

#[verifier::ext_equal]
pub struct SummaryView {
    pub data_added: u64,
    pub data_blobs: u64,
    pub dirs_changed: u64,
    pub dirs_new: u64,
    pub dirs_unmodified: u64,
    pub files_changed: u64,
    pub files_new: u64,
    pub files_unmodified: u64,
    pub snapshot_id: Seq<char>,
    pub total_bytes_processed: u64,
    pub total_duration: Seq<char>,
    pub total_files_processed: u64,
    pub tree_blobs: u64,
}

impl View for SummaryRecord {
    type V = SummaryView;

    open spec fn view(&self) -> SummaryView {
        SummaryView {
            data_added: self.data_added,
            data_blobs: self.data_blobs,
            dirs_changed: self.dirs_changed,
            dirs_new: self.dirs_new,
            dirs_unmodified: self.dirs_unmodified,
            files_changed: self.files_changed,
            files_new: self.files_new,
            files_unmodified: self.files_unmodified,
            snapshot_id: self.snapshot_id@,
            total_bytes_processed: self.total_bytes_processed,
            total_duration: self.total_duration@,
            total_files_processed: self.total_files_processed,
            tree_blobs: self.tree_blobs,
        }
    }
}

/// An error notification: the phase it occurred during and the
/// offending item.
pub struct ErrorRecord {
    pub during: String,
    pub item: String,
}

#[verifier::ext_equal]
pub struct ErrorView {
    pub during: Seq<char>,
    pub item: Seq<char>,
}

impl View for ErrorRecord {
    type V = ErrorView;

    open spec fn view(&self) -> ErrorView {
        ErrorView {
            during: self.during@,
            item: self.item@,
        }
    }
}

/// One field value of a metric point: an unsigned count, the decimal
/// text of a number that may be fractional, or free text.
#[derive(Debug)]
pub enum FieldValue {
    Count(u64),
    Num(String),
    Text(String),
}

#[verifier::ext_equal]
pub enum FieldView {
    Count(u64),
    Num(Seq<char>),
    Text(Seq<char>),
}

impl View for FieldValue {
    type V = FieldView;

    open spec fn view(&self) -> FieldView {
        match self {
            FieldValue::Count(x) => FieldView::Count(*x),
            FieldValue::Num(s) => FieldView::Num(s@),
            FieldValue::Text(s) => FieldView::Text(s@),
        }
    }
}

/// The emission unit: a measurement name, the wall-clock time of the
/// emission in milliseconds since the Unix epoch, and named fields in
/// a fixed order.
#[derive(Debug)]
pub struct MetricPoint {
    pub measurement: String,
    pub timestamp_ms: i64,
    pub fields: Vec<(String, FieldValue)>,
}

#[verifier::ext_equal]
pub struct PointView {
    pub measurement: Seq<char>,
    pub timestamp_ms: i64,
    pub fields: Seq<(Seq<char>, FieldView)>,
}

impl View for MetricPoint {
    type V = PointView;

    open spec fn view(&self) -> PointView {
        PointView {
            measurement: self.measurement@,
            timestamp_ms: self.timestamp_ms,
            fields: self.fields@.map_values(|p: (String, FieldValue)| (p.0@, p.1@)),
        }
    }
}

} // verus!
