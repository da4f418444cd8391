//! Classification of a parsed line and normalization into typed
//! records, with the documented defaults for optional fields.

use vstd::prelude::*;

use crate::json::{
    field_present, get_num_text, get_str, get_str_list, get_u64, has_field, num_field, str_field,
    strlist_field, u64_field,
};
use crate::record::{ErrorRecord, ErrorView, MsgKind, StatusRecord, StatusView, SummaryRecord,
    SummaryView};

verus! {

/// The kind selected by the `message_type` field: a case-sensitive
/// match against the three known discriminants, `None` when the field
/// is absent, not a string, or unrecognized.
pub open spec fn spec_classify(v: serde_json::Value) -> Option<MsgKind> {
    match str_field(v, "message_type"@) {
        Some(t) => if t == "status"@ {
            Some(MsgKind::Status)
        } else if t == "summary"@ {
            Some(MsgKind::Summary)
        } else if t == "error"@ {
            Some(MsgKind::Error)
        } else {
            None
        },
        None => None,
    }
}

pub fn classify(v: &serde_json::Value) -> (r: Option<MsgKind>)
    ensures
        r == spec_classify(*v),
{
    match get_str(v, "message_type") {
        Some(t) => if t == String::from_str("status") {
            Some(MsgKind::Status)
        } else if t == String::from_str("summary") {
            Some(MsgKind::Summary)
        } else if t == String::from_str("error") {
            Some(MsgKind::Error)
        } else {
            None
        },
        None => None,
    }
}

/// An optional count: its default 0 when the field is absent, its
/// value when present as a `u64`, and `None` (a decode failure) when
/// present as anything else.
pub open spec fn spec_opt_count(v: serde_json::Value, key: Seq<char>) -> Option<u64> {
    if !field_present(v, key) {
        Some(0u64)
    } else {
        u64_field(v, key)
    }
}

fn opt_count(v: &serde_json::Value, key: &str) -> (r: Option<u64>)
    ensures
        r == spec_opt_count(*v, key@),
{
    if !has_field(v, key) {
        Some(0)
    } else {
        get_u64(v, key)
    }
}

/// The optional list of active files: empty when the field is absent,
/// its strings when present as null or an array of strings, and
/// `None` (a decode failure) when present as anything else.
pub open spec fn spec_opt_files(v: serde_json::Value, key: Seq<char>) -> Option<Seq<Seq<char>>> {
    if !field_present(v, key) {
        Some(Seq::empty())
    } else {
        match strlist_field(v, key) {
            Some(Some(xs)) => Some(xs),
            Some(None) => Some(Seq::empty()),
            None => None,
        }
    }
}

fn opt_files(v: &serde_json::Value, key: &str) -> (r: Option<Vec<String>>)
    ensures
        match r {
            Some(xs) => spec_opt_files(*v, key@) == Some(xs.deep_view()),
            None => spec_opt_files(*v, key@) is None,
        },
{
    if !has_field(v, key) {
        Some(empty_string_list())
    } else {
        match get_str_list(v, key) {
            Some(Some(xs)) => Some(xs),
            Some(None) => Some(empty_string_list()),
            None => None,
        }
    }
}

fn empty_string_list() -> (r: Vec<String>)
    ensures
        r.deep_view() == Seq::<Seq<char>>::empty(),
{
    let xs: Vec<String> = Vec::new();
    proof {
        assert(xs.deep_view() =~= Seq::<Seq<char>>::empty());
    }
    xs
}

/// The comma-separated join of a sequence of strings.
pub open spec fn spec_join_commas(xs: Seq<Seq<char>>) -> Seq<char>
    decreases xs.len(),
{
    if xs.len() == 0 {
        Seq::empty()
    } else if xs.len() == 1 {
        xs[0]
    } else {
        spec_join_commas(xs.drop_last()) + ","@ + xs.last()
    }
}

pub fn join_commas(xs: &Vec<String>) -> (r: String)
    ensures
        r@ == spec_join_commas(xs.deep_view()),
{
    let mut out = String::new();
    let mut i: usize = 0;
    while i < xs.len()
        invariant
            i <= xs.len(),
            out@ == spec_join_commas(xs.deep_view().take(i as int)),
        decreases xs.len() - i,
    {
        if i > 0 {
            out.append(",");
        }
        out.append(xs[i].as_str());
        proof {
            assert(xs.deep_view().take(i + 1).drop_last() =~= xs.deep_view().take(i as int));
            assert(xs.deep_view().take(i + 1).last() == xs.deep_view()[i as int]);
            if i == 0 {
                assert(out@ =~= spec_join_commas(xs.deep_view().take(i + 1)));
            }
        }
        i = i + 1;
    }
    proof {
        assert(xs.deep_view().take(xs@.len() as int) =~= xs.deep_view());
    }
    out
}

/// The status record decoded from a document, if every required field
/// is present and well typed and every optional field is absent or
/// well typed.
pub open spec fn spec_status_of(v: serde_json::Value) -> Option<StatusView> {
    if u64_field(v, "seconds_elapsed"@) is Some && num_field(v, "percent_done"@) is Some
        && u64_field(v, "total_files"@) is Some && u64_field(v, "total_bytes"@) is Some
        && spec_opt_count(v, "seconds_remaining"@) is Some
        && spec_opt_count(v, "files_done"@) is Some && spec_opt_count(v, "bytes_done"@) is Some
        && spec_opt_count(v, "error_count"@) is Some
        && spec_opt_files(v, "current_files"@) is Some {
        Some(StatusView {
            seconds_elapsed: u64_field(v, "seconds_elapsed"@)->Some_0,
            seconds_remaining: spec_opt_count(v, "seconds_remaining"@)->Some_0,
            percent_done: num_field(v, "percent_done"@)->Some_0,
            files_done: spec_opt_count(v, "files_done"@)->Some_0,
            total_files: u64_field(v, "total_files"@)->Some_0,
            bytes_done: spec_opt_count(v, "bytes_done"@)->Some_0,
            total_bytes: u64_field(v, "total_bytes"@)->Some_0,
            error_count: spec_opt_count(v, "error_count"@)->Some_0,
            current_files: spec_join_commas(spec_opt_files(v, "current_files"@)->Some_0),
        })
    } else {
        None
    }
}

/// Normalizes a classified status document; on `None` the line is a
/// decode failure to be reported. Absent optional fields resolve to
/// 0 for the counts and to the empty string for the file list.
pub fn normalize_status(v: &serde_json::Value) -> (r: Option<StatusRecord>)
    ensures
        match r {
            Some(rec) => spec_status_of(*v) == Some(rec@),
            None => spec_status_of(*v) is None,
        },
        r is Some && !field_present(*v, "seconds_remaining"@) ==> r->Some_0.seconds_remaining
            == 0,
        r is Some && !field_present(*v, "files_done"@) ==> r->Some_0.files_done == 0,
        r is Some && !field_present(*v, "bytes_done"@) ==> r->Some_0.bytes_done == 0,
        r is Some && !field_present(*v, "error_count"@) ==> r->Some_0.error_count == 0,
        r is Some && !field_present(*v, "current_files"@) ==> r->Some_0.current_files@
            == Seq::<char>::empty(),
{
    let seconds_elapsed = match get_u64(v, "seconds_elapsed") {
        Some(x) => x,
        None => { return None; },
    };
    let percent_done = match get_num_text(v, "percent_done") {
        Some(x) => x,
        None => { return None; },
    };
    let total_files = match get_u64(v, "total_files") {
        Some(x) => x,
        None => { return None; },
    };
    let total_bytes = match get_u64(v, "total_bytes") {
        Some(x) => x,
        None => { return None; },
    };
    let seconds_remaining = match opt_count(v, "seconds_remaining") {
        Some(x) => x,
        None => { return None; },
    };
    let files_done = match opt_count(v, "files_done") {
        Some(x) => x,
        None => { return None; },
    };
    let bytes_done = match opt_count(v, "bytes_done") {
        Some(x) => x,
        None => { return None; },
    };
    let error_count = match opt_count(v, "error_count") {
        Some(x) => x,
        None => { return None; },
    };
    let files = match opt_files(v, "current_files") {
        Some(xs) => xs,
        None => { return None; },
    };
    let current_files = join_commas(&files);
    Some(StatusRecord {
        seconds_elapsed,
        seconds_remaining,
        percent_done,
        files_done,
        total_files,
        bytes_done,
        total_bytes,
        error_count,
        current_files,
    })
}

/// The summary record decoded from a document, if every field is
/// present and well typed; there are no defaults.
pub open spec fn spec_summary_of(v: serde_json::Value) -> Option<SummaryView> {
    if u64_field(v, "data_added"@) is Some && u64_field(v, "data_blobs"@) is Some
        && u64_field(v, "dirs_changed"@) is Some && u64_field(v, "dirs_new"@) is Some
        && u64_field(v, "dirs_unmodified"@) is Some && u64_field(v, "files_changed"@) is Some
        && u64_field(v, "files_new"@) is Some && u64_field(v, "files_unmodified"@) is Some
        && str_field(v, "snapshot_id"@) is Some
        && u64_field(v, "total_bytes_processed"@) is Some
        && num_field(v, "total_duration"@) is Some
        && u64_field(v, "total_files_processed"@) is Some
        && u64_field(v, "tree_blobs"@) is Some {
        Some(SummaryView {
            data_added: u64_field(v, "data_added"@)->Some_0,
            data_blobs: u64_field(v, "data_blobs"@)->Some_0,
            dirs_changed: u64_field(v, "dirs_changed"@)->Some_0,
            dirs_new: u64_field(v, "dirs_new"@)->Some_0,
            dirs_unmodified: u64_field(v, "dirs_unmodified"@)->Some_0,
            files_changed: u64_field(v, "files_changed"@)->Some_0,
            files_new: u64_field(v, "files_new"@)->Some_0,
            files_unmodified: u64_field(v, "files_unmodified"@)->Some_0,
            snapshot_id: str_field(v, "snapshot_id"@)->Some_0,
            total_bytes_processed: u64_field(v, "total_bytes_processed"@)->Some_0,
            total_duration: num_field(v, "total_duration"@)->Some_0,
            total_files_processed: u64_field(v, "total_files_processed"@)->Some_0,
            tree_blobs: u64_field(v, "tree_blobs"@)->Some_0,
        })
    } else {
        None
    }
}

/// Normalizes a classified summary document; on `None` the line is a
/// decode failure to be reported.
pub fn normalize_summary(v: &serde_json::Value) -> (r: Option<SummaryRecord>)
    ensures
        match r {
            Some(rec) => spec_summary_of(*v) == Some(rec@),
            None => spec_summary_of(*v) is None,
        },
{
    let data_added = match get_u64(v, "data_added") {
        Some(x) => x,
        None => { return None; },
    };
    let data_blobs = match get_u64(v, "data_blobs") {
        Some(x) => x,
        None => { return None; },
    };
    let dirs_changed = match get_u64(v, "dirs_changed") {
        Some(x) => x,
        None => { return None; },
    };
    let dirs_new = match get_u64(v, "dirs_new") {
        Some(x) => x,
        None => { return None; },
    };
    let dirs_unmodified = match get_u64(v, "dirs_unmodified") {
        Some(x) => x,
        None => { return None; },
    };
    let files_changed = match get_u64(v, "files_changed") {
        Some(x) => x,
        None => { return None; },
    };
    let files_new = match get_u64(v, "files_new") {
        Some(x) => x,
        None => { return None; },
    };
    let files_unmodified = match get_u64(v, "files_unmodified") {
        Some(x) => x,
        None => { return None; },
    };
    let snapshot_id = match get_str(v, "snapshot_id") {
        Some(x) => x,
        None => { return None; },
    };
    let total_bytes_processed = match get_u64(v, "total_bytes_processed") {
        Some(x) => x,
        None => { return None; },
    };
    let total_duration = match get_num_text(v, "total_duration") {
        Some(x) => x,
        None => { return None; },
    };
    let total_files_processed = match get_u64(v, "total_files_processed") {
        Some(x) => x,
        None => { return None; },
    };
    let tree_blobs = match get_u64(v, "tree_blobs") {
        Some(x) => x,
        None => { return None; },
    };
    Some(SummaryRecord {
        data_added,
        data_blobs,
        dirs_changed,
        dirs_new,
        dirs_unmodified,
        files_changed,
        files_new,
        files_unmodified,
        snapshot_id,
        total_bytes_processed,
        total_duration,
        total_files_processed,
        tree_blobs,
    })
}

/// The error record decoded from a document, if both required string
/// fields are present.
pub open spec fn spec_error_of(v: serde_json::Value) -> Option<ErrorView> {
    if str_field(v, "during"@) is Some && str_field(v, "item"@) is Some {
        Some(ErrorView {
            during: str_field(v, "during"@)->Some_0,
            item: str_field(v, "item"@)->Some_0,
        })
    } else {
        None
    }
}

/// Normalizes a classified error document; on `None` the line is a
/// decode failure to be reported.
pub fn normalize_error(v: &serde_json::Value) -> (r: Option<ErrorRecord>)
    ensures
        match r {
            Some(rec) => spec_error_of(*v) == Some(rec@),
            None => spec_error_of(*v) is None,
        },
{
    let during = match get_str(v, "during") {
        Some(x) => x,
        None => { return None; },
    };
    let item = match get_str(v, "item") {
        Some(x) => x,
        None => { return None; },
    };
    Some(ErrorRecord { during, item })
}

} // verus!
