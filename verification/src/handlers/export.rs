//! Transaction export and full-backup import parameters.

use vstd::prelude::*;
use vstd::string::*;

use crate::error::{AppError, STATUS_BAD_REQUEST};
use crate::handlers::transactions::{parse_id_list, spec_id_list};
use crate::periods::{parse_date_field, parsed_ymd, CalendarDate};
use crate::text::{str_is, to_chars};

verus! {

/// Query parameters for transaction export.
#[derive(Debug)]
pub struct TransactionExportQuery {
    pub format: String,
    pub from: Option<String>,
    pub to: Option<String>,
    pub tags: Option<String>,
    pub include_children: bool,
}

/// The export format used when none is given.
pub fn default_format() -> (r: String)
    ensures
        r@ == "csv"@,
{
    String::from_str("csv")
}

/// What an export selects.
#[derive(Debug)]
pub struct ExportOptions {
    pub from: Option<CalendarDate>,
    pub to: Option<CalendarDate>,
    pub tag_ids: Option<Vec<i64>>,
    pub include_children: bool,
}

/// The selection of an export: both dates must parse when given (`from`
/// checked first); the tag list keeps the identifiers that parse.
pub fn export_options(q: &TransactionExportQuery) -> (r: Result<ExportOptions, AppError>)
    ensures
        match r {
            Ok(o) => (match q.from {
                Some(f) => parsed_ymd(f@) is Some && o.from == parsed_ymd(f@),
                None => o.from is None,
            }) && (match q.to {
                Some(t) => parsed_ymd(t@) is Some && o.to == parsed_ymd(t@),
                None => o.to is None,
            }) && (match q.tags {
                Some(s) => o.tag_ids matches Some(v) && v@ == spec_id_list(s@),
                None => o.tag_ids is None,
            }) && o.include_children == q.include_children,
            Err(e) => e@.status == STATUS_BAD_REQUEST && if q.from matches Some(f) && parsed_ymd(
                f@,
            ) is None {
                e@.message == "Invalid 'from' date format (use YYYY-MM-DD)"@
            } else {
                q.to matches Some(t) && parsed_ymd(t@) is None && e@.message
                    == "Invalid 'to' date format (use YYYY-MM-DD)"@
            },
        },
{
    let from_s: Option<&str> = match &q.from {
        Some(f) => Some(f.as_str()),
        None => None,
    };
    let to_s: Option<&str> = match &q.to {
        Some(t) => Some(t.as_str()),
        None => None,
    };
    let from = parse_date_field(from_s, "Invalid 'from' date format (use YYYY-MM-DD)")?;
    let to = parse_date_field(to_s, "Invalid 'to' date format (use YYYY-MM-DD)")?;
    let tag_ids = match &q.tags {
        Some(s) => Some(parse_id_list(s.as_str())),
        None => None,
    };
    Ok(ExportOptions { from, to, tag_ids, include_children: q.include_children })
}

/// Export formats.
#[derive(Debug)]
pub enum ExportFormat {
    Csv,
    Json,
}

/// The export format: "csv" or "json".
pub fn export_format(format: &str) -> (r: Result<ExportFormat, AppError>)
    ensures
        format@ == "csv"@ ==> r matches Ok(ExportFormat::Csv),
        format@ == "json"@ ==> r matches Ok(ExportFormat::Json),
        format@ != "csv"@ && format@ != "json"@ ==> (r matches Err(e) && e@.status
            == STATUS_BAD_REQUEST && e@.message == "Invalid format. Use 'csv' or 'json'"@),
{
    let f = to_chars(format);
    proof {
        reveal_strlit("csv");
        reveal_strlit("json");
        assert("csv"@.len() == 3);
        assert("json"@.len() == 4);
    }
    if str_is("csv", &f) {
        Ok(ExportFormat::Csv)
    } else if str_is("json", &f) {
        Ok(ExportFormat::Json)
    } else {
        Err(AppError::bad_request("Invalid format. Use 'csv' or 'json'"))
    }
}

/// The content type and content disposition of an export download.
pub fn export_headers(format: &ExportFormat) -> (r: (&'static str, &'static str))
    ensures
        *format is Csv ==> r.0@ == "text/csv; charset=utf-8"@ && r.1@
            == "attachment; filename=\"transactions.csv\""@,
        *format is Json ==> r.0@ == "application/json"@ && r.1@
            == "attachment; filename=\"transactions.json\""@,
{
    match format {
        ExportFormat::Csv => ("text/csv; charset=utf-8", "attachment; filename=\"transactions.csv\""),
        ExportFormat::Json => ("application/json", "attachment; filename=\"transactions.json\""),
    }
}

/// Query parameters for a full import.
#[derive(Debug)]
pub struct ImportFullQuery {
    pub clear: bool,
}

} // verus!
