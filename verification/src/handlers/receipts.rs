//! Receipts: uploads, de-duplication by content hash, and linking.

use vstd::prelude::*;
use vstd::string::*;

use crate::error::{AppError, STATUS_BAD_REQUEST, STATUS_CONFLICT};
use crate::explore::{hex_byte, hex_of, sha256, sha256_digest};
use crate::numbers::{int_decimal, push_i64};
use crate::periods::{parse_date_field, parsed_ymd, CalendarDate};
use crate::text::push_hex_digit;

verus! {

/// Query parameters for listing receipts.
#[derive(Debug)]
pub struct ListReceiptsQuery {
    pub status: Option<String>,
}

/// Request to link a receipt to a transaction.
#[derive(Debug)]
pub struct LinkReceiptRequest {
    pub transaction_id: i64,
}

/// Request to set a receipt's status.
#[derive(Debug)]
pub struct UpdateReceiptStatusRequest {
    pub status: String,
}

/// Response of automatic receipt matching.
#[derive(Debug)]
pub struct AutoMatchResponse {
    pub matched: usize,
    pub checked: usize,
}

/// The content hash a receipt image is de-duplicated by: the lowercase
/// hexadecimal SHA-256 digest of its bytes.
pub fn receipt_content_hash(bytes: &[u8]) -> (r: String)
    ensures
        r@ == hex_of(sha256_digest(bytes@)),
{
    let digest = sha256(bytes);
    let ghost d = digest@;
    let mut out = String::new();
    let mut i: usize = 0;
    while i < digest.len()
        invariant
            i <= d.len(),
            digest@ == d,
            out@ == hex_of(d.take(i as int)),
        decreases digest.len() - i,
    {
        let b = digest[i];
        push_hex_digit(&mut out, b / 16);
        push_hex_digit(&mut out, b % 16);
        assert(d.take(i + 1).drop_last() =~= d.take(i as int));
        assert(hex_of(d.take(i + 1)) == hex_of(d.take(i as int)) + hex_byte(b));
        i = i + 1;
        assert(out@ =~= hex_of(d.take(i as int)));
    }
    assert(d.take(d.len() as int) =~= d);
    out
}

/// An uploaded receipt needs image bytes.
pub fn check_image(bytes: &[u8]) -> (r: Result<(), AppError>)
    ensures
        r is Ok <==> bytes@.len() > 0,
        r matches Err(e) ==> e@.status == STATUS_BAD_REQUEST && e@.message
            == "No image data provided"@,
{
    if bytes.len() == 0 {
        Err(AppError::bad_request("No image data provided"))
    } else {
        Ok(())
    }
}

/// The conflict answered for an image that was uploaded before.
pub fn duplicate_receipt(existing_id: i64) -> (r: AppError)
    ensures
        r@.status == STATUS_CONFLICT,
        r@.message == "Receipt already exists with ID "@ + int_decimal(existing_id as int),
{
    let mut m = String::from_str("Receipt already exists with ID ");
    push_i64(&mut m, existing_id);
    AppError::conflict(m.as_str())
}

/// Only a pending receipt, or one under manual review, can be linked.
pub fn check_linkable(pending_or_review: bool) -> (r: Result<(), AppError>)
    ensures
        r is Ok <==> pending_or_review,
        r matches Err(e) ==> e@.status == STATUS_BAD_REQUEST && e@.message
            == "Receipt is already matched or cannot be linked"@,
{
    if pending_or_review {
        Ok(())
    } else {
        Err(AppError::bad_request("Receipt is already matched or cannot be linked"))
    }
}

/// Only a linked receipt can be unlinked.
pub fn check_unlinkable(linked_transaction: Option<i64>) -> (r: Result<(), AppError>)
    ensures
        r is Ok <==> linked_transaction is Some,
        r matches Err(e) ==> e@.status == STATUS_BAD_REQUEST && e@.message
            == "Receipt is not linked to a transaction"@,
{
    match linked_transaction {
        Some(_) => Ok(()),
        None => Err(AppError::bad_request("Receipt is not linked to a transaction")),
    }
}

/// The error for an unknown receipt status.
pub fn invalid_receipt_status() -> (r: AppError)
    ensures
        r@.status == STATUS_BAD_REQUEST,
        r@.message == "Invalid status. Use: pending, matched, manual_review, orphaned"@,
{
    AppError::bad_request("Invalid status. Use: pending, matched, manual_review, orphaned")
}

/// The image of a receipt to parse: it must have one.
pub fn image_to_parse(image_path: Option<String>) -> (r: Result<String, AppError>)
    ensures
        match image_path {
            Some(p) => r matches Ok(q) && q@ == p@,
            None => r matches Err(e) && e@.status == STATUS_BAD_REQUEST && e@.message
                == "Receipt has no image to parse"@,
        },
{
    match image_path {
        Some(p) => Ok(p),
        None => Err(AppError::bad_request("Receipt has no image to parse")),
    }
}

/// Parsing a receipt needs the AI backend.
pub fn check_parser_available(has_ai: bool) -> (r: Result<(), AppError>)
    ensures
        r is Ok <==> has_ai,
        r matches Err(e) ==> e@.status == STATUS_BAD_REQUEST && e@.message
            == "Ollama not configured. Set OLLAMA_HOST environment variable."@,
{
    if has_ai {
        Ok(())
    } else {
        Err(AppError::bad_request("Ollama not configured. Set OLLAMA_HOST environment variable."))
    }
}

/// The date a parsed receipt gives, when it is a `YYYY-MM-DD` date.
pub fn receipt_date(date: Option<&str>) -> (r: Option<CalendarDate>)
    ensures
        r == match date {
            Some(d) => parsed_ymd(d@),
            None => None,
        },
{
    match parse_date_field(date, "") {
        Ok(d) => d,
        Err(_) => None,
    }
}

} // verus!
