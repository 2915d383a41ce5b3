//! Tags and tag rules.

use vstd::prelude::*;
use vstd::string::*;

use crate::error::{AppError, STATUS_BAD_REQUEST};

verus! {

/// Request to create a tag.
#[derive(Debug)]
pub struct CreateTagRequest {
    pub name: String,
    pub parent_id: Option<i64>,
    pub color: Option<String>,
    pub icon: Option<String>,
    pub auto_patterns: Option<String>,
}

/// Request to update a tag; an inner `None` clears a field.
#[derive(Debug)]
pub struct UpdateTagRequest {
    pub name: Option<String>,
    pub parent_id: Option<Option<i64>>,
    pub color: Option<Option<String>>,
    pub icon: Option<Option<String>>,
    pub auto_patterns: Option<Option<String>>,
}

/// Query parameters for deleting a tag.
#[derive(Debug)]
pub struct DeleteTagQuery {
    pub reparent_to_parent: bool,
}

/// Request to create a tag rule.
#[derive(Debug)]
pub struct CreateTagRuleRequest {
    pub tag_id: i64,
    pub pattern: String,
    pub pattern_type: String,
    pub priority: i32,
}

/// The pattern type of a rule when none is given.
pub fn default_pattern_type() -> (r: String)
    ensures
        r@ == "contains"@,
{
    String::from_str("contains")
}

/// The error for an unknown pattern type.
pub fn invalid_pattern_type(value: &str) -> (r: AppError)
    ensures
        r@.status == STATUS_BAD_REQUEST,
        r@.message == "Invalid pattern_type: "@ + value@,
{
    AppError::bad_request_detail("Invalid pattern_type: ", value)
}

/// Request to test the rules on a description.
#[derive(Debug)]
pub struct TestRulesRequest {
    pub description: String,
}

/// A rule that matches a tested description.
#[derive(Debug)]
pub struct RuleMatch {
    pub rule_id: i64,
    pub tag_id: i64,
    pub tag_name: String,
    pub pattern: String,
    pub pattern_type: String,
    pub priority: i32,
}

/// The rules that match a tested description.
#[derive(Debug)]
pub struct TestRulesResponse {
    pub matches: Vec<RuleMatch>,
}

} // verus!
