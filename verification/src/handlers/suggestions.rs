//! AI suggestions for transactions.

use vstd::prelude::*;
use vstd::string::*;


verus! {

/// Suggested entity for a transaction, among the available ones.
#[derive(Debug)]
pub struct EntitySuggestionResponse {
    pub transaction_id: i64,
    pub suggested_entity: Option<String>,
    pub available_entities: Vec<String>,
}

/// Without entities there is nothing to suggest.
pub fn no_entities(transaction_id: i64) -> (r: EntitySuggestionResponse)
    ensures
        r.transaction_id == transaction_id,
        r.suggested_entity is None,
        r.available_entities@.len() == 0,
{
    EntitySuggestionResponse {
        transaction_id,
        suggested_entity: None,
        available_entities: Vec::new(),
    }
}

/// The category given to the AI backend: the transaction's first tag, or
/// "Other".
pub fn suggestion_category(first_tag: Option<String>) -> (r: String)
    ensures
        match first_tag {
            Some(t) => r@ == t@,
            None => r@ == "Other"@,
        },
{
    match first_tag {
        Some(t) => t,
        None => String::from_str("Other"),
    }
}

} // verus!
