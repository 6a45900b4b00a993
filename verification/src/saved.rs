//! The saved swear counters: a JSON object from user ids to counts.

use std::collections::HashMap;
use vstd::prelude::*;

verus! {

/// Declares `serde_json::Error`, which a failed parse returns.
#[verifier::external_type_specification]
#[verifier::external_body]
pub struct ExJsonError(serde_json::Error);

/// The counters that a saved text holds, when `serde_json` reads it as a map
/// from Discord user ids to `u32` counts; `None` when it cannot.
pub uninterp spec fn parsed_counters(text: Seq<char>) -> Option<Map<u64, u32>>;

/// Calls `serde_json::from_str` for a map from `serenity`'s `UserId` to
/// `u32` and turns each id into its number with `UserId::get`. Claimed: it
/// succeeds exactly when `parsed_counters` is `Some`, and then gives that
/// map; what JSON is accepted (and which of two equal keys wins) is left to
/// the name.
#[verifier::external_body]
fn json_counters(text: &str) -> (r: Result<HashMap<u64, u32>, serde_json::Error>)
    ensures
        r is Ok <==> parsed_counters(text@) is Some,
        r matches Ok(m) ==> m@ == parsed_counters(text@)->0,
{
    match serde_json::from_str::<HashMap<poise::serenity_prelude::UserId, u32>>(text) {
        Ok(m) => Ok(m.into_iter().map(|(id, count)| (id.get(), count)).collect()),
        Err(e) => Err(e),
    }
}

/// Why saved counters could not be read.
#[derive(Debug, Clone, Copy, PartialEq, Eq, Structural)]
pub enum SavedCountersError {
    /// The text is not a JSON map from user ids to counts.
    Malformed,
}

/// Reads saved swear counters from their JSON text.
pub fn parse_saved_counters(text: &str) -> (r: Result<HashMap<u64, u32>, SavedCountersError>)
    ensures
        r is Ok <==> parsed_counters(text@) is Some,
        r matches Ok(m) ==> m@ == parsed_counters(text@)->0,
{
    match json_counters(text) {
        Ok(m) => Ok(m),
        Err(_) => Err(SavedCountersError::Malformed),
    }
}

} // verus!
