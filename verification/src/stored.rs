//! The stored shape of a poll: the canonical option list travels as a JSON
//! array of strings and the type as its rendered tag, exactly as the
//! record store keeps them. Encoding and decoding go through `serde_json`
//! behind trusted wrappers; everything around them is verified, so a
//! caller that persists rows runs the same pipeline as the in-memory
//! engine.

use vstd::prelude::*;
use vstd::string::StringExecFns;
use crate::aggregate::{
    aggregate_results, count_of, dedup_keep_first, entry_choices, sum_counts,
};
use crate::models::{TimbaType, VoteCount, VoteResponse, type_tag_str};
use crate::resolver::{arity_error, arity_ok, canonical_options, resolve_options, ValidationError};
use crate::vote::{admit_vote, admitted_core, message_core, opt_view};

verus! {

/// What `serde_json` writes for a list of strings: the JSON array text.
/// The result depends on the list alone.
pub uninterp spec fn json_of_fields(v: Seq<Seq<char>>) -> Seq<char>;

/// What `serde_json` reads back from text as a list of strings, or
/// nothing for text that is not a JSON array of strings. The result
/// depends on the text alone.
pub uninterp spec fn fields_of_json(s: Seq<char>) -> Option<Seq<Seq<char>>>;

/// Relies on `serde_json::to_string` for `Vec<String>`: it cannot fail for
/// this type, and `serde_json::from_str` decodes its output back exactly.
#[verifier::external_body]
fn encode_fields(v: &Vec<String>) -> (r: String)
    ensures
        r@ == json_of_fields(v.deep_view()),
        fields_of_json(r@) == Some(v.deep_view()),
{
    serde_json::to_string(v).unwrap_or_default()
}

/// Relies on `serde_json::from_str` for `Vec<String>`: parsing depends on
/// the text alone.
#[verifier::external_body]
fn decode_fields(s: &str) -> (r: Option<Vec<String>>)
    ensures
        match r {
            Some(v) => fields_of_json(s@) == Some(v.deep_view()),
            None => fields_of_json(s@) is None,
        },
{
    serde_json::from_str::<Vec<String>>(s).ok()
}

/// The canonical options a stored poll row denotes: the decoded JSON
/// array, or no options at all for a row whose text does not decode
/// (fail-to-empty, as every choice is then invalid).
pub open spec fn stored_fields(s: Seq<char>) -> Seq<Seq<char>> {
    match fields_of_json(s) {
        Some(f) => f,
        None => Seq::empty(),
    }
}

/// A poll definition resolved and encoded for the record store.
pub struct PreparedPoll {
    pub fields: Vec<String>,
    pub fields_json: String,
    pub type_str: String,
}

/// Resolves a poll definition and renders what the store keeps: the
/// canonical options, their JSON encoding, and the type tag.
pub fn prepare_poll_row(ty: &TimbaType, raw: &Vec<String>) -> (r: Result<
    PreparedPoll,
    ValidationError,
>)
    ensures
        r is Ok <==> arity_ok(*ty, raw.deep_view()),
        r matches Err(e) ==> e == arity_error(*ty),
        r matches Ok(p) ==> {
            &&& p.fields.deep_view() == canonical_options(*ty, raw.deep_view())
            &&& p.fields_json@ == json_of_fields(p.fields.deep_view())
            &&& fields_of_json(p.fields_json@) == Some(p.fields.deep_view())
            &&& p.type_str@ == type_tag_str(*ty)
        },
{
    match resolve_options(ty, raw) {
        Ok(fields) => {
            let fields_json = encode_fields(&fields);
            let type_str = ty.to_string();
            Ok(PreparedPoll { fields, fields_json, type_str })
        },
        Err(e) => Err(e),
    }
}

/// Runs the admission pipeline over a poll row as the store returns it:
/// the JSON-encoded option list, the stored type tag (the poll admits
/// several choices exactly when that tag is `Multiple`), the raw deadline,
/// and whether this voter already has a recorded cast. A row whose option
/// text does not decode offers no valid options.
pub fn admit_stored(
    fields_json: &str,
    type_str: &String,
    deadline: Option<&String>,
    already_voted: bool,
    choices: &Vec<String>,
    now_ms: i64,
) -> (r: VoteResponse)
    ensures
        r.success == admitted_core(
            stored_fields(fields_json@),
            type_str@ == "Multiple"@,
            opt_view(deadline),
            already_voted,
            choices.deep_view(),
            now_ms as int,
        ),
        r.message@ == message_core(
            stored_fields(fields_json@),
            type_str@ == "Multiple"@,
            type_str@,
            opt_view(deadline),
            already_voted,
            choices.deep_view(),
            now_ms as int,
        ),
{
    let fields = match decode_fields(fields_json) {
        Some(v) => v,
        None => Vec::new(),
    };
    proof {
        if fields_of_json(fields_json@) is None {
            assert(fields.deep_view() =~= stored_fields(fields_json@));
        }
    }
    let multiple_tag = String::from_str("Multiple");
    let is_multiple = *type_str == multiple_tag;
    admit_vote(&fields, is_multiple, type_str, deadline, already_voted, choices, now_ms)
}

/// Decodes a stored poll row's option list and tallies the votes cast for
/// it: the canonical options, one tally entry per option value with zero
/// counts injected, and the total equal to the sum of the counts.
pub fn results_from_row(fields_json: &str, cast: &Vec<String>) -> (r: (
    Vec<String>,
    Vec<VoteCount>,
    i64,
))
    requires
        cast@.len() < 0x7fff_ffff_ffff_ffff,
    ensures
        r.0.deep_view() == stored_fields(fields_json@),
        entry_choices(r.1@) == dedup_keep_first(stored_fields(fields_json@)),
        forall|k: int|
            0 <= k < r.1@.len() ==> (#[trigger] r.1@[k]).count == count_of(
                cast.deep_view(),
                r.1@[k].choice@,
            ),
        r.2 == sum_counts(r.1@),
        0 <= r.2 <= cast@.len(),
{
    let fields = match decode_fields(fields_json) {
        Some(v) => v,
        None => Vec::new(),
    };
    proof {
        if fields_of_json(fields_json@) is None {
            assert(fields.deep_view() =~= stored_fields(fields_json@));
        }
    }
    let (entries, total) = aggregate_results(&fields, cast);
    (fields, entries, total)
}

} // verus!
