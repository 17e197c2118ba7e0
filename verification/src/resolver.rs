//! The type resolver: derives the canonical option list of a poll from its
//! requested type and raw option input, and checks type-specific arity.

use vstd::prelude::*;
use crate::models::TimbaType;
use crate::text::{dec_str, u64_to_string};

verus! {

/// Why a poll definition was refused.
#[derive(Clone, Copy, PartialEq, Eq, Structural, Debug)]
pub enum ValidationError {
    /// Too few options for `Simple`/`Multiple`, or not exactly 2 for `YN`.
    InvalidOptionCount,
    /// A `Scale` whose lower bound is not strictly below its upper bound.
    InvalidRange,
}

/// The derived options of a valid `Scale(lower, upper)`: the decimal
/// strings of every integer in `[lower, upper]`, ascending.
pub open spec fn scale_options(lower: u64, upper: u64) -> Seq<Seq<char>> {
    Seq::new((upper - lower + 1) as nat, |i: int| dec_str((lower + i) as nat))
}

/// Whether a requested type accepts the given raw option list.
pub open spec fn arity_ok(ty: TimbaType, raw: Seq<Seq<char>>) -> bool {
    match ty {
        TimbaType::Simple => raw.len() >= 2,
        TimbaType::Multiple => raw.len() >= 2,
        TimbaType::YN => raw.len() == 2,
        TimbaType::Scale(lower, upper) => lower < upper,
    }
}

/// The canonical option list of a valid poll definition: the raw options
/// verbatim, except for `Scale`, whose options are derived.
pub open spec fn canonical_options(ty: TimbaType, raw: Seq<Seq<char>>) -> Seq<Seq<char>> {
    match ty {
        TimbaType::Scale(lower, upper) => scale_options(lower, upper),
        _ => raw,
    }
}

/// The error reported when a definition is refused.
pub open spec fn arity_error(ty: TimbaType) -> ValidationError {
    match ty {
        TimbaType::Scale(_, _) => ValidationError::InvalidRange,
        _ => ValidationError::InvalidOptionCount,
    }
}

/// Derives and validates the canonical option list for a poll definition.
/// Raw options supplied alongside a `Scale` request are ignored.
pub fn resolve_options(ty: &TimbaType, raw: &Vec<String>) -> (r: Result<Vec<String>, ValidationError>)
    ensures
        r is Ok <==> arity_ok(*ty, raw.deep_view()),
        r matches Ok(fields) ==> fields.deep_view() == canonical_options(*ty, raw.deep_view()),
        r matches Err(e) ==> e == arity_error(*ty),
{
    match ty {
        TimbaType::Scale(lower, upper) => {
            if *lower >= *upper {
                return Err(ValidationError::InvalidRange);
            }
            let mut fields: Vec<String> = Vec::new();
            let mut i: u64 = *lower;
            loop
                invariant_except_break
                    *lower <= i <= *upper,
                    fields@.len() == i - *lower,
                    forall|k: int|
                        0 <= k < fields@.len() ==> #[trigger] fields@[k]@ == dec_str(
                            (*lower + k) as nat,
                        ),
                invariant
                    *lower < *upper,
                ensures
                    fields@.len() == *upper - *lower + 1,
                    forall|k: int|
                        0 <= k < fields@.len() ==> #[trigger] fields@[k]@ == dec_str(
                            (*lower + k) as nat,
                        ),
                decreases *upper - i,
            {
                fields.push(u64_to_string(i));
                if i == *upper {
                    break;
                }
                i = i + 1;
            }
            assert(fields.deep_view() =~= scale_options(*lower, *upper));
            Ok(fields)
        },
        TimbaType::YN => {
            if raw.len() != 2 {
                Err(ValidationError::InvalidOptionCount)
            } else {
                Ok(clone_fields(raw))
            }
        },
        _ => {
            if raw.len() < 2 {
                Err(ValidationError::InvalidOptionCount)
            } else {
                Ok(clone_fields(raw))
            }
        },
    }
}

/// Copies an option list.
pub fn clone_fields(v: &Vec<String>) -> (r: Vec<String>)
    ensures
        r.deep_view() == v.deep_view(),
{
    let mut r: Vec<String> = Vec::new();
    let mut i: usize = 0;
    while i < v.len()
        invariant
            i <= v.len(),
            r@.len() == i,
            forall|k: int| 0 <= k < i ==> #[trigger] r@[k]@ == v@[k]@,
        decreases v.len() - i,
    {
        r.push(v[i].clone());
        i = i + 1;
    }
    assert(r.deep_view() =~= v.deep_view());
    r
}

/// For every valid scale, the derived option count is `upper - lower + 1`
/// and the options are the ascending decimal strings of the inclusive range.
pub proof fn lemma_scale_option_shape(lower: u64, upper: u64)
    requires
        lower < upper,
    ensures
        scale_options(lower, upper).len() == upper - lower + 1,
        forall|i: int|
            0 <= i <= upper - lower ==> #[trigger] scale_options(lower, upper)[i] == dec_str(
                (lower + i) as nat,
            ),
{
}

/// A scale whose lower bound is not strictly below its upper bound is
/// always refused with `InvalidRange`, for every input pair.
pub proof fn lemma_scale_rejected(lower: u64, upper: u64, raw: Seq<Seq<char>>)
    requires
        lower >= upper,
    ensures
        !arity_ok(TimbaType::Scale(lower, upper), raw),
        arity_error(TimbaType::Scale(lower, upper)) == ValidationError::InvalidRange,
{
}

/// A `YN` definition is accepted exactly with 2 raw options, and `Simple`
/// and `Multiple` definitions exactly with at least 2.
pub proof fn lemma_creation_arity(raw: Seq<Seq<char>>)
    ensures
        arity_ok(TimbaType::YN, raw) <==> raw.len() == 2,
        arity_ok(TimbaType::Simple, raw) <==> raw.len() >= 2,
        arity_ok(TimbaType::Multiple, raw) <==> raw.len() >= 2,
{
}

} // verus!
