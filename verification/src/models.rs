//! Domain data types: polls ("timbas"), votes, results and statistics.

use vstd::prelude::*;
use vstd::string::StringExecFns;
use crate::text::{
    dec_str, is_digit, lemma_dec_str_digits, lemma_dec_str_injective, u64_to_string,
};

verus! {

/// The answer shape of a poll: one choice (`Simple`), several choices
/// (`Multiple`), yes/no (`YN`), or a derived numeric range (`Scale`).
#[derive(Clone, Copy, PartialEq, Eq, Structural, Debug)]
pub enum TimbaType {
    Simple,
    Multiple,
    YN,
    Scale(u64, u64),
}

/// The storage tag of a poll type: the bare variant name, with the two
/// bounds embedded for `Scale`, e.g. `Scale(1,5)`.
pub open spec fn type_tag_str(ty: TimbaType) -> Seq<char> {
    match ty {
        TimbaType::Simple => "Simple"@,
        TimbaType::Multiple => "Multiple"@,
        TimbaType::YN => "YN"@,
        TimbaType::Scale(lower, upper) => "Scale("@ + dec_str(lower as nat) + ","@ + dec_str(
            upper as nat,
        ) + ")"@,
    }
}

impl TimbaType {
    /// True exactly for the `Multiple` variant, the only one that admits
    /// more than one choice in a single casting event.
    pub open spec fn is_multiple(self) -> bool {
        self is Multiple
    }

    /// Renders the type tag for storage and for user-facing messages.
    pub fn to_string(&self) -> (r: String)
        ensures
            r@ == type_tag_str(*self),
    {
        match self {
            TimbaType::Simple => String::from_str("Simple"),
            TimbaType::Multiple => String::from_str("Multiple"),
            TimbaType::YN => String::from_str("YN"),
            TimbaType::Scale(lower, upper) => {
                let mut s = String::from_str("Scale(");
                let low = u64_to_string(*lower);
                s.append(low.as_str());
                s.append(",");
                let up = u64_to_string(*upper);
                s.append(up.as_str());
                s.append(")");
                s
            },
        }
    }
}

/// The length of a type tag, by variant.
proof fn lemma_tag_len(ty: TimbaType)
    ensures
        ty is Simple ==> type_tag_str(ty).len() == 6,
        ty is Multiple ==> type_tag_str(ty).len() == 8,
        ty is YN ==> type_tag_str(ty).len() == 2,
        ty is Scale ==> type_tag_str(ty).len() >= 10,
{
    reveal_strlit("Simple");
    reveal_strlit("Multiple");
    reveal_strlit("YN");
    reveal_strlit("Scale(");
    reveal_strlit(",");
    reveal_strlit(")");
    match ty {
        TimbaType::Scale(lower, upper) => {
            lemma_dec_str_digits(lower as nat);
            lemma_dec_str_digits(upper as nat);
        },
        _ => {},
    }
}

/// Two scale tags that read the same carry the same bounds: the first
/// comma splits the digits of the lower bound from those of the upper.
proof fn lemma_scale_tag_parts(l1: u64, u1: u64, l2: u64, u2: u64)
    requires
        type_tag_str(TimbaType::Scale(l1, u1)) == type_tag_str(TimbaType::Scale(l2, u2)),
    ensures
        l1 == l2,
        u1 == u2,
{
    reveal_strlit("Scale(");
    reveal_strlit(",");
    reveal_strlit(")");
    let a1 = dec_str(l1 as nat);
    let b1 = dec_str(u1 as nat);
    let a2 = dec_str(l2 as nat);
    let b2 = dec_str(u2 as nat);
    lemma_dec_str_digits(l1 as nat);
    lemma_dec_str_digits(u1 as nat);
    lemma_dec_str_digits(l2 as nat);
    lemma_dec_str_digits(u2 as nat);
    let x = type_tag_str(TimbaType::Scale(l1, u1));
    assert(x.len() == 8 + a1.len() + b1.len());
    assert(x.len() == 8 + a2.len() + b2.len());
    assert forall|j: int| 0 <= j < a1.len() implies x[6 + j] == a1[j] by {}
    assert forall|j: int| 0 <= j < a2.len() implies x[6 + j] == a2[j] by {}
    assert(x[6 + a1.len() as int] == ',');
    assert(x[6 + a2.len() as int] == ',');
    if a1.len() < a2.len() {
        assert(x[6 + a1.len() as int] == a2[a1.len() as int]);
        assert(is_digit(a2[a1.len() as int]));
        assert(false);
    }
    if a2.len() < a1.len() {
        assert(x[6 + a2.len() as int] == a1[a2.len() as int]);
        assert(is_digit(a1[a2.len() as int]));
        assert(false);
    }
    assert(a1 =~= a2);
    lemma_dec_str_injective(l1 as nat, l2 as nat);
    assert(b1.len() == b2.len());
    assert forall|j: int| 0 <= j < b1.len() implies x[7 + a1.len() as int + j] == b1[j] by {}
    assert forall|j: int| 0 <= j < b2.len() implies x[7 + a2.len() as int + j] == b2[j] by {}
    assert(b1 =~= b2);
    lemma_dec_str_injective(u1 as nat, u2 as nat);
}

/// The storage tag is exact: equal tags denote equal types, so the
/// composite `Scale` encoding round-trips its two bounds unambiguously.
pub proof fn lemma_type_tag_exact(t1: TimbaType, t2: TimbaType)
    requires
        type_tag_str(t1) == type_tag_str(t2),
    ensures
        t1 == t2,
{
    reveal_strlit("Simple");
    reveal_strlit("Multiple");
    reveal_strlit("YN");
    lemma_tag_len(t1);
    lemma_tag_len(t2);
    match (t1, t2) {
        (TimbaType::Scale(l1, u1), TimbaType::Scale(l2, u2)) => {
            lemma_scale_tag_parts(l1, u1, l2, u2);
        },
        _ => {},
    }
}

/// A poll-creation request: the raw option list (ignored for `Scale`),
/// the requested type, and an optional closing deadline (RFC 3339 text).
pub struct Timba {
    pub fields: Vec<String>,
    pub ty: TimbaType,
    pub deadline: Option<String>,
}

/// The event published on the feed once a poll has been created.
#[derive(Clone, Debug)]
pub struct TimbaCreatedEvent {
    pub id: i64,
    pub name: String,
    pub time_of_creation: String,
}

/// The answer to a successful creation request: the store-assigned id.
pub struct CreateTimbaResponse {
    pub id: i64,
}

/// A casting event: the options one voter submits in a single request.
pub struct VoteRequest {
    pub choices: Vec<String>,
}

/// The verdict on a casting event: business rejections are carried here
/// with `success == false`, never as errors.
pub struct VoteResponse {
    pub success: bool,
    pub message: String,
}

/// The tally of one canonical option.
pub struct VoteCount {
    pub choice: String,
    pub count: i64,
}

/// A poll together with its aggregated results.
pub struct TimbaInfo {
    pub id: i64,
    pub name: String,
    pub time_of_creation: String,
    pub deadline: Option<String>,
    pub fields: Vec<String>,
    pub ty: String,
    pub votes: Vec<VoteCount>,
    pub total_votes: i64,
}

/// Corpus-wide statistics.
pub struct Stats {
    pub total_timbas: i64,
    pub total_votes: i64,
    pub oldest_timba: Option<String>,
    pub newest_timba: Option<String>,
}

} // verus!
