//! The vote admission pipeline: a casting event passes, in order, the
//! non-empty check, the deadline check, per-voter deduplication, the
//! cardinality gate and option validity; the verdict carries the exact
//! user-facing message of each outcome.

use vstd::prelude::*;
use vstd::string::StringExecFns;
use crate::clock::{parse_rfc3339_ms, rfc3339_epoch_ms};
use crate::models::VoteResponse;
use crate::text::{contains_string, join_comma, join_comma_spec};

verus! {

/// Whether `now_ms` lies strictly after the deadline. A missing deadline,
/// or one that does not parse as RFC 3339, never closes a poll (fail-open).
pub open spec fn past_deadline(deadline: Option<Seq<char>>, now_ms: int) -> bool {
    match deadline {
        Some(d) => match rfc3339_epoch_ms(d) {
            Some(dm) => now_ms > dm,
            None => false,
        },
        None => false,
    }
}

/// Whether every chosen option is a member of the canonical option list.
pub open spec fn choices_valid(choices: Seq<Seq<char>>, fields: Seq<Seq<char>>) -> bool {
    forall|i: int| 0 <= i < choices.len() ==> fields.contains(#[trigger] choices[i])
}

/// The chosen options that are not canonical, in submission order.
pub open spec fn invalid_of(choices: Seq<Seq<char>>, fields: Seq<Seq<char>>) -> Seq<Seq<char>>
    decreases choices.len(),
{
    if choices.len() == 0 {
        Seq::empty()
    } else {
        invalid_of(choices.drop_last(), fields) + if fields.contains(choices.last()) {
            Seq::empty()
        } else {
            seq![choices.last()]
        }
    }
}

/// A casting event is admitted exactly when it is non-empty, the deadline
/// has not passed, the voter has no recorded cast, the choice count fits
/// the poll type, and every choice is canonical.
pub open spec fn admitted_core(
    fields: Seq<Seq<char>>,
    is_multiple: bool,
    deadline: Option<Seq<char>>,
    already_voted: bool,
    choices: Seq<Seq<char>>,
    now_ms: int,
) -> bool {
    &&& choices.len() > 0
    &&& !past_deadline(deadline, now_ms)
    &&& !already_voted
    &&& (choices.len() <= 1 || is_multiple)
    &&& choices_valid(choices, fields)
}

/// The verdict message, branch for branch along the admission pipeline.
pub open spec fn message_core(
    fields: Seq<Seq<char>>,
    is_multiple: bool,
    ty_name: Seq<char>,
    deadline: Option<Seq<char>>,
    already_voted: bool,
    choices: Seq<Seq<char>>,
    now_ms: int,
) -> Seq<char> {
    if choices.len() == 0 {
        "Debes proporcionar al menos una opcion"@
    } else if past_deadline(deadline, now_ms) {
        "Esta timba ya cerró. El deadline fue superado."@
    } else if already_voted {
        "Ya votaste en esta timba"@
    } else if choices.len() > 1 && !is_multiple {
        "Esta timba es de tipo '"@ + ty_name
            + "' y solo acepta un voto. Usa 'Multiple' para votos multiples."@
    } else if invalid_of(choices, fields).len() > 0 {
        "Votos invalidos: "@ + join_comma_spec(invalid_of(choices, fields)) + ". Votos validos: "@
            + join_comma_spec(fields)
    } else {
        "Votos aceptados: "@ + join_comma_spec(choices)
    }
}

/// The view of an optional borrowed deadline string.
pub open spec fn opt_view(d: Option<&String>) -> Option<Seq<char>> {
    match d {
        Some(s) => Some(s@),
        None => None,
    }
}

/// No chosen option is invalid exactly when all are canonical.
pub proof fn lemma_invalid_of_empty(choices: Seq<Seq<char>>, fields: Seq<Seq<char>>)
    ensures
        invalid_of(choices, fields).len() == 0 <==> choices_valid(choices, fields),
    decreases choices.len(),
{
    if choices.len() == 0 {
        assert(choices_valid(choices, fields));
    } else {
        lemma_invalid_of_empty(choices.drop_last(), fields);
        if invalid_of(choices, fields).len() == 0 {
            assert forall|i: int| 0 <= i < choices.len() implies fields.contains(
                #[trigger] choices[i],
            ) by {
                if i < choices.len() - 1 {
                    assert(choices.drop_last()[i] == choices[i]);
                }
            }
        } else {
            if invalid_of(choices.drop_last(), fields).len() > 0 {
                let j = choose|j: int|
                    0 <= j < choices.drop_last().len() && !fields.contains(
                        #[trigger] choices.drop_last()[j],
                    );
                assert(choices[j] == choices.drop_last()[j]);
            }
        }
    }
}

/// Computes the chosen options that are not canonical.
pub fn invalid_choices(choices: &Vec<String>, fields: &Vec<String>) -> (r: Vec<String>)
    ensures
        r.deep_view() == invalid_of(choices.deep_view(), fields.deep_view()),
{
    let ghost cdv = choices.deep_view();
    let ghost fdv = fields.deep_view();
    let mut r: Vec<String> = Vec::new();
    let mut i: usize = 0;
    while i < choices.len()
        invariant
            i <= choices.len(),
            cdv == choices.deep_view(),
            fdv == fields.deep_view(),
            r.deep_view() =~= invalid_of(cdv.take(i as int), fdv),
        decreases choices.len() - i,
    {
        proof {
            assert(cdv.take(i + 1).drop_last() =~= cdv.take(i as int));
            assert(cdv.take(i + 1).last() == cdv[i as int]);
            assert(cdv[i as int] == choices@[i as int]@);
        }
        if !contains_string(fields, &choices[i]) {
            r.push(choices[i].clone());
        }
        proof {
            assert(r.deep_view() =~= invalid_of(cdv.take(i + 1), fdv));
        }
        i = i + 1;
    }
    proof {
        assert(cdv.take(choices.len() as int) =~= cdv);
    }
    r
}

/// Runs the admission pipeline over a poll already loaded from the store:
/// its canonical options, whether its type is `Multiple`, its type tag for
/// the cardinality message, its raw deadline, and whether this voter
/// already has a recorded cast. Returns the verdict with its exact message.
pub fn admit_vote(
    fields: &Vec<String>,
    is_multiple: bool,
    ty_name: &String,
    deadline: Option<&String>,
    already_voted: bool,
    choices: &Vec<String>,
    now_ms: i64,
) -> (r: VoteResponse)
    ensures
        r.success == admitted_core(
            fields.deep_view(),
            is_multiple,
            opt_view(deadline),
            already_voted,
            choices.deep_view(),
            now_ms as int,
        ),
        r.message@ == message_core(
            fields.deep_view(),
            is_multiple,
            ty_name@,
            opt_view(deadline),
            already_voted,
            choices.deep_view(),
            now_ms as int,
        ),
{
    if choices.len() == 0 {
        return VoteResponse {
            success: false,
            message: String::from_str("Debes proporcionar al menos una opcion"),
        };
    }
    let mut closed = false;
    match deadline {
        Some(d) => {
            match parse_rfc3339_ms(d.as_str()) {
                Some(dm) => {
                    if now_ms > dm {
                        closed = true;
                    }
                },
                None => {},
            }
        },
        None => {},
    }
    proof {
        assert(closed == past_deadline(opt_view(deadline), now_ms as int));
    }
    if closed {
        return VoteResponse {
            success: false,
            message: String::from_str("Esta timba ya cerró. El deadline fue superado."),
        };
    }
    if already_voted {
        return VoteResponse {
            success: false,
            message: String::from_str("Ya votaste en esta timba"),
        };
    }
    if choices.len() > 1 && !is_multiple {
        let mut m = String::from_str("Esta timba es de tipo '");
        m.append(ty_name.as_str());
        m.append("' y solo acepta un voto. Usa 'Multiple' para votos multiples.");
        return VoteResponse { success: false, message: m };
    }
    let invalid = invalid_choices(choices, fields);
    proof {
        lemma_invalid_of_empty(choices.deep_view(), fields.deep_view());
    }
    if invalid.len() > 0 {
        let mut m = String::from_str("Votos invalidos: ");
        let listed = join_comma(&invalid);
        m.append(listed.as_str());
        m.append(". Votos validos: ");
        let valid = join_comma(fields);
        m.append(valid.as_str());
        return VoteResponse { success: false, message: m };
    }
    let mut m = String::from_str("Votos aceptados: ");
    let accepted = join_comma(choices);
    m.append(accepted.as_str());
    VoteResponse { success: true, message: m }
}

/// The verdict on a poll id that the store does not hold.
pub fn timba_not_found() -> (r: VoteResponse)
    ensures
        !r.success,
        r.message@ == "Timba no encontrada"@,
{
    VoteResponse { success: false, message: String::from_str("Timba no encontrada") }
}

/// The verdict on a casting event with no choices at all; it is issued
/// before any store access.
pub fn must_choose() -> (r: VoteResponse)
    ensures
        !r.success,
        r.message@ == "Debes proporcionar al menos una opcion"@,
{
    VoteResponse {
        success: false,
        message: String::from_str("Debes proporcionar al menos una opcion"),
    }
}

/// More than one choice against a poll whose type is not `Multiple` is
/// rejected, whatever the options are and whether or not they are valid.
pub proof fn lemma_multi_choice_rejected(
    fields: Seq<Seq<char>>,
    is_multiple: bool,
    deadline: Option<Seq<char>>,
    already_voted: bool,
    choices: Seq<Seq<char>>,
    now_ms: int,
)
    requires
        choices.len() > 1,
        !is_multiple,
    ensures
        !admitted_core(fields, is_multiple, deadline, already_voted, choices, now_ms),
{
}

/// A voter with a recorded cast for the poll is rejected, regardless of
/// the chosen options.
pub proof fn lemma_duplicate_rejected(
    fields: Seq<Seq<char>>,
    is_multiple: bool,
    deadline: Option<Seq<char>>,
    choices: Seq<Seq<char>>,
    now_ms: int,
)
    ensures
        !admitted_core(fields, is_multiple, deadline, true, choices, now_ms),
{
}

/// A cast after the poll's deadline is rejected, even for a voter with no
/// recorded cast.
pub proof fn lemma_deadline_rejected(
    fields: Seq<Seq<char>>,
    is_multiple: bool,
    deadline: Seq<char>,
    deadline_ms: int,
    choices: Seq<Seq<char>>,
    now_ms: int,
)
    requires
        rfc3339_epoch_ms(deadline) == Some(deadline_ms),
        now_ms > deadline_ms,
    ensures
        !admitted_core(fields, is_multiple, Some(deadline), false, choices, now_ms),
{
}

} // verus!
