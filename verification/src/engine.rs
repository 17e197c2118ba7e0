//! The poll and vote engine over an in-memory store of the two record
//! sets. Poll creation resolves and validates the option list, assigns a
//! monotonically increasing id and appends a record; vote casting runs the
//! admission pipeline and, on success, appends one vote row per choice,
//! all sharing one timestamp; reads aggregate counts, statistics and the
//! latest polls.

use vstd::prelude::*;
use vstd::string::StringExecFns;
use crate::aggregate::{aggregate_results, count_of, dedup_keep_first, entry_choices, sum_counts};
use crate::clock::{now_epoch_ms, now_rfc3339};
use crate::models::{
    Stats, Timba, TimbaCreatedEvent, TimbaInfo, TimbaType, VoteRequest, VoteResponse,
    type_tag_str,
};
use crate::resolver::{arity_error, arity_ok, canonical_options, resolve_options, ValidationError};
use crate::vote::{admit_vote, admitted_core, message_core, opt_view, timba_not_found};

verus! {

/// How many polls `get_latest` reports at most.
pub const LATEST_CAP: usize = 10;

/// A stored poll: id, name, creation timestamp, optional deadline, the
/// canonical option list and the type tag.
pub struct PollRecord {
    pub id: i64,
    pub name: String,
    pub time_of_creation: String,
    pub deadline: Option<String>,
    pub fields: Vec<String>,
    pub ty: TimbaType,
}

/// A stored vote row: one chosen option of one casting event.
pub struct VoteRecord {
    pub id: i64,
    pub timba_id: i64,
    pub vote_choice: String,
    pub voter_identifier: Option<String>,
    pub vote_time: String,
}

/// The view of an optional owned string.
pub open spec fn opt_string_view(d: Option<String>) -> Option<Seq<char>> {
    match d {
        Some(s) => Some(s@),
        None => None,
    }
}

/// The choices of the vote rows that belong to one poll, in store order.
pub open spec fn cast_for_seq(votes: Seq<VoteRecord>, id: int) -> Seq<Seq<char>>
    decreases votes.len(),
{
    if votes.len() == 0 {
        Seq::empty()
    } else {
        cast_for_seq(votes.drop_last(), id) + if votes.last().timba_id == id {
            seq![votes.last().vote_choice@]
        } else {
            Seq::empty()
        }
    }
}

/// A poll never receives more vote rows than the store holds.
pub proof fn lemma_cast_for_len(votes: Seq<VoteRecord>, id: int)
    ensures
        cast_for_seq(votes, id).len() <= votes.len(),
    decreases votes.len(),
{
    if votes.len() > 0 {
        lemma_cast_for_len(votes.drop_last(), id);
    }
}

/// The engine and its store: the poll and vote record sets.
pub struct Engine {
    pub polls: Vec<PollRecord>,
    pub votes: Vec<VoteRecord>,
}

impl Engine {
    /// Ids are store-assigned, positional and start at 1, and both record
    /// sets stay clear of the id space's end.
    pub open spec fn wf(self) -> bool {
        &&& self.polls@.len() < 0x7fff_ffff_ffff_ffff
        &&& self.votes@.len() < 0x7fff_ffff_ffff_ffff
        &&& forall|i: int| 0 <= i < self.polls@.len() ==> (#[trigger] self.polls@[i]).id == i + 1
        &&& forall|j: int| 0 <= j < self.votes@.len() ==> (#[trigger] self.votes@[j]).id == j + 1
    }

    /// Whether a poll with this id is stored.
    pub open spec fn has_poll(self, id: int) -> bool {
        1 <= id <= self.polls@.len()
    }

    /// The stored poll with this id (meaningful when `has_poll`).
    pub open spec fn poll_at(self, id: int) -> PollRecord {
        self.polls@[id - 1]
    }

    /// Whether this voter identity has a recorded cast for the poll.
    pub open spec fn voter_has_cast(self, id: int, voter: Seq<char>) -> bool {
        exists|j: int|
            0 <= j < self.votes@.len() && (#[trigger] self.votes@[j]).timba_id == id && (
            self.votes@[j].voter_identifier matches Some(v) && v@ == voter)
    }

    /// Deduplication applies only to present identities: an absent one is
    /// never "already voted".
    pub open spec fn spec_already(self, id: int, voter: Option<Seq<char>>) -> bool {
        match voter {
            Some(v) => self.voter_has_cast(id, v),
            None => false,
        }
    }

    /// A casting event is admitted exactly when the poll exists and the
    /// core pipeline (deadline, dedup, cardinality, validity) passes.
    pub open spec fn cast_admitted(
        self,
        id: int,
        voter: Option<Seq<char>>,
        choices: Seq<Seq<char>>,
        now_ms: int,
    ) -> bool {
        &&& self.has_poll(id)
        &&& admitted_core(
            self.poll_at(id).fields.deep_view(),
            self.poll_at(id).ty.is_multiple(),
            opt_string_view(self.poll_at(id).deadline),
            self.spec_already(id, voter),
            choices,
            now_ms,
        )
    }

    /// The verdict message of a casting event, branch for branch along the
    /// pipeline; the empty-choices check precedes the poll lookup.
    pub open spec fn cast_message(
        self,
        id: int,
        voter: Option<Seq<char>>,
        choices: Seq<Seq<char>>,
        now_ms: int,
    ) -> Seq<char> {
        if choices.len() == 0 {
            "Debes proporcionar al menos una opcion"@
        } else if !self.has_poll(id) {
            "Timba no encontrada"@
        } else {
            message_core(
                self.poll_at(id).fields.deep_view(),
                self.poll_at(id).ty.is_multiple(),
                type_tag_str(self.poll_at(id).ty),
                opt_string_view(self.poll_at(id).deadline),
                self.spec_already(id, voter),
                choices,
                now_ms,
            )
        }
    }

    /// An engine with an empty store.
    pub fn new() -> (r: Engine)
        ensures
            r.wf(),
            r.polls@.len() == 0,
            r.votes@.len() == 0,
    {
        Engine { polls: Vec::new(), votes: Vec::new() }
    }

    /// Whether this voter identity has a recorded cast for the poll.
    fn voter_already(&self, id: i64, voter: &String) -> (r: bool)
        ensures
            r == self.voter_has_cast(id as int, voter@),
    {
        let mut j: usize = 0;
        while j < self.votes.len()
            invariant
                j <= self.votes@.len(),
                forall|k: int|
                    0 <= k < j ==> !((#[trigger] self.votes@[k]).timba_id == id && (
                    self.votes@[k].voter_identifier matches Some(v) && v@ == voter@)),
            decreases self.votes@.len() - j,
        {
            if self.votes[j].timba_id == id {
                match &self.votes[j].voter_identifier {
                    Some(v) => {
                        if *v == *voter {
                            return true;
                        }
                    },
                    None => {},
                }
            }
            j = j + 1;
        }
        false
    }
}

/// What `create_timba` leaves behind: on validation failure the store is
/// untouched; on success exactly one poll record is appended, carrying the
/// next id, the given name and timestamp, the request's deadline and type,
/// and the canonical option list the resolver derives.
pub open spec fn create_post(
    pre: Engine,
    post: Engine,
    name: Seq<char>,
    ty: TimbaType,
    raw: Seq<Seq<char>>,
    deadline: Option<Seq<char>>,
    now: Seq<char>,
    r: Result<i64, ValidationError>,
) -> bool {
    &&& post.wf()
    &&& post.votes@ == pre.votes@
    &&& (r is Ok <==> arity_ok(ty, raw))
    &&& (r matches Err(e) ==> e == arity_error(ty) && post.polls@ == pre.polls@)
    &&& (r matches Ok(id) ==> {
        &&& id == pre.polls@.len() + 1
        &&& post.polls@.len() == pre.polls@.len() + 1
        &&& post.polls@.take(pre.polls@.len() as int) == pre.polls@
        &&& post.polls@.last().id == id
        &&& post.polls@.last().name@ == name
        &&& post.polls@.last().time_of_creation@ == now
        &&& opt_string_view(post.polls@.last().deadline) == deadline
        &&& post.polls@.last().fields.deep_view() == canonical_options(ty, raw)
        &&& post.polls@.last().ty == ty
    })
}

/// What `cast_vote` leaves behind: the verdict follows the admission spec
/// with its exact message; a rejected casting event changes nothing; an
/// admitted one appends one vote row per choice, in submission order, all
/// sharing the voter identity and one timestamp.
pub open spec fn cast_post(
    pre: Engine,
    post: Engine,
    id: int,
    voter: Option<Seq<char>>,
    choices: Seq<Seq<char>>,
    now_ms: int,
    now_str: Seq<char>,
    r: VoteResponse,
) -> bool {
    &&& post.wf()
    &&& r.success == pre.cast_admitted(id, voter, choices, now_ms)
    &&& r.message@ == pre.cast_message(id, voter, choices, now_ms)
    &&& post.polls@ == pre.polls@
    &&& (!r.success ==> post.votes@ == pre.votes@)
    &&& (r.success ==> {
        &&& post.votes@.len() == pre.votes@.len() + choices.len()
        &&& post.votes@.take(pre.votes@.len() as int) == pre.votes@
        &&& forall|k: int|
            0 <= k < choices.len() ==> {
                let row = #[trigger] post.votes@[pre.votes@.len() + k];
                &&& row.id == pre.votes@.len() + k + 1
                &&& row.timba_id == id
                &&& row.vote_choice@ == choices[k]
                &&& opt_string_view(row.voter_identifier) == voter
                &&& row.vote_time@ == now_str
            }
    })
}

impl Engine {
    /// Creates a poll: resolves and validates the option list, then
    /// appends the record and returns the assigned id; a refused
    /// definition writes nothing.
    pub fn create_timba(&mut self, name: &str, timba: &Timba, now: &str) -> (r: Result<
        i64,
        ValidationError,
    >)
        requires
            old(self).wf(),
            old(self).polls@.len() + 1 < 0x7fff_ffff_ffff_ffff,
        ensures
            create_post(
                *old(self),
                *final(self),
                name@,
                timba.ty,
                timba.fields.deep_view(),
                opt_string_view(timba.deadline),
                now@,
                r,
            ),
    {
        let fields = match resolve_options(&timba.ty, &timba.fields) {
            Ok(fields) => fields,
            Err(e) => {
                return Err(e);
            },
        };
        let id = (self.polls.len() as i64) + 1;
        let deadline = match timba.deadline.as_ref() {
            Some(d) => Some(d.clone()),
            None => None,
        };
        let record = PollRecord {
            id,
            name: name.to_owned(),
            time_of_creation: now.to_owned(),
            deadline,
            fields,
            ty: timba.ty,
        };
        self.polls.push(record);
        proof {
            assert(final(self).polls@.take(old(self).polls@.len() as int) =~= old(self).polls@);
        }
        Ok(id)
    }

    /// Runs the admission pipeline for one casting event and, if it is
    /// admitted, records one vote row per choice under one timestamp.
    pub fn cast_vote(
        &mut self,
        id: i64,
        voter: Option<&String>,
        req: &VoteRequest,
        now_ms: i64,
        now_str: &str,
    ) -> (r: VoteResponse)
        requires
            old(self).wf(),
            old(self).votes@.len() + req.choices@.len() < 0x7fff_ffff_ffff_ffff,
        ensures
            cast_post(
                *old(self),
                *final(self),
                id as int,
                opt_view(voter),
                req.choices.deep_view(),
                now_ms as int,
                now_str@,
                r,
            ),
    {
        if req.choices.len() == 0 {
            return VoteResponse {
                success: false,
                message: String::from_str("Debes proporcionar al menos una opcion"),
            };
        }
        if id < 1 || id > (self.polls.len() as i64) {
            return timba_not_found();
        }
        let idx = (id - 1) as usize;
        let already = match voter {
            Some(v) => self.voter_already(id, v),
            None => false,
        };
        let is_multiple = matches!(self.polls[idx].ty, TimbaType::Multiple);
        let ty_name = self.polls[idx].ty.to_string();
        let deadline_ref = self.polls[idx].deadline.as_ref();
        proof {
            assert(opt_view(deadline_ref) == opt_string_view(
                old(self).poll_at(id as int).deadline,
            ));
        }
        let verdict = admit_vote(
            &self.polls[idx].fields,
            is_multiple,
            &ty_name,
            deadline_ref,
            already,
            &req.choices,
            now_ms,
        );
        if !verdict.success {
            return verdict;
        }
        let ghost pre_votes = self.votes@;
        let mut k: usize = 0;
        while k < req.choices.len()
            invariant
                old(self).wf(),
                self.polls@ == old(self).polls@,
                pre_votes == old(self).votes@,
                k <= req.choices@.len(),
                pre_votes.len() + req.choices@.len() < 0x7fff_ffff_ffff_ffff,
                self.votes@.len() == pre_votes.len() + k,
                self.votes@.take(pre_votes.len() as int) == pre_votes,
                forall|m: int|
                    0 <= m < k ==> {
                        let row = #[trigger] self.votes@[pre_votes.len() + m];
                        &&& row.id == pre_votes.len() + m + 1
                        &&& row.timba_id == id
                        &&& row.vote_choice@ == req.choices@[m]@
                        &&& opt_string_view(row.voter_identifier) == opt_view(voter)
                        &&& row.vote_time@ == now_str@
                    },
            decreases req.choices@.len() - k,
        {
            let voter_identifier = match voter {
                Some(v) => Some(v.clone()),
                None => None,
            };
            let row = VoteRecord {
                id: (self.votes.len() as i64) + 1,
                timba_id: id,
                vote_choice: req.choices[k].clone(),
                voter_identifier,
                vote_time: now_str.to_owned(),
            };
            self.votes.push(row);
            proof {
                assert(self.votes@.take(pre_votes.len() as int) =~= pre_votes);
            }
            k = k + 1;
        }
        proof {
            let prelen = pre_votes.len() as int;
            assert(req.choices.deep_view().len() == req.choices@.len());
            assert forall|m: int|
                0 <= m < req.choices@.len() implies #[trigger] req.choices.deep_view()[m]
                == req.choices@[m]@ by {}
            assert forall|j2: int| 0 <= j2 < prelen implies self.votes@[j2] == pre_votes[j2] by {
                assert(self.votes@.take(prelen)[j2] == self.votes@[j2]);
            }
            assert forall|j2: int|
                0 <= j2 < self.votes@.len() implies (#[trigger] self.votes@[j2]).id == j2 + 1 by {
                if j2 >= prelen {
                    let m = j2 - prelen;
                    assert(self.votes@[prelen + m].id == prelen + m + 1);
                } else {
                    assert(self.votes@[j2] == pre_votes[j2]);
                    assert((old(self).votes@[j2]).id == j2 + 1);
                }
            }
        }
        verdict
    }

    /// Loads one poll with its aggregated results: one tally entry per
    /// canonical option value (zero counts included), the type tag
    /// rendered, and the total equal to the sum of the entries' counts.
    pub fn get_timba(&self, id: i64) -> (r: Option<TimbaInfo>)
        requires
            self.wf(),
        ensures
            r is Some <==> self.has_poll(id as int),
            r matches Some(info) ==> {
                let poll = self.poll_at(id as int);
                let cast = cast_for_seq(self.votes@, id as int);
                &&& info.id == id
                &&& info.name@ == poll.name@
                &&& info.time_of_creation@ == poll.time_of_creation@
                &&& opt_string_view(info.deadline) == opt_string_view(poll.deadline)
                &&& info.fields.deep_view() == poll.fields.deep_view()
                &&& info.ty@ == type_tag_str(poll.ty)
                &&& entry_choices(info.votes@) == dedup_keep_first(poll.fields.deep_view())
                &&& forall|k: int|
                    0 <= k < info.votes@.len() ==> (#[trigger] info.votes@[k]).count == count_of(
                        cast,
                        info.votes@[k].choice@,
                    )
                &&& info.total_votes == sum_counts(info.votes@)
                &&& 0 <= info.total_votes <= cast.len()
            },
    {
        if id < 1 || id > (self.polls.len() as i64) {
            return None;
        }
        let idx = (id - 1) as usize;
        let cast = self.cast_for(id);
        let (votes, total_votes) = aggregate_results(&self.polls[idx].fields, &cast);
        let deadline = match self.polls[idx].deadline.as_ref() {
            Some(d) => Some(d.clone()),
            None => None,
        };
        Some(
            TimbaInfo {
                id,
                name: self.polls[idx].name.clone(),
                time_of_creation: self.polls[idx].time_of_creation.clone(),
                deadline,
                fields: crate::resolver::clone_fields(&self.polls[idx].fields),
                ty: self.polls[idx].ty.to_string(),
                votes,
                total_votes,
            },
        )
    }

    /// Collects the choices of the vote rows of one poll, in store order.
    fn cast_for(&self, id: i64) -> (r: Vec<String>)
        requires
            self.wf(),
        ensures
            r.deep_view() == cast_for_seq(self.votes@, id as int),
            r@.len() <= self.votes@.len(),
    {
        let mut r: Vec<String> = Vec::new();
        let mut j: usize = 0;
        while j < self.votes.len()
            invariant
                j <= self.votes@.len(),
                r.deep_view() =~= cast_for_seq(self.votes@.take(j as int), id as int),
                r@.len() <= j,
            decreases self.votes@.len() - j,
        {
            proof {
                assert(self.votes@.take(j + 1).drop_last() =~= self.votes@.take(j as int));
                assert(self.votes@.take(j + 1).last() == self.votes@[j as int]);
            }
            if self.votes[j].timba_id == id {
                r.push(self.votes[j].vote_choice.clone());
            }
            proof {
                assert(r.deep_view() =~= cast_for_seq(self.votes@.take(j + 1), id as int));
            }
            j = j + 1;
        }
        proof {
            assert(self.votes@.take(self.votes@.len() as int) =~= self.votes@);
        }
        r
    }

    /// Corpus-wide statistics: the two record counts and the creation
    /// timestamps of the oldest and newest poll.
    pub fn get_stats(&self) -> (r: Stats)
        requires
            self.wf(),
        ensures
            r.total_timbas == self.polls@.len(),
            r.total_votes == self.votes@.len(),
            match r.oldest_timba {
                Some(s) => self.polls@.len() > 0 && s@ == self.polls@.first().time_of_creation@,
                None => self.polls@.len() == 0,
            },
            match r.newest_timba {
                Some(s) => self.polls@.len() > 0 && s@ == self.polls@.last().time_of_creation@,
                None => self.polls@.len() == 0,
            },
    {
        let total_timbas = self.polls.len() as i64;
        let total_votes = self.votes.len() as i64;
        if self.polls.len() == 0 {
            Stats { total_timbas, total_votes, oldest_timba: None, newest_timba: None }
        } else {
            Stats {
                total_timbas,
                total_votes,
                oldest_timba: Some(self.polls[0].time_of_creation.clone()),
                newest_timba: Some(self.polls[self.polls.len() - 1].time_of_creation.clone()),
            }
        }
    }

    /// Creates a poll with the current wall-clock time as its creation
    /// timestamp, as the service handler does.
    pub fn create_timba_now(&mut self, name: &str, timba: &Timba) -> (r: Result<
        i64,
        ValidationError,
    >)
        requires
            old(self).wf(),
            old(self).polls@.len() + 1 < 0x7fff_ffff_ffff_ffff,
        ensures
            exists|now: Seq<char>|
                create_post(
                    *old(self),
                    *final(self),
                    name@,
                    timba.ty,
                    timba.fields.deep_view(),
                    opt_string_view(timba.deadline),
                    now,
                    r,
                ),
    {
        let now = now_rfc3339();
        let r = self.create_timba(name, timba, now.as_str());
        proof {
            assert(create_post(
                *old(self),
                *final(self),
                name@,
                timba.ty,
                timba.fields.deep_view(),
                opt_string_view(timba.deadline),
                now@,
                r,
            ));
        }
        r
    }

    /// Casts a vote at the current wall-clock time, as the service
    /// handler does.
    pub fn cast_vote_now(&mut self, id: i64, voter: Option<&String>, req: &VoteRequest) -> (r:
        VoteResponse)
        requires
            old(self).wf(),
            old(self).votes@.len() + req.choices@.len() < 0x7fff_ffff_ffff_ffff,
        ensures
            exists|now_ms: int, now_str: Seq<char>|
                cast_post(
                    *old(self),
                    *final(self),
                    id as int,
                    opt_view(voter),
                    req.choices.deep_view(),
                    now_ms,
                    now_str,
                    r,
                ),
    {
        let now_ms = now_epoch_ms();
        let now_str = now_rfc3339();
        let r = self.cast_vote(id, voter, req, now_ms, now_str.as_str());
        proof {
            assert(cast_post(
                *old(self),
                *final(self),
                id as int,
                opt_view(voter),
                req.choices.deep_view(),
                now_ms as int,
                now_str@,
                r,
            ));
        }
        r
    }

    /// The newest polls, newest first, at most `LATEST_CAP` of them.
    pub fn get_latest(&self) -> (r: Vec<TimbaCreatedEvent>)
        requires
            self.wf(),
        ensures
            r@.len() == if self.polls@.len() < LATEST_CAP {
                self.polls@.len() as int
            } else {
                LATEST_CAP as int
            },
            forall|k: int|
                0 <= k < r@.len() ==> {
                    let poll = self.polls@[self.polls@.len() - 1 - k];
                    &&& (#[trigger] r@[k]).id == poll.id
                    &&& r@[k].name@ == poll.name@
                    &&& r@[k].time_of_creation@ == poll.time_of_creation@
                },
    {
        let n = self.polls.len();
        let cap = if n < LATEST_CAP {
            n
        } else {
            LATEST_CAP
        };
        let mut r: Vec<TimbaCreatedEvent> = Vec::new();
        let mut k: usize = 0;
        while k < cap
            invariant
                self.wf(),
                n == self.polls@.len(),
                cap <= n,
                k <= cap,
                r@.len() == k,
                forall|m: int|
                    0 <= m < k ==> {
                        let poll = self.polls@[self.polls@.len() - 1 - m];
                        &&& (#[trigger] r@[m]).id == poll.id
                        &&& r@[m].name@ == poll.name@
                        &&& r@[m].time_of_creation@ == poll.time_of_creation@
                    },
            decreases cap - k,
        {
            let poll = &self.polls[n - 1 - k];
            r.push(
                TimbaCreatedEvent {
                    id: poll.id,
                    name: poll.name.clone(),
                    time_of_creation: poll.time_of_creation.clone(),
                },
            );
            k = k + 1;
        }
        r
    }
}

/// A voter identity with a recorded cast for a poll is rejected on any
/// further cast to it, whatever the chosen options and the time.
pub proof fn lemma_second_cast_rejected(
    e: Engine,
    id: int,
    voter: Seq<char>,
    choices: Seq<Seq<char>>,
    now_ms: int,
)
    requires
        e.voter_has_cast(id, voter),
    ensures
        !e.cast_admitted(id, Some(voter), choices, now_ms),
{
}

/// An admitted casting event under a present voter identity leaves a
/// recorded cast behind, so the same identity cannot be admitted to the
/// same poll again — and a rejected attempt writes no vote rows at all.
pub proof fn lemma_no_second_cast(
    pre: Engine,
    post: Engine,
    r: VoteResponse,
    id: int,
    voter: Seq<char>,
    choices: Seq<Seq<char>>,
    now_ms: int,
    now_str: Seq<char>,
    later_choices: Seq<Seq<char>>,
    later_now_ms: int,
)
    requires
        cast_post(pre, post, id, Some(voter), choices, now_ms, now_str, r),
    ensures
        r.success ==> !post.cast_admitted(id, Some(voter), later_choices, later_now_ms),
        !r.success ==> post.votes@ == pre.votes@,
{
    if r.success {
        assert(choices.len() > 0);
        let row = post.votes@[pre.votes@.len() as int + 0];
        assert(row.timba_id == id && opt_string_view(row.voter_identifier) == Some(voter));
        let j = pre.votes@.len() as int;
        assert(post.votes@[j] == row);
        assert(post.votes@[j].voter_identifier matches Some(v) && v@ == voter);
        assert(post.voter_has_cast(id, voter));
        lemma_second_cast_rejected(post, id, voter, later_choices, later_now_ms);
    }
}

/// A cast after a poll's parseable deadline is rejected for every voter,
/// even one with no recorded cast.
pub proof fn lemma_deadline_closes_poll(
    e: Engine,
    id: int,
    voter: Option<Seq<char>>,
    choices: Seq<Seq<char>>,
    now_ms: int,
    deadline_ms: int,
)
    requires
        e.has_poll(id),
        e.poll_at(id).deadline matches Some(d) && crate::clock::rfc3339_epoch_ms(d@) == Some(
            deadline_ms,
        ),
        now_ms > deadline_ms,
    ensures
        !e.cast_admitted(id, voter, choices, now_ms),
{
}

} // verus!
