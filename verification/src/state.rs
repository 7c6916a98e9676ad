//! The engine's state: configuration, the voter weight registry, the proposal
//! store and the ballot ledger, together with the store's well-formedness
//! invariant and the lemmas about weight sums that the lifecycle operations
//! rest on.

use vstd::prelude::*;
use crate::proposal::{
    Duration, Proposal, Threshold, Vote, spec_threshold_valid, spec_votes_total,
};

verus! {

/// An identity with an associated integer weight granting voting and
/// proposing rights. Weight 0 is legal but confers no rights.
#[derive(Debug, PartialEq, Eq)]
pub struct Voter {
    pub addr: String,
    pub weight: u64,
}

/// Immutable-after-init configuration: the threshold policy, the default
/// voting period, and the total weight frozen at initialization. Removing a
/// voter later does not rebalance `total_weight`.
#[derive(Clone, Copy, Debug, PartialEq, Eq, Structural)]
pub struct Config {
    pub threshold: Threshold,
    pub total_weight: u64,
    pub max_voting_period: Duration,
}

/// One voter's recorded choice, with the weight they carried when voting.
#[derive(Clone, Copy, Debug, PartialEq, Eq, Structural)]
pub struct Ballot {
    pub weight: u64,
    pub vote: Vote,
}

/// A ledger entry: one ballot, keyed by (proposal id, voter identity).
/// Write-once; entries persist as the audit trail and are never deleted.
#[derive(Debug, PartialEq, Eq)]
pub struct BallotRecord {
    pub proposal_id: u64,
    pub voter: String,
    pub ballot: Ballot,
}

/// The whole persisted state of the engine. Proposal ids are allocated
/// monotonically starting at 1; the proposal with id `i` sits at index
/// `i - 1`, so ids are strictly increasing and never reused.
#[derive(Debug)]
pub struct MultisigStore {
    pub config: Config,
    pub voters: Vec<Voter>,
    pub proposals: Vec<Proposal>,
    pub ballots: Vec<BallotRecord>,
    pub proposal_count: u64,
}

/// The weight registered for `a`, scanning from the front.
pub open spec fn spec_lookup_weight(vs: Seq<Voter>, a: Seq<char>) -> Option<u64>
    decreases vs.len(),
{
    if vs.len() == 0 {
        None
    } else if vs[0].addr@ == a {
        Some(vs[0].weight)
    } else {
        spec_lookup_weight(vs.drop_first(), a)
    }
}

/// Whether `a` is a qualified voter: registered with weight at least 1.
pub open spec fn spec_is_voter(vs: Seq<Voter>, a: Seq<char>) -> bool {
    match spec_lookup_weight(vs, a) {
        Some(w) => w >= 1,
        None => false,
    }
}

/// No identity is registered twice.
pub open spec fn voters_unique(vs: Seq<Voter>) -> bool {
    forall|i: int, j: int|
        0 <= i < j < vs.len() ==> (#[trigger] vs[i]).addr@ != (#[trigger] vs[j]).addr@
}

/// Total weight registered.
pub open spec fn sum_weights(vs: Seq<Voter>) -> int
    decreases vs.len(),
{
    if vs.len() == 0 {
        0
    } else {
        vs[0].weight + sum_weights(vs.drop_first())
    }
}

/// Whether the ledger holds a ballot for the (proposal, voter) pair.
pub open spec fn spec_has_ballot(bs: Seq<BallotRecord>, pid: u64, a: Seq<char>) -> bool {
    exists|i: int|
        0 <= i < bs.len() && (#[trigger] bs[i]).proposal_id == pid && bs[i].voter@ == a
}

/// No (proposal, voter) pair holds two ballots.
pub open spec fn ballots_unique(bs: Seq<BallotRecord>) -> bool {
    forall|i: int, j: int|
        0 <= i < j < bs.len() ==> !((#[trigger] bs[i]).proposal_id == (#[trigger] bs[j]).proposal_id
            && bs[i].voter@ == bs[j].voter@)
}

/// The weight still uncommitted on proposal `pid`: the sum over currently
/// registered voters who have no ballot on it.
pub open spec fn sum_unvoted(vs: Seq<Voter>, bs: Seq<BallotRecord>, pid: u64) -> int
    decreases vs.len(),
{
    if vs.len() == 0 {
        0
    } else {
        (if !spec_has_ballot(bs, pid, vs[0].addr@) {
            vs[0].weight as int
        } else {
            0
        }) + sum_unvoted(vs.drop_first(), bs, pid)
    }
}

impl MultisigStore {
    /// One proposal's relation to the store: its snapshot equals the frozen
    /// configuration total, its threshold is reachable, and its tally plus
    /// the weight still free to vote on it never exceeds the snapshot.
    pub open spec fn proposal_ok(self, i: int) -> bool {
        &&& self.proposals@[i].total_weight == self.config.total_weight
        &&& spec_threshold_valid(
            self.proposals@[i].threshold, self.proposals@[i].total_weight as int)
        &&& spec_votes_total(self.proposals@[i].votes)
            + sum_unvoted(self.voters@, self.ballots@, (i + 1) as u64)
            <= self.proposals@[i].total_weight
    }

    /// The store's invariant, established by `instantiate` and preserved by
    /// every operation.
    pub open spec fn wf(self) -> bool {
        &&& spec_threshold_valid(self.config.threshold, self.config.total_weight as int)
        &&& voters_unique(self.voters@)
        &&& sum_weights(self.voters@) <= self.config.total_weight
        &&& self.proposal_count == self.proposals@.len()
        &&& forall|i: int| 0 <= i < self.proposals@.len() ==> #[trigger] self.proposal_ok(i)
        &&& forall|i: int| 0 <= i < self.ballots@.len()
            ==> 1 <= (#[trigger] self.ballots@[i]).proposal_id <= self.proposal_count
        &&& ballots_unique(self.ballots@)
    }

    /// The weight registered for `addr`, if any.
    pub fn voter_weight(&self, addr: &String) -> (r: Option<u64>)
        ensures
            r == spec_lookup_weight(self.voters@, addr@),
    {
        let n = self.voters.len();
        assert(self.voters@.skip(0) =~= self.voters@);
        for i in 0..n
            invariant
                n == self.voters@.len(),
                spec_lookup_weight(self.voters@.skip(i as int), addr@)
                    == spec_lookup_weight(self.voters@, addr@),
        {
            assert(self.voters@.skip(i as int)[0] == self.voters@[i as int]);
            if self.voters[i].addr == *addr {
                return Some(self.voters[i].weight);
            }
            assert(self.voters@.skip(i as int).drop_first()
                =~= self.voters@.skip(i + 1));
        }
        assert(self.voters@.skip(n as int) =~= Seq::<Voter>::empty());
        None
    }

    /// The index of the entry registered for `addr`, if any.
    pub fn find_voter_index(&self, addr: &String) -> (r: Option<usize>)
        ensures
            match r {
                Some(k) => k < self.voters@.len() && self.voters@[k as int].addr@ == addr@
                    && spec_lookup_weight(self.voters@, addr@)
                        == Some(self.voters@[k as int].weight),
                None => spec_lookup_weight(self.voters@, addr@) is None,
            },
    {
        find_index(&self.voters, addr)
    }

    /// Whether the ledger already holds a ballot for the pair.
    pub fn has_ballot(&self, proposal_id: u64, addr: &String) -> (r: bool)
        ensures
            r == spec_has_ballot(self.ballots@, proposal_id, addr@),
    {
        let n = self.ballots.len();
        for i in 0..n
            invariant
                n == self.ballots@.len(),
                forall|j: int| 0 <= j < i
                    ==> !((#[trigger] self.ballots@[j]).proposal_id == proposal_id
                        && self.ballots@[j].voter@ == addr@),
        {
            if self.ballots[i].proposal_id == proposal_id
                && self.ballots[i].voter == *addr {
                return true;
            }
        }
        false
    }
}

/// The index of the entry registered for `addr` in a voter list, if any.
pub fn find_index(vs: &Vec<Voter>, addr: &String) -> (r: Option<usize>)
    ensures
        match r {
            Some(k) => k < vs@.len() && vs@[k as int].addr@ == addr@
                && spec_lookup_weight(vs@, addr@) == Some(vs@[k as int].weight),
            None => spec_lookup_weight(vs@, addr@) is None,
        },
{
    let n = vs.len();
    assert(vs@.skip(0) =~= vs@);
    for i in 0..n
        invariant
            n == vs@.len(),
            spec_lookup_weight(vs@.skip(i as int), addr@)
                == spec_lookup_weight(vs@, addr@),
    {
        assert(vs@.skip(i as int)[0] == vs@[i as int]);
        if vs[i].addr == *addr {
            return Some(i);
        }
        assert(vs@.skip(i as int).drop_first() =~= vs@.skip(i + 1));
    }
    assert(vs@.skip(n as int) =~= Seq::<Voter>::empty());
    None
}

/// The weight the last entry for `a` in the raw initialization list carries,
/// if the list names `a` at all: a later entry overwrites an earlier one.
pub open spec fn spec_last_weight(vs: Seq<Voter>, a: Seq<char>) -> Option<u64>
    decreases vs.len(),
{
    if vs.len() == 0 {
        None
    } else if vs.last().addr@ == a {
        Some(vs.last().weight)
    } else {
        spec_last_weight(vs.drop_last(), a)
    }
}

/// Allocates the next proposal id: one past the number of proposals ever
/// created, so ids start at 1 and strictly increase.
pub fn next_id(store: &mut MultisigStore) -> (r: u64)
    requires
        old(store).proposal_count < u64::MAX,
    ensures
        r == old(store).proposal_count + 1,
        *final(store) == (MultisigStore {
            proposal_count: r,
            ..*old(store)
        }),
{
    let id = store.proposal_count + 1;
    store.proposal_count = id;
    id
}

// ---------------------------------------------------------------------------
// Lemmas about the weight sums. All are by induction on the voter sequence.
// ---------------------------------------------------------------------------

pub proof fn lemma_sum_weights_nonneg(vs: Seq<Voter>)
    ensures
        sum_weights(vs) >= 0,
    decreases vs.len(),
{
    if vs.len() > 0 {
        lemma_sum_weights_nonneg(vs.drop_first());
    }
}

pub proof fn lemma_sum_unvoted_nonneg(vs: Seq<Voter>, bs: Seq<BallotRecord>, pid: u64)
    ensures
        sum_unvoted(vs, bs, pid) >= 0,
    decreases vs.len(),
{
    if vs.len() > 0 {
        lemma_sum_unvoted_nonneg(vs.drop_first(), bs, pid);
    }
}

/// The uncommitted weight depends only on which voters hold a ballot.
pub proof fn lemma_sum_unvoted_congruence(
    vs: Seq<Voter>, b1: Seq<BallotRecord>, p1: u64, b2: Seq<BallotRecord>, p2: u64,
)
    requires
        forall|i: int| 0 <= i < vs.len()
            ==> spec_has_ballot(b1, p1, (#[trigger] vs[i]).addr@)
                == spec_has_ballot(b2, p2, vs[i].addr@),
    ensures
        sum_unvoted(vs, b1, p1) == sum_unvoted(vs, b2, p2),
    decreases vs.len(),
{
    if vs.len() > 0 {
        assert(vs[0] == vs[0]);
        assert forall|i: int| 0 <= i < vs.drop_first().len()
            implies spec_has_ballot(b1, p1, (#[trigger] vs.drop_first()[i]).addr@)
                == spec_has_ballot(b2, p2, vs.drop_first()[i].addr@) by {
            assert(vs.drop_first()[i] == vs[i + 1]);
        }
        lemma_sum_unvoted_congruence(vs.drop_first(), b1, p1, b2, p2);
    }
}

/// Where the ledger holds no ballot at all for `pid`, the whole registered
/// weight is uncommitted.
pub proof fn lemma_sum_unvoted_no_ballots(vs: Seq<Voter>, bs: Seq<BallotRecord>, pid: u64)
    requires
        forall|i: int| 0 <= i < bs.len() ==> (#[trigger] bs[i]).proposal_id != pid,
    ensures
        sum_unvoted(vs, bs, pid) == sum_weights(vs),
    decreases vs.len(),
{
    if vs.len() > 0 {
        assert(!spec_has_ballot(bs, pid, vs[0].addr@));
        lemma_sum_unvoted_no_ballots(vs.drop_first(), bs, pid);
    }
}

/// Appending a ballot for `pid` and a voter leaves every other pair's
/// standing unchanged.
pub proof fn lemma_has_ballot_push(
    bs: Seq<BallotRecord>, rec: BallotRecord, pid: u64, a: Seq<char>,
)
    ensures
        spec_has_ballot(bs.push(rec), pid, a)
            == (spec_has_ballot(bs, pid, a) || (rec.proposal_id == pid && rec.voter@ == a)),
{
    if spec_has_ballot(bs, pid, a) {
        let i = choose|i: int|
            0 <= i < bs.len() && (#[trigger] bs[i]).proposal_id == pid && bs[i].voter@ == a;
        assert(bs.push(rec)[i] == bs[i]);
    }
    if rec.proposal_id == pid && rec.voter@ == a {
        assert(bs.push(rec)[bs.len() as int] == rec);
    }
    if spec_has_ballot(bs.push(rec), pid, a) {
        let i = choose|i: int|
            0 <= i < bs.push(rec).len() && (#[trigger] bs.push(rec)[i]).proposal_id == pid
                && bs.push(rec)[i].voter@ == a;
        if i < bs.len() {
            assert(bs[i] == bs.push(rec)[i]);
        } else {
            assert(bs.push(rec)[i] == rec);
        }
    }
}

/// Recording the ballot of voter `k` on `pid` moves exactly that voter's
/// weight out of the uncommitted sum.
pub proof fn lemma_sum_unvoted_push_ballot(
    vs: Seq<Voter>, bs: Seq<BallotRecord>, pid: u64, k: int, rec: BallotRecord,
)
    requires
        voters_unique(vs),
        0 <= k < vs.len(),
        rec.proposal_id == pid,
        rec.voter@ == vs[k].addr@,
        !spec_has_ballot(bs, pid, vs[k].addr@),
    ensures
        sum_unvoted(vs, bs.push(rec), pid) == sum_unvoted(vs, bs, pid) - vs[k].weight,
    decreases vs.len(),
{
    lemma_has_ballot_push(bs, rec, pid, vs[0].addr@);
    if k == 0 {
        assert(spec_has_ballot(bs.push(rec), pid, vs[0].addr@));
        assert forall|i: int| 0 <= i < vs.drop_first().len()
            implies spec_has_ballot(bs.push(rec), pid, (#[trigger] vs.drop_first()[i]).addr@)
                == spec_has_ballot(bs, pid, vs.drop_first()[i].addr@) by {
            assert(vs.drop_first()[i] == vs[i + 1]);
            assert(vs[i + 1].addr@ != vs[0].addr@);
            lemma_has_ballot_push(bs, rec, pid, vs[i + 1].addr@);
        }
        lemma_sum_unvoted_congruence(vs.drop_first(), bs.push(rec), pid, bs, pid);
    } else {
        assert(vs[0].addr@ != vs[k].addr@);
        lemma_has_ballot_push(bs, rec, pid, vs[0].addr@);
        assert(spec_has_ballot(bs.push(rec), pid, vs[0].addr@)
            == spec_has_ballot(bs, pid, vs[0].addr@));
        assert forall|i: int, j: int| 0 <= i < j < vs.drop_first().len()
            implies (#[trigger] vs.drop_first()[i]).addr@
                != (#[trigger] vs.drop_first()[j]).addr@ by {
            assert(vs.drop_first()[i] == vs[i + 1]);
            assert(vs.drop_first()[j] == vs[j + 1]);
        }
        assert(vs.drop_first()[k - 1] == vs[k]);
        lemma_sum_unvoted_push_ballot(vs.drop_first(), bs, pid, k - 1, rec);
    }
}

/// An unvoted registered voter's weight is within the uncommitted sum.
pub proof fn lemma_weight_le_sum_unvoted(
    vs: Seq<Voter>, bs: Seq<BallotRecord>, pid: u64, k: int,
)
    requires
        0 <= k < vs.len(),
        !spec_has_ballot(bs, pid, vs[k].addr@),
    ensures
        vs[k].weight <= sum_unvoted(vs, bs, pid),
    decreases vs.len(),
{
    lemma_sum_unvoted_nonneg(vs.drop_first(), bs, pid);
    if k > 0 {
        assert(vs.drop_first()[k - 1] == vs[k]);
        lemma_weight_le_sum_unvoted(vs.drop_first(), bs, pid, k - 1);
    }
}

/// Removing the voter at `k` lowers the registered total by exactly that
/// voter's weight.
pub proof fn lemma_sum_weights_remove(vs: Seq<Voter>, k: int)
    requires
        0 <= k < vs.len(),
    ensures
        sum_weights(vs.remove(k)) == sum_weights(vs) - vs[k].weight,
    decreases vs.len(),
{
    if k == 0 {
        assert(vs.remove(0) =~= vs.drop_first());
    } else {
        assert(vs.remove(k).drop_first() =~= vs.drop_first().remove(k - 1));
        assert(vs.drop_first()[k - 1] == vs[k]);
        lemma_sum_weights_remove(vs.drop_first(), k - 1);
    }
}

/// Removing the voter at `k` lowers the uncommitted sum by that voter's
/// contribution, whatever it was.
pub proof fn lemma_sum_unvoted_remove(
    vs: Seq<Voter>, bs: Seq<BallotRecord>, pid: u64, k: int,
)
    requires
        0 <= k < vs.len(),
    ensures
        sum_unvoted(vs.remove(k), bs, pid) == sum_unvoted(vs, bs, pid)
            - (if !spec_has_ballot(bs, pid, vs[k].addr@) { vs[k].weight as int } else { 0 }),
    decreases vs.len(),
{
    if k == 0 {
        assert(vs.remove(0) =~= vs.drop_first());
    } else {
        assert(vs.remove(k).drop_first() =~= vs.drop_first().remove(k - 1));
        assert(vs.remove(k)[0] == vs[0]);
        assert(vs.drop_first()[k - 1] == vs[k]);
        lemma_sum_unvoted_remove(vs.drop_first(), bs, pid, k - 1);
    }
}

/// Appending a voter raises the registered total by that voter's weight.
pub proof fn lemma_sum_weights_push(vs: Seq<Voter>, v: Voter)
    ensures
        sum_weights(vs.push(v)) == sum_weights(vs) + v.weight,
    decreases vs.len(),
{
    if vs.len() == 0 {
        assert(vs.push(v)[0] == v);
        assert(vs.push(v).drop_first() =~= Seq::<Voter>::empty());
        assert(sum_weights(vs.push(v))
            == v.weight + sum_weights(Seq::<Voter>::empty()));
    } else {
        assert(vs.push(v)[0] == vs[0]);
        assert(vs.push(v).drop_first() =~= vs.drop_first().push(v));
        lemma_sum_weights_push(vs.drop_first(), v);
        assert(sum_weights(vs.push(v))
            == vs[0].weight + sum_weights(vs.drop_first().push(v)));
    }
}

/// Replacing the voter at `k` swaps its weight for the new one in the total.
pub proof fn lemma_sum_weights_update(vs: Seq<Voter>, k: int, v: Voter)
    requires
        0 <= k < vs.len(),
    ensures
        sum_weights(vs.update(k, v)) == sum_weights(vs) - vs[k].weight + v.weight,
    decreases vs.len(),
{
    if k == 0 {
        assert(vs.update(0, v)[0] == v);
        assert(vs.update(0, v).drop_first() =~= vs.drop_first());
    } else {
        assert(vs.update(k, v)[0] == vs[0]);
        assert(vs.update(k, v).drop_first() =~= vs.drop_first().update(k - 1, v));
        assert(vs.drop_first()[k - 1] == vs[k]);
        lemma_sum_weights_update(vs.drop_first(), k - 1, v);
    }
}

/// Splitting the voter sequence splits the registered total.
pub proof fn lemma_sum_weights_split(vs: Seq<Voter>, i: int)
    requires
        0 <= i <= vs.len(),
    ensures
        sum_weights(vs.take(i)) + sum_weights(vs.skip(i)) == sum_weights(vs),
    decreases i,
{
    if i == 0 {
        assert(vs.take(0) =~= Seq::<Voter>::empty());
        assert(vs.skip(0) =~= vs);
    } else {
        assert(vs.take(i)[0] == vs[0]);
        assert(vs.take(i).drop_first() =~= vs.drop_first().take(i - 1));
        assert(vs.skip(i) =~= vs.drop_first().skip(i - 1));
        lemma_sum_weights_split(vs.drop_first(), i - 1);
    }
}

/// A lookup that fails means no entry carries the identity.
pub proof fn lemma_lookup_none_no_match(vs: Seq<Voter>, a: Seq<char>)
    requires
        spec_lookup_weight(vs, a) is None,
    ensures
        forall|j: int| 0 <= j < vs.len() ==> (#[trigger] vs[j]).addr@ != a,
    decreases vs.len(),
{
    if vs.len() > 0 {
        lemma_lookup_none_no_match(vs.drop_first(), a);
        assert forall|j: int| 0 <= j < vs.len() implies (#[trigger] vs[j]).addr@ != a by {
            if j > 0 {
                assert(vs.drop_first()[j - 1] == vs[j]);
            }
        }
    }
}

/// A lookup that succeeds names some entry; this returns its index.
pub proof fn lemma_lookup_some_index(vs: Seq<Voter>, a: Seq<char>) -> (k: int)
    requires
        spec_lookup_weight(vs, a) is Some,
    ensures
        0 <= k < vs.len(),
        vs[k].addr@ == a,
        spec_lookup_weight(vs, a) == Some(vs[k].weight),
    decreases vs.len(),
{
    if vs[0].addr@ == a {
        0
    } else {
        let k0 = lemma_lookup_some_index(vs.drop_first(), a);
        assert(vs.drop_first()[k0] == vs[k0 + 1]);
        k0 + 1
    }
}

/// What a lookup sees after appending a voter.
pub proof fn lemma_lookup_push(vs: Seq<Voter>, v: Voter, a: Seq<char>)
    ensures
        spec_lookup_weight(vs.push(v), a) == (match spec_lookup_weight(vs, a) {
            Some(w) => Some(w),
            None => if v.addr@ == a { Some(v.weight) } else { None::<u64> },
        }),
    decreases vs.len(),
{
    if vs.len() == 0 {
        assert(vs.push(v)[0] == v);
        assert(vs.push(v).drop_first() =~= Seq::<Voter>::empty());
        if v.addr@ != a {
            assert(spec_lookup_weight(vs.push(v), a)
                == spec_lookup_weight(Seq::<Voter>::empty(), a));
        }
    } else {
        assert(vs.push(v)[0] == vs[0]);
        assert(vs.push(v).drop_first() =~= vs.drop_first().push(v));
        lemma_lookup_push(vs.drop_first(), v, a);
        if vs[0].addr@ != a {
            assert(spec_lookup_weight(vs.push(v), a)
                == spec_lookup_weight(vs.drop_first().push(v), a));
        }
    }
}

/// What a lookup sees after replacing the unique entry holding `v`'s
/// identity.
pub proof fn lemma_lookup_update(vs: Seq<Voter>, k: int, v: Voter, a: Seq<char>)
    requires
        voters_unique(vs),
        0 <= k < vs.len(),
        vs[k].addr@ == v.addr@,
    ensures
        spec_lookup_weight(vs.update(k, v), a) == (if v.addr@ == a {
            Some(v.weight)
        } else {
            spec_lookup_weight(vs, a)
        }),
    decreases vs.len(),
{
    if k == 0 {
        assert(vs.update(0, v)[0] == v);
        assert(vs.update(0, v).drop_first() =~= vs.drop_first());
        if v.addr@ == a && vs[0].addr@ != a {
            assert(false);
        }
    } else {
        assert(vs.update(k, v)[0] == vs[0]);
        assert(vs.update(k, v).drop_first() =~= vs.drop_first().update(k - 1, v));
        assert(vs.drop_first()[k - 1] == vs[k]);
        assert forall|i: int, j: int| 0 <= i < j < vs.drop_first().len()
            implies (#[trigger] vs.drop_first()[i]).addr@
                != (#[trigger] vs.drop_first()[j]).addr@ by {
            assert(vs.drop_first()[i] == vs[i + 1]);
            assert(vs.drop_first()[j] == vs[j + 1]);
        }
        lemma_lookup_update(vs.drop_first(), k - 1, v, a);
        assert(vs[0].addr@ != vs[k].addr@);
    }
}

} // verus!
