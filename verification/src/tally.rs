//! The tally arithmetic shared by finalization and the read-only projections:
//! the maximum vote count, how many options attain it, and the resolution of
//! a tally to a passed or rejected status.

use vstd::prelude::*;
use crate::types::{ProposalStatus, QuorumThreshold};

verus! {

/// The largest count in `s`, or 0 when `s` is empty.
pub open spec fn seq_max(s: Seq<u128>) -> u128
    decreases s.len(),
{
    if s.len() == 0 {
        0
    } else {
        let m = seq_max(s.drop_last());
        if s.last() > m {
            s.last()
        } else {
            m
        }
    }
}

/// How many entries of `s` equal `v`.
pub open spec fn count_of(s: Seq<u128>, v: u128) -> nat
    decreases s.len(),
{
    if s.len() == 0 {
        0
    } else {
        count_of(s.drop_last(), v) + if s.last() == v {
            1nat
        } else {
            0nat
        }
    }
}

/// A tally has a unique winner when some votes were cast and exactly one
/// option attains the maximum count.
pub open spec fn has_winner(s: Seq<u128>) -> bool {
    seq_max(s) > 0 && count_of(s, seq_max(s)) == 1
}

/// The index of the winning option of a tally with a unique winner.
pub open spec fn winner_index(s: Seq<u128>) -> int
    recommends
        has_winner(s),
{
    choose|i: int| 0 <= i < s.len() && s[i] == seq_max(s)
}

/// The status a finalized tally resolves to: rejected when quorum was
/// missed, when the maximum is tied, or when no votes were cast at all;
/// passed only for a unique winner with at least one vote.
pub open spec fn decided_status(s: Seq<u128>, quorum_ok: bool) -> ProposalStatus {
    if !quorum_ok {
        ProposalStatus::Rejected
    } else if seq_max(s) > 0 && count_of(s, seq_max(s)) > 1 {
        ProposalStatus::Rejected
    } else if seq_max(s) > 0 {
        ProposalStatus::Passed
    } else {
        ProposalStatus::Rejected
    }
}

/// The winning label and count of a tally, or `None` on a tie or when no
/// votes were cast.
pub open spec fn winning(s: Seq<u128>, options: Seq<Seq<char>>) -> Option<(Seq<char>, u128)> {
    if has_winner(s) {
        Some((options[winner_index(s)], seq_max(s)))
    } else {
        None
    }
}

/// The number of votes a proposal needs to reach quorum: the threshold
/// percentage of all registered voters, with truncating division.
pub open spec fn required_votes(total_registered: u32, q: QuorumThreshold) -> u32 {
    ((total_registered * q.spec_percent()) / 100) as u32
}

/// Every entry of a tally is bounded by its maximum.
pub proof fn lemma_seq_max_bound(s: Seq<u128>)
    ensures
        forall|i: int| 0 <= i < s.len() ==> s[i] <= seq_max(s),
    decreases s.len(),
{
    if s.len() > 0 {
        lemma_seq_max_bound(s.drop_last());
        assert(forall|i: int| 0 <= i < s.len() - 1 ==> s[i] == s.drop_last()[i]);
    }
}

/// A positive maximum is attained by some entry.
pub proof fn lemma_seq_max_attained(s: Seq<u128>)
    requires
        seq_max(s) > 0,
    ensures
        exists|i: int| 0 <= i < s.len() && s[i] == seq_max(s),
    decreases s.len(),
{
    if s.last() == seq_max(s) {
        assert(s[s.len() - 1] == seq_max(s));
    } else {
        lemma_seq_max_attained(s.drop_last());
        let i = choose|i: int| 0 <= i < s.len() - 1 && s.drop_last()[i] == seq_max(s.drop_last());
        assert(s[i] == seq_max(s));
    }
}

/// A value that no entry holds has count zero.
pub proof fn lemma_count_of_zero(s: Seq<u128>, v: u128)
    requires
        forall|i: int| 0 <= i < s.len() ==> s[i] != v,
    ensures
        count_of(s, v) == 0,
    decreases s.len(),
{
    if s.len() > 0 {
        assert(forall|i: int| 0 <= i < s.len() - 1 ==> s.drop_last()[i] == s[i]);
        lemma_count_of_zero(s.drop_last(), v);
    }
}

/// An entry that holds `v` makes the count of `v` positive.
pub proof fn lemma_count_of_ge_one(s: Seq<u128>, v: u128, i: int)
    requires
        0 <= i < s.len(),
        s[i] == v,
    ensures
        count_of(s, v) >= 1,
    decreases s.len(),
{
    if i < s.len() - 1 {
        assert(s.drop_last()[i] == s[i]);
        lemma_count_of_ge_one(s.drop_last(), v, i);
    }
}

/// Two distinct entries that hold `v` make the count of `v` at least two.
pub proof fn lemma_count_of_ge_two(s: Seq<u128>, v: u128, i: int, j: int)
    requires
        0 <= i < j < s.len(),
        s[i] == v,
        s[j] == v,
    ensures
        count_of(s, v) >= 2,
    decreases s.len(),
{
    if j == s.len() - 1 {
        assert(s.drop_last()[i] == s[i]);
        lemma_count_of_ge_one(s.drop_last(), v, i);
    } else {
        assert(s.drop_last()[i] == s[i]);
        assert(s.drop_last()[j] == s[j]);
        lemma_count_of_ge_two(s.drop_last(), v, i, j);
    }
}

/// When exactly one entry holds `v`, any two indices holding `v` coincide.
pub proof fn lemma_count_of_one_unique(s: Seq<u128>, v: u128, i: int, j: int)
    requires
        count_of(s, v) == 1,
        0 <= i < s.len(),
        0 <= j < s.len(),
        s[i] == v,
        s[j] == v,
    ensures
        i == j,
{
    if i < j {
        lemma_count_of_ge_two(s, v, i, j);
    } else if j < i {
        lemma_count_of_ge_two(s, v, j, i);
    }
}

/// Scans a tally once, as finalization does: returns the maximum count, the
/// number of options attaining it (0 when the maximum is 0), and the first
/// index attaining it (meaningful only when the maximum is positive).
pub fn scan_tally(counts: &Vec<u128>) -> (r: (u128, usize, usize))
    ensures
        r.0 == seq_max(counts@),
        r.0 > 0 ==> r.1 == count_of(counts@, r.0),
        r.0 == 0 ==> r.1 == 0,
        r.0 > 0 ==> r.2 < counts@.len() && counts@[r.2 as int] == r.0 && (forall|j: int|
            0 <= j < r.2 ==> counts@[j] < r.0),
{
    let mut max_votes: u128 = 0;
    let mut tie_count: usize = 0;
    let mut win_idx: usize = 0;
    let mut i: usize = 0;
    while i < counts.len()
        invariant
            i <= counts@.len(),
            tie_count <= i,
            max_votes == seq_max(counts@.take(i as int)),
            max_votes > 0 ==> tie_count == count_of(counts@.take(i as int), max_votes),
            max_votes == 0 ==> tie_count == 0,
            max_votes > 0 ==> win_idx < i && counts@[win_idx as int] == max_votes && (forall|
                j: int,
            | 0 <= j < win_idx ==> counts@[j] < max_votes),
        decreases counts@.len() - i,
    {
        let c = counts[i];
        proof {
            assert(counts@.take(i + 1 as int).drop_last() =~= counts@.take(i as int));
            assert(counts@.take(i + 1 as int).last() == counts@[i as int]);
        }
        if c > max_votes {
            proof {
                lemma_seq_max_bound(counts@.take(i as int));
                lemma_count_of_zero(counts@.take(i as int), c);
            }
            max_votes = c;
            tie_count = 1;
            win_idx = i;
            proof {
                lemma_seq_max_bound(counts@.take(i as int));
                assert(forall|j: int| 0 <= j < i ==> counts@[j] == counts@.take(i as int)[j]);
            }
        } else if c == max_votes && c > 0 {
            tie_count = tie_count + 1;
        }
        i = i + 1;
    }
    proof {
        assert(counts@.take(counts@.len() as int) =~= counts@);
    }
    (max_votes, tie_count, win_idx)
}

} // verus!
