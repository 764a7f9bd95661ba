//! The player roster and its aggregate scans.
//!
//! The roster is a sequence of entries keyed by caller identity.
//! The rules need four linear scans over it: find an entry by
//! caller, detect a duplicate player commitment, count the living,
//! and tally votes. Each scan has a sequence-level specification
//! here, together with the lemmas the loop proofs rest on.

use vstd::prelude::*;
use crate::hash::Hash32;
use crate::types::PlayerEntry;

verus! {

/// Index of the first entry satisfying `p`, or `s.len()` if none.
pub open spec fn first_match(s: Seq<PlayerEntry>, p: spec_fn(PlayerEntry) -> bool) -> int
    decreases s.len(),
{
    if s.len() == 0 {
        0
    } else if p(s[0]) {
        0
    } else {
        1 + first_match(s.subrange(1, s.len() as int), p)
    }
}

/// What `first_match` returns: the least index satisfying `p`.
pub proof fn lemma_first_match(s: Seq<PlayerEntry>, p: spec_fn(PlayerEntry) -> bool)
    ensures
        0 <= first_match(s, p) <= s.len(),
        first_match(s, p) < s.len() ==> p(s[first_match(s, p)]),
        forall|j: int| 0 <= j < first_match(s, p) ==> !p(#[trigger] s[j]),
        first_match(s, p) == s.len() ==> forall|j: int| 0 <= j < s.len() ==> !p(#[trigger] s[j]),
    decreases s.len(),
{
    if s.len() == 0 {
    } else if p(s[0]) {
    } else {
        let rest = s.subrange(1, s.len() as int);
        lemma_first_match(rest, p);
        let fm = first_match(s, p);
        assert(fm == 1 + first_match(rest, p));
        assert forall|j: int| 0 <= j < fm implies !p(#[trigger] s[j]) by {
            if j > 0 {
                assert(!p(rest[j - 1]));
                assert(rest[j - 1] == s[j]);
            }
        }
        if fm < s.len() {
            assert(p(rest[fm - 1]));
            assert(rest[fm - 1] == s[fm]);
        }
    }
}

/// Matches the entry of caller `a`.
pub open spec fn addr_pred(a: u64) -> spec_fn(PlayerEntry) -> bool {
    |e: PlayerEntry| e.addr == a
}

/// Matches an entry whose player commitment is `h`.
pub open spec fn hash_pred(h: Hash32) -> spec_fn(PlayerEntry) -> bool {
    |e: PlayerEntry| e.player.player_hash == h
}

/// Matches a living entry whose player commitment is `h`.
pub open spec fn eject_pred(h: Hash32) -> spec_fn(PlayerEntry) -> bool {
    |e: PlayerEntry| e.player.alive && e.player.player_hash == h
}

/// Index of caller `a`'s entry, or `s.len()` if it has none.
pub open spec fn addr_index(s: Seq<PlayerEntry>, a: u64) -> int {
    first_match(s, addr_pred(a))
}

/// Whether caller `a` has an entry.
pub open spec fn has_addr(s: Seq<PlayerEntry>, a: u64) -> bool {
    addr_index(s, a) < s.len()
}

/// Whether some entry carries the player commitment `h`.
pub open spec fn has_hash(s: Seq<PlayerEntry>, h: Hash32) -> bool {
    first_match(s, hash_pred(h)) < s.len()
}

/// Index of the first living entry committed to `h`, or `s.len()`.
pub open spec fn eject_index(s: Seq<PlayerEntry>, h: Hash32) -> int {
    first_match(s, eject_pred(h))
}

/// How many entries are alive.
pub open spec fn count_alive(s: Seq<PlayerEntry>) -> int
    decreases s.len(),
{
    if s.len() == 0 {
        0
    } else {
        count_alive(s.drop_last()) + if s.last().player.alive {
            1int
        } else {
            0int
        }
    }
}

/// Sum of completed tasks over all entries.
pub open spec fn total_tasks(s: Seq<PlayerEntry>) -> int
    decreases s.len(),
{
    if s.len() == 0 {
        0
    } else {
        total_tasks(s.drop_last()) + s.last().player.tasks_done
    }
}

/// How many living entries currently vote for target `h`.
pub open spec fn votes_for(s: Seq<PlayerEntry>, h: Hash32) -> int
    decreases s.len(),
{
    if s.len() == 0 {
        0
    } else {
        votes_for(s.drop_last(), h) + if s.last().player.alive && s.last().player.voted_for_hash
            == h {
            1int
        } else {
            0int
        }
    }
}

/// One step of each aggregate over a growing prefix.
pub proof fn lemma_aggregates_take_step(s: Seq<PlayerEntry>, h: Hash32, i: int)
    requires
        0 <= i < s.len(),
    ensures
        count_alive(s.take(i + 1)) == count_alive(s.take(i)) + if s[i].player.alive {
            1int
        } else {
            0int
        },
        total_tasks(s.take(i + 1)) == total_tasks(s.take(i)) + s[i].player.tasks_done,
        votes_for(s.take(i + 1), h) == votes_for(s.take(i), h) + if s[i].player.alive
            && s[i].player.voted_for_hash == h {
            1int
        } else {
            0int
        },
{
    assert(s.take(i + 1).drop_last() =~= s.take(i));
    assert(s.take(i + 1).last() == s[i]);
}

/// Bounds of the counting scans: the count of the living is within
/// the length and the task sum is nonnegative.
pub proof fn lemma_aggregate_bounds(s: Seq<PlayerEntry>)
    ensures
        0 <= count_alive(s) <= s.len(),
        0 <= total_tasks(s),
    decreases s.len(),
{
    if s.len() > 0 {
        lemma_aggregate_bounds(s.drop_last());
    }
}

/// The vote tally never exceeds the count of the living.
pub proof fn lemma_votes_bound(s: Seq<PlayerEntry>, h: Hash32)
    ensures
        0 <= votes_for(s, h) <= count_alive(s),
    decreases s.len(),
{
    if s.len() > 0 {
        lemma_votes_bound(s.drop_last(), h);
        lemma_aggregate_bounds(s.drop_last());
    }
}

/// How replacing one entry moves the counting scans.
pub proof fn lemma_aggregates_update(s: Seq<PlayerEntry>, i: int, e: PlayerEntry)
    requires
        0 <= i < s.len(),
    ensures
        count_alive(s.update(i, e)) == count_alive(s) + (if e.player.alive {
            1int
        } else {
            0int
        }) - (if s[i].player.alive {
            1int
        } else {
            0int
        }),
        total_tasks(s.update(i, e)) == total_tasks(s) + e.player.tasks_done
            - s[i].player.tasks_done,
    decreases s.len(),
{
    let t = s.update(i, e);
    if i == s.len() - 1 {
        assert(t.drop_last() =~= s.drop_last());
        assert(t.last() == e);
    } else {
        assert(t.drop_last() =~= s.drop_last().update(i, e));
        lemma_aggregates_update(s.drop_last(), i, e);
        assert(t.last() == s.last());
    }
}

/// Finds caller `a`'s entry.
pub fn find_addr(players: &Vec<PlayerEntry>, a: u64) -> (r: Option<usize>)
    ensures
        match r {
            Some(i) => i == addr_index(players@, a) && i < players@.len(),
            None => !has_addr(players@, a),
        },
{
    proof {
        assert(forall|e: PlayerEntry| #[trigger] addr_pred(a)(e) == (e.addr == a));
        lemma_first_match(players@, addr_pred(a));
    }
    let mut i: usize = 0;
    while i < players.len()
        invariant
            i <= players@.len(),
            forall|j: int| 0 <= j < i ==> (#[trigger] players@[j]).addr != a,
            forall|e: PlayerEntry| #[trigger] addr_pred(a)(e) == (e.addr == a),
            first_match(players@, addr_pred(a)) >= i,
        decreases players@.len() - i,
    {
        if players[i].addr == a {
            proof {
                lemma_first_match(players@, addr_pred(a));
            }
            return Some(i);
        }
        i += 1;
        proof {
            lemma_first_match(players@, addr_pred(a));
        }
    }
    proof {
        lemma_first_match(players@, addr_pred(a));
    }
    None
}

/// Whether some entry carries the player commitment `h`.
pub fn contains_hash(players: &Vec<PlayerEntry>, h: Hash32) -> (r: bool)
    ensures
        r == has_hash(players@, h),
{
    proof {
        assert(forall|e: PlayerEntry| #[trigger] hash_pred(h)(e) == (e.player.player_hash == h));
        lemma_first_match(players@, hash_pred(h));
    }
    let mut i: usize = 0;
    while i < players.len()
        invariant
            i <= players@.len(),
            forall|e: PlayerEntry| #[trigger] hash_pred(h)(e) == (e.player.player_hash == h),
            first_match(players@, hash_pred(h)) >= i,
        decreases players@.len() - i,
    {
        if players[i].player.player_hash == h {
            proof {
                lemma_first_match(players@, hash_pred(h));
            }
            return true;
        }
        i += 1;
        proof {
            lemma_first_match(players@, hash_pred(h));
        }
    }
    proof {
        lemma_first_match(players@, hash_pred(h));
    }
    false
}

/// Finds the first living entry committed to `h`.
pub fn find_eject(players: &Vec<PlayerEntry>, h: Hash32) -> (r: Option<usize>)
    ensures
        match r {
            Some(i) => i == eject_index(players@, h) && i < players@.len(),
            None => eject_index(players@, h) == players@.len(),
        },
{
    proof {
        assert(forall|e: PlayerEntry| #[trigger] eject_pred(h)(e) == (e.player.alive
            && e.player.player_hash == h));
        lemma_first_match(players@, eject_pred(h));
    }
    let mut i: usize = 0;
    while i < players.len()
        invariant
            i <= players@.len(),
            forall|e: PlayerEntry| #[trigger] eject_pred(h)(e) == (e.player.alive
                && e.player.player_hash == h),
            first_match(players@, eject_pred(h)) >= i,
        decreases players@.len() - i,
    {
        if players[i].player.alive && players[i].player.player_hash == h {
            proof {
                lemma_first_match(players@, eject_pred(h));
            }
            return Some(i);
        }
        i += 1;
        proof {
            lemma_first_match(players@, eject_pred(h));
        }
    }
    proof {
        lemma_first_match(players@, eject_pred(h));
    }
    None
}

/// Counts the living entries.
pub fn count_alive_exec(players: &Vec<PlayerEntry>) -> (n: usize)
    ensures
        n == count_alive(players@),
{
    let mut n: usize = 0;
    let mut i: usize = 0;
    while i < players.len()
        invariant
            i <= players@.len(),
            n <= i,
            n == count_alive(players@.take(i as int)),
        decreases players@.len() - i,
    {
        proof {
            lemma_aggregates_take_step(players@, players@[i as int].player.voted_for_hash, i as int);
        }
        if players[i].player.alive {
            n += 1;
        }
        i += 1;
    }
    proof {
        assert(players@.take(players@.len() as int) =~= players@);
    }
    n
}

/// Whether the task sum over all entries has reached `threshold`.
pub fn total_tasks_at_least(players: &Vec<PlayerEntry>, threshold: u32) -> (r: bool)
    ensures
        r == (total_tasks(players@) >= threshold),
{
    let mut acc: u64 = 0;
    let mut i: usize = 0;
    while i < players.len()
        invariant
            i <= players@.len(),
            if total_tasks(players@.take(i as int)) <= u64::MAX {
                acc == total_tasks(players@.take(i as int))
            } else {
                acc == u64::MAX
            },
        decreases players@.len() - i,
    {
        proof {
            lemma_aggregates_take_step(players@, players@[i as int].player.voted_for_hash, i as int);
            lemma_aggregate_bounds(players@.take(i as int));
        }
        let t = players[i].player.tasks_done as u64;
        acc = if t <= u64::MAX - acc {
            acc + t
        } else {
            u64::MAX
        };
        i += 1;
    }
    proof {
        assert(players@.take(players@.len() as int) =~= players@);
        lemma_aggregate_bounds(players@);
    }
    acc >= threshold as u64
}

/// Tallies, in one pass, the living entries and those of them that
/// vote for target `h`.
pub fn tally_votes(players: &Vec<PlayerEntry>, h: Hash32) -> (r: (usize, usize))
    ensures
        r.0 == count_alive(players@),
        r.1 == votes_for(players@, h),
{
    let mut alive: usize = 0;
    let mut votes: usize = 0;
    let mut i: usize = 0;
    while i < players.len()
        invariant
            i <= players@.len(),
            alive <= i,
            votes <= alive,
            alive == count_alive(players@.take(i as int)),
            votes == votes_for(players@.take(i as int), h),
        decreases players@.len() - i,
    {
        proof {
            lemma_aggregates_take_step(players@, h, i as int);
        }
        if players[i].player.alive {
            alive += 1;
            if players[i].player.voted_for_hash == h {
                votes += 1;
            }
        }
        i += 1;
    }
    proof {
        assert(players@.take(players@.len() as int) =~= players@);
    }
    (alive, votes)
}

} // verus!
