//! The laws of the game, stated and proved once over the model.
//!
//! Each operation's contract in `crate::game` pins its outcome to a
//! model-level outcome function. The proofs here state the
//! properties the rules are meant to guarantee — lobby growth,
//! commitment uniqueness, the start threshold, vote resets, replay
//! protection, the two numeric win conditions, and the terminality
//! of the ended phase — directly over those outcome functions, so
//! they hold of every reachable state the operations can produce.

use vstd::prelude::*;
use crate::game::GameModel;
use crate::hash::Hash32;
use crate::roster::{
    addr_index, count_alive, has_addr, has_hash, lemma_aggregates_update, total_tasks,
};
use crate::types::{GameError, Phase, VoteInput, Winner, MIN_PLAYERS};

verus! {

/// In the lobby, below the roster bound and with a fresh caller and
/// a fresh commitment, a join succeeds, grows the roster by exactly
/// one entry, leaves every existing entry untouched, and the new
/// entry starts alive, with no tasks done and the zero vote
/// sentinel.
pub proof fn lemma_join_grows_roster(
    m: GameModel,
    player: u64,
    color: String,
    name: String,
    player_hash: Hash32,
    role_hash: Hash32,
)
    requires
        m.cur_state().phase == Phase::Lobby,
        m.players.len() < m.cur_config().max_players,
        !has_addr(m.players, player),
        !has_hash(m.players, player_hash),
    ensures
        ({
            let (m2, r) = m.join_outcome(player, color, name, player_hash, role_hash);
            &&& r == Ok::<(), GameError>(())
            &&& m2.players.len() == m.players.len() + 1
            &&& forall|j: int| 0 <= j < m.players.len() ==> m2.players[j] == m.players[j]
            &&& m2.players.last().addr == player
            &&& m2.players.last().player.alive
            &&& m2.players.last().player.tasks_done == 0
            &&& m2.players.last().player.voted_for_hash == Hash32::spec_zero()
            &&& m2.players.last().player.player_hash == player_hash
        }),
{
}

/// A join whose player commitment already appears in the roster
/// always fails and never mutates the state, whatever else holds.
pub proof fn lemma_duplicate_hash_join_rejected(
    m: GameModel,
    player: u64,
    color: String,
    name: String,
    player_hash: Hash32,
    role_hash: Hash32,
)
    requires
        has_hash(m.players, player_hash),
    ensures
        m.join_outcome(player, color, name, player_hash, role_hash).0 == m,
        m.join_outcome(player, color, name, player_hash, role_hash).1 is Err,
{
}

/// From the lobby, the admin cannot start a game with fewer than
/// `MIN_PLAYERS` players; with at least that many, the game starts
/// at round one, playing, with no winner.
pub proof fn lemma_start_game_threshold(m: GameModel, caller: u64)
    requires
        m.admin == Some(caller),
        m.cur_state().phase == Phase::Lobby,
    ensures
        m.players.len() < MIN_PLAYERS ==> m.start_game_outcome(caller) == (
            m,
            Err::<(), GameError>(GameError::NotEnoughPlayers),
        ),
        m.players.len() >= MIN_PLAYERS ==> ({
            let (m2, r) = m.start_game_outcome(caller);
            &&& r == Ok::<(), GameError>(())
            &&& m2.cur_state().phase == Phase::Playing
            &&& m2.cur_state().round == 1
            &&& m2.cur_state().winner == Winner::Undecided
            &&& m2.players == m.players
        }),
{
}

/// After a meeting starts, every living player's vote field is the
/// zero sentinel, and dead players' entries are exactly as before.
pub proof fn lemma_start_meeting_resets_votes(m: GameModel, caller: u64)
    requires
        m.start_meeting_outcome(caller).1 is Ok,
    ensures
        ({
            let m2 = m.start_meeting_outcome(caller).0;
            &&& m2.players.len() == m.players.len()
            &&& forall|j: int|
                0 <= j < m.players.len() && m.players[j].player.alive
                    ==> m2.players[j].player.voted_for_hash == Hash32::spec_zero()
            &&& forall|j: int|
                0 <= j < m.players.len() && !m.players[j].player.alive ==> m2.players[j]
                    == m.players[j]
            &&& m2.cur_state().phase == Phase::Meeting
            &&& m2.cur_state().meeting_active
        }),
{
}

/// A successful submission of any of the four proof-gated kinds
/// records its nullifier as consumed.
pub proof fn lemma_success_consumes_nullifier(
    m: GameModel,
    actor: u64,
    victim: u64,
    vote: VoteInput,
    n: Hash32,
)
    ensures
        m.vote_outcome(actor, vote, true).1 is Ok ==> m.vote_outcome(
            actor,
            vote,
            true,
        ).0.used.contains(vote.nullifier),
        m.task_outcome(actor, n, true).1 is Ok ==> m.task_outcome(actor, n, true).0.used.contains(
            n,
        ),
        m.kill_outcome(actor, victim, n, true).1 is Ok ==> m.kill_outcome(
            actor,
            victim,
            n,
            true,
        ).0.used.contains(n),
        m.impostor_win_outcome(n, true).1 is Ok ==> m.impostor_win_outcome(
            n,
            true,
        ).0.used.contains(n),
{
}

/// Once a nullifier is consumed, every further submission carrying
/// it — vote, task, kill, or impostor-win claim — fails and leaves
/// the state untouched, whatever the verifier would have answered.
pub proof fn lemma_used_nullifier_blocks_resubmission(
    m: GameModel,
    actor: u64,
    victim: u64,
    vote: VoteInput,
    n: Hash32,
    ok: bool,
)
    requires
        m.used.contains(n),
        vote.nullifier == n,
    ensures
        m.vote_outcome(actor, vote, ok).1 is Err && m.vote_outcome(actor, vote, ok).0 == m,
        m.task_outcome(actor, n, ok).1 is Err && m.task_outcome(actor, n, ok).0 == m,
        m.kill_outcome(actor, victim, n, ok).1 is Err && m.kill_outcome(actor, victim, n, ok).0
            == m,
        m.impostor_win_outcome(n, ok).1 is Err && m.impostor_win_outcome(n, ok).0 == m,
{
}

/// An accepted task submission raises the roster-wide task sum by
/// one (until the actor's counter saturates), and the game ends
/// with a crew win exactly when the new sum reaches the configured
/// threshold.
pub proof fn lemma_task_threshold_ends_game(m: GameModel, player: u64, n: Hash32)
    requires
        m.task_gate(player, n) is None,
    ensures
        ({
            let (m2, r) = m.task_outcome(player, n, true);
            &&& r == Ok::<(), GameError>(())
            &&& m.players[addr_index(m.players, player)].player.tasks_done < u32::MAX
                ==> total_tasks(m2.players) == total_tasks(m.players) + 1
            &&& total_tasks(m2.players) >= m.cur_config().tasks_to_win ==> m2.cur_state().phase
                == Phase::Ended && m2.cur_state().winner == Winner::Crew
            &&& total_tasks(m2.players) < m.cur_config().tasks_to_win ==> m2.cur_state().phase
                == Phase::Playing && m2.cur_state().winner == m.cur_state().winner
        }),
{
    let i = addr_index(m.players, player);
    let e = m.players[i];
    crate::roster::lemma_first_match(m.players, crate::roster::addr_pred(player));
    lemma_aggregates_update(
        m.players,
        i,
        entry_with_tasks(e, crate::types::inc_sat(e.player.tasks_done)),
    );
}

/// An accepted kill lowers the count of the living by exactly one,
/// and the game ends with an impostor win exactly when no more of
/// the crew than the configured impostor count remain alive.
pub proof fn lemma_kill_win_by_numbers(m: GameModel, killer: u64, victim: u64, n: Hash32)
    requires
        m.kill_gate(killer, victim, n) is None,
    ensures
        ({
            let (m2, r) = m.kill_outcome(killer, victim, n, true);
            &&& r == Ok::<(), GameError>(())
            &&& count_alive(m2.players) == count_alive(m.players) - 1
            &&& count_alive(m2.players) <= m.cur_state().impostor_count ==> m2.cur_state().phase
                == Phase::Ended && m2.cur_state().winner == Winner::Impostor
            &&& count_alive(m2.players) > m.cur_state().impostor_count ==> m2.cur_state().phase
                == Phase::Playing && m2.cur_state().winner == m.cur_state().winner
        }),
{
    let i = addr_index(m.players, victim);
    let e = m.players[i];
    crate::roster::lemma_first_match(m.players, crate::roster::addr_pred(victim));
    lemma_aggregates_update(m.players, i, entry_with_alive(e, false));
}

/// An accepted impostor-win claim ends the game as an impostor win
/// outright, in any non-terminal phase and independently of the
/// alive count.
pub proof fn lemma_impostor_claim_ends_game(m: GameModel, n: Hash32)
    requires
        m.impostor_win_gate(n) is None,
    ensures
        m.impostor_win_outcome(n, true).1 == Ok::<(), GameError>(()),
        m.impostor_win_outcome(n, true).0.cur_state().phase == Phase::Ended,
        m.impostor_win_outcome(n, true).0.cur_state().winner == Winner::Impostor,
{
}

/// Once the game has ended, every gameplay action — join, move,
/// meeting call, vote, task, kill, impostor-win claim — fails with
/// the "already ended" condition and leaves the state untouched.
pub proof fn lemma_ended_is_terminal(
    m: GameModel,
    actor: u64,
    victim: u64,
    color: String,
    name: String,
    h1: Hash32,
    h2: Hash32,
    x: u32,
    y: u32,
    vote: VoteInput,
    n: Hash32,
    ok: bool,
)
    requires
        m.cur_state().phase == Phase::Ended,
    ensures
        m.join_outcome(actor, color, name, h1, h2) == (m, Err::<(), GameError>(GameError::AlreadyEnded)),
        m.move_outcome(actor, x, y) == (m, Err::<(), GameError>(GameError::AlreadyEnded)),
        m.start_meeting_outcome(actor) == (m, Err::<(), GameError>(GameError::AlreadyEnded)),
        m.vote_outcome(actor, vote, ok) == (m, Err::<(), GameError>(GameError::AlreadyEnded)),
        m.task_outcome(actor, n, ok) == (m, Err::<(), GameError>(GameError::AlreadyEnded)),
        m.kill_outcome(actor, victim, n, ok) == (m, Err::<(), GameError>(GameError::AlreadyEnded)),
        m.impostor_win_outcome(n, ok) == (m, Err::<(), GameError>(GameError::AlreadyEnded)),
{
}

/// The first living roster entry committed to the tally target is
/// ejected exactly when strictly more than half of the living voted
/// for it; a tie never ejects, and play always resumes.
pub proof fn lemma_finalize_majority(m: GameModel, caller: u64, target: Hash32)
    requires
        m.admin == Some(caller),
        m.cur_state().phase == Phase::Meeting,
        count_alive(m.players) > 0,
    ensures
        ({
            let (m2, r) = m.finalize_outcome(caller, target);
            let ejected = 2 * crate::roster::votes_for(m.players, target) > count_alive(m.players)
                && crate::roster::eject_index(m.players, target) < m.players.len();
            &&& r == Ok::<bool, GameError>(ejected)
            &&& m2.cur_state().phase == Phase::Playing
            &&& !m2.cur_state().meeting_active
            &&& (ejected ==> !m2.players[crate::roster::eject_index(m.players, target)].player.alive)
            &&& (!ejected ==> m2.players == m.players)
        }),
{
    crate::roster::lemma_first_match(m.players, crate::roster::eject_pred(target));
}

/// The machine-state invariant: a terminal phase carries a winner,
/// and the meeting phase carries the meeting flag.
pub open spec fn state_wf(st: crate::types::GameState) -> bool {
    &&& st.phase == Phase::Ended ==> st.winner != Winner::Undecided
    &&& st.phase == Phase::Meeting ==> st.meeting_active
}

/// Every operation except the admin phase override preserves the
/// machine-state invariant; the override is the documented escape
/// hatch and stores whatever phase the admin names.
pub proof fn lemma_operations_preserve_state_wf(
    m: GameModel,
    actor: u64,
    victim: u64,
    color: String,
    name: String,
    h1: Hash32,
    h2: Hash32,
    x: u32,
    y: u32,
    impostor_count: u32,
    verifier: u64,
    max_players: u32,
    tasks_to_win: u32,
    w: Winner,
    vote: VoteInput,
    n: Hash32,
    ok: bool,
)
    requires
        state_wf(m.cur_state()),
    ensures
        state_wf(m.init_outcome(actor, impostor_count).0.cur_state()),
        state_wf(m.configure_outcome(actor, max_players, tasks_to_win).0.cur_state()),
        state_wf(m.set_verifier_outcome(actor, verifier).0.cur_state()),
        state_wf(m.start_game_outcome(actor).0.cur_state()),
        state_wf(m.join_outcome(actor, color, name, h1, h2).0.cur_state()),
        state_wf(m.move_outcome(actor, x, y).0.cur_state()),
        state_wf(m.start_meeting_outcome(actor).0.cur_state()),
        state_wf(m.end_meeting_outcome(actor).0.cur_state()),
        state_wf(m.finalize_outcome(actor, h1).0.cur_state()),
        state_wf(m.end_game_outcome(actor, w).0.cur_state()),
        state_wf(m.vote_outcome(actor, vote, ok).0.cur_state()),
        state_wf(m.task_outcome(actor, n, ok).0.cur_state()),
        state_wf(m.kill_outcome(actor, victim, n, ok).0.cur_state()),
        state_wf(m.impostor_win_outcome(n, ok).0.cur_state()),
{
}

/// No two roster entries carry the same player commitment.
pub open spec fn unique_hashes(s: Seq<crate::types::PlayerEntry>) -> bool {
    forall|i: int, j: int|
        0 <= i < j < s.len() ==> (#[trigger] s[i]).player.player_hash != (
        #[trigger] s[j]).player.player_hash
}

/// Commitment uniqueness is an invariant of the roster: a join
/// refuses duplicates, and no other operation writes a commitment.
pub proof fn lemma_operations_preserve_unique_hashes(
    m: GameModel,
    actor: u64,
    victim: u64,
    color: String,
    name: String,
    h1: Hash32,
    h2: Hash32,
    x: u32,
    y: u32,
    impostor_count: u32,
    vote: VoteInput,
    n: Hash32,
    ok: bool,
)
    requires
        unique_hashes(m.players),
    ensures
        unique_hashes(m.init_outcome(actor, impostor_count).0.players),
        unique_hashes(m.start_game_outcome(actor).0.players),
        unique_hashes(m.join_outcome(actor, color, name, h1, h2).0.players),
        unique_hashes(m.move_outcome(actor, x, y).0.players),
        unique_hashes(m.start_meeting_outcome(actor).0.players),
        unique_hashes(m.finalize_outcome(actor, h1).0.players),
        unique_hashes(m.vote_outcome(actor, vote, ok).0.players),
        unique_hashes(m.task_outcome(actor, n, ok).0.players),
        unique_hashes(m.kill_outcome(actor, victim, n, ok).0.players),
{
    let s = m.players;
    // A join appends an entry whose commitment matched none.
    let joined = m.join_outcome(actor, color, name, h1, h2).0.players;
    if joined != s {
        crate::roster::lemma_first_match(s, crate::roster::hash_pred(h1));
        assert forall|i: int, j: int| 0 <= i < j < joined.len() implies (
        #[trigger] joined[i]).player.player_hash != (#[trigger] joined[j]).player.player_hash by {
            if j < s.len() {
                assert(joined[i] == s[i] && joined[j] == s[j]);
            } else {
                assert(joined[j].player.player_hash == h1);
                assert(joined[i] == s[i]);
                assert(!crate::roster::hash_pred(h1)(s[i]));
            }
        }
    }
    // The other mutating operations replace entries but keep every
    // commitment in place.
    crate::roster::lemma_first_match(s, crate::roster::addr_pred(actor));
    crate::roster::lemma_first_match(s, crate::roster::addr_pred(victim));
    crate::roster::lemma_first_match(s, crate::roster::eject_pred(h1));
    let moved = m.move_outcome(actor, x, y).0.players;
    if moved != s {
        lemma_same_hashes_unique(s, moved);
    }
    let met = m.start_meeting_outcome(actor).0.players;
    if met != s {
        lemma_same_hashes_unique(s, met);
    }
    let tallied = m.finalize_outcome(actor, h1).0.players;
    if tallied != s {
        lemma_same_hashes_unique(s, tallied);
    }
    let voted = m.vote_outcome(actor, vote, ok).0.players;
    if voted != s {
        lemma_same_hashes_unique(s, voted);
    }
    let tasked = m.task_outcome(actor, n, ok).0.players;
    if tasked != s {
        lemma_same_hashes_unique(s, tasked);
    }
    let killed = m.kill_outcome(actor, victim, n, ok).0.players;
    if killed != s {
        lemma_same_hashes_unique(s, killed);
    }
}

/// Helper: `t` has `s`'s length and commitments, index by index.
spec fn same_hashes(
    s: Seq<crate::types::PlayerEntry>,
    t: Seq<crate::types::PlayerEntry>,
) -> bool {
    t.len() == s.len() && forall|k: int|
        0 <= k < s.len() ==> (#[trigger] t[k]).player.player_hash == s[k].player.player_hash
}

/// Helper: a roster with the same commitments in the same places
/// as a duplicate-free one is itself duplicate-free.
proof fn lemma_same_hashes_unique(
    s: Seq<crate::types::PlayerEntry>,
    t: Seq<crate::types::PlayerEntry>,
)
    requires
        unique_hashes(s),
        same_hashes(s, t),
    ensures
        unique_hashes(t),
{
}

/// Helper: the entry with its task counter replaced.
spec fn entry_with_tasks(e: crate::types::PlayerEntry, t: u32) -> crate::types::PlayerEntry {
    crate::types::PlayerEntry {
        player: crate::types::Player { tasks_done: t, ..e.player },
        ..e
    }
}

/// Helper: the entry with its liveness replaced.
spec fn entry_with_alive(e: crate::types::PlayerEntry, a: bool) -> crate::types::PlayerEntry {
    crate::types::PlayerEntry {
        player: crate::types::Player { alive: a, ..e.player },
        ..e
    }
}

} // verus!
