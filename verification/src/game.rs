//! The game state machine and its operations.
//!
//! `AmongUsContract` holds the whole game state explicitly: the
//! admin and verifier registrations, the stored configuration and
//! machine state, the roster, and the set of consumed nullifiers. A
//! host shell persists the value in its ledger, authenticates the
//! caller of each operation, and publishes notifications; the rules
//! themselves all live here. Every operation either fully applies
//! or returns a `GameError` and leaves the state untouched.
//!
//! Each operation's contract equates the result and the new state
//! with a model-level outcome function over `GameModel`, the
//! mathematical view of the contract.

use vstd::prelude::*;
use crate::hash::Hash32;
use crate::roster::{
    addr_index, count_alive, count_alive_exec, contains_hash, eject_index, find_addr, find_eject,
    has_addr, has_hash, total_tasks, total_tasks_at_least, tally_votes, votes_for,
};
use crate::types::{
    GameConfig, GameError, GameState, Phase, Player, PlayerEntry, ProofInput, VoteInput, Winner,
    inc_sat, DEFAULT_IMPOSTOR_COUNT, MIN_PLAYERS,
};
use crate::zk::ProofVerifier;

verus! {

/// The mathematical view of a contract value.
#[verifier::ext_equal]
pub struct GameModel {
    /// The admin identity, once `init` stored one.
    pub admin: Option<u64>,
    /// The registered verifier, once `set_verifier` stored one.
    pub verifier: Option<u64>,
    /// The stored configuration; defaults apply while `None`.
    pub config: Option<GameConfig>,
    /// The stored machine state; an empty lobby while `None`.
    pub state: Option<GameState>,
    /// The roster, in join order.
    pub players: Seq<PlayerEntry>,
    /// Consumed one-time nullifiers; grows monotonically.
    pub used: Set<Hash32>,
}

/// A fresh roster entry: at the origin, alive, no tasks, no vote.
pub open spec fn new_entry(
    addr: u64,
    color: String,
    name: String,
    player_hash: Hash32,
    role_hash: Hash32,
) -> PlayerEntry {
    PlayerEntry {
        addr,
        player: Player {
            x: 0,
            y: 0,
            alive: true,
            tasks_done: 0,
            player_hash,
            role_hash,
            voted_for_hash: Hash32::spec_zero(),
            color,
            name,
        },
    }
}

/// Every living entry's vote reset to the zero sentinel; dead
/// entries untouched.
pub open spec fn clear_votes(s: Seq<PlayerEntry>) -> Seq<PlayerEntry> {
    Seq::new(
        s.len(),
        |i: int|
            if s[i].player.alive {
                PlayerEntry {
                    player: Player { voted_for_hash: Hash32::spec_zero(), ..s[i].player },
                    ..s[i]
                }
            } else {
                s[i]
            },
    )
}

impl GameModel {
    /// The configuration in force: the stored one, or the defaults.
    pub open spec fn cur_config(self) -> GameConfig {
        match self.config {
            Some(c) => c,
            None => GameConfig::spec_default(),
        }
    }

    /// The machine state in force: the stored one, or an empty
    /// lobby with the default impostor count.
    pub open spec fn cur_state(self) -> GameState {
        match self.state {
            Some(st) => st,
            None => GameState::spec_initial(DEFAULT_IMPOSTOR_COUNT),
        }
    }

    /// The model with machine state `st` stored.
    pub open spec fn with_state(self, st: GameState) -> GameModel {
        GameModel { state: Some(st), ..self }
    }

    /// The model after a win: the winner recorded, the phase
    /// terminal, any meeting force-closed.
    pub open spec fn with_winner(self, w: Winner) -> GameModel {
        self.with_state(
            GameState { phase: Phase::Ended, meeting_active: false, winner: w, ..self.cur_state() },
        )
    }

    /// Why an admin-gated operation refuses `caller`, if it does.
    pub open spec fn admin_error(self, caller: u64) -> Option<GameError> {
        match self.admin {
            None => Some(GameError::AdminNotSet),
            Some(a) => if a != caller {
                Some(GameError::NotAdmin)
            } else {
                None
            },
        }
    }

    /// One-time initialisation: records the admin and the impostor
    /// count, stores the default configuration, and resets the
    /// roster to an empty lobby. Fails once a machine state exists.
    pub open spec fn init_outcome(self, admin: u64, impostor_count: u32) -> (GameModel, Result<
        (),
        GameError,
    >) {
        if self.state is Some {
            (self, Err(GameError::AlreadyInitialized))
        } else {
            (
                GameModel {
                    admin: Some(admin),
                    config: Some(GameConfig::spec_default()),
                    state: Some(GameState::spec_initial(impostor_count)),
                    players: Seq::empty(),
                    ..self
                },
                Ok(()),
            )
        }
    }

    /// Admin reconfiguration; bounds checked before anything is
    /// stored.
    pub open spec fn configure_outcome(self, caller: u64, max_players: u32, tasks_to_win: u32) -> (
        GameModel,
        Result<(), GameError>,
    ) {
        match self.admin_error(caller) {
            Some(e) => (self, Err(e)),
            None => if max_players < MIN_PLAYERS {
                (self, Err(GameError::InvalidMaxPlayers))
            } else if tasks_to_win == 0 {
                (self, Err(GameError::InvalidTasksToWin))
            } else {
                (GameModel { config: Some(GameConfig { max_players, tasks_to_win }), ..self }, Ok(()))
            },
        }
    }

    /// Admin registration of the proof verifier.
    pub open spec fn set_verifier_outcome(self, caller: u64, verifier: u64) -> (GameModel, Result<
        (),
        GameError,
    >) {
        match self.admin_error(caller) {
            Some(e) => (self, Err(e)),
            None => (GameModel { verifier: Some(verifier), ..self }, Ok(())),
        }
    }

    /// Admin phase override: stores the phase and nothing else.
    pub open spec fn set_phase_outcome(self, caller: u64, phase: Phase) -> (GameModel, Result<
        (),
        GameError,
    >) {
        match self.admin_error(caller) {
            Some(e) => (self, Err(e)),
            None => (self.with_state(GameState { phase, ..self.cur_state() }), Ok(())),
        }
    }

    /// Admin-gated lobby close: with at least `MIN_PLAYERS` joined,
    /// play begins at round one with no winner.
    pub open spec fn start_game_outcome(self, caller: u64) -> (GameModel, Result<(), GameError>) {
        match self.admin_error(caller) {
            Some(e) => (self, Err(e)),
            None => if self.cur_state().phase != Phase::Lobby {
                (self, Err(GameError::AlreadyStarted))
            } else if self.players.len() < MIN_PLAYERS {
                (self, Err(GameError::NotEnoughPlayers))
            } else {
                (
                    self.with_state(
                        GameState {
                            phase: Phase::Playing,
                            round: 1,
                            meeting_active: false,
                            winner: Winner::Undecided,
                            ..self.cur_state()
                        },
                    ),
                    Ok(()),
                )
            },
        }
    }

    /// A lobby join: refused when the game ended, outside the
    /// lobby, when the roster is full, and for a duplicate caller
    /// or player commitment; otherwise appends a fresh entry.
    pub open spec fn join_outcome(
        self,
        player: u64,
        color: String,
        name: String,
        player_hash: Hash32,
        role_hash: Hash32,
    ) -> (GameModel, Result<(), GameError>) {
        let st = self.cur_state();
        if st.phase == Phase::Ended {
            (self, Err(GameError::AlreadyEnded))
        } else if st.phase != Phase::Lobby {
            (self, Err(GameError::WrongPhase))
        } else if self.players.len() >= self.cur_config().max_players {
            (self, Err(GameError::LobbyFull))
        } else if has_addr(self.players, player) {
            (self, Err(GameError::AlreadyJoined))
        } else if has_hash(self.players, player_hash) {
            (self, Err(GameError::DuplicatePlayerHash))
        } else {
            (
                GameModel {
                    players: self.players.push(
                        new_entry(player, color, name, player_hash, role_hash),
                    ),
                    ..self
                },
                Ok(()),
            )
        }
    }

    /// A movement: overwrites the living caller's position while
    /// playing; no terrain is modelled, so no bounds are checked.
    pub open spec fn move_outcome(self, player: u64, x: u32, y: u32) -> (GameModel, Result<
        (),
        GameError,
    >) {
        let st = self.cur_state();
        if st.phase == Phase::Ended {
            (self, Err(GameError::AlreadyEnded))
        } else if st.phase != Phase::Playing {
            (self, Err(GameError::WrongPhase))
        } else if !has_addr(self.players, player) {
            (self, Err(GameError::PlayerNotFound))
        } else {
            let i = addr_index(self.players, player);
            let e = self.players[i];
            if !e.player.alive {
                (self, Err(GameError::DeadPlayer))
            } else {
                (
                    GameModel {
                        players: self.players.update(
                            i,
                            PlayerEntry { player: Player { x, y, ..e.player }, ..e },
                        ),
                        ..self
                    },
                    Ok(()),
                )
            }
        }
    }

    /// A meeting call by a living player: the round advances, the
    /// meeting opens, and every living player's vote is reset.
    pub open spec fn start_meeting_outcome(self, caller: u64) -> (GameModel, Result<
        (),
        GameError,
    >) {
        let st = self.cur_state();
        if st.phase == Phase::Ended {
            (self, Err(GameError::AlreadyEnded))
        } else if !has_addr(self.players, caller) {
            (self, Err(GameError::PlayerNotFound))
        } else if !self.players[addr_index(self.players, caller)].player.alive {
            (self, Err(GameError::DeadPlayer))
        } else if st.phase != Phase::Playing {
            (self, Err(GameError::WrongPhase))
        } else {
            (
                GameModel {
                    players: clear_votes(self.players),
                    state: Some(
                        GameState {
                            phase: Phase::Meeting,
                            meeting_active: true,
                            round: inc_sat(st.round),
                            ..st
                        },
                    ),
                    ..self
                },
                Ok(()),
            )
        }
    }

    /// Admin recovery: force-resumes play from a meeting with no
    /// tally.
    pub open spec fn end_meeting_outcome(self, caller: u64) -> (GameModel, Result<(), GameError>) {
        match self.admin_error(caller) {
            Some(e) => (self, Err(e)),
            None => if self.cur_state().phase != Phase::Meeting {
                (self, Err(GameError::MeetingNotActive))
            } else {
                (
                    self.with_state(
                        GameState {
                            phase: Phase::Playing,
                            meeting_active: false,
                            ..self.cur_state()
                        },
                    ),
                    Ok(()),
                )
            },
        }
    }

    /// The meeting tally: with a strict majority of the living
    /// voting for `target`, the first living entry committed to it
    /// is ejected; play always resumes. `Ok(true)` means ejected.
    pub open spec fn finalize_outcome(self, caller: u64, target: Hash32) -> (GameModel, Result<
        bool,
        GameError,
    >) {
        match self.admin_error(caller) {
            Some(e) => (self, Err(e)),
            None => if self.cur_state().phase != Phase::Meeting {
                (self, Err(GameError::MeetingNotActive))
            } else {
                let alive = count_alive(self.players);
                let votes = votes_for(self.players, target);
                if alive == 0 {
                    (self, Err(GameError::NoAliveVoters))
                } else {
                    let i = eject_index(self.players, target);
                    let ejected = 2 * votes > alive && i < self.players.len();
                    let resumed = GameState {
                        phase: Phase::Playing,
                        meeting_active: false,
                        ..self.cur_state()
                    };
                    if ejected {
                        let e = self.players[i];
                        (
                            GameModel {
                                players: self.players.update(
                                    i,
                                    PlayerEntry { player: Player { alive: false, ..e.player }, ..e },
                                ),
                                state: Some(resumed),
                                ..self
                            },
                            Ok(true),
                        )
                    } else {
                        (self.with_state(resumed), Ok(false))
                    }
                }
            },
        }
    }

    /// Admin override: records an explicit winner and ends the
    /// game.
    pub open spec fn end_game_outcome(self, caller: u64, winner: Winner) -> (GameModel, Result<
        (),
        GameError,
    >) {
        match self.admin_error(caller) {
            Some(e) => (self, Err(e)),
            None => if winner == Winner::Undecided {
                (self, Err(GameError::InvalidWinner))
            } else {
                (self.with_winner(winner), Ok(()))
            },
        }
    }

    /// Why a vote is refused before the proof is even looked at, if
    /// it is: the checks run in this order, each aborting the
    /// transaction.
    pub open spec fn vote_gate(self, voter: u64, vote: VoteInput) -> Option<GameError> {
        let st = self.cur_state();
        if st.phase == Phase::Ended {
            Some(GameError::AlreadyEnded)
        } else if st.phase != Phase::Meeting {
            Some(GameError::WrongPhase)
        } else if self.used.contains(vote.nullifier) {
            Some(GameError::NullifierUsed)
        } else if !has_addr(self.players, voter) {
            Some(GameError::PlayerNotFound)
        } else if !self.players[addr_index(self.players, voter)].player.alive {
            Some(GameError::DeadPlayer)
        } else if self.players[addr_index(self.players, voter)].player.voted_for_hash
            != Hash32::spec_zero() {
            Some(GameError::AlreadyVoted)
        } else {
            None
        }
    }

    /// A vote given the verifier's verdict `ok`: on success the
    /// voter's vote field becomes the target commitment and the
    /// nullifier is consumed.
    pub open spec fn vote_outcome(self, voter: u64, vote: VoteInput, ok: bool) -> (GameModel, Result<
        (),
        GameError,
    >) {
        match self.vote_gate(voter, vote) {
            Some(e) => (self, Err(e)),
            None => if !ok {
                (self, Err(GameError::InvalidProof))
            } else {
                let i = addr_index(self.players, voter);
                let e = self.players[i];
                (
                    GameModel {
                        players: self.players.update(
                            i,
                            PlayerEntry {
                                player: Player { voted_for_hash: vote.target_hash, ..e.player },
                                ..e
                            },
                        ),
                        used: self.used.insert(vote.nullifier),
                        ..self
                    },
                    Ok(()),
                )
            },
        }
    }

    /// Why a task submission is refused before the proof is looked
    /// at, if it is.
    pub open spec fn task_gate(self, player: u64, nullifier: Hash32) -> Option<GameError> {
        let st = self.cur_state();
        if st.phase == Phase::Ended {
            Some(GameError::AlreadyEnded)
        } else if st.phase != Phase::Playing {
            Some(GameError::WrongPhase)
        } else if self.used.contains(nullifier) {
            Some(GameError::NullifierUsed)
        } else if !has_addr(self.players, player) {
            Some(GameError::PlayerNotFound)
        } else if !self.players[addr_index(self.players, player)].player.alive {
            Some(GameError::DeadPlayer)
        } else {
            None
        }
    }

    /// A task submission given the verdict `ok`: on success the
    /// actor's task counter advances, the nullifier is consumed,
    /// and the crew wins the moment the roster-wide task sum
    /// reaches the configured threshold.
    pub open spec fn task_outcome(self, player: u64, nullifier: Hash32, ok: bool) -> (GameModel, Result<
        (),
        GameError,
    >) {
        match self.task_gate(player, nullifier) {
            Some(e) => (self, Err(e)),
            None => if !ok {
                (self, Err(GameError::InvalidProof))
            } else {
                let i = addr_index(self.players, player);
                let e = self.players[i];
                let after = GameModel {
                    players: self.players.update(
                        i,
                        PlayerEntry {
                            player: Player { tasks_done: inc_sat(e.player.tasks_done), ..e.player },
                            ..e
                        },
                    ),
                    used: self.used.insert(nullifier),
                    ..self
                };
                if total_tasks(after.players) >= self.cur_config().tasks_to_win {
                    (after.with_winner(Winner::Crew), Ok(()))
                } else {
                    (after, Ok(()))
                }
            },
        }
    }

    /// Why a kill submission is refused before the proof is looked
    /// at, if it is.
    pub open spec fn kill_gate(self, killer: u64, victim: u64, nullifier: Hash32) -> Option<
        GameError,
    > {
        let st = self.cur_state();
        if st.phase == Phase::Ended {
            Some(GameError::AlreadyEnded)
        } else if st.phase != Phase::Playing {
            Some(GameError::WrongPhase)
        } else if self.used.contains(nullifier) {
            Some(GameError::NullifierUsed)
        } else if !has_addr(self.players, killer) {
            Some(GameError::PlayerNotFound)
        } else if !self.players[addr_index(self.players, killer)].player.alive {
            Some(GameError::DeadPlayer)
        } else if !has_addr(self.players, victim) {
            Some(GameError::PlayerNotFound)
        } else if !self.players[addr_index(self.players, victim)].player.alive {
            Some(GameError::VictimDead)
        } else {
            None
        }
    }

    /// A kill submission given the verdict `ok`: on success the
    /// victim dies, the nullifier is consumed, and the impostors
    /// win the moment no more of the crew than of them are left.
    pub open spec fn kill_outcome(self, killer: u64, victim: u64, nullifier: Hash32, ok: bool) -> (
        GameModel,
        Result<(), GameError>,
    ) {
        match self.kill_gate(killer, victim, nullifier) {
            Some(e) => (self, Err(e)),
            None => if !ok {
                (self, Err(GameError::InvalidProof))
            } else {
                let i = addr_index(self.players, victim);
                let e = self.players[i];
                let after = GameModel {
                    players: self.players.update(
                        i,
                        PlayerEntry { player: Player { alive: false, ..e.player }, ..e },
                    ),
                    used: self.used.insert(nullifier),
                    ..self
                };
                if count_alive(after.players) <= self.cur_state().impostor_count {
                    (after.with_winner(Winner::Impostor), Ok(()))
                } else {
                    (after, Ok(()))
                }
            },
        }
    }

    /// Why an impostor-win claim is refused before the proof is
    /// looked at, if it is. No phase beyond non-terminality and no
    /// roster membership is required.
    pub open spec fn impostor_win_gate(self, nullifier: Hash32) -> Option<GameError> {
        if self.cur_state().phase == Phase::Ended {
            Some(GameError::AlreadyEnded)
        } else if self.used.contains(nullifier) {
            Some(GameError::NullifierUsed)
        } else {
            None
        }
    }

    /// An impostor-win claim given the verdict `ok`: an accepted
    /// proof ends the game as an impostor win outright, bypassing
    /// the numeric win checks.
    pub open spec fn impostor_win_outcome(self, nullifier: Hash32, ok: bool) -> (GameModel, Result<
        (),
        GameError,
    >) {
        match self.impostor_win_gate(nullifier) {
            Some(e) => (self, Err(e)),
            None => if !ok {
                (self, Err(GameError::InvalidProof))
            } else {
                (
                    GameModel { used: self.used.insert(nullifier), ..self }.with_winner(
                        Winner::Impostor,
                    ),
                    Ok(()),
                )
            },
        }
    }
}

/// Consuming a nullifier from the sequence of consumed ones inserts
/// it into the set they form.
proof fn lemma_to_set_push(s: Seq<Hash32>, x: Hash32)
    ensures
        s.push(x).to_set() == s.to_set().insert(x),
{
    assert forall|y: Hash32| s.push(x).contains(y) implies s.contains(y) || y == x by {
        let j = choose|j: int| 0 <= j < s.push(x).len() && s.push(x)[j] == y;
        if j < s.len() {
            assert(s[j] == y);
        }
    }
    assert forall|y: Hash32| s.contains(y) implies s.push(x).contains(y) by {
        let j = choose|j: int| 0 <= j < s.len() && s[j] == y;
        assert(s.push(x)[j] == y);
    }
    assert(s.push(x)[s.len() as int] == x);
    assert(s.push(x).contains(x));
    assert(s.push(x).to_set() =~= s.to_set().insert(x));
}

/// The public inputs of a proof with its nullifier appended as the
/// final element, as the verifier expects them.
fn with_appended_nullifier(proof_input: &ProofInput) -> (r: Vec<Hash32>)
    ensures
        r@ == proof_input.public_inputs@.push(proof_input.nullifier),
{
    let mut r: Vec<Hash32> = Vec::new();
    let mut i: usize = 0;
    while i < proof_input.public_inputs.len()
        invariant
            i <= proof_input.public_inputs@.len(),
            r@ == proof_input.public_inputs@.take(i as int),
        decreases proof_input.public_inputs@.len() - i,
    {
        r.push(proof_input.public_inputs[i]);
        proof {
            assert(r@ =~= proof_input.public_inputs@.take(i + 1));
        }
        i += 1;
    }
    r.push(proof_input.nullifier);
    proof {
        assert(r@ =~= proof_input.public_inputs@.push(proof_input.nullifier));
    }
    r
}

/// The game: explicit state, mutated only through the operations
/// below.
pub struct AmongUsContract {
    /// The admin identity, once `init` stored one.
    pub admin: Option<u64>,
    /// The registered verifier, once `set_verifier` stored one.
    pub verifier: Option<u64>,
    /// The stored configuration; defaults apply while `None`.
    pub config: Option<GameConfig>,
    /// The stored machine state; an empty lobby while `None`.
    pub state: Option<GameState>,
    /// The roster, in join order.
    pub players: Vec<PlayerEntry>,
    /// Consumed one-time nullifiers, in consumption order.
    pub used_nullifiers: Vec<Hash32>,
}

impl View for AmongUsContract {
    type V = GameModel;

    open spec fn view(&self) -> GameModel {
        GameModel {
            admin: self.admin,
            verifier: self.verifier,
            config: self.config,
            state: self.state,
            players: self.players@,
            used: self.used_nullifiers@.to_set(),
        }
    }
}

impl AmongUsContract {
    /// A fresh, uninitialised game: an empty store.
    pub fn new() -> (c: AmongUsContract)
        ensures
            c@ == (GameModel {
                admin: None,
                verifier: None,
                config: None,
                state: None,
                players: Seq::empty(),
                used: Set::empty(),
            }),
    {
        let c = AmongUsContract {
            admin: None,
            verifier: None,
            config: None,
            state: None,
            players: Vec::new(),
            used_nullifiers: Vec::new(),
        };
        proof {
            assert(c.used_nullifiers@.to_set() =~= Set::<Hash32>::empty());
            assert(c@ =~= (GameModel {
                admin: None,
                verifier: None,
                config: None,
                state: None,
                players: Seq::empty(),
                used: Set::empty(),
            }));
        }
        c
    }

    /// The machine state in force.
    fn read_state(&self) -> (st: GameState)
        ensures
            st == self@.cur_state(),
    {
        match self.state {
            Some(st) => st,
            None => GameState {
                phase: Phase::Lobby,
                round: 0,
                meeting_active: false,
                impostor_count: DEFAULT_IMPOSTOR_COUNT,
                sabotage_active: false,
                winner: Winner::Undecided,
            },
        }
    }

    /// The configuration in force.
    fn read_config(&self) -> (c: GameConfig)
        ensures
            c == self@.cur_config(),
    {
        match self.config {
            Some(c) => c,
            None => GameConfig {
                max_players: crate::types::DEFAULT_MAX_PLAYERS,
                tasks_to_win: crate::types::DEFAULT_TASKS_TO_WIN,
            },
        }
    }

    /// The admin gate shared by the admin-only operations.
    fn require_admin(&self, caller: u64) -> (r: Option<GameError>)
        ensures
            r == self@.admin_error(caller),
    {
        match self.admin {
            None => Some(GameError::AdminNotSet),
            Some(a) => if a != caller {
                Some(GameError::NotAdmin)
            } else {
                None
            },
        }
    }

    /// Records the winner and ends the game.
    fn set_winner(&mut self, w: Winner)
        ensures
            final(self)@ == old(self)@.with_winner(w),
    {
        let st = self.read_state();
        self.state = Some(
            GameState { phase: Phase::Ended, meeting_active: false, winner: w, ..st },
        );
        proof {
            assert(self@ =~= old(self)@.with_winner(w));
        }
    }

    /// One-time initialisation. See `GameModel::init_outcome`.
    pub fn init(&mut self, admin: u64, impostor_count: u32) -> (r: Result<(), GameError>)
        ensures
            r == old(self)@.init_outcome(admin, impostor_count).1,
            final(self)@ == old(self)@.init_outcome(admin, impostor_count).0,
    {
        if self.state.is_some() {
            return Err(GameError::AlreadyInitialized);
        }
        self.state = Some(
            GameState {
                phase: Phase::Lobby,
                round: 0,
                meeting_active: false,
                impostor_count,
                sabotage_active: false,
                winner: Winner::Undecided,
            },
        );
        self.config = Some(
            GameConfig {
                max_players: crate::types::DEFAULT_MAX_PLAYERS,
                tasks_to_win: crate::types::DEFAULT_TASKS_TO_WIN,
            },
        );
        self.admin = Some(admin);
        self.players = Vec::new();
        proof {
            assert(self@ =~= old(self)@.init_outcome(admin, impostor_count).0);
        }
        Ok(())
    }

    /// Admin reconfiguration. See `GameModel::configure_outcome`.
    pub fn configure_game(&mut self, caller: u64, max_players: u32, tasks_to_win: u32) -> (r:
        Result<(), GameError>)
        ensures
            r == old(self)@.configure_outcome(caller, max_players, tasks_to_win).1,
            final(self)@ == old(self)@.configure_outcome(caller, max_players, tasks_to_win).0,
    {
        if let Some(e) = self.require_admin(caller) {
            return Err(e);
        }
        if max_players < MIN_PLAYERS {
            return Err(GameError::InvalidMaxPlayers);
        }
        if tasks_to_win == 0 {
            return Err(GameError::InvalidTasksToWin);
        }
        self.config = Some(GameConfig { max_players, tasks_to_win });
        proof {
            assert(self@ =~= old(self)@.configure_outcome(caller, max_players, tasks_to_win).0);
        }
        Ok(())
    }

    /// Admin registration of the proof verifier.
    pub fn set_verifier(&mut self, caller: u64, verifier: u64) -> (r: Result<(), GameError>)
        ensures
            r == old(self)@.set_verifier_outcome(caller, verifier).1,
            final(self)@ == old(self)@.set_verifier_outcome(caller, verifier).0,
    {
        if let Some(e) = self.require_admin(caller) {
            return Err(e);
        }
        self.verifier = Some(verifier);
        proof {
            assert(self@ =~= old(self)@.set_verifier_outcome(caller, verifier).0);
        }
        Ok(())
    }

    /// Admin phase override. Stores exactly the given phase; it is
    /// the admin's escape hatch and bypasses the transition rules.
    pub fn set_phase(&mut self, caller: u64, phase: Phase) -> (r: Result<(), GameError>)
        ensures
            r == old(self)@.set_phase_outcome(caller, phase).1,
            final(self)@ == old(self)@.set_phase_outcome(caller, phase).0,
    {
        if let Some(e) = self.require_admin(caller) {
            return Err(e);
        }
        let st = self.read_state();
        self.state = Some(GameState { phase, ..st });
        proof {
            assert(self@ =~= old(self)@.set_phase_outcome(caller, phase).0);
        }
        Ok(())
    }

    /// Starts the game. See `GameModel::start_game_outcome`.
    pub fn start_game(&mut self, caller: u64) -> (r: Result<(), GameError>)
        ensures
            r == old(self)@.start_game_outcome(caller).1,
            final(self)@ == old(self)@.start_game_outcome(caller).0,
    {
        if let Some(e) = self.require_admin(caller) {
            return Err(e);
        }
        let st = self.read_state();
        if st.phase != Phase::Lobby {
            return Err(GameError::AlreadyStarted);
        }
        if self.players.len() < MIN_PLAYERS as usize {
            return Err(GameError::NotEnoughPlayers);
        }
        self.state = Some(
            GameState {
                phase: Phase::Playing,
                round: 1,
                meeting_active: false,
                winner: Winner::Undecided,
                ..st
            },
        );
        proof {
            assert(self@ =~= old(self)@.start_game_outcome(caller).0);
        }
        Ok(())
    }

    /// Joins the lobby. See `GameModel::join_outcome`.
    pub fn join_game(
        &mut self,
        player: u64,
        color: String,
        name: String,
        player_hash: Hash32,
        role_hash: Hash32,
    ) -> (r: Result<(), GameError>)
        ensures
            r == old(self)@.join_outcome(player, color, name, player_hash, role_hash).1,
            final(self)@ == old(self)@.join_outcome(player, color, name, player_hash, role_hash).0,
    {
        let st = self.read_state();
        if st.phase == Phase::Ended {
            return Err(GameError::AlreadyEnded);
        }
        if st.phase != Phase::Lobby {
            return Err(GameError::WrongPhase);
        }
        let config = self.read_config();
        if self.players.len() >= config.max_players as usize {
            return Err(GameError::LobbyFull);
        }
        if find_addr(&self.players, player).is_some() {
            return Err(GameError::AlreadyJoined);
        }
        if contains_hash(&self.players, player_hash) {
            return Err(GameError::DuplicatePlayerHash);
        }
        let entry = PlayerEntry {
            addr: player,
            player: Player {
                x: 0,
                y: 0,
                alive: true,
                tasks_done: 0,
                player_hash,
                role_hash,
                voted_for_hash: Hash32::zero(),
                color,
                name,
            },
        };
        self.players.push(entry);
        proof {
            assert(self@ =~= old(self)@.join_outcome(player, color, name, player_hash, role_hash).0);
        }
        Ok(())
    }

    /// Moves the caller. See `GameModel::move_outcome`.
    pub fn submit_move(&mut self, player: u64, x: u32, y: u32) -> (r: Result<(), GameError>)
        ensures
            r == old(self)@.move_outcome(player, x, y).1,
            final(self)@ == old(self)@.move_outcome(player, x, y).0,
    {
        let st = self.read_state();
        if st.phase == Phase::Ended {
            return Err(GameError::AlreadyEnded);
        }
        if st.phase != Phase::Playing {
            return Err(GameError::WrongPhase);
        }
        let i = match find_addr(&self.players, player) {
            Some(i) => i,
            None => {
                return Err(GameError::PlayerNotFound);
            },
        };
        if !self.players[i].player.alive {
            return Err(GameError::DeadPlayer);
        }
        let mut e = self.players.remove(i);
        e.player.x = x;
        e.player.y = y;
        self.players.insert(i, e);
        proof {
            assert(self.players@ =~= old(self).players@.update(
                i as int,
                PlayerEntry {
                    player: Player {
                        x,
                        y,
                        ..old(self).players@[i as int].player
                    },
                    ..old(self).players@[i as int]
                },
            ));
            assert(self@ =~= old(self)@.move_outcome(player, x, y).0);
        }
        Ok(())
    }

    /// Ends a meeting with no tally. See
    /// `GameModel::end_meeting_outcome`.
    pub fn end_meeting(&mut self, caller: u64) -> (r: Result<(), GameError>)
        ensures
            r == old(self)@.end_meeting_outcome(caller).1,
            final(self)@ == old(self)@.end_meeting_outcome(caller).0,
    {
        if let Some(e) = self.require_admin(caller) {
            return Err(e);
        }
        let st = self.read_state();
        if st.phase != Phase::Meeting {
            return Err(GameError::MeetingNotActive);
        }
        self.state = Some(GameState { phase: Phase::Playing, meeting_active: false, ..st });
        proof {
            assert(self@ =~= old(self)@.end_meeting_outcome(caller).0);
        }
        Ok(())
    }

    /// Ends the game with an explicit winner. See
    /// `GameModel::end_game_outcome`.
    pub fn end_game_admin(&mut self, caller: u64, winner: Winner) -> (r: Result<(), GameError>)
        ensures
            r == old(self)@.end_game_outcome(caller, winner).1,
            final(self)@ == old(self)@.end_game_outcome(caller, winner).0,
    {
        if let Some(e) = self.require_admin(caller) {
            return Err(e);
        }
        if winner == Winner::Undecided {
            return Err(GameError::InvalidWinner);
        }
        self.set_winner(winner);
        Ok(())
    }

    /// The roster, in join order.
    pub fn get_players(&self) -> (r: &Vec<PlayerEntry>)
        ensures
            r@ == self@.players,
    {
        &self.players
    }

    /// The player record of caller `addr`, if it has one.
    pub fn get_player(&self, addr: u64) -> (r: Option<&Player>)
        ensures
            match r {
                Some(p) => has_addr(self@.players, addr) && *p == self@.players[addr_index(
                    self@.players,
                    addr,
                )].player,
                None => !has_addr(self@.players, addr),
            },
    {
        match find_addr(&self.players, addr) {
            Some(i) => Some(&self.players[i].player),
            None => None,
        }
    }

    /// The configuration in force.
    pub fn get_config(&self) -> (r: GameConfig)
        ensures
            r == self@.cur_config(),
    {
        self.read_config()
    }

    /// The machine state in force.
    pub fn get_game_state(&self) -> (r: GameState)
        ensures
            r == self@.cur_state(),
    {
        self.read_state()
    }

    /// Whether `n` has already been consumed.
    fn nullifier_used(&self, n: Hash32) -> (r: bool)
        ensures
            r == self@.used.contains(n),
    {
        let mut i: usize = 0;
        while i < self.used_nullifiers.len()
            invariant
                i <= self.used_nullifiers@.len(),
                forall|j: int| 0 <= j < i ==> self.used_nullifiers@[j] != n,
            decreases self.used_nullifiers@.len() - i,
        {
            if self.used_nullifiers[i] == n {
                return true;
            }
            i += 1;
        }
        proof {
            assert(!self.used_nullifiers@.contains(n));
        }
        false
    }

    /// Calls a meeting. See `GameModel::start_meeting_outcome`.
    pub fn start_meeting(&mut self, caller: u64) -> (r: Result<(), GameError>)
        ensures
            r == old(self)@.start_meeting_outcome(caller).1,
            final(self)@ == old(self)@.start_meeting_outcome(caller).0,
    {
        let st = self.read_state();
        if st.phase == Phase::Ended {
            return Err(GameError::AlreadyEnded);
        }
        let i = match find_addr(&self.players, caller) {
            Some(i) => i,
            None => {
                return Err(GameError::PlayerNotFound);
            },
        };
        if !self.players[i].player.alive {
            return Err(GameError::DeadPlayer);
        }
        if st.phase != Phase::Playing {
            return Err(GameError::WrongPhase);
        }
        let mut j: usize = 0;
        while j < self.players.len()
            invariant
                j <= self.players@.len(),
                self.players@.len() == old(self).players@.len(),
                forall|k: int| 0 <= k < j ==> self.players@[k] == clear_votes(old(self).players@)[k],
                forall|k: int| j <= k < self.players@.len() ==> self.players@[k] == old(
                    self,
                ).players@[k],
                self.admin == old(self).admin,
                self.verifier == old(self).verifier,
                self.config == old(self).config,
                self.state == old(self).state,
                self.used_nullifiers@ == old(self).used_nullifiers@,
            decreases self.players@.len() - j,
        {
            if self.players[j].player.alive {
                let mut e = self.players.remove(j);
                e.player.voted_for_hash = Hash32::zero();
                self.players.insert(j, e);
            }
            j += 1;
        }
        let round = if st.round == u32::MAX {
            st.round
        } else {
            st.round + 1
        };
        self.state = Some(GameState { phase: Phase::Meeting, meeting_active: true, round, ..st });
        proof {
            assert(self.players@ =~= clear_votes(old(self).players@));
            assert(self@ =~= old(self)@.start_meeting_outcome(caller).0);
        }
        Ok(())
    }

    /// Tallies a meeting. See `GameModel::finalize_outcome`.
    pub fn finalize_meeting(&mut self, caller: u64, ejected_player_hash: Hash32) -> (r: Result<
        bool,
        GameError,
    >)
        ensures
            r == old(self)@.finalize_outcome(caller, ejected_player_hash).1,
            final(self)@ == old(self)@.finalize_outcome(caller, ejected_player_hash).0,
    {
        if let Some(e) = self.require_admin(caller) {
            return Err(e);
        }
        let st = self.read_state();
        if st.phase != Phase::Meeting {
            return Err(GameError::MeetingNotActive);
        }
        let (alive_voters, votes_for_target) = tally_votes(&self.players, ejected_player_hash);
        if alive_voters == 0 {
            return Err(GameError::NoAliveVoters);
        }
        proof {
            crate::roster::lemma_votes_bound(self.players@, ejected_player_hash);
        }
        let mut ejected = false;
        if votes_for_target > alive_voters - votes_for_target {
            if let Some(i) = find_eject(&self.players, ejected_player_hash) {
                let mut e = self.players.remove(i);
                e.player.alive = false;
                self.players.insert(i, e);
                ejected = true;
                proof {
                    assert(self.players@ =~= old(self).players@.update(
                        i as int,
                        PlayerEntry {
                            player: Player {
                                alive: false,
                                ..old(self).players@[i as int].player
                            },
                            ..old(self).players@[i as int]
                        },
                    ));
                }
            }
        }
        self.state = Some(GameState { phase: Phase::Playing, meeting_active: false, ..st });
        proof {
            assert(self@ =~= old(self)@.finalize_outcome(caller, ejected_player_hash).0);
        }
        Ok(ejected)
    }

    /// The pre-proof checks of a vote, in transaction order.
    fn check_vote(&self, voter: u64, vote: VoteInput) -> (r: Result<usize, GameError>)
        ensures
            match r {
                Ok(i) => self@.vote_gate(voter, vote) is None && i == addr_index(
                    self@.players,
                    voter,
                ) && i < self@.players.len(),
                Err(e) => self@.vote_gate(voter, vote) == Some(e),
            },
    {
        let st = self.read_state();
        if st.phase == Phase::Ended {
            return Err(GameError::AlreadyEnded);
        }
        if st.phase != Phase::Meeting {
            return Err(GameError::WrongPhase);
        }
        if self.nullifier_used(vote.nullifier) {
            return Err(GameError::NullifierUsed);
        }
        let i = match find_addr(&self.players, voter) {
            Some(i) => i,
            None => {
                return Err(GameError::PlayerNotFound);
            },
        };
        if !self.players[i].player.alive {
            return Err(GameError::DeadPlayer);
        }
        if !self.players[i].player.voted_for_hash.is_zero() {
            return Err(GameError::AlreadyVoted);
        }
        Ok(i)
    }

    /// A vote with the verifier's verdict already in hand: the
    /// whole pipeline except the external call, with an exact
    /// contract for either verdict. See `GameModel::vote_outcome`.
    pub fn submit_vote_with_verdict(&mut self, voter: u64, vote: VoteInput, proof_ok: bool) -> (r:
        Result<(), GameError>)
        ensures
            r == old(self)@.vote_outcome(voter, vote, proof_ok).1,
            final(self)@ == old(self)@.vote_outcome(voter, vote, proof_ok).0,
    {
        let i = match self.check_vote(voter, vote) {
            Ok(i) => i,
            Err(e) => {
                return Err(e);
            },
        };
        if !proof_ok {
            return Err(GameError::InvalidProof);
        }
        let mut e = self.players.remove(i);
        e.player.voted_for_hash = vote.target_hash;
        self.players.insert(i, e);
        self.used_nullifiers.push(vote.nullifier);
        proof {
            assert(self.players@ =~= old(self).players@.update(
                i as int,
                PlayerEntry {
                    player: Player {
                        voted_for_hash: vote.target_hash,
                        ..old(self).players@[i as int].player
                    },
                    ..old(self).players@[i as int]
                },
            ));
            lemma_to_set_push(old(self).used_nullifiers@, vote.nullifier);
            assert(self@ =~= old(self)@.vote_outcome(voter, vote, proof_ok).0);
        }
        Ok(())
    }

    /// A vote: checks, then the single external verification call,
    /// then the mutation. The contract states the exact outcome for
    /// whatever the verifier answers.
    pub fn submit_vote<V: ProofVerifier>(&mut self, v: &V, voter: u64, vote: VoteInput) -> (r:
        Result<(), GameError>)
        ensures
            old(self)@.vote_gate(voter, vote) matches Some(e) ==> r == Err::<(), GameError>(e)
                && final(self)@ == old(self)@,
            old(self)@.vote_gate(voter, vote) is None && old(self)@.verifier is None ==> r
                == Err::<(), GameError>(GameError::VerifierNotSet) && final(self)@ == old(self)@,
            old(self)@.vote_gate(voter, vote) is None && old(self)@.verifier is Some ==> exists|
                ok: bool,
            |
                r == #[trigger] old(self)@.vote_outcome(voter, vote, ok).1 && final(self)@ == old(
                    self,
                )@.vote_outcome(voter, vote, ok).0,
    {
        if let Err(e) = self.check_vote(voter, vote) {
            return Err(e);
        }
        let mut inputs: Vec<Hash32> = Vec::new();
        inputs.push(vote.nullifier);
        let ok = match self.verify_zk_proof(v, vote.proof_hash, &inputs) {
            Ok(b) => b,
            Err(e) => {
                return Err(e);
            },
        };
        let r = self.submit_vote_with_verdict(voter, vote, ok);
        proof {
            assert(r == old(self)@.vote_outcome(voter, vote, ok).1);
        }
        r
    }

    /// The pre-proof checks of a task submission.
    fn check_task(&self, player: u64, nullifier: Hash32) -> (r: Result<usize, GameError>)
        ensures
            match r {
                Ok(i) => self@.task_gate(player, nullifier) is None && i == addr_index(
                    self@.players,
                    player,
                ) && i < self@.players.len(),
                Err(e) => self@.task_gate(player, nullifier) == Some(e),
            },
    {
        let st = self.read_state();
        if st.phase == Phase::Ended {
            return Err(GameError::AlreadyEnded);
        }
        if st.phase != Phase::Playing {
            return Err(GameError::WrongPhase);
        }
        if self.nullifier_used(nullifier) {
            return Err(GameError::NullifierUsed);
        }
        let i = match find_addr(&self.players, player) {
            Some(i) => i,
            None => {
                return Err(GameError::PlayerNotFound);
            },
        };
        if !self.players[i].player.alive {
            return Err(GameError::DeadPlayer);
        }
        Ok(i)
    }

    /// A task submission with the verdict in hand. See
    /// `GameModel::task_outcome`.
    pub fn submit_task_proof_with_verdict(&mut self, player: u64, nullifier: Hash32, proof_ok:
        bool) -> (r: Result<(), GameError>)
        ensures
            r == old(self)@.task_outcome(player, nullifier, proof_ok).1,
            final(self)@ == old(self)@.task_outcome(player, nullifier, proof_ok).0,
    {
        let i = match self.check_task(player, nullifier) {
            Ok(i) => i,
            Err(e) => {
                return Err(e);
            },
        };
        if !proof_ok {
            return Err(GameError::InvalidProof);
        }
        let mut e = self.players.remove(i);
        e.player.tasks_done = if e.player.tasks_done == u32::MAX {
            e.player.tasks_done
        } else {
            e.player.tasks_done + 1
        };
        self.players.insert(i, e);
        self.used_nullifiers.push(nullifier);
        proof {
            assert(self.players@ =~= old(self).players@.update(
                i as int,
                PlayerEntry {
                    player: Player {
                        tasks_done: inc_sat(old(self).players@[i as int].player.tasks_done),
                        ..old(self).players@[i as int].player
                    },
                    ..old(self).players@[i as int]
                },
            ));
            lemma_to_set_push(old(self).used_nullifiers@, nullifier);
        }
        let ghost mid = self@;
        proof {
            assert(mid =~= (GameModel {
                players: old(self)@.players.update(
                    i as int,
                    PlayerEntry {
                        player: Player {
                            tasks_done: inc_sat(old(self)@.players[i as int].player.tasks_done),
                            ..old(self)@.players[i as int].player
                        },
                        ..old(self)@.players[i as int]
                    },
                ),
                used: old(self)@.used.insert(nullifier),
                ..old(self)@
            }));
        }
        let cfg = self.read_config();
        if total_tasks_at_least(&self.players, cfg.tasks_to_win) {
            self.set_winner(Winner::Crew);
            proof {
                assert(self@ =~= old(self)@.task_outcome(player, nullifier, proof_ok).0);
            }
        } else {
            proof {
                assert(self@ =~= old(self)@.task_outcome(player, nullifier, proof_ok).0);
            }
        }
        Ok(())
    }

    /// A task submission: the actor proves a completed task. See
    /// `GameModel::task_outcome` for what each verdict yields.
    pub fn submit_task_proof<V: ProofVerifier>(&mut self, v: &V, player: u64, proof: &ProofInput)
        -> (r: Result<(), GameError>)
        ensures
            old(self)@.task_gate(player, proof.nullifier) matches Some(e) ==> r == Err::<
                (),
                GameError,
            >(e) && final(self)@ == old(self)@,
            old(self)@.task_gate(player, proof.nullifier) is None && old(self)@.verifier is None
                ==> r == Err::<(), GameError>(GameError::VerifierNotSet) && final(self)@ == old(
                self,
            )@,
            old(self)@.task_gate(player, proof.nullifier) is None && old(self)@.verifier is Some
                ==> exists|ok: bool|
                r == #[trigger] old(self)@.task_outcome(player, proof.nullifier, ok).1
                    && final(self)@ == old(self)@.task_outcome(player, proof.nullifier, ok).0,
    {
        if let Err(e) = self.check_task(player, proof.nullifier) {
            return Err(e);
        }
        let inputs = with_appended_nullifier(proof);
        let ok = match self.verify_zk_proof(v, proof.proof_hash, &inputs) {
            Ok(b) => b,
            Err(e) => {
                return Err(e);
            },
        };
        let r = self.submit_task_proof_with_verdict(player, proof.nullifier, ok);
        proof {
            assert(r == old(self)@.task_outcome(player, proof.nullifier, ok).1);
        }
        r
    }

    /// The pre-proof checks of a kill submission; returns the
    /// victim's roster index.
    fn check_kill(&self, killer: u64, victim: u64, nullifier: Hash32) -> (r: Result<
        usize,
        GameError,
    >)
        ensures
            match r {
                Ok(i) => self@.kill_gate(killer, victim, nullifier) is None && i == addr_index(
                    self@.players,
                    victim,
                ) && i < self@.players.len(),
                Err(e) => self@.kill_gate(killer, victim, nullifier) == Some(e),
            },
    {
        let st = self.read_state();
        if st.phase == Phase::Ended {
            return Err(GameError::AlreadyEnded);
        }
        if st.phase != Phase::Playing {
            return Err(GameError::WrongPhase);
        }
        if self.nullifier_used(nullifier) {
            return Err(GameError::NullifierUsed);
        }
        let k = match find_addr(&self.players, killer) {
            Some(k) => k,
            None => {
                return Err(GameError::PlayerNotFound);
            },
        };
        if !self.players[k].player.alive {
            return Err(GameError::DeadPlayer);
        }
        let i = match find_addr(&self.players, victim) {
            Some(i) => i,
            None => {
                return Err(GameError::PlayerNotFound);
            },
        };
        if !self.players[i].player.alive {
            return Err(GameError::VictimDead);
        }
        Ok(i)
    }

    /// A kill submission with the verdict in hand. See
    /// `GameModel::kill_outcome`.
    pub fn submit_kill_proof_with_verdict(
        &mut self,
        killer: u64,
        victim: u64,
        nullifier: Hash32,
        proof_ok: bool,
    ) -> (r: Result<(), GameError>)
        ensures
            r == old(self)@.kill_outcome(killer, victim, nullifier, proof_ok).1,
            final(self)@ == old(self)@.kill_outcome(killer, victim, nullifier, proof_ok).0,
    {
        let i = match self.check_kill(killer, victim, nullifier) {
            Ok(i) => i,
            Err(e) => {
                return Err(e);
            },
        };
        if !proof_ok {
            return Err(GameError::InvalidProof);
        }
        let st = self.read_state();
        let mut e = self.players.remove(i);
        e.player.alive = false;
        self.players.insert(i, e);
        self.used_nullifiers.push(nullifier);
        proof {
            assert(self.players@ =~= old(self).players@.update(
                i as int,
                PlayerEntry {
                    player: Player { alive: false, ..old(self).players@[i as int].player },
                    ..old(self).players@[i as int]
                },
            ));
            lemma_to_set_push(old(self).used_nullifiers@, nullifier);
        }
        let ghost mid = self@;
        let alive = count_alive_exec(&self.players);
        if alive <= st.impostor_count as usize {
            self.set_winner(Winner::Impostor);
            proof {
                assert(self@ =~= old(self)@.kill_outcome(killer, victim, nullifier, proof_ok).0);
            }
        } else {
            proof {
                assert(self@ =~= old(self)@.kill_outcome(killer, victim, nullifier, proof_ok).0);
            }
        }
        Ok(())
    }

    /// A kill submission: the killer proves a permitted kill of a
    /// living, distinct victim. See `GameModel::kill_outcome`.
    pub fn submit_kill_proof<V: ProofVerifier>(
        &mut self,
        v: &V,
        killer: u64,
        victim: u64,
        proof: &ProofInput,
    ) -> (r: Result<(), GameError>)
        ensures
            old(self)@.kill_gate(killer, victim, proof.nullifier) matches Some(e) ==> r == Err::<
                (),
                GameError,
            >(e) && final(self)@ == old(self)@,
            old(self)@.kill_gate(killer, victim, proof.nullifier) is None && old(self)@.verifier
                is None ==> r == Err::<(), GameError>(GameError::VerifierNotSet) && final(self)@
                == old(self)@,
            old(self)@.kill_gate(killer, victim, proof.nullifier) is None && old(self)@.verifier
                is Some ==> exists|ok: bool|
                r == #[trigger] old(self)@.kill_outcome(killer, victim, proof.nullifier, ok).1
                    && final(self)@ == old(self)@.kill_outcome(killer, victim, proof.nullifier, ok).0,
    {
        if let Err(e) = self.check_kill(killer, victim, proof.nullifier) {
            return Err(e);
        }
        let inputs = with_appended_nullifier(proof);
        let ok = match self.verify_zk_proof(v, proof.proof_hash, &inputs) {
            Ok(b) => b,
            Err(e) => {
                return Err(e);
            },
        };
        let r = self.submit_kill_proof_with_verdict(killer, victim, proof.nullifier, ok);
        proof {
            assert(r == old(self)@.kill_outcome(killer, victim, proof.nullifier, ok).1);
        }
        r
    }

    /// An impostor-win claim with the verdict in hand. See
    /// `GameModel::impostor_win_outcome`.
    pub fn submit_impostor_win_proof_with_verdict(&mut self, nullifier: Hash32, proof_ok: bool)
        -> (r: Result<(), GameError>)
        ensures
            r == old(self)@.impostor_win_outcome(nullifier, proof_ok).1,
            final(self)@ == old(self)@.impostor_win_outcome(nullifier, proof_ok).0,
    {
        let st = self.read_state();
        if st.phase == Phase::Ended {
            return Err(GameError::AlreadyEnded);
        }
        if self.nullifier_used(nullifier) {
            return Err(GameError::NullifierUsed);
        }
        if !proof_ok {
            return Err(GameError::InvalidProof);
        }
        self.used_nullifiers.push(nullifier);
        proof {
            lemma_to_set_push(old(self).used_nullifiers@, nullifier);
        }
        self.set_winner(Winner::Impostor);
        proof {
            assert(self@ =~= old(self)@.impostor_win_outcome(nullifier, proof_ok).0);
        }
        Ok(())
    }

    /// An impostor-win claim: an accepted proof ends the game as an
    /// impostor win outright. The caller needs no roster entry; the
    /// host only authenticates it.
    pub fn submit_impostor_win_proof<V: ProofVerifier>(
        &mut self,
        v: &V,
        _caller: u64,
        proof: &ProofInput,
    ) -> (r: Result<(), GameError>)
        ensures
            old(self)@.impostor_win_gate(proof.nullifier) matches Some(e) ==> r == Err::<
                (),
                GameError,
            >(e) && final(self)@ == old(self)@,
            old(self)@.impostor_win_gate(proof.nullifier) is None && old(self)@.verifier is None
                ==> r == Err::<(), GameError>(GameError::VerifierNotSet) && final(self)@ == old(
                self,
            )@,
            old(self)@.impostor_win_gate(proof.nullifier) is None && old(self)@.verifier is Some
                ==> exists|ok: bool|
                r == #[trigger] old(self)@.impostor_win_outcome(proof.nullifier, ok).1
                    && final(self)@ == old(self)@.impostor_win_outcome(proof.nullifier, ok).0,
    {
        let st = self.read_state();
        if st.phase == Phase::Ended {
            return Err(GameError::AlreadyEnded);
        }
        if self.nullifier_used(proof.nullifier) {
            return Err(GameError::NullifierUsed);
        }
        let inputs = with_appended_nullifier(proof);
        let ok = match self.verify_zk_proof(v, proof.proof_hash, &inputs) {
            Ok(b) => b,
            Err(e) => {
                return Err(e);
            },
        };
        let r = self.submit_impostor_win_proof_with_verdict(proof.nullifier, ok);
        proof {
            assert(r == old(self)@.impostor_win_outcome(proof.nullifier, ok).1);
        }
        r
    }

    /// Evaluates a proof through the registered verifier; fails
    /// when none is registered. Nothing is assumed of the verdict.
    pub fn verify_zk_proof<V: ProofVerifier>(
        &self,
        v: &V,
        proof_hash: Hash32,
        public_inputs: &Vec<Hash32>,
    ) -> (r: Result<bool, GameError>)
        ensures
            (r is Ok) == (self@.verifier is Some),
            self@.verifier is None ==> r == Err::<bool, GameError>(GameError::VerifierNotSet),
    {
        match self.verifier {
            None => Err(GameError::VerifierNotSet),
            Some(id) => Ok(v.verify_proof(id, proof_hash, public_inputs)),
        }
    }
}

} // verus!
