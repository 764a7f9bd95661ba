//! Data model of the game: configuration, machine state, players,
//! action inputs, the error taxonomy, and the kinds of keys under
//! which a host ledger stores each piece of state.

use vstd::prelude::*;
use crate::hash::Hash32;

verus! {

/// Default roster bound until an admin configures the game.
pub const DEFAULT_MAX_PLAYERS: u32 = 15;

/// Default crew task threshold until an admin configures the game.
pub const DEFAULT_TASKS_TO_WIN: u32 = 40;

/// Default impostor count before `init` stores an explicit one.
pub const DEFAULT_IMPOSTOR_COUNT: u32 = 1;

/// Fewest players a game can start with, and the least value an
/// admin may set as the roster bound.
pub const MIN_PLAYERS: u32 = 4;

/// The coarse mode of the state machine.
#[derive(Clone, Copy, PartialEq, Eq, Structural, Debug)]
pub enum Phase {
    Lobby,
    Playing,
    Meeting,
    Ended,
}

/// Who has won, once the game has ended.
#[derive(Clone, Copy, PartialEq, Eq, Structural, Debug)]
pub enum Winner {
    Undecided,
    Crew,
    Impostor,
}

/// Why an operation was refused. Every operation either fully
/// applies or returns one of these and leaves the state unchanged.
#[derive(Clone, Copy, PartialEq, Eq, Structural, Debug)]
pub enum GameError {
    /// `init` was called twice.
    AlreadyInitialized,
    /// An admin-gated operation ran before `init` stored an admin.
    AdminNotSet,
    /// The caller of an admin-gated operation is not the admin.
    NotAdmin,
    /// A gameplay action was attempted after the game ended.
    AlreadyEnded,
    /// `start_game` was called outside the lobby phase.
    AlreadyStarted,
    /// The action is not allowed in the current phase.
    WrongPhase,
    /// `end_meeting` or `finalize_meeting` outside a meeting.
    MeetingNotActive,
    /// The roster already holds `max_players` entries.
    LobbyFull,
    /// The caller already has a roster entry.
    AlreadyJoined,
    /// Another roster entry carries the same player commitment.
    DuplicatePlayerHash,
    /// No roster entry exists for the named caller or victim.
    PlayerNotFound,
    /// A dead player attempted a living-only action.
    DeadPlayer,
    /// The kill target is already dead.
    VictimDead,
    /// The caller's vote field is no longer the zero sentinel.
    AlreadyVoted,
    /// A meeting was tallied with no living players.
    NoAliveVoters,
    /// Fewer than `MIN_PLAYERS` players are in the roster.
    NotEnoughPlayers,
    /// The supplied nullifier was consumed by an earlier action.
    NullifierUsed,
    /// No verifier has been registered.
    VerifierNotSet,
    /// The verifier rejected the proof.
    InvalidProof,
    /// `configure_game` with `max_players` below `MIN_PLAYERS`.
    InvalidMaxPlayers,
    /// `configure_game` with `tasks_to_win` of zero.
    InvalidTasksToWin,
    /// `end_game_admin` with no explicit winner.
    InvalidWinner,
}

/// Admin-set game parameters.
#[derive(Clone, Copy, PartialEq, Eq, Structural, Debug)]
pub struct GameConfig {
    pub max_players: u32,
    pub tasks_to_win: u32,
}

/// The phase machine's own state.
#[derive(Clone, Copy, PartialEq, Eq, Structural, Debug)]
pub struct GameState {
    pub phase: Phase,
    pub round: u32,
    pub meeting_active: bool,
    pub impostor_count: u32,
    /// Reserved for a feature this core does not implement; kept
    /// for data-shape compatibility, never read or written.
    pub sabotage_active: bool,
    pub winner: Winner,
}

/// One roster member. Entries are never removed, only marked dead.
#[derive(Clone, Debug)]
pub struct Player {
    pub x: u32,
    pub y: u32,
    pub alive: bool,
    pub tasks_done: u32,
    /// Commitment identifying the player across proofs; unique in
    /// the roster.
    pub player_hash: Hash32,
    /// Commitment to the player's secret role; opaque to the rules.
    pub role_hash: Hash32,
    /// Commitment to the current vote target; all-zero means "no
    /// vote cast".
    pub voted_for_hash: Hash32,
    pub color: String,
    pub name: String,
}

/// A roster entry: an opaque caller identity and its player record.
#[derive(Clone, Debug)]
pub struct PlayerEntry {
    pub addr: u64,
    pub player: Player,
}

/// Input of a vote submission.
#[derive(Clone, Copy, Debug)]
pub struct VoteInput {
    pub target_hash: Hash32,
    pub proof_hash: Hash32,
    pub nullifier: Hash32,
}

/// Input of a task, kill, or impostor-win submission.
#[derive(Clone, Debug)]
pub struct ProofInput {
    pub proof_hash: Hash32,
    pub nullifier: Hash32,
    pub public_inputs: Vec<Hash32>,
}

/// The closed set of key kinds under which a host ledger stores the
/// game's state.
#[derive(Clone, Copy, Debug)]
pub enum DataKey {
    Admin,
    Verifier,
    Config,
    GameState,
    Players,
    UsedNullifier(Hash32),
}

impl GameConfig {
    /// Configuration in force before the admin stores one.
    pub open spec fn spec_default() -> GameConfig {
        GameConfig { max_players: DEFAULT_MAX_PLAYERS, tasks_to_win: DEFAULT_TASKS_TO_WIN }
    }
}

impl GameState {
    /// State in force before `init` stores one: an empty lobby.
    pub open spec fn spec_initial(impostor_count: u32) -> GameState {
        GameState {
            phase: Phase::Lobby,
            round: 0,
            meeting_active: false,
            impostor_count,
            sabotage_active: false,
            winner: Winner::Undecided,
        }
    }
}

/// `x + 1`, held at the type's limit instead of wrapping.
pub open spec fn inc_sat(x: u32) -> u32 {
    if x == u32::MAX {
        x
    } else {
        (x + 1) as u32
    }
}

} // verus!
