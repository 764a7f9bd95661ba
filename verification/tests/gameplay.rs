//! End-to-end flows: joining, moving, meetings, votes, tallies.

use amongus_game::game::AmongUsContract;
use amongus_game::types::{GameError, Phase, VoteInput, Winner};
use amongus_game::zk::MockVerifier;
use amongus_game::Hash32;

const ADMIN: u64 = 100;

fn h(b: u8) -> Hash32 {
    Hash32::new([b; 32])
}

fn join_four_players(c: &mut AmongUsContract) {
    c.join_game(1, "Red".to_string(), "P1".to_string(), h(11), h(1)).unwrap();
    c.join_game(2, "Blu".to_string(), "P2".to_string(), h(22), h(2)).unwrap();
    c.join_game(3, "Gre".to_string(), "P3".to_string(), h(33), h(3)).unwrap();
    c.join_game(4, "Yel".to_string(), "P4".to_string(), h(44), h(4)).unwrap();
}

fn started_game() -> AmongUsContract {
    let mut c = AmongUsContract::new();
    c.init(ADMIN, 1).unwrap();
    c.set_verifier(ADMIN, 7).unwrap();
    join_four_players(&mut c);
    c.start_game(ADMIN).unwrap();
    c
}

#[test]
fn join_and_move_player() {
    let mut c = AmongUsContract::new();
    c.init(ADMIN, 1).unwrap();
    join_four_players(&mut c);
    c.start_game(ADMIN).unwrap();

    c.submit_move(1, 42, 84).unwrap();

    let stored = c.get_player(1).unwrap();
    assert_eq!(stored.x, 42);
    assert_eq!(stored.y, 84);
    assert_eq!(stored.alive, true);
}

#[test]
fn submit_vote_with_verifier() {
    let mv = MockVerifier {};
    let mut c = started_game();

    c.start_meeting(1).unwrap();

    let vote = VoteInput { target_hash: h(4), proof_hash: h(8), nullifier: h(5) };
    c.submit_vote(&mv, 1, vote).unwrap();

    let stored = c.get_player(1).unwrap();
    assert_eq!(stored.voted_for_hash, h(4));
}

#[test]
fn finalize_meeting_ejects_majority_target() {
    let mv = MockVerifier {};
    let mut c = started_game();

    c.start_meeting(1).unwrap();

    let target_hash = h(22);
    c.submit_vote(&mv, 1, VoteInput { target_hash, proof_hash: h(8), nullifier: h(51) })
        .unwrap();
    c.submit_vote(&mv, 3, VoteInput { target_hash, proof_hash: h(9), nullifier: h(52) })
        .unwrap();
    c.submit_vote(&mv, 4, VoteInput { target_hash, proof_hash: h(10), nullifier: h(53) })
        .unwrap();

    assert_eq!(c.finalize_meeting(ADMIN, target_hash).unwrap(), true);

    let ejected = c.get_player(2).unwrap();
    assert_eq!(ejected.alive, false);
}

#[test]
fn finalize_meeting_tie_does_not_eject() {
    let mv = MockVerifier {};
    let mut c = started_game();

    c.start_meeting(1).unwrap();

    let target_hash = h(22);
    c.submit_vote(&mv, 1, VoteInput { target_hash, proof_hash: h(8), nullifier: h(61) })
        .unwrap();
    c.submit_vote(&mv, 3, VoteInput { target_hash, proof_hash: h(9), nullifier: h(62) })
        .unwrap();

    // Two of four is not a strict majority: the target stays.
    assert_eq!(c.finalize_meeting(ADMIN, target_hash).unwrap(), false);
    assert_eq!(c.get_player(2).unwrap().alive, true);
    assert_eq!(c.get_game_state().phase, Phase::Playing);
    assert_eq!(c.get_game_state().meeting_active, false);
}

#[test]
fn start_meeting_resets_living_votes_only() {
    let mv = MockVerifier {};
    let mut c = started_game();

    // First meeting: everyone votes out the second player.
    c.start_meeting(1).unwrap();
    let target_hash = h(22);
    c.submit_vote(&mv, 1, VoteInput { target_hash, proof_hash: h(8), nullifier: h(71) })
        .unwrap();
    c.submit_vote(&mv, 2, VoteInput { target_hash, proof_hash: h(8), nullifier: h(72) })
        .unwrap();
    c.submit_vote(&mv, 3, VoteInput { target_hash, proof_hash: h(8), nullifier: h(73) })
        .unwrap();
    c.submit_vote(&mv, 4, VoteInput { target_hash, proof_hash: h(8), nullifier: h(74) })
        .unwrap();
    assert_eq!(c.finalize_meeting(ADMIN, target_hash).unwrap(), true);

    // Second meeting: living players' votes reset, the dead one's
    // vote field is left as it was.
    c.start_meeting(1).unwrap();
    assert_eq!(c.get_player(1).unwrap().voted_for_hash, h(0));
    assert_eq!(c.get_player(3).unwrap().voted_for_hash, h(0));
    assert_eq!(c.get_player(4).unwrap().voted_for_hash, h(0));
    assert_eq!(c.get_player(2).unwrap().voted_for_hash, h(22));
    assert_eq!(c.get_player(2).unwrap().alive, false);
}

#[test]
fn meeting_increments_round_and_end_meeting_resumes() {
    let mut c = started_game();
    assert_eq!(c.get_game_state().round, 1);

    c.start_meeting(2).unwrap();
    let st = c.get_game_state();
    assert_eq!(st.phase, Phase::Meeting);
    assert_eq!(st.meeting_active, true);
    assert_eq!(st.round, 2);

    c.end_meeting(ADMIN).unwrap();
    let st = c.get_game_state();
    assert_eq!(st.phase, Phase::Playing);
    assert_eq!(st.meeting_active, false);
    assert_eq!(st.round, 2);
}

#[test]
fn join_rules_are_enforced() {
    let mut c = AmongUsContract::new();
    c.init(ADMIN, 1).unwrap();
    join_four_players(&mut c);

    // Same caller twice.
    assert_eq!(
        c.join_game(1, "Cyn".to_string(), "P5".to_string(), h(55), h(5)),
        Err(GameError::AlreadyJoined)
    );
    // Fresh caller, duplicate player commitment; the roster is not
    // touched.
    assert_eq!(
        c.join_game(5, "Cyn".to_string(), "P5".to_string(), h(22), h(5)),
        Err(GameError::DuplicatePlayerHash)
    );
    assert_eq!(c.get_players().len(), 4);

    // A full lobby turns the next join away.
    c.configure_game(ADMIN, 4, 40).unwrap();
    assert_eq!(
        c.join_game(5, "Cyn".to_string(), "P5".to_string(), h(55), h(5)),
        Err(GameError::LobbyFull)
    );

    // Joins are only allowed in the lobby.
    c.start_game(ADMIN).unwrap();
    assert_eq!(
        c.join_game(6, "Pnk".to_string(), "P6".to_string(), h(66), h(6)),
        Err(GameError::WrongPhase)
    );
}

#[test]
fn each_join_grows_roster_with_fresh_entry() {
    let mut c = AmongUsContract::new();
    c.init(ADMIN, 1).unwrap();
    for (i, b) in [(1u64, 11u8), (2, 22), (3, 33), (4, 44)] {
        let before = c.get_players().len();
        c.join_game(i, "Red".to_string(), "P".to_string(), h(b), h(b)).unwrap();
        assert_eq!(c.get_players().len(), before + 1);
        let p = c.get_player(i).unwrap();
        assert_eq!(p.alive, true);
        assert_eq!(p.tasks_done, 0);
        assert_eq!(p.voted_for_hash, h(0));
        assert_eq!(p.x, 0);
        assert_eq!(p.y, 0);
    }
}

#[test]
fn start_game_requires_four_players() {
    let mut c = AmongUsContract::new();
    c.init(ADMIN, 1).unwrap();
    c.join_game(1, "Red".to_string(), "P1".to_string(), h(11), h(1)).unwrap();
    c.join_game(2, "Blu".to_string(), "P2".to_string(), h(22), h(2)).unwrap();
    c.join_game(3, "Gre".to_string(), "P3".to_string(), h(33), h(3)).unwrap();
    assert_eq!(c.start_game(ADMIN), Err(GameError::NotEnoughPlayers));

    c.join_game(4, "Yel".to_string(), "P4".to_string(), h(44), h(4)).unwrap();
    c.start_game(ADMIN).unwrap();
    let st = c.get_game_state();
    assert_eq!(st.phase, Phase::Playing);
    assert_eq!(st.round, 1);
    assert_eq!(st.winner, Winner::Undecided);
}

#[test]
fn movement_rules_are_enforced() {
    let mut c = AmongUsContract::new();
    c.init(ADMIN, 1).unwrap();
    join_four_players(&mut c);
    // Not while still in the lobby.
    assert_eq!(c.submit_move(1, 5, 5), Err(GameError::WrongPhase));

    c.start_game(ADMIN).unwrap();
    assert_eq!(c.submit_move(9, 5, 5), Err(GameError::PlayerNotFound));

    // A dead player cannot move.
    let mv = MockVerifier {};
    let mut c2 = started_game();
    c2.start_meeting(1).unwrap();
    for (voter, n) in [(1u64, 81u8), (2, 82), (3, 83), (4, 84)] {
        c2.submit_vote(&mv, voter, VoteInput {
            target_hash: h(22),
            proof_hash: h(8),
            nullifier: h(n),
        })
        .unwrap();
    }
    c2.finalize_meeting(ADMIN, h(22)).unwrap();
    assert_eq!(c2.submit_move(2, 5, 5), Err(GameError::DeadPlayer));
}

#[test]
fn getters_are_pure_reads() {
    let mut c = started_game();
    c.submit_move(1, 9, 9).unwrap();

    let cfg1 = c.get_config();
    let cfg2 = c.get_config();
    assert_eq!(cfg1, cfg2);

    let st1 = c.get_game_state();
    let st2 = c.get_game_state();
    assert_eq!(st1, st2);

    let len1 = c.get_players().len();
    let first_x1 = c.get_players()[0].player.x;
    let len2 = c.get_players().len();
    let first_x2 = c.get_players()[0].player.x;
    assert_eq!(len1, len2);
    assert_eq!(first_x1, first_x2);
    assert_eq!(first_x1, 9);
}

#[test]
fn init_resets_any_pre_init_roster() {
    let mut c = AmongUsContract::new();
    // The store answers with lobby defaults before initialisation,
    // so joining is already possible; `init` then stores a fresh
    // empty roster.
    c.join_game(1, "Red".to_string(), "P1".to_string(), h(11), h(1)).unwrap();
    assert_eq!(c.get_players().len(), 1);
    c.init(ADMIN, 1).unwrap();
    assert_eq!(c.get_players().len(), 0);
}

#[test]
fn default_config_applies_before_configuration() {
    let c = AmongUsContract::new();
    let cfg = c.get_config();
    assert_eq!(cfg.max_players, 15);
    assert_eq!(cfg.tasks_to_win, 40);
    let st = c.get_game_state();
    assert_eq!(st.phase, Phase::Lobby);
    assert_eq!(st.round, 0);
    assert_eq!(st.impostor_count, 1);
    assert_eq!(st.winner, Winner::Undecided);
}
