//! The proof-gated actions: tasks, kills, the impostor-win claim,
//! replay protection, and the admin lifecycle.

use amongus_game::game::AmongUsContract;
use amongus_game::types::{GameError, Phase, ProofInput, VoteInput, Winner};
use amongus_game::zk::MockVerifier;
use amongus_game::Hash32;

const ADMIN: u64 = 100;

fn h(b: u8) -> Hash32 {
    Hash32::new([b; 32])
}

fn proof_with(nullifier: Hash32) -> ProofInput {
    ProofInput { proof_hash: h(8), nullifier, public_inputs: vec![h(1), h(2)] }
}

fn join_four_players(c: &mut AmongUsContract) {
    c.join_game(1, "Red".to_string(), "P1".to_string(), h(11), h(1)).unwrap();
    c.join_game(2, "Blu".to_string(), "P2".to_string(), h(22), h(2)).unwrap();
    c.join_game(3, "Gre".to_string(), "P3".to_string(), h(33), h(3)).unwrap();
    c.join_game(4, "Yel".to_string(), "P4".to_string(), h(44), h(4)).unwrap();
}

fn started_game(impostor_count: u32) -> AmongUsContract {
    let mut c = AmongUsContract::new();
    c.init(ADMIN, impostor_count).unwrap();
    c.set_verifier(ADMIN, 7).unwrap();
    join_four_players(&mut c);
    c.start_game(ADMIN).unwrap();
    c
}

#[test]
fn task_threshold_ends_game_with_crew_win() {
    let mv = MockVerifier {};
    let mut c = AmongUsContract::new();
    c.init(ADMIN, 1).unwrap();
    c.set_verifier(ADMIN, 7).unwrap();
    c.configure_game(ADMIN, 15, 1).unwrap();
    join_four_players(&mut c);
    c.start_game(ADMIN).unwrap();

    c.submit_task_proof(&mv, 1, &proof_with(h(90))).unwrap();

    assert_eq!(c.get_player(1).unwrap().tasks_done, 1);
    let st = c.get_game_state();
    assert_eq!(st.phase, Phase::Ended);
    assert_eq!(st.winner, Winner::Crew);
}

#[test]
fn task_below_threshold_keeps_playing() {
    let mv = MockVerifier {};
    let mut c = started_game(1);
    c.submit_task_proof(&mv, 1, &proof_with(h(90))).unwrap();
    assert_eq!(c.get_player(1).unwrap().tasks_done, 1);
    assert_eq!(c.get_game_state().phase, Phase::Playing);
    assert_eq!(c.get_game_state().winner, Winner::Undecided);
}

#[test]
fn kill_reaching_impostor_count_ends_game() {
    let mv = MockVerifier {};
    // Three impostors among four players: one kill ends it.
    let mut c = started_game(3);
    c.submit_kill_proof(&mv, 1, 2, &proof_with(h(91))).unwrap();
    assert_eq!(c.get_player(2).unwrap().alive, false);
    let st = c.get_game_state();
    assert_eq!(st.phase, Phase::Ended);
    assert_eq!(st.winner, Winner::Impostor);
}

#[test]
fn kill_above_impostor_count_keeps_playing() {
    let mv = MockVerifier {};
    let mut c = started_game(1);
    c.submit_kill_proof(&mv, 1, 2, &proof_with(h(91))).unwrap();
    assert_eq!(c.get_player(2).unwrap().alive, false);
    assert_eq!(c.get_game_state().phase, Phase::Playing);

    // The victim is gone: killing it again is refused.
    assert_eq!(
        c.submit_kill_proof(&mv, 1, 2, &proof_with(h(92))),
        Err(GameError::VictimDead)
    );
    // And a dead killer cannot act.
    assert_eq!(
        c.submit_kill_proof(&mv, 2, 3, &proof_with(h(93))),
        Err(GameError::DeadPlayer)
    );
}

#[test]
fn impostor_win_claim_ends_game_unconditionally() {
    let mv = MockVerifier {};
    let mut c = started_game(1);
    // All four players are alive; the accepted claim still ends it.
    c.submit_impostor_win_proof(&mv, 1, &proof_with(h(94))).unwrap();
    let st = c.get_game_state();
    assert_eq!(st.phase, Phase::Ended);
    assert_eq!(st.winner, Winner::Impostor);
}

#[test]
fn nullifier_cannot_be_consumed_twice_across_actions() {
    let mv = MockVerifier {};
    let mut c = started_game(1);

    let n = h(50);
    c.submit_task_proof(&mv, 1, &proof_with(n)).unwrap();

    // The same nullifier is refused for every action kind, with a
    // perfectly valid proof.
    assert_eq!(c.submit_task_proof(&mv, 2, &proof_with(n)), Err(GameError::NullifierUsed));
    assert_eq!(c.submit_kill_proof(&mv, 1, 2, &proof_with(n)), Err(GameError::NullifierUsed));
    assert_eq!(c.submit_impostor_win_proof(&mv, 1, &proof_with(n)), Err(GameError::NullifierUsed));

    c.start_meeting(1).unwrap();
    assert_eq!(
        c.submit_vote(&mv, 2, VoteInput { target_hash: h(22), proof_hash: h(8), nullifier: n }),
        Err(GameError::NullifierUsed)
    );
}

#[test]
fn vote_nullifier_blocks_other_voter() {
    let mv = MockVerifier {};
    let mut c = started_game(1);
    c.start_meeting(1).unwrap();
    let n = h(51);
    c.submit_vote(&mv, 1, VoteInput { target_hash: h(22), proof_hash: h(8), nullifier: n })
        .unwrap();
    assert_eq!(
        c.submit_vote(&mv, 3, VoteInput { target_hash: h(22), proof_hash: h(9), nullifier: n }),
        Err(GameError::NullifierUsed)
    );
}

#[test]
fn vote_rules_are_enforced() {
    let mv = MockVerifier {};
    let mut c = started_game(1);

    let vote = VoteInput { target_hash: h(22), proof_hash: h(8), nullifier: h(52) };
    // Only during a meeting.
    assert_eq!(c.submit_vote(&mv, 1, vote), Err(GameError::WrongPhase));

    c.start_meeting(1).unwrap();
    assert_eq!(c.submit_vote(&mv, 9, vote), Err(GameError::PlayerNotFound));

    // A rejected proof leaves everything unchanged: the zero proof
    // commitment is what the reference verifier turns away.
    let bad = VoteInput { target_hash: h(22), proof_hash: h(0), nullifier: h(53) };
    assert_eq!(c.submit_vote(&mv, 1, bad), Err(GameError::InvalidProof));
    assert_eq!(c.get_player(1).unwrap().voted_for_hash, h(0));

    // Voting twice is refused even with a fresh nullifier.
    c.submit_vote(&mv, 1, vote).unwrap();
    let again = VoteInput { target_hash: h(33), proof_hash: h(8), nullifier: h(54) };
    assert_eq!(c.submit_vote(&mv, 1, again), Err(GameError::AlreadyVoted));
}

#[test]
fn verdict_entry_points_cover_both_answers() {
    let mut c = started_game(1);
    c.start_meeting(1).unwrap();
    let vote = VoteInput { target_hash: h(44), proof_hash: h(8), nullifier: h(55) };
    assert_eq!(c.submit_vote_with_verdict(1, vote, false), Err(GameError::InvalidProof));
    c.submit_vote_with_verdict(1, vote, true).unwrap();
    assert_eq!(c.get_player(1).unwrap().voted_for_hash, h(44));
    c.end_meeting(ADMIN).unwrap();

    assert_eq!(
        c.submit_task_proof_with_verdict(1, h(56), false),
        Err(GameError::InvalidProof)
    );
    c.submit_task_proof_with_verdict(1, h(56), true).unwrap();
    assert_eq!(c.get_player(1).unwrap().tasks_done, 1);

    assert_eq!(
        c.submit_kill_proof_with_verdict(1, 2, h(57), false),
        Err(GameError::InvalidProof)
    );
    c.submit_kill_proof_with_verdict(1, 2, h(57), true).unwrap();
    assert_eq!(c.get_player(2).unwrap().alive, false);

    assert_eq!(
        c.submit_impostor_win_proof_with_verdict(h(58), false),
        Err(GameError::InvalidProof)
    );
    c.submit_impostor_win_proof_with_verdict(h(58), true).unwrap();
    assert_eq!(c.get_game_state().winner, Winner::Impostor);
}

#[test]
fn verifier_must_be_registered() {
    let mv = MockVerifier {};
    let mut c = AmongUsContract::new();
    c.init(ADMIN, 1).unwrap();
    join_four_players(&mut c);
    c.start_game(ADMIN).unwrap();
    assert_eq!(
        c.submit_task_proof(&mv, 1, &proof_with(h(60))),
        Err(GameError::VerifierNotSet)
    );
    assert_eq!(c.verify_zk_proof(&mv, h(8), &vec![h(1)]), Err(GameError::VerifierNotSet));

    c.set_verifier(ADMIN, 7).unwrap();
    assert_eq!(c.verify_zk_proof(&mv, h(8), &vec![h(1)]), Ok(true));
    assert_eq!(c.verify_zk_proof(&mv, h(0), &vec![h(1)]), Ok(false));
}

#[test]
fn ended_game_refuses_every_gameplay_action() {
    let mv = MockVerifier {};
    let mut c = started_game(1);
    c.end_game_admin(ADMIN, Winner::Crew).unwrap();
    assert_eq!(c.get_game_state().phase, Phase::Ended);

    assert_eq!(
        c.join_game(9, "Cyn".to_string(), "P9".to_string(), h(99), h(9)),
        Err(GameError::AlreadyEnded)
    );
    assert_eq!(c.submit_move(1, 1, 1), Err(GameError::AlreadyEnded));
    assert_eq!(c.start_meeting(1), Err(GameError::AlreadyEnded));
    assert_eq!(
        c.submit_vote(&mv, 1, VoteInput { target_hash: h(22), proof_hash: h(8), nullifier: h(61) }),
        Err(GameError::AlreadyEnded)
    );
    assert_eq!(c.submit_task_proof(&mv, 1, &proof_with(h(62))), Err(GameError::AlreadyEnded));
    assert_eq!(c.submit_kill_proof(&mv, 1, 2, &proof_with(h(63))), Err(GameError::AlreadyEnded));
    assert_eq!(
        c.submit_impostor_win_proof(&mv, 1, &proof_with(h(64))),
        Err(GameError::AlreadyEnded)
    );
    // Starting over is refused too, though as a lifecycle error.
    assert_eq!(c.start_game(ADMIN), Err(GameError::AlreadyStarted));
}

#[test]
fn admin_lifecycle_is_gated_and_validated() {
    let mut c = AmongUsContract::new();
    // Before initialisation there is no admin to match.
    assert_eq!(c.configure_game(ADMIN, 10, 10), Err(GameError::AdminNotSet));

    c.init(ADMIN, 1).unwrap();
    assert_eq!(c.init(ADMIN, 1), Err(GameError::AlreadyInitialized));

    assert_eq!(c.configure_game(5, 10, 10), Err(GameError::NotAdmin));
    assert_eq!(c.configure_game(ADMIN, 3, 10), Err(GameError::InvalidMaxPlayers));
    assert_eq!(c.configure_game(ADMIN, 10, 0), Err(GameError::InvalidTasksToWin));
    c.configure_game(ADMIN, 10, 10).unwrap();
    assert_eq!(c.get_config().max_players, 10);
    assert_eq!(c.get_config().tasks_to_win, 10);

    assert_eq!(c.set_verifier(5, 7), Err(GameError::NotAdmin));
    assert_eq!(c.end_game_admin(ADMIN, Winner::Undecided), Err(GameError::InvalidWinner));
    assert_eq!(c.end_meeting(ADMIN), Err(GameError::MeetingNotActive));
    assert_eq!(c.finalize_meeting(ADMIN, h(22)), Err(GameError::MeetingNotActive));

    // The phase override stores exactly the given phase.
    c.set_phase(ADMIN, Phase::Playing).unwrap();
    assert_eq!(c.get_game_state().phase, Phase::Playing);
    assert_eq!(
        c.join_game(1, "Red".to_string(), "P1".to_string(), h(11), h(1)),
        Err(GameError::WrongPhase)
    );
}

#[test]
fn mock_verifier_accepts_only_nonzero_proofs() {
    let mv = MockVerifier {};
    assert_eq!(mv.verify(h(8), &vec![]), true);
    assert_eq!(mv.verify(h(0), &vec![h(1)]), false);
}
