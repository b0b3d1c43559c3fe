use std::sync::mpsc;
use token_miner::account::reduce_string;
use token_miner::round::{
    Coordinator, RoundAction, RoundEvent, RoundPhase, REWARD_PER_MS, ROUND_PAUSE_MS,
};
use token_miner::sampler::nonce_hash;
use token_miner::worker::{worker_step, MineResult, WorkerStep};

fn won(nonce: u64, elapsed_ms: u64) -> RoundEvent {
    RoundEvent::ResultReceived { result: MineResult { nonce }, elapsed_ms }
}

fn run_round(coordinator: &mut Coordinator, nonce: u64, elapsed_ms: u64) {
    let digest = nonce_hash(nonce);
    coordinator.step(RoundEvent::TargetSampled { digest });
    coordinator.step(RoundEvent::WorkersSpawned);
    coordinator.step(won(nonce, elapsed_ms));
    assert!(coordinator.can_take(&RoundEvent::WorkersJoined));
    coordinator.step(RoundEvent::WorkersJoined);
    coordinator.step(RoundEvent::PauseElapsed);
}

#[test]
fn constants_of_the_round() {
    assert_eq!(REWARD_PER_MS, 10);
    assert_eq!(ROUND_PAUSE_MS, 2000);
}

#[test]
fn new_coordinator_is_at_the_start() {
    let coordinator = Coordinator::new("Alice".to_string(), 1000, 4);
    assert_eq!(coordinator.phase, RoundPhase::Start);
    assert_eq!(coordinator.difficulty, 1000);
    assert_eq!(coordinator.miner_threads_len, 4);
    assert_eq!(coordinator.account.get_tokens(), 0);
    assert_eq!(coordinator.account.pubkey.chars().count(), 13);
    assert!(!coordinator.stop_signal);
    assert_eq!(coordinator.winner, None);
    assert_eq!(coordinator.target, "");
}

#[test]
fn round_walks_through_its_phases() {
    let mut coordinator = Coordinator::new("Alice".to_string(), 50, 3);
    let action = coordinator.step(RoundEvent::TargetSampled { digest: nonce_hash(17) });
    assert_eq!(action, RoundAction::SpawnWorkers { count: 3, difficulty: 50 });
    assert_eq!(coordinator.phase, RoundPhase::TargetChosen);
    assert_eq!(coordinator.target, nonce_hash(17));

    let action = coordinator.step(RoundEvent::WorkersSpawned);
    assert_eq!(action, RoundAction::AwaitResult);
    assert_eq!(coordinator.phase, RoundPhase::Searching);
    assert!(!coordinator.stop_signal);

    let action = coordinator.step(won(17, 25));
    assert_eq!(action, RoundAction::StopAndJoin);
    assert_eq!(coordinator.phase, RoundPhase::Found);
    assert!(coordinator.stop_signal);
    assert_eq!(coordinator.winner, Some(MineResult { nonce: 17 }));
    assert_eq!(coordinator.elapsed_ms, 25);
    assert_eq!(coordinator.account.get_tokens(), 0);

    let action = coordinator.step(RoundEvent::WorkersJoined);
    assert_eq!(action, RoundAction::Pause { millis: 2000 });
    assert_eq!(coordinator.phase, RoundPhase::Settled);
    assert_eq!(coordinator.account.get_tokens(), 250);
    assert!(coordinator.stop_signal);

    let action = coordinator.step(RoundEvent::PauseElapsed);
    assert_eq!(action, RoundAction::SampleTarget);
    assert_eq!(coordinator.phase, RoundPhase::Start);
    assert_eq!(coordinator.account.get_tokens(), 250);
}

#[test]
fn second_result_of_a_round_is_not_consumed() {
    let mut coordinator = Coordinator::new("Alice".to_string(), 50, 2);
    coordinator.step(RoundEvent::TargetSampled { digest: nonce_hash(17) });
    coordinator.step(RoundEvent::WorkersSpawned);
    assert_eq!(coordinator.step(won(17, 25)), RoundAction::StopAndJoin);
    assert_eq!(coordinator.step(won(17, 40)), RoundAction::Ignore);
    assert_eq!(coordinator.winner, Some(MineResult { nonce: 17 }));
    assert_eq!(coordinator.elapsed_ms, 25);
    coordinator.step(RoundEvent::WorkersJoined);
    assert_eq!(coordinator.account.get_tokens(), 250);
    assert_eq!(coordinator.step(won(17, 40)), RoundAction::Ignore);
    assert_eq!(coordinator.account.get_tokens(), 250);
}

#[test]
fn events_out_of_turn_change_nothing() {
    let mut coordinator = Coordinator::new("Alice".to_string(), 50, 2);
    assert_eq!(coordinator.step(RoundEvent::WorkersSpawned), RoundAction::Ignore);
    assert_eq!(coordinator.step(RoundEvent::WorkersJoined), RoundAction::Ignore);
    assert_eq!(coordinator.step(RoundEvent::ChannelClosed), RoundAction::Ignore);
    assert_eq!(coordinator.step(RoundEvent::PauseElapsed), RoundAction::Ignore);
    assert_eq!(coordinator.step(won(1, 1)), RoundAction::Ignore);
    assert_eq!(coordinator.phase, RoundPhase::Start);
    assert_eq!(coordinator.account.get_tokens(), 0);
    assert!(!coordinator.stop_signal);
    coordinator.step(RoundEvent::TargetSampled { digest: nonce_hash(1) });
    let action = coordinator.step(RoundEvent::TargetSampled { digest: nonce_hash(2) });
    assert_eq!(action, RoundAction::Ignore);
    assert_eq!(coordinator.target, nonce_hash(1));
}

#[test]
fn closed_channel_settles_without_credit() {
    let mut coordinator = Coordinator::new("Alice".to_string(), 50, 2);
    run_round(&mut coordinator, 3, 7);
    assert_eq!(coordinator.account.get_tokens(), 70);
    coordinator.step(RoundEvent::TargetSampled { digest: nonce_hash(17) });
    coordinator.step(RoundEvent::WorkersSpawned);
    assert_eq!(coordinator.step(RoundEvent::ChannelClosed), RoundAction::Join);
    assert_eq!(coordinator.phase, RoundPhase::Found);
    assert!(!coordinator.stop_signal);
    assert_eq!(coordinator.winner, None);
    assert_eq!(coordinator.step(RoundEvent::WorkersJoined), RoundAction::Pause { millis: 2000 });
    assert_eq!(coordinator.phase, RoundPhase::Settled);
    assert_eq!(coordinator.account.get_tokens(), 70);
}

#[test]
fn stop_signal_is_fresh_in_every_round() {
    let mut coordinator = Coordinator::new("Alice".to_string(), 50, 2);
    run_round(&mut coordinator, 3, 7);
    assert!(coordinator.stop_signal);
    coordinator.step(RoundEvent::TargetSampled { digest: nonce_hash(4) });
    assert!(coordinator.stop_signal);
    coordinator.step(RoundEvent::WorkersSpawned);
    assert!(!coordinator.stop_signal);
    assert_eq!(coordinator.winner, None);
}

#[test]
fn balance_is_the_sum_of_the_rewards() {
    let mut coordinator = Coordinator::new("Alice".to_string(), 50, 2);
    let elapsed = [25u64, 0, 1, 1234, 60000];
    let mut sum = 0;
    let mut last = 0;
    for (i, ms) in elapsed.iter().enumerate() {
        run_round(&mut coordinator, i as u64, *ms);
        sum += ms * 10;
        assert_eq!(coordinator.account.get_tokens(), sum);
        assert!(coordinator.account.get_tokens() >= last);
        last = coordinator.account.get_tokens();
    }
    assert_eq!(coordinator.account.get_tokens(), 612600);
}

#[test]
fn credit_that_does_not_fit_is_not_taken() {
    let mut coordinator = Coordinator::new("Alice".to_string(), 50, 2);
    coordinator.step(RoundEvent::TargetSampled { digest: nonce_hash(17) });
    coordinator.step(RoundEvent::WorkersSpawned);
    assert!(coordinator.can_take(&won(17, u64::MAX)));
    coordinator.step(won(17, u64::MAX));
    assert!(!coordinator.can_take(&RoundEvent::WorkersJoined));
    assert!(coordinator.can_take(&RoundEvent::PauseElapsed));

    let mut coordinator = Coordinator::new("Alice".to_string(), 50, 2);
    coordinator.step(RoundEvent::TargetSampled { digest: nonce_hash(17) });
    coordinator.step(RoundEvent::WorkersSpawned);
    coordinator.step(won(17, u64::MAX / 10));
    assert!(coordinator.can_take(&RoundEvent::WorkersJoined));
    coordinator.step(RoundEvent::WorkersJoined);
    assert_eq!(coordinator.account.get_tokens(), 18446744073709551610);
}

#[test]
fn choose_target_draws_a_digest_within_the_difficulty() {
    let mut coordinator = Coordinator::new("Alice".to_string(), 5, 2);
    let action = coordinator.choose_target();
    assert_eq!(action, RoundAction::SpawnWorkers { count: 2, difficulty: 5 });
    assert_eq!(coordinator.phase, RoundPhase::TargetChosen);
    assert!((0..=5).any(|nonce| nonce_hash(nonce) == coordinator.target));
    assert_eq!(reduce_string(&coordinator.target).chars().count(), 13);
    let target = coordinator.target.clone();
    assert_eq!(coordinator.choose_target(), RoundAction::Ignore);
    assert_eq!(coordinator.target, target);
}

#[test]
fn one_full_round_settles_with_a_single_winner() {
    let difficulty = 1000;
    let workers = 4;
    let mut coordinator = Coordinator::new("Alice".to_string(), difficulty, workers);
    let before = coordinator.account.get_tokens();
    let action = coordinator.choose_target();
    assert_eq!(action, RoundAction::SpawnWorkers { count: workers, difficulty });
    let (tx, rx) = mpsc::channel::<MineResult>();
    let target = coordinator.target.clone();
    assert_eq!(coordinator.step(RoundEvent::WorkersSpawned), RoundAction::AwaitResult);

    let mut running = vec![true; workers];
    let mut consumed = 0;
    let mut turns = 0;
    while running.iter().any(|r| *r) {
        turns += 1;
        assert!(turns < 10_000_000);
        for worker in 0..workers {
            if running[worker] {
                match worker_step(coordinator.stop_signal, difficulty, &target) {
                    WorkerStep::Halted => running[worker] = false,
                    WorkerStep::Found(result) => {
                        tx.send(result).unwrap();
                        running[worker] = false;
                    }
                    WorkerStep::Retry => {}
                }
            }
        }
        if coordinator.phase == RoundPhase::Searching {
            if let Ok(result) = rx.try_recv() {
                consumed += 1;
                assert_eq!(nonce_hash(result.nonce), target);
                let event = RoundEvent::ResultReceived { result, elapsed_ms: 3 };
                assert_eq!(coordinator.step(event), RoundAction::StopAndJoin);
            }
        }
    }
    assert_eq!(consumed, 1);
    assert!(coordinator.can_take(&RoundEvent::WorkersJoined));
    let action = coordinator.step(RoundEvent::WorkersJoined);
    assert_eq!(action, RoundAction::Pause { millis: 2000 });
    assert!(coordinator.account.get_tokens() > before);
    assert_eq!(coordinator.account.get_tokens(), before + 30);
}
