//! The coordinator of the mining rounds, as a state machine: each event
//! that the outside world reports moves the round on and names the next
//! thing to do.

use crate::account::{identity_of, is_identity_form, TokenAccount};
use crate::sampler::{get_nonce_hash_with_nonce, nonce_digest};
use crate::worker::MineResult;
use vstd::prelude::*;

verus! {

/// Reward units credited per millisecond that a round took.
pub const REWARD_PER_MS: u64 = 10;

/// Pause between two rounds, in milliseconds.
pub const ROUND_PAUSE_MS: u64 = 2000;

/// The reward for a round that took `elapsed_ms` milliseconds.
pub open spec fn reward_for(elapsed_ms: u64) -> int {
    elapsed_ms * REWARD_PER_MS
}

/// The sum of the rewards for rounds of the given durations.
pub open spec fn total_reward(elapsed: Seq<u64>) -> int
    decreases elapsed.len(),
{
    if elapsed.len() == 0 {
        0
    } else {
        total_reward(elapsed.drop_last()) + reward_for(elapsed.last())
    }
}

/// Where a round stands.
#[derive(Clone, Copy, Debug, PartialEq, Eq, Structural)]
pub enum RoundPhase {
    /// No target yet.
    Start,
    /// The target is chosen; the workers are not running yet.
    TargetChosen,
    /// The workers search; the coordinator waits for the first result.
    Searching,
    /// The wait is over; the workers are being joined.
    Found,
    /// The round is settled; the pause before the next one runs.
    Settled,
}

/// What the outside world reports to the coordinator.
pub enum RoundEvent {
    /// The sampler produced the digest that becomes the target.
    TargetSampled { digest: String },
    /// The workers run, with a fresh stop signal and a fresh channel.
    WorkersSpawned,
    /// A result arrived on the channel, this long after the round began.
    ResultReceived { result: MineResult, elapsed_ms: u64 },
    /// Every worker left without sending: the channel is closed.
    ChannelClosed,
    /// Every worker has been joined.
    WorkersJoined,
    /// The pause between rounds is over.
    PauseElapsed,
}

/// What the coordinator asks for next.
#[derive(Clone, Copy, Debug, PartialEq, Eq, Structural)]
pub enum RoundAction {
    /// Draw a target with the sampler and report it.
    SampleTarget,
    /// Spawn this many workers on the current target, each drawing from
    /// `0..=difficulty`.
    SpawnWorkers { count: usize, difficulty: u64 },
    /// Block on the channel until a result arrives or it closes.
    AwaitResult,
    /// Set the stop signal, read no further result, join every worker.
    StopAndJoin,
    /// Join every worker; the stop signal stays as it is.
    Join,
    /// Report the round and sleep for this many milliseconds.
    Pause { millis: u64 },
    /// The event does not belong to this phase: nothing to do.
    Ignore,
}

/// The coordinator: the account, the parameters of the search and the
/// state of the current round.
pub struct Coordinator {
    pub account: TokenAccount,
    pub difficulty: u64,
    pub miner_threads_len: usize,
    pub phase: RoundPhase,
    /// The target of the current round, as lowercase hexadecimal.
    pub target: String,
    /// The stop signal as the coordinator last set it.
    pub stop_signal: bool,
    /// The result consumed in the current round, if any.
    pub winner: Option<MineResult>,
    /// How long the current round took until its result arrived.
    pub elapsed_ms: u64,
    /// The durations of the rounds that have been credited, oldest first.
    pub credited: Ghost<Seq<u64>>,
}

impl Coordinator {
    /// The invariant of the coordinator: the stop signal is set exactly
    /// while a consumed result is held, never while the workers search, and
    /// the balance is the sum of the rewards of the credited rounds.
    pub open spec fn wf(&self) -> bool {
        &&& self.stop_signal == self.winner.is_some()
        &&& self.phase == RoundPhase::Searching ==> !self.stop_signal
        &&& self.account.tokens == total_reward(self.credited@)
    }

    /// Whether the event, in this state, credits the account.
    pub open spec fn credits(&self, event: RoundEvent) -> bool {
        self.phase == RoundPhase::Found && event is WorkersJoined && self.winner.is_some()
    }

    /// Whether the coordinator can take the event: a credit must not push
    /// the balance beyond what a `u64` holds.
    pub open spec fn accepts(&self, event: RoundEvent) -> bool {
        self.credits(event) ==> self.account.tokens + reward_for(self.elapsed_ms) <= u64::MAX
    }

    /// The state that follows this one on an event.
    pub open spec fn after(self, event: RoundEvent) -> Coordinator {
        match (self.phase, event) {
            (RoundPhase::Start, RoundEvent::TargetSampled { digest }) => Coordinator {
                phase: RoundPhase::TargetChosen,
                target: digest,
                ..self
            },
            (RoundPhase::TargetChosen, RoundEvent::WorkersSpawned) => Coordinator {
                phase: RoundPhase::Searching,
                stop_signal: false,
                winner: None,
                ..self
            },
            (RoundPhase::Searching, RoundEvent::ResultReceived { result, elapsed_ms }) => Coordinator {
                phase: RoundPhase::Found,
                stop_signal: true,
                winner: Some(result),
                elapsed_ms: elapsed_ms,
                ..self
            },
            (RoundPhase::Searching, RoundEvent::ChannelClosed) => Coordinator {
                phase: RoundPhase::Found,
                ..self
            },
            (RoundPhase::Found, RoundEvent::WorkersJoined) => if self.winner.is_some() {
                Coordinator {
                    phase: RoundPhase::Settled,
                    account: TokenAccount {
                        pubkey: self.account.pubkey,
                        tokens: (self.account.tokens + reward_for(self.elapsed_ms)) as u64,
                    },
                    credited: Ghost(self.credited@.push(self.elapsed_ms)),
                    ..self
                }
            } else {
                Coordinator { phase: RoundPhase::Settled, ..self }
            },
            (RoundPhase::Settled, RoundEvent::PauseElapsed) => Coordinator {
                phase: RoundPhase::Start,
                ..self
            },
            _ => self,
        }
    }

    /// What the coordinator asks for when an event arrives in this state.
    pub open spec fn action_on(self, event: RoundEvent) -> RoundAction {
        match (self.phase, event) {
            (RoundPhase::Start, RoundEvent::TargetSampled { .. }) => RoundAction::SpawnWorkers {
                count: self.miner_threads_len,
                difficulty: self.difficulty,
            },
            (RoundPhase::TargetChosen, RoundEvent::WorkersSpawned) => RoundAction::AwaitResult,
            (RoundPhase::Searching, RoundEvent::ResultReceived { .. }) => RoundAction::StopAndJoin,
            (RoundPhase::Searching, RoundEvent::ChannelClosed) => RoundAction::Join,
            (RoundPhase::Found, RoundEvent::WorkersJoined) => RoundAction::Pause {
                millis: ROUND_PAUSE_MS,
            },
            (RoundPhase::Settled, RoundEvent::PauseElapsed) => RoundAction::SampleTarget,
            _ => RoundAction::Ignore,
        }
    }

    /// A coordinator before its first round, with a fresh account for
    /// `name`.
    pub fn new(name: String, difficulty: u64, miner_threads_len: usize) -> (coordinator: Self)
        ensures
            coordinator.wf(),
            coordinator.phase == RoundPhase::Start,
            coordinator.account.pubkey@ == identity_of(name@),
            is_identity_form(coordinator.account.pubkey@),
            coordinator.account.tokens == 0,
            coordinator.difficulty == difficulty,
            coordinator.miner_threads_len == miner_threads_len,
            coordinator.target@ == Seq::<char>::empty(),
            !coordinator.stop_signal,
            coordinator.winner.is_none(),
            coordinator.elapsed_ms == 0,
            coordinator.credited@ == Seq::<u64>::empty(),
    {
        Coordinator {
            account: TokenAccount::create(name),
            difficulty,
            miner_threads_len,
            phase: RoundPhase::Start,
            target: String::new(),
            stop_signal: false,
            winner: None,
            elapsed_ms: 0,
            credited: Ghost(Seq::empty()),
        }
    }

    /// Whether `step` can take the event in this state.
    pub fn can_take(&self, event: &RoundEvent) -> (ok: bool)
        ensures
            ok == self.accepts(*event),
    {
        match (self.phase, event) {
            (RoundPhase::Found, RoundEvent::WorkersJoined) => {
                self.winner.is_none() || self.elapsed_ms as u128 * REWARD_PER_MS as u128
                    + self.account.tokens as u128
                    <= u64::MAX as u128
            },
            _ => true,
        }
    }

    /// Takes one event: moves the round on and returns what to do next.
    /// An event that does not belong to the current phase changes nothing,
    /// so a second result in one round is never consumed.
    pub fn step(&mut self, event: RoundEvent) -> (action: RoundAction)
        requires
            old(self).wf(),
            old(self).accepts(event),
        ensures
            *final(self) == old(self).after(event),
            action == old(self).action_on(event),
            final(self).wf(),
    {
        proof {
            lemma_step_keeps_wf(*self, event);
        }
        match (self.phase, event) {
            (RoundPhase::Start, RoundEvent::TargetSampled { digest }) => {
                self.phase = RoundPhase::TargetChosen;
                self.target = digest;
                RoundAction::SpawnWorkers {
                    count: self.miner_threads_len,
                    difficulty: self.difficulty,
                }
            },
            (RoundPhase::TargetChosen, RoundEvent::WorkersSpawned) => {
                self.phase = RoundPhase::Searching;
                self.stop_signal = false;
                self.winner = None;
                RoundAction::AwaitResult
            },
            (RoundPhase::Searching, RoundEvent::ResultReceived { result, elapsed_ms }) => {
                self.phase = RoundPhase::Found;
                self.stop_signal = true;
                self.winner = Some(result);
                self.elapsed_ms = elapsed_ms;
                RoundAction::StopAndJoin
            },
            (RoundPhase::Searching, RoundEvent::ChannelClosed) => {
                self.phase = RoundPhase::Found;
                RoundAction::Join
            },
            (RoundPhase::Found, RoundEvent::WorkersJoined) => {
                if self.winner.is_some() {
                    let reward: u64 = self.elapsed_ms * REWARD_PER_MS;
                    self.account.add_tokens(reward);
                    self.credited = Ghost(self.credited@.push(self.elapsed_ms));
                }
                self.phase = RoundPhase::Settled;
                RoundAction::Pause { millis: ROUND_PAUSE_MS }
            },
            (RoundPhase::Settled, RoundEvent::PauseElapsed) => {
                self.phase = RoundPhase::Start;
                RoundAction::SampleTarget
            },
            _ => RoundAction::Ignore,
        }
    }

    /// Draws a target with the sampler and takes it as the event
    /// `TargetSampled`. At the start of a round the target becomes the
    /// digest of some nonce in `0..=difficulty` (the nonce itself is
    /// dropped) and the workers are asked for; in any other phase nothing
    /// changes.
    pub fn choose_target(&mut self) -> (action: RoundAction)
        requires
            old(self).wf(),
        ensures
            final(self).wf(),
            old(self).phase == RoundPhase::Start ==> {
                &&& final(self).phase == RoundPhase::TargetChosen
                &&& exists|nonce: u64|
                    nonce <= old(self).difficulty && final(self).target@ == #[trigger] nonce_digest(
                        nonce,
                    )
                &&& *final(self) == (Coordinator {
                    phase: final(self).phase,
                    target: final(self).target,
                    ..*old(self)
                })
                &&& action == (RoundAction::SpawnWorkers {
                    count: old(self).miner_threads_len,
                    difficulty: old(self).difficulty,
                })
            },
            old(self).phase != RoundPhase::Start ==> *final(self) == *old(self) && action
                == RoundAction::Ignore,
    {
        let (digest, nonce) = get_nonce_hash_with_nonce(self.difficulty);
        let action = self.step(RoundEvent::TargetSampled { digest });
        assert(old(self).phase == RoundPhase::Start ==> final(self).target@ == nonce_digest(nonce));
        action
    }
}

/// A step keeps the coordinator's invariant.
pub proof fn lemma_step_keeps_wf(c: Coordinator, event: RoundEvent)
    requires
        c.wf(),
        c.accepts(event),
    ensures
        c.after(event).wf(),
{
    if c.credits(event) {
        let grown = c.credited@.push(c.elapsed_ms);
        assert(grown.drop_last() =~= c.credited@);
    }
}

/// The balance never goes down, and every step credits nothing or the
/// reward of the round that it settles.
pub proof fn lemma_balance_monotonic(c: Coordinator, event: RoundEvent)
    requires
        c.wf(),
        c.accepts(event),
    ensures
        c.after(event).account.tokens >= c.account.tokens,
        c.credits(event) ==> c.after(event).account.tokens == c.account.tokens + reward_for(
            c.elapsed_ms,
        ),
        !c.credits(event) ==> c.after(event).account.tokens == c.account.tokens,
{
}

/// The state in which a round is settled that began at `c`, took `digest`
/// as its target, consumed `result` after `elapsed_ms` milliseconds and
/// joined its workers.
pub open spec fn settled_round(
    c: Coordinator,
    digest: String,
    result: MineResult,
    elapsed_ms: u64,
) -> Coordinator {
    c.after(RoundEvent::TargetSampled { digest }).after(RoundEvent::WorkersSpawned).after(
        RoundEvent::ResultReceived { result, elapsed_ms },
    ).after(RoundEvent::WorkersJoined)
}

/// A round with a winner credits exactly the reward of its duration: the
/// balance grows by ten units per millisecond, strictly if the round took
/// any time at all, and the next round starts from that balance.
pub proof fn lemma_round_credits_reward(
    c: Coordinator,
    digest: String,
    result: MineResult,
    elapsed_ms: u64,
)
    requires
        c.wf(),
        c.phase == RoundPhase::Start,
        c.account.tokens + reward_for(elapsed_ms) <= u64::MAX,
    ensures
        settled_round(c, digest, result, elapsed_ms).wf(),
        settled_round(c, digest, result, elapsed_ms).phase == RoundPhase::Settled,
        settled_round(c, digest, result, elapsed_ms).winner == Some(result),
        settled_round(c, digest, result, elapsed_ms).account.tokens == c.account.tokens + 10
            * elapsed_ms,
        settled_round(c, digest, result, elapsed_ms).credited@ == c.credited@.push(elapsed_ms),
        elapsed_ms > 0 ==> settled_round(c, digest, result, elapsed_ms).account.tokens
            > c.account.tokens,
        settled_round(c, digest, result, elapsed_ms).after(RoundEvent::PauseElapsed).phase
            == RoundPhase::Start,
        settled_round(c, digest, result, elapsed_ms).after(RoundEvent::PauseElapsed).account
            == settled_round(c, digest, result, elapsed_ms).account,
{
    let chosen = c.after(RoundEvent::TargetSampled { digest });
    let searching = chosen.after(RoundEvent::WorkersSpawned);
    let found = searching.after(RoundEvent::ResultReceived { result, elapsed_ms });
    lemma_step_keeps_wf(c, RoundEvent::TargetSampled { digest });
    lemma_step_keeps_wf(chosen, RoundEvent::WorkersSpawned);
    lemma_step_keeps_wf(searching, RoundEvent::ResultReceived { result, elapsed_ms });
    lemma_step_keeps_wf(found, RoundEvent::WorkersJoined);
}

/// The balance after any number of credited rounds is the sum of their
/// rewards, and that sum never goes down from one round to the next.
pub proof fn lemma_total_reward_grows(elapsed: Seq<u64>, i: int, j: int)
    requires
        0 <= i <= j <= elapsed.len(),
    ensures
        0 <= total_reward(elapsed.take(i)) <= total_reward(elapsed.take(j)),
    decreases j,
{
    if j == 0 {
        assert(elapsed.take(0) =~= Seq::<u64>::empty());
    } else {
        lemma_total_reward_grows(elapsed, if i < j { i } else { j - 1 }, j - 1);
        assert(elapsed.take(j).drop_last() =~= elapsed.take(j - 1));
    }
}

/// Within a round the stop signal, once set, stays set: only the spawn of
/// the next round's workers brings a fresh, unset signal.
pub proof fn lemma_stop_signal_stays_set(c: Coordinator, event: RoundEvent)
    requires
        c.wf(),
        c.stop_signal,
        !(c.phase == RoundPhase::TargetChosen && event is WorkersSpawned),
    ensures
        c.after(event).stop_signal,
{
}

/// The stop signal is set by nothing but the first result of a round.
pub proof fn lemma_stop_signal_set_by_result(c: Coordinator, event: RoundEvent)
    requires
        c.wf(),
        !c.stop_signal,
        c.after(event).stop_signal,
    ensures
        c.phase == RoundPhase::Searching,
        event is ResultReceived,
        c.after(event).phase == RoundPhase::Found,
        c.action_on(event) == RoundAction::StopAndJoin,
{
}

/// At most one result is consumed per round: outside the search a result
/// changes nothing.
pub proof fn lemma_single_winner(c: Coordinator, result: MineResult, elapsed_ms: u64)
    requires
        c.phase != RoundPhase::Searching,
    ensures
        c.after(RoundEvent::ResultReceived { result, elapsed_ms }) == c,
        c.action_on(RoundEvent::ResultReceived { result, elapsed_ms }) == RoundAction::Ignore,
{
}

} // verus!
