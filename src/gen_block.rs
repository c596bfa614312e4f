//! The decisions of the developer command that produces blocks: it runs only
//! on a dev network, executes a fixed number of empty transactions, and
//! unlocks the default account before every fiftieth.
use vstd::prelude::*;

verus! {

/// Options of the block-producing command (it takes none).
#[derive(Clone, Copy, Debug, PartialEq, Eq, Structural)]
pub struct GenBlockOpt {}

/// The block-producing command.
#[derive(Clone, Copy, Debug, PartialEq, Eq, Structural)]
pub struct GenBlockCommand;

/// How many transactions the command executes.
pub const GEN_BLOCK_ROUNDS: u64 = 12000;

/// The account is unlocked before every round that is a multiple of this.
pub const GEN_BLOCK_UNLOCK_EVERY: u64 = 50;

/// How long, in seconds, each unlock lasts.
pub const GEN_BLOCK_UNLOCK_SECS: u64 = 6400;

/// Where the command stands: the round about to run (from 1) and whether
/// the account has been unlocked for it.
#[derive(Clone, Copy, Debug, PartialEq, Eq, Structural)]
pub struct GenBlockState {
    pub round: u64,
    pub unlocked: bool,
}

/// What the command does next.
#[derive(Clone, Copy, Debug, PartialEq, Eq, Structural)]
pub enum GenBlockAction {
    /// Unlock the default account for `GEN_BLOCK_UNLOCK_SECS` seconds.
    UnlockAccount,
    /// Build and execute one empty-script transaction.
    ExecuteTransaction,
    /// Stop and report the last execution's result.
    Finish,
}

/// Whether round `round` is preceded by an unlock.
pub open spec fn unlock_round(round: u64) -> bool {
    round % GEN_BLOCK_UNLOCK_EVERY == 0
}

/// The next action from `s`, and the state after it.
pub open spec fn gen_block_step(s: GenBlockState) -> (GenBlockState, GenBlockAction) {
    if s.round > GEN_BLOCK_ROUNDS {
        (s, GenBlockAction::Finish)
    } else if unlock_round(s.round) && !s.unlocked {
        (GenBlockState { round: s.round, unlocked: true }, GenBlockAction::UnlockAccount)
    } else {
        (GenBlockState { round: (s.round + 1) as u64, unlocked: false }, GenBlockAction::ExecuteTransaction)
    }
}

impl GenBlockCommand {
    /// The command refuses every network but a dev one.
    pub fn check_network(&self, is_dev: bool) -> (r: Result<(), String>)
        ensures
            r is Ok <==> is_dev,
            !is_dev ==> r->Err_0@ == "Only dev network support this command"@,
    {
        if is_dev {
            Ok(())
        } else {
            Err("Only dev network support this command".to_owned())
        }
    }

    /// The state before the first round.
    pub fn start(&self) -> (r: GenBlockState)
        ensures
            r == (GenBlockState { round: 1, unlocked: false }),
    {
        GenBlockState { round: 1, unlocked: false }
    }

    /// The next action from `state`, and the state after it.
    pub fn step(&self, state: GenBlockState) -> (r: (GenBlockState, GenBlockAction))
        requires
            state.round <= GEN_BLOCK_ROUNDS + 1,
        ensures
            r == gen_block_step(state),
            r.0.round <= GEN_BLOCK_ROUNDS + 1,
    {
        if state.round > GEN_BLOCK_ROUNDS {
            (state, GenBlockAction::Finish)
        } else if state.round % GEN_BLOCK_UNLOCK_EVERY == 0 && !state.unlocked {
            (GenBlockState { round: state.round, unlocked: true }, GenBlockAction::UnlockAccount)
        } else {
            (GenBlockState { round: state.round + 1, unlocked: false }, GenBlockAction::ExecuteTransaction)
        }
    }
}

} // verus!
