//! The run plan: the fixed order of steps that moves tokens from mint to
//! shielded balance and back, and the state machine that sequences them.
//!
//! Every step after the first submits one chain transaction. A step runs only
//! when every earlier step has succeeded; the first failure is fatal and no
//! further step is attempted.

use vstd::prelude::*;
use crate::account_setup::TOKEN_DECIMALS;
use crate::amounts::pow10;
use crate::amounts::scale_units;

verus! {

/// One step of a run. The amounts carried by `MintTokens`, `Deposit` and
/// `Withdraw` are already scaled by the mint's decimals.
#[derive(Clone, Copy, Debug, PartialEq, Eq, Structural)]
pub enum RunAction {
    /// Read the signing key from disk. The only step with no transaction.
    LoadSignerKey,
    /// Create the mint with the confidential-transfer extension.
    CreateMint,
    /// Create, reallocate and configure the associated account in one
    /// atomic submission.
    ConfigureAccount,
    /// Mint public tokens to the associated account.
    MintTokens { amount: u64 },
    /// Move public tokens into the pending shielded balance.
    Deposit { amount: u64 },
    /// Merge the pending shielded balance into the available one.
    ApplyPendingBalance,
    /// Open the account that carries the equality proof.
    CreateEqualityProofAccount,
    /// Open the account that carries the range proof.
    CreateRangeProofAccount,
    /// Withdraw to the public balance, referencing both proof accounts.
    Withdraw { amount: u64 },
    /// Close the equality proof account and recover its rent.
    CloseEqualityProofAccount,
    /// Close the range proof account and recover its rent.
    CloseRangeProofAccount,
}

/// Where a run stands: which steps have succeeded so far.
#[derive(Clone, Copy, Debug, PartialEq, Eq, Structural)]
pub enum RunState {
    Start,
    SignerLoaded,
    MintCreated,
    AccountConfigured,
    TokensMinted,
    Deposited,
    BalanceApplied,
    EqualityProofReady,
    RangeProofReady,
    Withdrawn,
    EqualityProofClosed,
    /// Every step succeeded.
    Done,
    /// Some step failed; the run stops here.
    Failed,
}

/// The amounts of one run, each in base units (scaled by `10^decimals`).
#[derive(Clone, Copy, Debug, PartialEq, Eq, Structural)]
pub struct RunConfig {
    pub decimals: u8,
    pub mint_amount: u64,
    pub deposit_amount: u64,
    pub withdraw_amount: u64,
}

impl RunConfig {
    /// Balances only move mint -> deposit -> withdraw within one run.
    pub open spec fn wf(self) -> bool {
        self.deposit_amount <= self.mint_amount
            && self.withdraw_amount <= self.deposit_amount
    }

    /// Build a configuration from whole-unit amounts, scaling each by the
    /// mint's decimals. Returns `None` when some scaled amount does not fit
    /// in a `u64` or the amounts would move in the wrong direction.
    pub fn new(decimals: u8, mint_units: u64, deposit_units: u64, withdraw_units: u64)
        -> (r: Option<RunConfig>)
        ensures
            r is Some <==> {
                &&& mint_units * pow10(decimals as nat) <= u64::MAX
                &&& deposit_units <= mint_units
                &&& withdraw_units <= deposit_units
            },
            r matches Some(cfg) ==> {
                &&& cfg.decimals == decimals
                &&& cfg.mint_amount == mint_units * pow10(decimals as nat)
                &&& cfg.deposit_amount == deposit_units * pow10(decimals as nat)
                &&& cfg.withdraw_amount == withdraw_units * pow10(decimals as nat)
                &&& cfg.wf()
            },
    {
        if !(deposit_units <= mint_units && withdraw_units <= deposit_units) {
            return None;
        }
        let mint_amount = match scale_units(mint_units, decimals) {
            None => {
                return None;
            },
            Some(a) => a,
        };
        let deposit_amount = match scale_units(deposit_units, decimals) {
            None => {
                proof {
                    vstd::arithmetic::mul::lemma_mul_inequality(
                        deposit_units as int,
                        mint_units as int,
                        pow10(decimals as nat) as int,
                    );
                }
                return None;
            },
            Some(a) => a,
        };
        let withdraw_amount = match scale_units(withdraw_units, decimals) {
            None => {
                proof {
                    vstd::arithmetic::mul::lemma_mul_inequality(
                        withdraw_units as int,
                        deposit_units as int,
                        pow10(decimals as nat) as int,
                    );
                }
                return None;
            },
            Some(a) => a,
        };
        proof {
            vstd::arithmetic::mul::lemma_mul_inequality(
                deposit_units as int,
                mint_units as int,
                pow10(decimals as nat) as int,
            );
            vstd::arithmetic::mul::lemma_mul_inequality(
                withdraw_units as int,
                deposit_units as int,
                pow10(decimals as nat) as int,
            );
        }
        Some(RunConfig { decimals, mint_amount, deposit_amount, withdraw_amount })
    }
}

/// The demonstration run: one hundred whole units minted, fifty deposited,
/// twenty withdrawn, each scaled by the mint's decimals.
pub fn sample_run_config() -> (r: RunConfig)
    ensures
        r.decimals == TOKEN_DECIMALS,
        r.mint_amount == 100_000_000_000u64,
        r.deposit_amount == 50_000_000_000u64,
        r.withdraw_amount == 20_000_000_000u64,
        r.wf(),
{
    proof {
        reveal_with_fuel(pow10, 10);
        assert(pow10(TOKEN_DECIMALS as nat) == 1_000_000_000);
    }
    match RunConfig::new(TOKEN_DECIMALS, 100, 50, 20) {
        Some(c) => c,
        None => {
            proof {
                assert(false);
            }
            RunConfig { decimals: 0, mint_amount: 0, deposit_amount: 0, withdraw_amount: 0 }
        },
    }
}

/// The step owed in a state, if any: `Done` and `Failed` owe none.
pub open spec fn action_of(cfg: RunConfig, state: RunState) -> Option<RunAction> {
    match state {
        RunState::Start => Some(RunAction::LoadSignerKey),
        RunState::SignerLoaded => Some(RunAction::CreateMint),
        RunState::MintCreated => Some(RunAction::ConfigureAccount),
        RunState::AccountConfigured => Some(RunAction::MintTokens { amount: cfg.mint_amount }),
        RunState::TokensMinted => Some(RunAction::Deposit { amount: cfg.deposit_amount }),
        RunState::Deposited => Some(RunAction::ApplyPendingBalance),
        RunState::BalanceApplied => Some(RunAction::CreateEqualityProofAccount),
        RunState::EqualityProofReady => Some(RunAction::CreateRangeProofAccount),
        RunState::RangeProofReady => Some(RunAction::Withdraw { amount: cfg.withdraw_amount }),
        RunState::Withdrawn => Some(RunAction::CloseEqualityProofAccount),
        RunState::EqualityProofClosed => Some(RunAction::CloseRangeProofAccount),
        RunState::Done => None,
        RunState::Failed => None,
    }
}

/// A run is over in `Done` and `Failed`: no further step is owed.
pub open spec fn terminal(state: RunState) -> bool {
    state == RunState::Done || state == RunState::Failed
}

/// The state after the pending step reports success or failure. Any failure
/// is fatal; `Done` and `Failed` do not move.
pub open spec fn next_state(state: RunState, succeeded: bool) -> RunState {
    if terminal(state) {
        state
    } else if !succeeded {
        RunState::Failed
    } else {
        match state {
            RunState::Start => RunState::SignerLoaded,
            RunState::SignerLoaded => RunState::MintCreated,
            RunState::MintCreated => RunState::AccountConfigured,
            RunState::AccountConfigured => RunState::TokensMinted,
            RunState::TokensMinted => RunState::Deposited,
            RunState::Deposited => RunState::BalanceApplied,
            RunState::BalanceApplied => RunState::EqualityProofReady,
            RunState::EqualityProofReady => RunState::RangeProofReady,
            RunState::RangeProofReady => RunState::Withdrawn,
            RunState::Withdrawn => RunState::EqualityProofClosed,
            RunState::EqualityProofClosed => RunState::Done,
            RunState::Done => RunState::Done,
            RunState::Failed => RunState::Failed,
        }
    }
}

/// How many steps are still owed from `state` when every one succeeds.
pub open spec fn steps_left(state: RunState) -> nat {
    match state {
        RunState::Start => 11,
        RunState::SignerLoaded => 10,
        RunState::MintCreated => 9,
        RunState::AccountConfigured => 8,
        RunState::TokensMinted => 7,
        RunState::Deposited => 6,
        RunState::BalanceApplied => 5,
        RunState::EqualityProofReady => 4,
        RunState::RangeProofReady => 3,
        RunState::Withdrawn => 2,
        RunState::EqualityProofClosed => 1,
        RunState::Done => 0,
        RunState::Failed => 0,
    }
}

/// The steps still owed from `state` when every one of them succeeds, in
/// order: the canonical remainder of a run.
pub open spec fn remaining_run(cfg: RunConfig, state: RunState) -> Seq<RunAction>
    decreases steps_left(state),
{
    match state {
        RunState::Start => seq![RunAction::LoadSignerKey] + remaining_run(
            cfg,
            RunState::SignerLoaded,
        ),
        RunState::SignerLoaded => seq![RunAction::CreateMint] + remaining_run(
            cfg,
            RunState::MintCreated,
        ),
        RunState::MintCreated => seq![RunAction::ConfigureAccount] + remaining_run(
            cfg,
            RunState::AccountConfigured,
        ),
        RunState::AccountConfigured => seq![
            RunAction::MintTokens { amount: cfg.mint_amount },
        ] + remaining_run(cfg, RunState::TokensMinted),
        RunState::TokensMinted => seq![
            RunAction::Deposit { amount: cfg.deposit_amount },
        ] + remaining_run(cfg, RunState::Deposited),
        RunState::Deposited => seq![RunAction::ApplyPendingBalance] + remaining_run(
            cfg,
            RunState::BalanceApplied,
        ),
        RunState::BalanceApplied => seq![RunAction::CreateEqualityProofAccount] + remaining_run(
            cfg,
            RunState::EqualityProofReady,
        ),
        RunState::EqualityProofReady => seq![RunAction::CreateRangeProofAccount] + remaining_run(
            cfg,
            RunState::RangeProofReady,
        ),
        RunState::RangeProofReady => seq![
            RunAction::Withdraw { amount: cfg.withdraw_amount },
        ] + remaining_run(cfg, RunState::Withdrawn),
        RunState::Withdrawn => seq![RunAction::CloseEqualityProofAccount] + remaining_run(
            cfg,
            RunState::EqualityProofClosed,
        ),
        RunState::EqualityProofClosed => seq![RunAction::CloseRangeProofAccount] + remaining_run(
            cfg,
            RunState::Done,
        ),
        RunState::Done => Seq::empty(),
        RunState::Failed => Seq::empty(),
    }
}

/// The whole canonical run: what a run performs when every step succeeds.
pub open spec fn full_run(cfg: RunConfig) -> Seq<RunAction> {
    remaining_run(cfg, RunState::Start)
}

/// The steps a run performs from `state` under the outcomes in `events`:
/// each owed step is performed, then its outcome decides whether the run
/// goes on. The trace ends when the run is over or the outcomes run out.
pub open spec fn trace_from(cfg: RunConfig, state: RunState, events: Seq<bool>) -> Seq<RunAction>
    decreases events.len(),
{
    if events.len() == 0 || terminal(state) {
        Seq::empty()
    } else {
        seq![action_of(cfg, state)->0] + trace_from(
            cfg,
            next_state(state, events[0]),
            events.drop_first(),
        )
    }
}

/// The state a run reaches from `state` under the outcomes in `events`.
pub open spec fn final_state_from(state: RunState, events: Seq<bool>) -> RunState
    decreases events.len(),
{
    if events.len() == 0 || terminal(state) {
        state
    } else {
        final_state_from(next_state(state, events[0]), events.drop_first())
    }
}

/// Every step but the first submits a chain transaction.
pub open spec fn is_chain_action(a: RunAction) -> bool {
    a != RunAction::LoadSignerKey
}

/// The step owed in `state`, or `None` once the run is over.
pub fn pending_action(cfg: &RunConfig, state: RunState) -> (r: Option<RunAction>)
    ensures
        r == action_of(*cfg, state),
{
    match state {
        RunState::Start => Some(RunAction::LoadSignerKey),
        RunState::SignerLoaded => Some(RunAction::CreateMint),
        RunState::MintCreated => Some(RunAction::ConfigureAccount),
        RunState::AccountConfigured => Some(RunAction::MintTokens { amount: cfg.mint_amount }),
        RunState::TokensMinted => Some(RunAction::Deposit { amount: cfg.deposit_amount }),
        RunState::Deposited => Some(RunAction::ApplyPendingBalance),
        RunState::BalanceApplied => Some(RunAction::CreateEqualityProofAccount),
        RunState::EqualityProofReady => Some(RunAction::CreateRangeProofAccount),
        RunState::RangeProofReady => Some(RunAction::Withdraw { amount: cfg.withdraw_amount }),
        RunState::Withdrawn => Some(RunAction::CloseEqualityProofAccount),
        RunState::EqualityProofClosed => Some(RunAction::CloseRangeProofAccount),
        RunState::Done => None,
        RunState::Failed => None,
    }
}

/// Record the outcome of the pending step and move to the next state.
pub fn advance(state: RunState, succeeded: bool) -> (r: RunState)
    ensures
        r == next_state(state, succeeded),
{
    match state {
        RunState::Done => RunState::Done,
        RunState::Failed => RunState::Failed,
        _ => {
            if !succeeded {
                RunState::Failed
            } else {
                match state {
                    RunState::Start => RunState::SignerLoaded,
                    RunState::SignerLoaded => RunState::MintCreated,
                    RunState::MintCreated => RunState::AccountConfigured,
                    RunState::AccountConfigured => RunState::TokensMinted,
                    RunState::TokensMinted => RunState::Deposited,
                    RunState::Deposited => RunState::BalanceApplied,
                    RunState::BalanceApplied => RunState::EqualityProofReady,
                    RunState::EqualityProofReady => RunState::RangeProofReady,
                    RunState::RangeProofReady => RunState::Withdrawn,
                    RunState::Withdrawn => RunState::EqualityProofClosed,
                    RunState::EqualityProofClosed => RunState::Done,
                    RunState::Done => RunState::Done,
                    RunState::Failed => RunState::Failed,
                }
            }
        },
    }
}

/// The canonical run written out: one signing-key load, then the nine
/// chain transactions in their fixed order.
pub proof fn lemma_full_run_form(cfg: RunConfig)
    ensures
        full_run(cfg) =~= seq![
            RunAction::LoadSignerKey,
            RunAction::CreateMint,
            RunAction::ConfigureAccount,
            RunAction::MintTokens { amount: cfg.mint_amount },
            RunAction::Deposit { amount: cfg.deposit_amount },
            RunAction::ApplyPendingBalance,
            RunAction::CreateEqualityProofAccount,
            RunAction::CreateRangeProofAccount,
            RunAction::Withdraw { amount: cfg.withdraw_amount },
            RunAction::CloseEqualityProofAccount,
            RunAction::CloseRangeProofAccount,
        ],
{
    reveal_with_fuel(remaining_run, 13);
}

/// Whatever the outcomes, a run performs a prefix of the canonical
/// remainder: steps come in the fixed order, none is skipped and none is
/// repeated; outcomes only decide where the run stops.
pub proof fn lemma_trace_is_prefix(cfg: RunConfig, state: RunState, events: Seq<bool>)
    ensures
        trace_from(cfg, state, events).len() <= remaining_run(cfg, state).len(),
        forall|i: int|
            0 <= i < trace_from(cfg, state, events).len() ==> trace_from(cfg, state, events)[i]
                == remaining_run(cfg, state)[i],
    decreases events.len(),
{
    if events.len() == 0 || terminal(state) {
    } else {
        let next = next_state(state, events[0]);
        let rest = trace_from(cfg, next, events.drop_first());
        assert(trace_from(cfg, state, events) == seq![action_of(cfg, state)->0] + rest);
        if events[0] {
            lemma_trace_is_prefix(cfg, next, events.drop_first());
            assert(remaining_run(cfg, state) =~= seq![action_of(cfg, state)->0] + remaining_run(
                cfg,
                next,
            ));
        } else {
            assert(next == RunState::Failed);
            assert(rest =~= Seq::<RunAction>::empty());
            assert(remaining_run(cfg, state)[0] == action_of(cfg, state)->0);
        }
    }
}

/// When every step succeeds and outcomes do not run out early, the run
/// performs exactly the canonical sequence and ends in `Done`.
pub proof fn lemma_success_run(cfg: RunConfig, events: Seq<bool>)
    requires
        events.len() >= 11,
        forall|i: int| 0 <= i < events.len() ==> events[i],
    ensures
        trace_from(cfg, RunState::Start, events) == full_run(cfg),
        final_state_from(RunState::Start, events) == RunState::Done,
{
    lemma_success_run_from(cfg, RunState::Start, events);
}

/// The general step of `lemma_success_run`: from any state, all-success
/// outcomes that do not run out perform the whole canonical remainder.
proof fn lemma_success_run_from(cfg: RunConfig, state: RunState, events: Seq<bool>)
    requires
        events.len() >= steps_left(state),
        forall|i: int| 0 <= i < events.len() ==> events[i],
    ensures
        trace_from(cfg, state, events) == remaining_run(cfg, state),
        final_state_from(state, events) == if state == RunState::Failed {
            RunState::Failed
        } else {
            RunState::Done
        },
    decreases events.len(),
{
    if events.len() == 0 || terminal(state) {
        assert(trace_from(cfg, state, events) =~= remaining_run(cfg, state));
    } else {
        let next = next_state(state, events[0]);
        lemma_success_run_from(cfg, next, events.drop_first());
        assert(trace_from(cfg, state, events) =~= remaining_run(cfg, state));
    }
}

/// The first failure is fatal: nothing past the failing step is performed,
/// and the run ends in `Failed`.
pub proof fn lemma_failure_is_fatal(cfg: RunConfig, events: Seq<bool>, i: int)
    requires
        0 <= i < events.len(),
        !events[i],
        forall|j: int| 0 <= j < i ==> events[j],
        i < 11,
    ensures
        trace_from(cfg, RunState::Start, events).len() <= i + 1,
        final_state_from(RunState::Start, events) == RunState::Failed,
{
    lemma_failure_is_fatal_from(cfg, RunState::Start, events, i);
}

/// The general step of `lemma_failure_is_fatal`.
proof fn lemma_failure_is_fatal_from(cfg: RunConfig, state: RunState, events: Seq<bool>, i: int)
    requires
        0 <= i < events.len(),
        !events[i],
        forall|j: int| 0 <= j < i ==> events[j],
        i < steps_left(state),
    ensures
        trace_from(cfg, state, events).len() <= i + 1,
        final_state_from(state, events) == RunState::Failed,
    decreases events.len(),
{
    let next = next_state(state, events[0]);
    if i == 0 {
        assert(next == RunState::Failed);
        assert(trace_from(cfg, next, events.drop_first()) =~= Seq::<RunAction>::empty());
        lemma_terminal_stays(next, events.drop_first());
    } else {
        lemma_failure_is_fatal_from(cfg, next, events.drop_first(), i - 1);
    }
}

/// A finished run does not move again.
proof fn lemma_terminal_stays(state: RunState, events: Seq<bool>)
    requires
        terminal(state),
    ensures
        final_state_from(state, events) == state,
    decreases events.len(),
{
    if events.len() > 0 {
        lemma_terminal_stays(state, events.drop_first());
    }
}

/// When the signing key cannot be loaded, the run fails before any chain
/// transaction is attempted.
pub proof fn lemma_no_chain_action_without_signer(cfg: RunConfig, events: Seq<bool>)
    requires
        events.len() >= 1,
        !events[0],
    ensures
        trace_from(cfg, RunState::Start, events) == seq![RunAction::LoadSignerKey],
        final_state_from(RunState::Start, events) == RunState::Failed,
        forall|i: int|
            0 <= i < trace_from(cfg, RunState::Start, events).len() ==> !is_chain_action(
                trace_from(cfg, RunState::Start, events)[i],
            ),
{
    lemma_failure_is_fatal(cfg, events, 0);
    let t = trace_from(cfg, RunState::Start, events);
    assert(t[0] == RunAction::LoadSignerKey);
    assert(t =~= seq![RunAction::LoadSignerKey]);
}

/// Whatever the outcomes: the withdrawal happens at most once, each proof
/// account is closed at most once, and only after the withdrawal that
/// referenced it.
pub proof fn lemma_proof_account_lifecycle(cfg: RunConfig, events: Seq<bool>)
    ensures
        forall|i: int, j: int|
            {
                &&& 0 <= i < trace_from(cfg, RunState::Start, events).len()
                &&& 0 <= j < trace_from(cfg, RunState::Start, events).len()
                &&& trace_from(cfg, RunState::Start, events)[i] is Withdraw
                &&& trace_from(cfg, RunState::Start, events)[j] is Withdraw
            } ==> i == j,
        forall|i: int, j: int|
            {
                &&& 0 <= i < trace_from(cfg, RunState::Start, events).len()
                &&& 0 <= j < trace_from(cfg, RunState::Start, events).len()
                &&& trace_from(cfg, RunState::Start, events)[i] is CloseEqualityProofAccount
                &&& trace_from(cfg, RunState::Start, events)[j] is CloseEqualityProofAccount
            } ==> i == j,
        forall|i: int, j: int|
            {
                &&& 0 <= i < trace_from(cfg, RunState::Start, events).len()
                &&& 0 <= j < trace_from(cfg, RunState::Start, events).len()
                &&& trace_from(cfg, RunState::Start, events)[i] is CloseRangeProofAccount
                &&& trace_from(cfg, RunState::Start, events)[j] is CloseRangeProofAccount
            } ==> i == j,
        forall|i: int|
            {
                &&& 0 <= i < trace_from(cfg, RunState::Start, events).len()
                &&& (trace_from(cfg, RunState::Start, events)[i] is CloseEqualityProofAccount
                    || trace_from(cfg, RunState::Start, events)[i] is CloseRangeProofAccount)
            } ==> exists|j: int|
                0 <= j < i && trace_from(cfg, RunState::Start, events)[j] is Withdraw,
{
    lemma_trace_is_prefix(cfg, RunState::Start, events);
    lemma_full_run_form(cfg);
    let t = trace_from(cfg, RunState::Start, events);
    let full = full_run(cfg);
    assert forall|i: int| 0 <= i < full.len() && full[i] is Withdraw implies i == 8 by {}
    assert forall|i: int| 0 <= i < full.len() && full[i] is CloseEqualityProofAccount implies i
        == 9 by {}
    assert forall|i: int| 0 <= i < full.len() && full[i] is CloseRangeProofAccount implies i
        == 10 by {}
    assert forall|i: int|
        0 <= i < t.len() && (t[i] is CloseEqualityProofAccount
            || t[i] is CloseRangeProofAccount) implies exists|j: int|
        0 <= j < i && t[j] is Withdraw by {
        assert(t[i] == full[i]);
        assert(i == 9 || i == 10);
        assert(t[8] == full[8]);
        assert(t[8] is Withdraw);
        assert(0 <= 8 < i && t[8] is Withdraw);
    }
}

/// Every amount a run moves comes from its configuration, and under a
/// well-formed configuration the amounts only move one way: nothing is
/// deposited that was not minted, nothing withdrawn that was not deposited.
pub proof fn lemma_amounts_flow_one_way(cfg: RunConfig, events: Seq<bool>)
    requires
        cfg.wf(),
    ensures
        forall|i: int|
            0 <= i < trace_from(cfg, RunState::Start, events).len() ==> {
                &&& (#[trigger] trace_from(cfg, RunState::Start, events)[i]
                    matches RunAction::MintTokens { amount } ==> amount == cfg.mint_amount)
                &&& (trace_from(cfg, RunState::Start, events)[i] matches RunAction::Deposit {
                    amount,
                } ==> amount == cfg.deposit_amount && amount <= cfg.mint_amount)
                &&& (trace_from(cfg, RunState::Start, events)[i] matches RunAction::Withdraw {
                    amount,
                } ==> amount == cfg.withdraw_amount && amount <= cfg.deposit_amount)
            },
{
    lemma_trace_is_prefix(cfg, RunState::Start, events);
    lemma_full_run_form(cfg);
    let t = trace_from(cfg, RunState::Start, events);
    let full = full_run(cfg);
    assert forall|i: int| 0 <= i < t.len() implies {
        &&& (#[trigger] t[i] matches RunAction::MintTokens { amount } ==> amount
            == cfg.mint_amount)
        &&& (t[i] matches RunAction::Deposit { amount } ==> amount == cfg.deposit_amount && amount
            <= cfg.mint_amount)
        &&& (t[i] matches RunAction::Withdraw { amount } ==> amount == cfg.withdraw_amount
            && amount <= cfg.deposit_amount)
    } by {
        assert(t[i] == full[i]);
    }
}

} // verus!
