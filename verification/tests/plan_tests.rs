use confidential_token::plan::advance;
use confidential_token::plan::pending_action;
use confidential_token::plan::sample_run_config;
use confidential_token::plan::RunAction;
use confidential_token::plan::RunConfig;
use confidential_token::plan::RunState;

fn drive(cfg: &RunConfig, outcomes: &[bool]) -> (Vec<RunAction>, RunState) {
    let mut state = RunState::Start;
    let mut actions: Vec<RunAction> = Vec::new();
    for &outcome in outcomes {
        match pending_action(cfg, state) {
            None => break,
            Some(a) => actions.push(a),
        }
        state = advance(state, outcome);
    }
    (actions, state)
}

#[test]
fn sample_run_amounts() {
    let cfg = sample_run_config();
    assert_eq!(cfg.decimals, 9);
    assert_eq!(cfg.mint_amount, 100_000_000_000);
    assert_eq!(cfg.deposit_amount, 50_000_000_000);
    assert_eq!(cfg.withdraw_amount, 20_000_000_000);
    assert!(cfg.deposit_amount <= cfg.mint_amount);
    assert!(cfg.withdraw_amount <= cfg.deposit_amount);
}

#[test]
fn config_rejects_wrong_direction() {
    assert_eq!(RunConfig::new(9, 50, 100, 20), None);
    assert_eq!(RunConfig::new(9, 100, 50, 60), None);
}

#[test]
fn config_rejects_overflow() {
    assert_eq!(RunConfig::new(20, 100, 50, 20), None);
}

#[test]
fn successful_run_performs_all_steps_in_order() {
    let cfg = sample_run_config();
    let (actions, state) = drive(&cfg, &[true; 12]);
    assert_eq!(state, RunState::Done);
    assert_eq!(
        actions,
        vec![
            RunAction::LoadSignerKey,
            RunAction::CreateMint,
            RunAction::ConfigureAccount,
            RunAction::MintTokens { amount: 100_000_000_000 },
            RunAction::Deposit { amount: 50_000_000_000 },
            RunAction::ApplyPendingBalance,
            RunAction::CreateEqualityProofAccount,
            RunAction::CreateRangeProofAccount,
            RunAction::Withdraw { amount: 20_000_000_000 },
            RunAction::CloseEqualityProofAccount,
            RunAction::CloseRangeProofAccount,
        ]
    );
}

#[test]
fn withdraw_happens_once_and_before_closes() {
    let cfg = sample_run_config();
    let (actions, _) = drive(&cfg, &[true; 12]);
    let withdraws: Vec<usize> = actions
        .iter()
        .enumerate()
        .filter(|(_, a)| matches!(a, RunAction::Withdraw { .. }))
        .map(|(i, _)| i)
        .collect();
    let closes: Vec<usize> = actions
        .iter()
        .enumerate()
        .filter(|(_, a)| {
            matches!(
                a,
                RunAction::CloseEqualityProofAccount | RunAction::CloseRangeProofAccount
            )
        })
        .map(|(i, _)| i)
        .collect();
    assert_eq!(withdraws.len(), 1);
    assert_eq!(closes.len(), 2);
    assert!(closes.iter().all(|&c| withdraws[0] < c));
}

#[test]
fn failure_is_fatal() {
    let cfg = sample_run_config();
    let (actions, state) = drive(&cfg, &[true, true, true, false, true, true, true, true]);
    assert_eq!(state, RunState::Failed);
    assert_eq!(actions.len(), 4);
    assert_eq!(pending_action(&cfg, state), None);
}

#[test]
fn failed_withdraw_leaves_proof_accounts_open() {
    let cfg = sample_run_config();
    let mut outcomes = [true; 12];
    outcomes[8] = false;
    let (actions, state) = drive(&cfg, &outcomes);
    assert_eq!(state, RunState::Failed);
    assert!(matches!(actions.last(), Some(RunAction::Withdraw { .. })));
    assert!(!actions.contains(&RunAction::CloseEqualityProofAccount));
    assert!(!actions.contains(&RunAction::CloseRangeProofAccount));
}

#[test]
fn missing_signer_key_stops_before_any_chain_action() {
    let cfg = sample_run_config();
    let (actions, state) = drive(&cfg, &[false, true, true, true]);
    assert_eq!(state, RunState::Failed);
    assert_eq!(actions, vec![RunAction::LoadSignerKey]);
}
