use custody_ledger::contract::{
    amount_sent, execute, execute_claim, execute_deposit, execute_pause_withdraw,
    execute_set_config, execute_withdraw, instantiate, query, query_get_config,
    query_get_total_deposit,
};
use custody_ledger::error::ContractError;
use custody_ledger::msg::{
    Coin, ExecuteMsg, InstantiateMsg, Instruction, MessageInfo, QueryAnswer, QueryMsg,
};
use custody_ledger::state::Ledger;

fn s(x: &str) -> String {
    x.to_string()
}

fn coin(amount: u128, denom: &str) -> Coin {
    Coin { denom: s(denom), amount }
}

fn info(sender: &str, funds: Vec<Coin>) -> MessageInfo {
    MessageInfo { sender: s(sender), funds }
}

fn fresh_ledger(owner: &str, denom: &str, max_mint: u128) -> Ledger {
    instantiate(InstantiateMsg {
        owner: s(owner),
        denom: s(denom),
        price: 1,
        decimals: 6,
        max_mint,
    })
}

fn bound_ledger(owner: &str, denom: &str, max_mint: u128, token: &str) -> Ledger {
    let mut ledger = fresh_ledger(owner, denom, max_mint);
    execute_set_config(&mut ledger, info(owner, vec![]), s(token)).unwrap();
    ledger
}

fn assert_mint(msg: &Instruction, token: &str, recipient: &str, amount: u128) {
    match msg {
        Instruction::Mint { token: t, recipient: r, amount: a } => {
            assert_eq!(t, token);
            assert_eq!(r, recipient);
            assert_eq!(*a, amount);
        }
        other => panic!("expected a mint instruction, got {:?}", kind_of(other)),
    }
}

fn assert_burn_from(msg: &Instruction, token: &str, owner: &str, amount: u128) {
    match msg {
        Instruction::BurnFrom { token: t, owner: o, amount: a } => {
            assert_eq!(t, token);
            assert_eq!(o, owner);
            assert_eq!(*a, amount);
        }
        other => panic!("expected a burn-from instruction, got {:?}", kind_of(other)),
    }
}

fn assert_send(msg: &Instruction, to_address: &str, denom: &str, amount: u128) {
    match msg {
        Instruction::Send { to_address: t, denom: d, amount: a } => {
            assert_eq!(t, to_address);
            assert_eq!(d, denom);
            assert_eq!(*a, amount);
        }
        other => panic!("expected a send instruction, got {:?}", kind_of(other)),
    }
}

fn kind_of(msg: &Instruction) -> &'static str {
    match msg {
        Instruction::Mint { .. } => "mint",
        Instruction::BurnFrom { .. } => "burn-from",
        Instruction::Send { .. } => "send",
    }
}

#[test]
fn test_deployment() {
    let mut ledger = fresh_ledger("owner", "usdc", 30_000_000_000);
    execute_set_config(&mut ledger, info("owner", vec![]), s("cw20_token")).unwrap();

    let config = query_get_config(&ledger).unwrap();
    assert_eq!(config.owner, "owner");
    assert_eq!(config.denom, "usdc");
    assert_eq!(config.token, "cw20_token");
    assert!(!config.withdraw_flag);

    let resp = execute_deposit(&mut ledger, info("owner", vec![coin(100, "usdc")])).unwrap();
    assert_eq!(resp.messages.len(), 1);
    assert_mint(&resp.messages[0], "cw20_token", "owner", 100);
    assert_eq!(ledger.total_deposit, Some(100));

    // the query reports the live custody balance, here 100 after the deposit
    let total = query_get_total_deposit(100);
    assert_eq!(total.total_deposit, 100);

    // redemption works only once the owner has enabled withdrawals
    execute_pause_withdraw(&mut ledger, info("owner", vec![]), true).unwrap();
    let resp = execute_withdraw(&mut ledger, info("owner", vec![]), 50).unwrap();
    assert_eq!(resp.messages.len(), 2);
    assert_burn_from(&resp.messages[0], "cw20_token", "owner", 50);
    assert_send(&resp.messages[1], "owner", "usdc", 50);
    assert_eq!(ledger.total_deposit, Some(100));

    // custody holds 50 after the redemption; the claim moves all of it
    let resp = execute_claim(&mut ledger, info("owner", vec![]), 50).unwrap();
    assert_eq!(resp.messages.len(), 1);
    assert_send(&resp.messages[0], "owner", "usdc", 50);
}

#[test]
fn end_to_end_scenario() {
    let mut ledger = fresh_ledger("O", "usdc", 30_000_000_000);
    let bind = ExecuteMsg::SetConfig { protocol_token: s("T") };
    execute(&mut ledger, info("O", vec![]), 0, bind).unwrap();

    let rebind = ExecuteMsg::SetConfig { protocol_token: s("T") };
    let err = execute(&mut ledger, info("O", vec![]), 0, rebind).unwrap_err();
    assert_eq!(err, ContractError::ConfigSetAlready {});

    let resp =
        execute(&mut ledger, info("U", vec![coin(100, "usdc")]), 0, ExecuteMsg::Deposit {})
            .unwrap();
    assert_mint(&resp.messages[0], "T", "U", 100);
    assert_eq!(ledger.total_deposit, Some(100));

    let err = execute(
        &mut ledger,
        info("U", vec![coin(30_000_000_000, "usdc")]),
        0,
        ExecuteMsg::Deposit {},
    )
    .unwrap_err();
    assert_eq!(err, ContractError::DepositMoreThanMax {});
    assert_eq!(ledger.total_deposit, Some(100));

    execute(&mut ledger, info("O", vec![]), 0, ExecuteMsg::PauseWithdraw { flag: true }).unwrap();

    let resp =
        execute(&mut ledger, info("U", vec![]), 0, ExecuteMsg::Withdraw { amount: 50 }).unwrap();
    assert_burn_from(&resp.messages[0], "T", "U", 50);
    assert_send(&resp.messages[1], "U", "usdc", 50);
    assert_eq!(ledger.total_deposit, Some(100));

    let resp = execute(&mut ledger, info("O", vec![]), 50, ExecuteMsg::Claim {}).unwrap();
    assert_send(&resp.messages[0], "O", "usdc", 50);
}

#[test]
fn bind_by_non_owner_fails() {
    let mut ledger = fresh_ledger("owner", "usdc", 1000);
    let err = execute_set_config(&mut ledger, info("intruder", vec![]), s("tok")).unwrap_err();
    assert_eq!(err, ContractError::OnlyOwner {});
    assert!(ledger.protocol_token.is_none());
    assert!(!ledger.config.config_set);
}

#[test]
fn second_bind_fails_even_for_owner() {
    let mut ledger = bound_ledger("owner", "usdc", 1000, "tok");
    let err = execute_set_config(&mut ledger, info("owner", vec![]), s("other")).unwrap_err();
    assert_eq!(err, ContractError::ConfigSetAlready {});
    assert_eq!(ledger.protocol_token, Some(s("tok")));
}

#[test]
fn pause_by_non_owner_fails() {
    let mut ledger = bound_ledger("owner", "usdc", 1000, "tok");
    let err = execute_pause_withdraw(&mut ledger, info("intruder", vec![]), true).unwrap_err();
    assert_eq!(err, ContractError::OnlyOwner {});
    assert!(!ledger.config.withdraw_flag);
}

#[test]
fn claim_by_non_owner_fails() {
    let mut ledger = bound_ledger("owner", "usdc", 1000, "tok");
    let err = execute_claim(&mut ledger, info("intruder", vec![]), 500).unwrap_err();
    assert_eq!(err, ContractError::OnlyOwner {});
}

#[test]
fn pause_records_attribute_and_permits_no_op_writes() {
    let mut ledger = bound_ledger("owner", "usdc", 1000, "tok");
    let resp = execute_pause_withdraw(&mut ledger, info("owner", vec![]), true).unwrap();
    assert!(resp.messages.is_empty());
    assert_eq!(resp.attributes.len(), 1);
    assert_eq!(resp.attributes[0].key, "ExecutePauseWithdraw");
    assert_eq!(resp.attributes[0].value, "true");
    assert!(ledger.config.withdraw_flag);

    // writing the value it already has is permitted
    let resp = execute_pause_withdraw(&mut ledger, info("owner", vec![]), true).unwrap();
    assert_eq!(resp.attributes[0].value, "true");
    assert!(ledger.config.withdraw_flag);

    let resp = execute_pause_withdraw(&mut ledger, info("owner", vec![]), false).unwrap();
    assert_eq!(resp.attributes[0].value, "false");
    assert!(!ledger.config.withdraw_flag);
}

#[test]
fn withdraw_fails_while_gate_closed() {
    let mut ledger = bound_ledger("owner", "usdc", 1000, "tok");
    let err = execute_withdraw(&mut ledger, info("user", vec![]), 50).unwrap_err();
    assert_eq!(err, ContractError::WithdrawPause {});
    // regardless of amount, zero included
    let err = execute_withdraw(&mut ledger, info("user", vec![]), 0).unwrap_err();
    assert_eq!(err, ContractError::WithdrawPause {});
}

#[test]
fn withdraw_of_zero_succeeds_while_gate_open() {
    let mut ledger = bound_ledger("owner", "usdc", 1000, "tok");
    execute_pause_withdraw(&mut ledger, info("owner", vec![]), true).unwrap();
    let resp = execute_withdraw(&mut ledger, info("user", vec![]), 0).unwrap();
    assert_burn_from(&resp.messages[0], "tok", "user", 0);
    assert_send(&resp.messages[1], "user", "usdc", 0);
}

#[test]
fn withdraw_before_bind_fails_once_enabled() {
    // the withdraw flag can be set before the one-time binding; the
    // redemption then still fails, on the absent gateway address
    let mut ledger = fresh_ledger("owner", "usdc", 1000);
    execute_pause_withdraw(&mut ledger, info("owner", vec![]), true).unwrap();
    let err = execute_withdraw(&mut ledger, info("user", vec![]), 5).unwrap_err();
    assert_eq!(err, ContractError::TokenNotSet {});
}

#[test]
fn deposit_before_bind_fails() {
    let mut ledger = fresh_ledger("owner", "usdc", 1000);
    let err =
        execute_deposit(&mut ledger, info("user", vec![coin(10, "usdc")])).unwrap_err();
    assert_eq!(err, ContractError::TokenNotSet {});
    assert_eq!(ledger.total_deposit, None);
}

#[test]
fn query_config_before_bind_fails() {
    let ledger = fresh_ledger("owner", "usdc", 1000);
    let err = query_get_config(&ledger).unwrap_err();
    assert_eq!(err, ContractError::TokenNotSet {});
}

#[test]
fn deposit_ignores_other_denominations() {
    let mut ledger = bound_ledger("owner", "usdc", 1000, "tok");
    let funds = vec![coin(7, "atom"), coin(40, "usdc"), coin(9, "osmo")];
    let resp = execute_deposit(&mut ledger, info("user", funds)).unwrap();
    assert_mint(&resp.messages[0], "tok", "user", 40);
    assert_eq!(ledger.total_deposit, Some(40));
}

#[test]
fn deposit_counts_first_matching_entry_only() {
    let mut ledger = bound_ledger("owner", "usdc", 1000, "tok");
    let funds = vec![coin(40, "usdc"), coin(25, "usdc")];
    let resp = execute_deposit(&mut ledger, info("user", funds)).unwrap();
    assert_mint(&resp.messages[0], "tok", "user", 40);
    assert_eq!(ledger.total_deposit, Some(40));
}

#[test]
fn deposit_with_no_matching_funds_mints_zero() {
    let mut ledger = bound_ledger("owner", "usdc", 1000, "tok");
    let resp = execute_deposit(&mut ledger, info("user", vec![coin(7, "atom")])).unwrap();
    assert_mint(&resp.messages[0], "tok", "user", 0);
    assert_eq!(ledger.total_deposit, Some(0));

    let resp = execute_deposit(&mut ledger, info("user", vec![])).unwrap();
    assert_mint(&resp.messages[0], "tok", "user", 0);
    assert_eq!(ledger.total_deposit, Some(0));
}

#[test]
fn deposit_to_the_exact_cap_succeeds() {
    let mut ledger = bound_ledger("owner", "usdc", 1000, "tok");
    execute_deposit(&mut ledger, info("user", vec![coin(999, "usdc")])).unwrap();
    let resp = execute_deposit(&mut ledger, info("user", vec![coin(1, "usdc")])).unwrap();
    assert_mint(&resp.messages[0], "tok", "user", 1);
    assert_eq!(ledger.total_deposit, Some(1000));

    let err = execute_deposit(&mut ledger, info("user", vec![coin(1, "usdc")])).unwrap_err();
    assert_eq!(err, ContractError::DepositMoreThanMax {});
    assert_eq!(ledger.total_deposit, Some(1000));
}

#[test]
fn deposit_totals_accumulate_over_successful_calls() {
    let mut ledger = bound_ledger("owner", "usdc", 100, "tok");
    execute_deposit(&mut ledger, info("user", vec![coin(30, "usdc")])).unwrap();
    execute_deposit(&mut ledger, info("user", vec![coin(20, "usdc")])).unwrap();
    // a failing call contributes nothing
    execute_deposit(&mut ledger, info("user", vec![coin(60, "usdc")])).unwrap_err();
    execute_deposit(&mut ledger, info("user", vec![coin(50, "usdc")])).unwrap();
    assert_eq!(ledger.total_deposit, Some(100));
}

#[test]
fn claim_moves_entire_balance_and_repeats_harmlessly() {
    let mut ledger = bound_ledger("owner", "usdc", 1000, "tok");
    let resp = execute_claim(&mut ledger, info("owner", vec![]), 321).unwrap();
    assert_send(&resp.messages[0], "owner", "usdc", 321);
    // a second immediate claim sees a drained custody and moves zero
    let resp = execute_claim(&mut ledger, info("owner", vec![]), 0).unwrap();
    assert_send(&resp.messages[0], "owner", "usdc", 0);
    // the cumulative deposit counter is never touched by a claim
    assert_eq!(ledger.total_deposit, None);
}

#[test]
fn amount_sent_picks_the_first_match() {
    assert_eq!(amount_sent(vec![], s("usdc")), 0);
    assert_eq!(amount_sent(vec![coin(5, "atom")], s("usdc")), 0);
    assert_eq!(
        amount_sent(vec![coin(5, "atom"), coin(8, "usdc"), coin(3, "usdc")], s("usdc")),
        8
    );
}

#[test]
fn query_dispatch_answers_both_tags() {
    let ledger = bound_ledger("owner", "usdc", 1000, "tok");
    match query(&ledger, 77, QueryMsg::GetTotalDeposit {}).unwrap() {
        QueryAnswer::TotalDeposit(t) => assert_eq!(t.total_deposit, 77),
        QueryAnswer::Config(_) => panic!("expected the total-deposit answer"),
    }
    match query(&ledger, 77, QueryMsg::GetConfig {}).unwrap() {
        QueryAnswer::Config(c) => {
            assert_eq!(c.owner, "owner");
            assert_eq!(c.denom, "usdc");
            assert_eq!(c.token, "tok");
            assert!(!c.withdraw_flag);
        }
        QueryAnswer::TotalDeposit(_) => panic!("expected the config answer"),
    }
}

#[test]
fn instantiate_stores_inert_price_and_decimals() {
    let ledger = fresh_ledger("owner", "usdc", 1000);
    assert_eq!(ledger.config.price, 1);
    assert_eq!(ledger.config.decimals, 6);
    assert!(!ledger.config.config_set);
    assert!(!ledger.config.withdraw_flag);
    assert_eq!(ledger.total_deposit, None);
    assert!(ledger.protocol_token.is_none());
}
