use vstd::prelude::*;

use crate::contract::{
    claim_outcome, deposit_outcome, instantiate_state, pause_outcome, set_config_outcome,
    spec_amount_sent, withdraw_outcome,
};
use crate::error::ContractError;
use crate::msg::{CoinView, InstructionView};
use crate::state::LedgerView;

verus! {

/// Every entry of every attached fund list carries a machine-representable,
/// non-negative amount — true of any funds that reach a handler.
pub open spec fn coins_wf(funds: Seq<CoinView>) -> bool {
    forall|j: int| 0 <= j < funds.len() ==> 0 <= #[trigger] funds[j].amount <= u128::MAX
}

/// As `coins_wf`, for a whole sequence of deposit calls.
pub open spec fn calls_wf(calls: Seq<Seq<CoinView>>) -> bool {
    forall|i: int| 0 <= i < calls.len() ==> coins_wf(#[trigger] calls[i])
}

/// The matched amount of a well-formed fund list is one coin's amount or
/// zero, hence non-negative.
pub proof fn lemma_amount_sent_nonneg(funds: Seq<CoinView>, denom: Seq<char>)
    requires
        coins_wf(funds),
    ensures
        0 <= spec_amount_sent(funds, denom),
    decreases funds.len(),
{
    if funds.len() > 0 && funds[0].denom != denom {
        assert(coins_wf(funds.drop_first()));
        lemma_amount_sent_nonneg(funds.drop_first(), denom);
    }
}

/// A fund list with no entry in the custodied denomination matches zero.
pub proof fn lemma_amount_sent_unmatched(funds: Seq<CoinView>, denom: Seq<char>)
    requires
        forall|j: int| 0 <= j < funds.len() ==> #[trigger] funds[j].denom != denom,
    ensures
        spec_amount_sent(funds, denom) == 0,
    decreases funds.len(),
{
    if funds.len() > 0 {
        lemma_amount_sent_unmatched(funds.drop_first(), denom);
    }
}

/// The state after a sequence of deposit calls, a failing call leaving
/// the state exactly as it was.
pub open spec fn deposits_after(l: LedgerView, calls: Seq<Seq<CoinView>>) -> LedgerView
    decreases calls.len(),
{
    if calls.len() == 0 {
        l
    } else {
        let l1 = match deposit_outcome(l, calls[0]) {
            Ok(l2) => l2,
            Err(_) => l,
        };
        deposits_after(l1, calls.drop_first())
    }
}

/// The sum of the matched-denomination amounts of the successful calls of
/// the sequence; a failing call contributes nothing.
pub open spec fn matched_deposit_sum(l: LedgerView, calls: Seq<Seq<CoinView>>) -> int
    decreases calls.len(),
{
    if calls.len() == 0 {
        0
    } else {
        let first = if deposit_outcome(l, calls[0]) is Ok {
            spec_amount_sent(calls[0], l.config.denom)
        } else {
            0
        };
        let l1 = match deposit_outcome(l, calls[0]) {
            Ok(l2) => l2,
            Err(_) => l,
        };
        first + matched_deposit_sum(l1, calls.drop_first())
    }
}

/// Law: across any sequence of deposit calls the configuration is
/// untouched, the cumulative total grows by exactly the sum of the
/// matched amounts of the successful calls, and it never exceeds the
/// cap.  In particular, after each prefix of the sequence the counter
/// equals its starting value plus the matched amounts deposited so far.
pub proof fn lemma_deposit_cumulative(l: LedgerView, calls: Seq<Seq<CoinView>>)
    requires
        l.wf(),
        calls_wf(calls),
    ensures
        deposits_after(l, calls).wf(),
        deposits_after(l, calls).config == l.config,
        deposits_after(l, calls).total() == l.total() + matched_deposit_sum(l, calls),
        deposits_after(l, calls).total() <= l.config.max_mint,
    decreases calls.len(),
{
    if calls.len() > 0 {
        assert(coins_wf(calls[0]));
        lemma_amount_sent_nonneg(calls[0], l.config.denom);
        let l1 = match deposit_outcome(l, calls[0]) {
            Ok(l2) => l2,
            Err(_) => l,
        };
        assert(l1.wf());
        assert(calls_wf(calls.drop_first()));
        lemma_deposit_cumulative(l1, calls.drop_first());
    }
}

/// Law: on a freshly initialized instance the counter starts at zero, so
/// after the one-time binding and any sequence of deposit calls it equals
/// exactly the sum of the matched-denomination amounts across the
/// successful deposits, and never exceeds the cap.
pub proof fn lemma_deposit_cumulative_from_init(
    owner: Seq<char>,
    denom: Seq<char>,
    price: int,
    decimals: int,
    max_mint: int,
    token: Seq<char>,
    calls: Seq<Seq<CoinView>>,
)
    requires
        0 <= max_mint <= u128::MAX,
        calls_wf(calls),
    ensures
        set_config_outcome(
            instantiate_state(owner, denom, price, decimals, max_mint),
            owner,
            token,
        ) matches Ok(l0) ==> {
            &&& deposits_after(l0, calls).total() == matched_deposit_sum(l0, calls)
            &&& deposits_after(l0, calls).total() <= max_mint
        },
{
    let l_init = instantiate_state(owner, denom, price, decimals, max_mint);
    if set_config_outcome(l_init, owner, token) is Ok {
        let l0 = set_config_outcome(l_init, owner, token)->Ok_0;
        assert(l0.wf());
        assert(l0.total() == 0);
        lemma_deposit_cumulative(l0, calls);
    }
}

/// Law: the gateway binding succeeds at most once per instance.  After a
/// successful binding every further attempt fails — the owner's own with
/// `ConfigSetAlready` — and no handler ever clears the flag or replaces
/// the bound address (see `lemma_configuration_preserved`).
pub proof fn lemma_bind_at_most_once(
    l: LedgerView,
    s1: Seq<char>,
    t1: Seq<char>,
    s2: Seq<char>,
    t2: Seq<char>,
)
    ensures
        set_config_outcome(l, s1, t1) matches Ok(l2) ==> set_config_outcome(l2, s2, t2) is Err,
        set_config_outcome(l, s1, t1) matches Ok(l2) ==> (s2 == l2.config.owner
            ==> set_config_outcome(l2, s2, t2) == Err::<LedgerView, ContractError>(
            ContractError::ConfigSetAlready {},
        )),
{
}

/// Law: no successful handler call moves the configuration machine
/// backwards: once set, the flag stays set and the bound address stays
/// what it was; the binding itself sets exactly the requested address.
pub proof fn lemma_configuration_preserved(
    l: LedgerView,
    sender: Seq<char>,
    token: Seq<char>,
    flag: bool,
    funds: Seq<CoinView>,
)
    ensures
        set_config_outcome(l, sender, token) matches Ok(l2) ==> l2.config.config_set
            && l2.protocol_token == Some(token),
        pause_outcome(l, sender, flag) matches Ok(l2) ==> l2.config.config_set
            == l.config.config_set && l2.protocol_token == l.protocol_token,
        deposit_outcome(l, funds) matches Ok(l2) ==> l2.config.config_set == l.config.config_set
            && l2.protocol_token == l.protocol_token,
{
}

/// Law: binding the gateway, toggling the withdraw gate and claiming the
/// custody balance fail with the ownership error for every caller other
/// than the stored owner, and succeed for the owner under the operation's
/// own preconditions (for the binding: not yet configured).
pub proof fn lemma_owner_gate(
    l: LedgerView,
    sender: Seq<char>,
    token: Seq<char>,
    flag: bool,
    balance: int,
)
    ensures
        sender != l.config.owner ==> set_config_outcome(l, sender, token) == Err::<
            LedgerView,
            ContractError,
        >(ContractError::OnlyOwner {}),
        sender != l.config.owner ==> pause_outcome(l, sender, flag) == Err::<
            LedgerView,
            ContractError,
        >(ContractError::OnlyOwner {}),
        sender != l.config.owner ==> claim_outcome(l, sender, balance) == Err::<
            InstructionView,
            ContractError,
        >(ContractError::OnlyOwner {}),
        sender == l.config.owner && !l.config.config_set ==> set_config_outcome(
            l,
            sender,
            token,
        ) is Ok,
        sender == l.config.owner ==> pause_outcome(l, sender, flag) is Ok,
        sender == l.config.owner ==> claim_outcome(l, sender, balance) is Ok,
{
}

/// Law: redemption fails with `WithdrawPause` whenever `withdraw_flag`
/// is `false` — for every caller and every amount, zero included.
pub proof fn lemma_withdraw_gate(l: LedgerView, sender: Seq<char>, amount: int)
    ensures
        !l.config.withdraw_flag ==> withdraw_outcome(l, sender, amount) == Err::<
            Seq<InstructionView>,
            ContractError,
        >(ContractError::WithdrawPause {}),
{
}

/// Law: a deposit whose funds carry nothing in the custodied
/// denomination matches zero, still succeeds on a configured well-formed
/// instance, and leaves the cumulative total unchanged — a zero mint,
/// not an error.
pub proof fn lemma_deposit_unmatched_funds(l: LedgerView, funds: Seq<CoinView>)
    requires
        l.wf(),
        l.config.config_set,
        forall|j: int| 0 <= j < funds.len() ==> #[trigger] funds[j].denom != l.config.denom,
    ensures
        spec_amount_sent(funds, l.config.denom) == 0,
        deposit_outcome(l, funds) matches Ok(l2) && l2.total() == l.total(),
{
    lemma_amount_sent_unmatched(funds, l.config.denom);
}

/// Law: the cumulative-deposit counter is monotone.  A redemption and a
/// claim never touch the state at all (their outcomes carry only
/// instructions), the two configuration handlers carry the counter over
/// unchanged, and a successful deposit can only move it upward — the
/// counter tracks cumulative lifetime deposits, not the net outstanding
/// liability.
pub proof fn lemma_counter_monotone(
    l: LedgerView,
    sender: Seq<char>,
    token: Seq<char>,
    flag: bool,
    funds: Seq<CoinView>,
)
    requires
        coins_wf(funds),
    ensures
        set_config_outcome(l, sender, token) matches Ok(l2) ==> l2.total() == l.total(),
        pause_outcome(l, sender, flag) matches Ok(l2) ==> l2.total() == l.total(),
        deposit_outcome(l, funds) matches Ok(l2) ==> l2.total() >= l.total(),
{
    lemma_amount_sent_nonneg(funds, l.config.denom);
}

/// Law: a claim by the owner moves the entire live custody balance, and
/// only that, to the owner; the ledger state is never changed by it (see
/// `claim_post`).  Repetition is harmless: once the first claim has
/// drained custody the live balance reads zero, and this law at balance
/// zero says the second claim sends zero.
pub proof fn lemma_claim_full_balance(l: LedgerView, balance: int)
    ensures
        claim_outcome(l, l.config.owner, balance) == Ok::<InstructionView, ContractError>(
            InstructionView::Send {
                to_address: l.config.owner,
                denom: l.config.denom,
                amount: balance,
            },
        ),
{
}

} // verus!
