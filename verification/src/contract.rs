use vstd::prelude::*;

use crate::error::ContractError;
use crate::msg::{
    AttributeView, Coin, CoinView, GetConfigResponse, GetTotalDepositResponse, Instruction,
    InstructionView, InstantiateMsg, ExecuteMsg, MessageInfo, MessageInfoView, QueryAnswer,
    QueryMsg, Response,
};
use crate::state::{Config, ConfigView, Ledger, LedgerView};

verus! {

// ---------------------------------------------------------------------------
// Specification layer: one mathematical outcome function per handler.  Each
// says, for every well-formed state and every input, whether the call fails
// (and with which error) or succeeds (and with which new state).  The
// executable handlers below are proved to realize these outcomes; the laws
// in `crate::laws` are proved about them.
// ---------------------------------------------------------------------------

/// The attached amount whose asset identifier equals `denom`: the amount of
/// the first matching entry, zero when none matches.  Entries in any other
/// denomination are ignored, not rejected.
pub open spec fn spec_amount_sent(funds: Seq<CoinView>, denom: Seq<char>) -> int
    decreases funds.len(),
{
    if funds.len() == 0 {
        0
    } else if funds[0].denom == denom {
        funds[0].amount
    } else {
        spec_amount_sent(funds.drop_first(), denom)
    }
}

/// The state created by initialization: both gates closed, no gateway
/// address, no deposit counter.
pub open spec fn instantiate_state(
    owner: Seq<char>,
    denom: Seq<char>,
    price: int,
    decimals: int,
    max_mint: int,
) -> LedgerView {
    LedgerView {
        config: ConfigView {
            owner,
            denom,
            price,
            decimals,
            config_set: false,
            max_mint,
            withdraw_flag: false,
        },
        protocol_token: None,
        total_deposit: None,
    }
}

/// Outcome of the one-time gateway binding: only the owner may bind, and
/// only while the configuration is not yet set.
pub open spec fn set_config_outcome(
    l: LedgerView,
    sender: Seq<char>,
    token: Seq<char>,
) -> Result<LedgerView, ContractError> {
    if sender != l.config.owner {
        Err(ContractError::OnlyOwner {})
    } else if l.config.config_set {
        Err(ContractError::ConfigSetAlready {})
    } else {
        Ok(
            LedgerView {
                config: ConfigView { config_set: true, ..l.config },
                protocol_token: Some(token),
                total_deposit: l.total_deposit,
            },
        )
    }
}

/// Outcome of toggling the withdraw gate: only the owner may toggle; the
/// write is unconditional, a no-op write included.
pub open spec fn pause_outcome(l: LedgerView, sender: Seq<char>, flag: bool) -> Result<
    LedgerView,
    ContractError,
> {
    if sender != l.config.owner {
        Err(ContractError::OnlyOwner {})
    } else {
        Ok(
            LedgerView {
                config: ConfigView { withdraw_flag: flag, ..l.config },
                protocol_token: l.protocol_token,
                total_deposit: l.total_deposit,
            },
        )
    }
}

/// Outcome of a deposit on the state alone: the call fails while the
/// gateway address is unbound, fails when the new cumulative total would
/// exceed the cap, and otherwise persists the new total.
pub open spec fn deposit_outcome(l: LedgerView, funds: Seq<CoinView>) -> Result<
    LedgerView,
    ContractError,
> {
    if !l.config.config_set {
        Err(ContractError::TokenNotSet {})
    } else if l.total() + spec_amount_sent(funds, l.config.denom) > l.config.max_mint {
        Err(ContractError::DepositMoreThanMax {})
    } else {
        Ok(
            LedgerView {
                config: l.config,
                protocol_token: l.protocol_token,
                total_deposit: Some(l.total() + spec_amount_sent(funds, l.config.denom)),
            },
        )
    }
}

/// Outcome of a redemption: gate first, then the gateway address; on
/// success, burn the receipt tokens from the caller, then send the same
/// amount of the custodied asset back.  The state is never changed.
pub open spec fn withdraw_outcome(l: LedgerView, sender: Seq<char>, amount: int) -> Result<
    Seq<InstructionView>,
    ContractError,
> {
    if !l.config.withdraw_flag {
        Err(ContractError::WithdrawPause {})
    } else if !(l.protocol_token is Some) {
        Err(ContractError::TokenNotSet {})
    } else {
        Ok(
            seq![
                InstructionView::BurnFrom {
                    token: l.protocol_token->Some_0,
                    owner: sender,
                    amount,
                },
                InstructionView::Send { to_address: sender, denom: l.config.denom, amount },
            ],
        )
    }
}

/// Outcome of an owner claim: send the entire live custody balance to the
/// owner.  The state is never changed.
pub open spec fn claim_outcome(l: LedgerView, sender: Seq<char>, balance: int) -> Result<
    InstructionView,
    ContractError,
> {
    if sender != l.config.owner {
        Err(ContractError::OnlyOwner {})
    } else {
        Ok(
            InstructionView::Send {
                to_address: l.config.owner,
                denom: l.config.denom,
                amount: balance,
            },
        )
    }
}

// ---------------------------------------------------------------------------
// Postcondition predicates tying an executable call to its outcome.
// ---------------------------------------------------------------------------

/// What `execute_set_config` guarantees.
pub open spec fn set_config_post(
    pre: LedgerView,
    post: LedgerView,
    sender: Seq<char>,
    token: Seq<char>,
    r: Result<Response, ContractError>,
) -> bool {
    match set_config_outcome(pre, sender, token) {
        Ok(l2) => {
            &&& r is Ok
            &&& post == l2
            &&& r->Ok_0@.messages.len() == 0
            &&& r->Ok_0@.attributes.len() == 0
        },
        Err(e) => r == Err::<Response, ContractError>(e) && post == pre,
    }
}

/// What `execute_pause_withdraw` guarantees: besides the state change, a
/// successful call records one attribute naming the new flag value.
pub open spec fn pause_post(
    pre: LedgerView,
    post: LedgerView,
    sender: Seq<char>,
    flag: bool,
    r: Result<Response, ContractError>,
) -> bool {
    match pause_outcome(pre, sender, flag) {
        Ok(l2) => {
            &&& r is Ok
            &&& post == l2
            &&& r->Ok_0@.messages.len() == 0
            &&& r->Ok_0@.attributes == seq![
                AttributeView {
                    key: "ExecutePauseWithdraw"@,
                    value: if flag { "true"@ } else { "false"@ },
                },
            ]
        },
        Err(e) => r == Err::<Response, ContractError>(e) && post == pre,
    }
}

/// What `execute_deposit` guarantees: on success, exactly one mint
/// instruction, for the matched amount, to the depositor, through the
/// bound gateway — a zero mint included.
pub open spec fn deposit_post(
    pre: LedgerView,
    post: LedgerView,
    info: MessageInfoView,
    r: Result<Response, ContractError>,
) -> bool {
    match deposit_outcome(pre, info.funds) {
        Ok(l2) => {
            &&& r is Ok
            &&& post == l2
            &&& r->Ok_0@.messages == seq![
                InstructionView::Mint {
                    token: pre.protocol_token->Some_0,
                    recipient: info.sender,
                    amount: spec_amount_sent(info.funds, pre.config.denom),
                },
            ]
            &&& r->Ok_0@.attributes.len() == 0
        },
        Err(e) => r == Err::<Response, ContractError>(e) && post == pre,
    }
}

/// What `execute_withdraw` guarantees.
pub open spec fn withdraw_post(
    pre: LedgerView,
    post: LedgerView,
    sender: Seq<char>,
    amount: int,
    r: Result<Response, ContractError>,
) -> bool {
    match withdraw_outcome(pre, sender, amount) {
        Ok(msgs) => {
            &&& r is Ok
            &&& post == pre
            &&& r->Ok_0@.messages == msgs
            &&& r->Ok_0@.attributes.len() == 0
        },
        Err(e) => r == Err::<Response, ContractError>(e) && post == pre,
    }
}

/// What `execute_claim` guarantees.
pub open spec fn claim_post(
    pre: LedgerView,
    post: LedgerView,
    sender: Seq<char>,
    balance: int,
    r: Result<Response, ContractError>,
) -> bool {
    match claim_outcome(pre, sender, balance) {
        Ok(m) => {
            &&& r is Ok
            &&& post == pre
            &&& r->Ok_0@.messages == seq![m]
            &&& r->Ok_0@.attributes.len() == 0
        },
        Err(e) => r == Err::<Response, ContractError>(e) && post == pre,
    }
}

// ---------------------------------------------------------------------------
// Transfer-intent builders: pure construction, no state, no failure.
// ---------------------------------------------------------------------------

/// Instruction invoking the bank module's send entry point.
pub fn send_native(recipient: String, amount: u128, denom: String) -> (msg: Instruction)
    ensures
        msg@ == (InstructionView::Send {
            to_address: recipient@,
            denom: denom@,
            amount: amount as int,
        }),
{
    Instruction::Send { to_address: recipient, denom, amount }
}

/// Instruction invoking the token gateway's mint entry point.
pub fn mint_tokens(recipient: String, mint_amount: u128, token: String) -> (msg: Instruction)
    ensures
        msg@ == (InstructionView::Mint {
            token: token@,
            recipient: recipient@,
            amount: mint_amount as int,
        }),
{
    Instruction::Mint { token, recipient, amount: mint_amount }
}

/// Instruction invoking the token gateway's burn-from entry point.
pub fn burn_tokens(user: String, burn_amount: u128, token: String) -> (msg: Instruction)
    ensures
        msg@ == (InstructionView::BurnFrom {
            token: token@,
            owner: user@,
            amount: burn_amount as int,
        }),
{
    Instruction::BurnFrom { token, owner: user, amount: burn_amount }
}

// ---------------------------------------------------------------------------
// Deposit matching.
// ---------------------------------------------------------------------------

/// `spec_amount_sent` ignores a prefix in which nothing matches.
proof fn lemma_amount_sent_skip(funds: Seq<CoinView>, denom: Seq<char>, i: int)
    requires
        0 <= i <= funds.len(),
        forall|j: int| 0 <= j < i ==> funds[j].denom != denom,
    ensures
        spec_amount_sent(funds, denom) == spec_amount_sent(funds.skip(i), denom),
    decreases i,
{
    if i > 0 {
        assert(funds[0].denom != denom);
        let rest = funds.drop_first();
        assert(forall|j: int| 0 <= j < i - 1 ==> rest[j].denom != denom);
        lemma_amount_sent_skip(rest, denom, i - 1);
        assert(rest.skip(i - 1) =~= funds.skip(i));
    } else {
        assert(funds.skip(0) =~= funds);
    }
}

/// The amount of the first entry of `sent_funds` in denomination `denom`,
/// zero when there is none.
pub fn amount_sent(sent_funds: Vec<Coin>, denom: String) -> (amount: u128)
    ensures
        amount as int == spec_amount_sent(sent_funds@.map_values(|c: Coin| c@), denom@),
{
    let ghost fundsv = sent_funds@.map_values(|c: Coin| c@);
    let mut i: usize = 0;
    while i < sent_funds.len()
        invariant
            0 <= i <= sent_funds.len(),
            fundsv == sent_funds@.map_values(|c: Coin| c@),
            fundsv.len() == sent_funds@.len(),
            forall|j: int| 0 <= j < i ==> fundsv[j].denom != denom@,
        decreases sent_funds.len() - i,
    {
        if sent_funds[i].denom == denom {
            proof {
                lemma_amount_sent_skip(fundsv, denom@, i as int);
                assert(fundsv.skip(i as int)[0] == fundsv[i as int]);
            }
            return sent_funds[i].amount;
        }
        i += 1;
    }
    proof {
        lemma_amount_sent_skip(fundsv, denom@, fundsv.len() as int);
    }
    0
}

// ---------------------------------------------------------------------------
// Handlers.
// ---------------------------------------------------------------------------

/// Create a fresh ledger: both gates closed, no gateway address bound, no
/// deposit recorded.  Initialization always succeeds.
pub fn instantiate(msg: InstantiateMsg) -> (l: Ledger)
    ensures
        l@ == instantiate_state(
            msg.owner@,
            msg.denom@,
            msg.price as int,
            msg.decimals as int,
            msg.max_mint as int,
        ),
        l@.wf(),
{
    Ledger {
        config: Config {
            owner: msg.owner,
            denom: msg.denom,
            price: msg.price,
            decimals: msg.decimals,
            config_set: false,
            max_mint: msg.max_mint,
            withdraw_flag: false,
        },
        protocol_token: None,
        total_deposit: None,
    }
}

/// Bind the external token-gateway address, once and irreversibly.
pub fn execute_set_config(ledger: &mut Ledger, info: MessageInfo, protocol_token: String) -> (r:
    Result<Response, ContractError>)
    requires
        old(ledger)@.wf(),
    ensures
        final(ledger)@.wf(),
        set_config_post(old(ledger)@, final(ledger)@, info@.sender, protocol_token@, r),
{
    if info.sender != ledger.config.owner {
        return Err(ContractError::OnlyOwner {});
    }
    if ledger.config.config_set {
        return Err(ContractError::ConfigSetAlready {});
    }
    ledger.protocol_token = Some(protocol_token);
    ledger.config.config_set = true;
    Ok(Response::new())
}

/// Open or close the withdraw gate; only the owner may, at any time, any
/// number of times.  Records the new flag value as an attribute.
pub fn execute_pause_withdraw(ledger: &mut Ledger, info: MessageInfo, flag: bool) -> (r: Result<
    Response,
    ContractError,
>)
    requires
        old(ledger)@.wf(),
    ensures
        final(ledger)@.wf(),
        pause_post(old(ledger)@, final(ledger)@, info@.sender, flag, r),
{
    if info.sender != ledger.config.owner {
        return Err(ContractError::OnlyOwner {});
    }
    ledger.config.withdraw_flag = flag;
    let value = if flag {
        String::from_str("true")
    } else {
        String::from_str("false")
    };
    let resp = Response::new().add_attribute(String::from_str("ExecutePauseWithdraw"), value);
    proof {
        assert(resp@.attributes =~= seq![
            AttributeView {
                key: "ExecutePauseWithdraw"@,
                value: if flag { "true"@ } else { "false"@ },
            },
        ]);
    }
    Ok(resp)
}

/// Accept the attached funds: add the matched amount to the cumulative
/// total, enforce the cap, and mint the same amount of receipt tokens to
/// the depositor.  On any failure nothing is changed and nothing is
/// emitted.
pub fn execute_deposit(ledger: &mut Ledger, info: MessageInfo) -> (r: Result<
    Response,
    ContractError,
>)
    requires
        old(ledger)@.wf(),
    ensures
        final(ledger)@.wf(),
        deposit_post(old(ledger)@, final(ledger)@, info@, r),
{
    let token: String = match &ledger.protocol_token {
        Some(t) => t.clone(),
        None => { return Err(ContractError::TokenNotSet {}); },
    };
    let total: u128 = match ledger.total_deposit {
        Some(n) => n,
        None => 0,
    };
    let MessageInfo { sender, funds } = info;
    let amount = amount_sent(funds, ledger.config.denom.clone());
    if amount > ledger.config.max_mint - total {
        return Err(ContractError::DepositMoreThanMax {});
    }
    ledger.total_deposit = Some(total + amount);
    let mint_msg = mint_tokens(sender, amount, token);
    let resp = Response::new().add_message(mint_msg);
    proof {
        assert(resp@.messages =~= seq![
            InstructionView::Mint {
                token: old(ledger)@.protocol_token->Some_0,
                recipient: info@.sender,
                amount: spec_amount_sent(info@.funds, old(ledger)@.config.denom),
            },
        ]);
    }
    Ok(resp)
}

/// Redeem receipt tokens for the underlying asset: burn them from the
/// caller, then send the same amount of the custodied asset back.  Fails
/// while the withdraw gate is closed, whatever the amount.  Never touches
/// the cumulative total; an unsatisfiable burn or send is rejected by the
/// host, which then discards the whole call.
pub fn execute_withdraw(ledger: &mut Ledger, info: MessageInfo, amount: u128) -> (r: Result<
    Response,
    ContractError,
>)
    requires
        old(ledger)@.wf(),
    ensures
        final(ledger)@.wf(),
        withdraw_post(old(ledger)@, final(ledger)@, info@.sender, amount as int, r),
{
    if !ledger.config.withdraw_flag {
        return Err(ContractError::WithdrawPause {});
    }
    let token: String = match &ledger.protocol_token {
        Some(t) => t.clone(),
        None => { return Err(ContractError::TokenNotSet {}); },
    };
    let burn_msg = burn_tokens(info.sender.clone(), amount, token);
    let send_msg = send_native(info.sender, amount, ledger.config.denom.clone());
    let resp = Response::new().add_message(burn_msg).add_message(send_msg);
    proof {
        assert(resp@.messages =~= withdraw_outcome(
            old(ledger)@,
            info@.sender,
            amount as int,
        )->Ok_0);
    }
    Ok(resp)
}

/// Send the entire live custody balance to the owner.  `custody_balance`
/// is the bank module's answer for the contract's own holdings of the
/// custodied asset, read by the caller just before dispatch.  Repeatable:
/// once custody is drained the balance reads zero and the claim sends
/// zero.
pub fn execute_claim(ledger: &mut Ledger, info: MessageInfo, custody_balance: u128) -> (r: Result<
    Response,
    ContractError,
>)
    requires
        old(ledger)@.wf(),
    ensures
        final(ledger)@.wf(),
        claim_post(old(ledger)@, final(ledger)@, info@.sender, custody_balance as int, r),
{
    if info.sender != ledger.config.owner {
        return Err(ContractError::OnlyOwner {});
    }
    let send_msg = send_native(
        ledger.config.owner.clone(),
        custody_balance,
        ledger.config.denom.clone(),
    );
    let resp = Response::new().add_message(send_msg);
    proof {
        assert(resp@.messages =~= seq![
            claim_outcome(old(ledger)@, info@.sender, custody_balance as int)->Ok_0,
        ]);
    }
    Ok(resp)
}

/// Dispatch an inbound command to exactly one handler.  `custody_balance`
/// is the live bank balance of the custodied asset, read by the caller
/// before dispatch; only `Claim` consults it.
pub fn execute(
    ledger: &mut Ledger,
    info: MessageInfo,
    custody_balance: u128,
    msg: ExecuteMsg,
) -> (r: Result<Response, ContractError>)
    requires
        old(ledger)@.wf(),
    ensures
        final(ledger)@.wf(),
        (msg matches ExecuteMsg::SetConfig { protocol_token } ==> set_config_post(
            old(ledger)@,
            final(ledger)@,
            info@.sender,
            protocol_token@,
            r,
        )),
        (msg matches ExecuteMsg::Deposit {  } ==> deposit_post(
            old(ledger)@,
            final(ledger)@,
            info@,
            r,
        )),
        (msg matches ExecuteMsg::Withdraw { amount } ==> withdraw_post(
            old(ledger)@,
            final(ledger)@,
            info@.sender,
            amount as int,
            r,
        )),
        (msg matches ExecuteMsg::Claim {  } ==> claim_post(
            old(ledger)@,
            final(ledger)@,
            info@.sender,
            custody_balance as int,
            r,
        )),
        (msg matches ExecuteMsg::PauseWithdraw { flag } ==> pause_post(
            old(ledger)@,
            final(ledger)@,
            info@.sender,
            flag,
            r,
        )),
{
    match msg {
        ExecuteMsg::SetConfig { protocol_token } => {
            execute_set_config(ledger, info, protocol_token)
        },
        ExecuteMsg::Deposit {  } => execute_deposit(ledger, info),
        ExecuteMsg::Withdraw { amount } => execute_withdraw(ledger, info, amount),
        ExecuteMsg::Claim {  } => execute_claim(ledger, info, custody_balance),
        ExecuteMsg::PauseWithdraw { flag } => execute_pause_withdraw(ledger, info, flag),
    }
}

// ---------------------------------------------------------------------------
// Query projections: read-only, no side effect.
// ---------------------------------------------------------------------------

/// The configuration as a query answer.  Fails while the gateway address
/// is not yet bound, as reading the absent record does.
pub fn query_get_config(ledger: &Ledger) -> (r: Result<GetConfigResponse, ContractError>)
    ensures
        r is Ok <==> ledger@.protocol_token is Some,
        ledger@.protocol_token is None ==> r == Err::<GetConfigResponse, ContractError>(
            ContractError::TokenNotSet {},
        ),
        r matches Ok(resp) ==> {
            &&& resp.owner@ == ledger@.config.owner
            &&& resp.denom@ == ledger@.config.denom
            &&& resp.token@ == ledger@.protocol_token->Some_0
            &&& resp.withdraw_flag == ledger@.config.withdraw_flag
        },
{
    let token: String = match &ledger.protocol_token {
        Some(t) => t.clone(),
        None => { return Err(ContractError::TokenNotSet {}); },
    };
    Ok(
        GetConfigResponse {
            owner: ledger.config.owner.clone(),
            denom: ledger.config.denom.clone(),
            token,
            withdraw_flag: ledger.config.withdraw_flag,
        },
    )
}

/// The `GetTotalDeposit` answer reports the live custody balance, read by
/// the caller from the bank module — deliberately not the stored
/// cumulative counter; the two diverge once any redemption or claim
/// occurs.
pub fn query_get_total_deposit(custody_balance: u128) -> (r: GetTotalDepositResponse)
    ensures
        r.total_deposit == custody_balance,
{
    GetTotalDepositResponse { total_deposit: custody_balance }
}

/// Dispatch a read-only query.  `custody_balance` is the live bank
/// balance of the custodied asset, read by the caller before dispatch;
/// only `GetTotalDeposit` consults it.
pub fn query(ledger: &Ledger, custody_balance: u128, msg: QueryMsg) -> (r: Result<
    QueryAnswer,
    ContractError,
>)
    ensures
        msg == (QueryMsg::GetTotalDeposit {  }) ==> (r matches Ok(
            QueryAnswer::TotalDeposit(t),
        ) && t.total_deposit == custody_balance),
        msg == (QueryMsg::GetConfig {  }) && ledger@.protocol_token is Some ==> (r matches Ok(
            QueryAnswer::Config(resp),
        ) && resp.owner@ == ledger@.config.owner && resp.denom@ == ledger@.config.denom
            && resp.token@ == ledger@.protocol_token->Some_0 && resp.withdraw_flag
            == ledger@.config.withdraw_flag),
        msg == (QueryMsg::GetConfig {  }) && ledger@.protocol_token is None ==> r == Err::<
            QueryAnswer,
            ContractError,
        >(ContractError::TokenNotSet {}),
{
    match msg {
        QueryMsg::GetTotalDeposit {  } => {
            Ok(QueryAnswer::TotalDeposit(query_get_total_deposit(custody_balance)))
        },
        QueryMsg::GetConfig {  } => {
            match query_get_config(ledger) {
                Ok(resp) => Ok(QueryAnswer::Config(resp)),
                Err(e) => Err(e),
            }
        },
    }
}

} // verus!
