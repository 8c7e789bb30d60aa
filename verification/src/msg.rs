use vstd::prelude::*;

verus! {

/// A quantity of one native asset, as attached to an inbound call.
#[derive(Debug)]
pub struct Coin {
    pub denom: String,
    pub amount: u128,
}

/// Mathematical image of a [`Coin`].
pub struct CoinView {
    pub denom: Seq<char>,
    pub amount: int,
}

impl View for Coin {
    type V = CoinView;

    open spec fn view(&self) -> CoinView {
        CoinView { denom: self.denom@, amount: self.amount as int }
    }
}

/// Who sent the inbound call and which funds were attached to it.
#[derive(Debug)]
pub struct MessageInfo {
    pub sender: String,
    pub funds: Vec<Coin>,
}

/// Mathematical image of a [`MessageInfo`].
pub struct MessageInfoView {
    pub sender: Seq<char>,
    pub funds: Seq<CoinView>,
}

impl View for MessageInfo {
    type V = MessageInfoView;

    open spec fn view(&self) -> MessageInfoView {
        MessageInfoView {
            sender: self.sender@,
            funds: self.funds@.map_values(|c: Coin| c@),
        }
    }
}

/// Input of the one-time initialization.
#[derive(Debug)]
pub struct InstantiateMsg {
    pub owner: String,
    pub denom: String,
    pub price: u128,
    pub decimals: u128,
    pub max_mint: u128,
}

/// The mutating commands, dispatched by tag to exactly one handler.
#[derive(Debug)]
pub enum ExecuteMsg {
    /// Bind the external token-gateway address; irreversible.
    SetConfig { protocol_token: String },
    /// Deposit the attached funds; the amount is derived from them.
    Deposit {},
    /// Redeem `amount` receipt tokens for the underlying asset.
    Withdraw { amount: u128 },
    /// Send the entire live custody balance to the owner.
    Claim {},
    /// Open or close the withdraw gate.
    PauseWithdraw { flag: bool },
}

/// The read-only queries.
#[derive(Clone, Copy, Debug, PartialEq, Eq, Structural)]
pub enum QueryMsg {
    GetTotalDeposit {},
    GetConfig {},
}

/// Answer to `GetTotalDeposit`: the live custody balance, not the
/// stored cumulative counter.
#[derive(Debug)]
pub struct GetTotalDepositResponse {
    pub total_deposit: u128,
}

/// Answer to `GetConfig`.
#[derive(Debug)]
pub struct GetConfigResponse {
    pub owner: String,
    pub denom: String,
    pub token: String,
    pub withdraw_flag: bool,
}

/// Answer to a query, one variant per [`QueryMsg`] tag.
#[derive(Debug)]
pub enum QueryAnswer {
    TotalDeposit(GetTotalDepositResponse),
    Config(GetConfigResponse),
}

/// An outbound instruction, returned by a handler and executed by the
/// host after the handler returns successfully.  If the host rejects
/// one, it discards the whole call, state writes included.
#[derive(Debug)]
pub enum Instruction {
    /// Invoke the token gateway's mint entry point.
    Mint { token: String, recipient: String, amount: u128 },
    /// Invoke the token gateway's burn-from entry point.
    BurnFrom { token: String, owner: String, amount: u128 },
    /// Invoke the native bank's send entry point.
    Send { to_address: String, denom: String, amount: u128 },
}

/// Mathematical image of an [`Instruction`].
pub enum InstructionView {
    Mint { token: Seq<char>, recipient: Seq<char>, amount: int },
    BurnFrom { token: Seq<char>, owner: Seq<char>, amount: int },
    Send { to_address: Seq<char>, denom: Seq<char>, amount: int },
}

impl View for Instruction {
    type V = InstructionView;

    open spec fn view(&self) -> InstructionView {
        match self {
            Instruction::Mint { token, recipient, amount } => (InstructionView::Mint {
                token: token@,
                recipient: recipient@,
                amount: *amount as int,
            }),
            Instruction::BurnFrom { token, owner, amount } => (InstructionView::BurnFrom {
                token: token@,
                owner: owner@,
                amount: *amount as int,
            }),
            Instruction::Send { to_address, denom, amount } => (InstructionView::Send {
                to_address: to_address@,
                denom: denom@,
                amount: *amount as int,
            }),
        }
    }
}

/// An observable key-value attribute recorded on a successful call.
#[derive(Debug)]
pub struct Attribute {
    pub key: String,
    pub value: String,
}

/// Mathematical image of an [`Attribute`].
pub struct AttributeView {
    pub key: Seq<char>,
    pub value: Seq<char>,
}

impl View for Attribute {
    type V = AttributeView;

    open spec fn view(&self) -> AttributeView {
        AttributeView { key: self.key@, value: self.value@ }
    }
}

/// What a successful handler hands back to the host: instructions to
/// execute, in order, and attributes to record.
#[derive(Debug)]
pub struct Response {
    pub messages: Vec<Instruction>,
    pub attributes: Vec<Attribute>,
}

/// Mathematical image of a [`Response`].
pub struct ResponseView {
    pub messages: Seq<InstructionView>,
    pub attributes: Seq<AttributeView>,
}

impl View for Response {
    type V = ResponseView;

    open spec fn view(&self) -> ResponseView {
        ResponseView {
            messages: self.messages@.map_values(|m: Instruction| m@),
            attributes: self.attributes@.map_values(|a: Attribute| a@),
        }
    }
}

impl Response {
    /// An empty response: no instruction, no attribute.
    pub fn new() -> (r: Response)
        ensures
            r@.messages == Seq::<InstructionView>::empty(),
            r@.attributes == Seq::<AttributeView>::empty(),
    {
        let r = Response { messages: Vec::new(), attributes: Vec::new() };
        proof {
            assert(r@.messages =~= Seq::<InstructionView>::empty());
            assert(r@.attributes =~= Seq::<AttributeView>::empty());
        }
        r
    }

    /// The same response with one more instruction at the end.
    pub fn add_message(self, msg: Instruction) -> (r: Response)
        ensures
            r@.messages == self@.messages.push(msg@),
            r@.attributes == self@.attributes,
    {
        let mut messages = self.messages;
        messages.push(msg);
        let r = Response { messages, attributes: self.attributes };
        proof {
            assert(r@.messages =~= self@.messages.push(msg@));
        }
        r
    }

    /// The same response with one more attribute at the end.
    pub fn add_attribute(self, key: String, value: String) -> (r: Response)
        ensures
            r@.messages == self@.messages,
            r@.attributes == self@.attributes.push(AttributeView { key: key@, value: value@ }),
    {
        let mut attributes = self.attributes;
        attributes.push(Attribute { key, value });
        let r = Response { messages: self.messages, attributes };
        proof {
            assert(r@.attributes =~= self@.attributes.push(
                AttributeView { key: key@, value: value@ },
            ));
        }
        r
    }
}

} // verus!
