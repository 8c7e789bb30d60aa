use vstd::prelude::*;

verus! {

/// The singleton configuration record, created at initialization and
/// never deleted.  `owner`, `denom` and `max_mint` are immutable after
/// creation; `price` and `decimals` are inert data that queries read
/// back but no handler consults; the two booleans are the gates.
#[derive(Debug)]
pub struct Config {
    /// Identity of the privileged account.
    pub owner: String,
    /// Identifier of the custodied asset.
    pub denom: String,
    /// Stored numeric field; never consulted by any handler.
    pub price: u128,
    /// Stored numeric field; never consulted by any handler.
    pub decimals: u128,
    /// Starts `false`; flips to `true` exactly once, when the
    /// token-gateway address is bound.
    pub config_set: bool,
    /// Ceiling on cumulative lifetime deposits.
    pub max_mint: u128,
    /// Owner-controlled gate permitting or blocking redemption.
    pub withdraw_flag: bool,
}

/// Mathematical image of a [`Config`].
pub struct ConfigView {
    pub owner: Seq<char>,
    pub denom: Seq<char>,
    pub price: int,
    pub decimals: int,
    pub config_set: bool,
    pub max_mint: int,
    pub withdraw_flag: bool,
}

impl View for Config {
    type V = ConfigView;

    open spec fn view(&self) -> ConfigView {
        ConfigView {
            owner: self.owner@,
            denom: self.denom@,
            price: self.price as int,
            decimals: self.decimals as int,
            config_set: self.config_set,
            max_mint: self.max_mint as int,
            withdraw_flag: self.withdraw_flag,
        }
    }
}

/// The whole persistent state of one contract instance: the
/// configuration record, the token-gateway address (absent until the
/// one-time binding), and the cumulative-deposit counter (absent until
/// the first deposit).
#[derive(Debug)]
pub struct Ledger {
    pub config: Config,
    /// Identity of the external fungible-token ledger; set exactly once,
    /// at the moment `config.config_set` flips to `true`.
    pub protocol_token: Option<String>,
    /// Cumulative lifetime deposits; never decremented.
    pub total_deposit: Option<u128>,
}

/// Mathematical image of a [`Ledger`].
pub struct LedgerView {
    pub config: ConfigView,
    pub protocol_token: Option<Seq<char>>,
    pub total_deposit: Option<int>,
}

impl View for Ledger {
    type V = LedgerView;

    open spec fn view(&self) -> LedgerView {
        LedgerView {
            config: self.config@,
            protocol_token: match self.protocol_token {
                Some(t) => Some(t@),
                None => None,
            },
            total_deposit: match self.total_deposit {
                Some(n) => Some(n as int),
                None => None,
            },
        }
    }
}

impl LedgerView {
    /// The cumulative-deposit counter reads as zero while the record is
    /// still absent.
    pub open spec fn total(self) -> int {
        match self.total_deposit {
            Some(n) => n,
            None => 0,
        }
    }

    /// Well-formedness: the counter never exceeds the cap and fits the
    /// machine word, and the gateway address is present exactly when the
    /// configuration is marked set.
    pub open spec fn wf(self) -> bool {
        &&& 0 <= self.total() <= self.config.max_mint
        &&& self.config.max_mint <= u128::MAX
        &&& self.config.config_set == self.protocol_token is Some
    }
}

} // verus!
