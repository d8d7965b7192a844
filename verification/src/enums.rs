//! The small closed vocabularies of the protocol, and their wire codes.
//!
//! On the wire each of these is an integer. A code that is not part of a
//! vocabulary maps to its `Invalid` member, never to an error: the server may
//! add codes, and an unrecognized one must not kill the decoding of a whole
//! record.

use vstd::prelude::*;

verus! {

/// The operation code of a trade.
#[derive(Debug, Clone, Copy, PartialEq, Eq, Structural)]
pub enum TradeCmd {
    Buy,
    Sell,
    BuyLimit,
    SellLimit,
    BuyStop,
    SellStop,
    /// Read only: a manager's deposit (profit positive) or withdrawal
    /// (profit negative).
    Balance,
    /// Read only.
    Credit,
    Invalid,
}

impl TradeCmd {
    /// The wire code of this operation; `Invalid` renders as -1.
    pub open spec fn spec_code(self) -> i64 {
        match self {
            TradeCmd::Buy => 0,
            TradeCmd::Sell => 1,
            TradeCmd::BuyLimit => 2,
            TradeCmd::SellLimit => 3,
            TradeCmd::BuyStop => 4,
            TradeCmd::SellStop => 5,
            TradeCmd::Balance => 6,
            TradeCmd::Credit => 7,
            TradeCmd::Invalid => -1i64,
        }
    }

    /// The wire code of this operation.
    pub fn code(self) -> (r: i64)
        ensures
            r == self.spec_code(),
    {
        match self {
            TradeCmd::Buy => 0,
            TradeCmd::Sell => 1,
            TradeCmd::BuyLimit => 2,
            TradeCmd::SellLimit => 3,
            TradeCmd::BuyStop => 4,
            TradeCmd::SellStop => 5,
            TradeCmd::Balance => 6,
            TradeCmd::Credit => 7,
            TradeCmd::Invalid => -1,
        }
    }
}

impl From<i64> for TradeCmd {
    /// Decodes a wire code; anything out of the vocabulary is `Invalid`.
    fn from(value: i64) -> (r: Self) {
        match value {
            0 => TradeCmd::Buy,
            1 => TradeCmd::Sell,
            2 => TradeCmd::BuyLimit,
            3 => TradeCmd::SellLimit,
            4 => TradeCmd::BuyStop,
            5 => TradeCmd::SellStop,
            6 => TradeCmd::Balance,
            7 => TradeCmd::Credit,
            _ => TradeCmd::Invalid,
        }
    }
}

impl vstd::std_specs::convert::FromSpecImpl<i64> for TradeCmd {
    open spec fn obeys_from_spec() -> bool {
        true
    }

    open spec fn from_spec(v: i64) -> Self {
        if v == 0 {
            TradeCmd::Buy
        } else if v == 1 {
            TradeCmd::Sell
        } else if v == 2 {
            TradeCmd::BuyLimit
        } else if v == 3 {
            TradeCmd::SellLimit
        } else if v == 4 {
            TradeCmd::BuyStop
        } else if v == 5 {
            TradeCmd::SellStop
        } else if v == 6 {
            TradeCmd::Balance
        } else if v == 7 {
            TradeCmd::Credit
        } else {
            TradeCmd::Invalid
        }
    }
}

/// What a trade transaction does to an order.
#[derive(Debug, Clone, Copy, PartialEq, Eq, Structural)]
pub enum TradeType {
    /// Opens an order.
    Open,
    /// An order not yet executed; only seen in pushed trade records.
    Pending,
    /// Closes an order.
    Close,
    /// Modifies an order.
    Modify,
    /// Deletes an order.
    Delete,
    Invalid,
}

impl TradeType {
    /// The wire code of this transaction type; `Invalid` renders as -1.
    pub open spec fn spec_code(self) -> i64 {
        match self {
            TradeType::Open => 0,
            TradeType::Pending => 1,
            TradeType::Close => 2,
            TradeType::Modify => 3,
            TradeType::Delete => 4,
            TradeType::Invalid => -1i64,
        }
    }

    /// The wire code of this transaction type.
    pub fn code(self) -> (r: i64)
        ensures
            r == self.spec_code(),
    {
        match self {
            TradeType::Open => 0,
            TradeType::Pending => 1,
            TradeType::Close => 2,
            TradeType::Modify => 3,
            TradeType::Delete => 4,
            TradeType::Invalid => -1,
        }
    }
}

impl From<i64> for TradeType {
    /// Decodes a wire code; anything out of the vocabulary is `Invalid`.
    fn from(value: i64) -> (r: Self) {
        match value {
            0 => TradeType::Open,
            1 => TradeType::Pending,
            2 => TradeType::Close,
            3 => TradeType::Modify,
            4 => TradeType::Delete,
            _ => TradeType::Invalid,
        }
    }
}

impl vstd::std_specs::convert::FromSpecImpl<i64> for TradeType {
    open spec fn obeys_from_spec() -> bool {
        true
    }

    open spec fn from_spec(v: i64) -> Self {
        if v == 0 {
            TradeType::Open
        } else if v == 1 {
            TradeType::Pending
        } else if v == 2 {
            TradeType::Close
        } else if v == 3 {
            TradeType::Modify
        } else if v == 4 {
            TradeType::Delete
        } else {
            TradeType::Invalid
        }
    }
}

/// How the server disposed of a requested transaction.
#[derive(Debug, Clone, Copy, PartialEq, Eq, Structural)]
pub enum RequestStatus {
    /// An error occurred while executing the transaction.
    Error,
    /// The transaction is pending.
    Pending,
    /// The transaction has been executed successfully.
    Accepted,
    /// The transaction has been rejected.
    Rejected,
    Invalid,
}

impl RequestStatus {
    /// The wire code of this status; `Invalid` renders as -1. The code 2 is
    /// not part of the vocabulary.
    pub open spec fn spec_code(self) -> i64 {
        match self {
            RequestStatus::Error => 0,
            RequestStatus::Pending => 1,
            RequestStatus::Accepted => 3,
            RequestStatus::Rejected => 4,
            RequestStatus::Invalid => -1i64,
        }
    }

    /// The wire code of this status.
    pub fn code(self) -> (r: i64)
        ensures
            r == self.spec_code(),
    {
        match self {
            RequestStatus::Error => 0,
            RequestStatus::Pending => 1,
            RequestStatus::Accepted => 3,
            RequestStatus::Rejected => 4,
            RequestStatus::Invalid => -1,
        }
    }
}

impl From<i64> for RequestStatus {
    /// Decodes a wire code; anything out of the vocabulary is `Invalid`.
    fn from(value: i64) -> (r: Self) {
        match value {
            0 => RequestStatus::Error,
            1 => RequestStatus::Pending,
            3 => RequestStatus::Accepted,
            4 => RequestStatus::Rejected,
            _ => RequestStatus::Invalid,
        }
    }
}

impl vstd::std_specs::convert::FromSpecImpl<i64> for RequestStatus {
    open spec fn obeys_from_spec() -> bool {
        true
    }

    open spec fn from_spec(v: i64) -> Self {
        if v == 0 {
            RequestStatus::Error
        } else if v == 1 {
            RequestStatus::Pending
        } else if v == 3 {
            RequestStatus::Accepted
        } else if v == 4 {
            RequestStatus::Rejected
        } else {
            RequestStatus::Invalid
        }
    }
}

/// The length of one chart candle, in minutes on the wire.
#[derive(Debug, Clone, Copy, PartialEq, Eq, Structural)]
pub enum Period {
    /// 1 minute.
    M1,
    /// 5 minutes.
    M5,
    /// 15 minutes.
    M15,
    /// 30 minutes.
    M30,
    /// 60 minutes (1 hour).
    H1,
    /// 240 minutes (4 hours).
    H4,
    /// 1440 minutes (1 day).
    D1,
    /// 10080 minutes (1 week).
    W1,
    /// 43200 minutes (30 days).
    MN1,
    Invalid,
}

impl Period {
    /// The period in minutes, which is also its wire code; `Invalid` renders
    /// as -1.
    pub open spec fn spec_code(self) -> i64 {
        match self {
            Period::M1 => 1,
            Period::M5 => 5,
            Period::M15 => 15,
            Period::M30 => 30,
            Period::H1 => 60,
            Period::H4 => 240,
            Period::D1 => 1440,
            Period::W1 => 10080,
            Period::MN1 => 43200,
            Period::Invalid => -1i64,
        }
    }

    /// The period in minutes, which is also its wire code.
    pub fn code(self) -> (r: i64)
        ensures
            r == self.spec_code(),
    {
        match self {
            Period::M1 => 1,
            Period::M5 => 5,
            Period::M15 => 15,
            Period::M30 => 30,
            Period::H1 => 60,
            Period::H4 => 240,
            Period::D1 => 1440,
            Period::W1 => 10080,
            Period::MN1 => 43200,
            Period::Invalid => -1,
        }
    }
}

impl From<i64> for Period {
    /// Decodes a period in minutes; anything out of the vocabulary is
    /// `Invalid`.
    fn from(value: i64) -> (r: Self) {
        match value {
            1 => Period::M1,
            5 => Period::M5,
            15 => Period::M15,
            30 => Period::M30,
            60 => Period::H1,
            240 => Period::H4,
            1440 => Period::D1,
            10080 => Period::W1,
            43200 => Period::MN1,
            _ => Period::Invalid,
        }
    }
}

impl vstd::std_specs::convert::FromSpecImpl<i64> for Period {
    open spec fn obeys_from_spec() -> bool {
        true
    }

    open spec fn from_spec(v: i64) -> Self {
        if v == 1 {
            Period::M1
        } else if v == 5 {
            Period::M5
        } else if v == 15 {
            Period::M15
        } else if v == 30 {
            Period::M30
        } else if v == 60 {
            Period::H1
        } else if v == 240 {
            Period::H4
        } else if v == 1440 {
            Period::D1
        } else if v == 10080 {
            Period::W1
        } else if v == 43200 {
            Period::MN1
        } else {
            Period::Invalid
        }
    }
}

} // verus!
