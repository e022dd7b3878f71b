//! Closed enumerations of the domain and the names under which they are stored.

use vstd::prelude::*;
use vstd::string::*;
use crate::text::same_str;

verus! {

/// What a batch carries.
#[derive(Clone, Copy, Debug, PartialEq, Eq, Structural)]
pub enum BatchType {
    TxsTimeseries,
    PricesTimeseries,
}

impl BatchType {
    /// The stored name of the batch type.
    pub open spec fn spec_name(self) -> Seq<char> {
        match self {
            BatchType::TxsTimeseries => "TXS_TIMESERIES"@,
            BatchType::PricesTimeseries => "PRICES_TIMESERIES"@,
        }
    }

    /// The name under which the value is stored.
    pub fn name(self) -> (s: &'static str)
        ensures
            s@ == self.spec_name(),
    {
        match self {
            BatchType::TxsTimeseries => "TXS_TIMESERIES",
            BatchType::PricesTimeseries => "PRICES_TIMESERIES",
        }
    }

    /// The batch type stored under a name, if there is one.
    pub open spec fn spec_from_name(name: Seq<char>) -> Option<BatchType> {
        if name == "TXS_TIMESERIES"@ {
            Some(BatchType::TxsTimeseries)
        } else if name == "PRICES_TIMESERIES"@ {
            Some(BatchType::PricesTimeseries)
        } else {
            None
        }
    }

    /// Reads a stored name back.
    pub fn from_name(name: &str) -> (r: Option<BatchType>)
        ensures
            r == BatchType::spec_from_name(name@),
    {
        if same_str(name, "TXS_TIMESERIES") {
            Some(BatchType::TxsTimeseries)
        } else if same_str(name, "PRICES_TIMESERIES") {
            Some(BatchType::PricesTimeseries)
        } else {
            None
        }
    }

    /// Reading back a stored name gives the batch type that was stored.
    pub proof fn lemma_name_round_trip(self)
        ensures
            BatchType::spec_from_name(self.spec_name()) == Some(self),
    {
        reveal_strlit("TXS_TIMESERIES");
        reveal_strlit("PRICES_TIMESERIES");
        assert("TXS_TIMESERIES"@.len() != "PRICES_TIMESERIES"@.len());
    }
}

/// Where a batch stands in its lifecycle.
#[derive(Clone, Copy, Debug, PartialEq, Eq, Structural)]
pub enum BatchStatus {
    Pending,
    Processing,
    Completed,
    Failed,
}

impl BatchStatus {
    /// The stored name of the status.
    pub open spec fn spec_name(self) -> Seq<char> {
        match self {
            BatchStatus::Pending => "PENDING"@,
            BatchStatus::Processing => "PROCESSING"@,
            BatchStatus::Completed => "COMPLETED"@,
            BatchStatus::Failed => "FAILED"@,
        }
    }

    /// The name under which the value is stored.
    pub fn name(self) -> (s: &'static str)
        ensures
            s@ == self.spec_name(),
    {
        match self {
            BatchStatus::Pending => "PENDING",
            BatchStatus::Processing => "PROCESSING",
            BatchStatus::Completed => "COMPLETED",
            BatchStatus::Failed => "FAILED",
        }
    }

    /// The status stored under a name, if there is one.
    pub open spec fn spec_from_name(name: Seq<char>) -> Option<BatchStatus> {
        if name == "PENDING"@ {
            Some(BatchStatus::Pending)
        } else if name == "PROCESSING"@ {
            Some(BatchStatus::Processing)
        } else if name == "COMPLETED"@ {
            Some(BatchStatus::Completed)
        } else if name == "FAILED"@ {
            Some(BatchStatus::Failed)
        } else {
            None
        }
    }

    /// Reads a stored name back.
    pub fn from_name(name: &str) -> (r: Option<BatchStatus>)
        ensures
            r == BatchStatus::spec_from_name(name@),
    {
        if same_str(name, "PENDING") {
            Some(BatchStatus::Pending)
        } else if same_str(name, "PROCESSING") {
            Some(BatchStatus::Processing)
        } else if same_str(name, "COMPLETED") {
            Some(BatchStatus::Completed)
        } else if same_str(name, "FAILED") {
            Some(BatchStatus::Failed)
        } else {
            None
        }
    }

    /// Reading back a stored name gives the status that was stored.
    pub proof fn lemma_name_round_trip(self)
        ensures
            BatchStatus::spec_from_name(self.spec_name()) == Some(self),
    {
        reveal_strlit("PENDING");
        reveal_strlit("PROCESSING");
        reveal_strlit("COMPLETED");
        reveal_strlit("FAILED");
        assert("PENDING"@.len() == 7);
        assert("PROCESSING"@.len() == 10);
        assert("COMPLETED"@.len() == 9);
        assert("FAILED"@.len() == 6);
    }

    /// Completed and failed batches are finished: no transition leaves them.
    pub open spec fn spec_is_terminal(self) -> bool {
        self == BatchStatus::Completed || self == BatchStatus::Failed
    }

    /// Whether the status is terminal.
    #[verifier::when_used_as_spec(spec_is_terminal)]
    pub fn is_terminal(self) -> (r: bool)
        ensures
            r == self.spec_is_terminal(),
    {
        match self {
            BatchStatus::Completed | BatchStatus::Failed => true,
            _ => false,
        }
    }

    /// How far along the lifecycle a status is.
    pub open spec fn rank(self) -> int {
        match self {
            BatchStatus::Pending => 0,
            BatchStatus::Processing => 1,
            BatchStatus::Completed => 2,
            BatchStatus::Failed => 2,
        }
    }

    /// The lifecycle: a pending batch starts processing or fails; a
    /// processing batch completes or fails; nothing else moves.
    pub open spec fn spec_can_become(self, next: BatchStatus) -> bool {
        match self {
            BatchStatus::Pending => next == BatchStatus::Processing || next
                == BatchStatus::Failed,
            BatchStatus::Processing => next == BatchStatus::Completed || next
                == BatchStatus::Failed,
            BatchStatus::Completed => false,
            BatchStatus::Failed => false,
        }
    }

    /// Whether the lifecycle lets a batch move from this status to `next`.
    #[verifier::when_used_as_spec(spec_can_become)]
    pub fn can_become(self, next: BatchStatus) -> (r: bool)
        ensures
            r == self.spec_can_become(next),
    {
        match self {
            BatchStatus::Pending => match next {
                BatchStatus::Processing | BatchStatus::Failed => true,
                _ => false,
            },
            BatchStatus::Processing => match next {
                BatchStatus::Completed | BatchStatus::Failed => true,
                _ => false,
            },
            BatchStatus::Completed => false,
            BatchStatus::Failed => false,
        }
    }

    /// Every transition moves strictly forward, and none leaves a terminal
    /// status.
    pub proof fn lemma_transitions_move_forward(self, next: BatchStatus)
        requires
            self.spec_can_become(next),
        ensures
            !self.spec_is_terminal(),
            self.rank() < next.rank(),
    {
    }
}

/// The kind of a raw transaction.
#[derive(Clone, Copy, Debug, PartialEq, Eq, Structural)]
pub enum TxType {
    /// A kind outside this enumeration.
    Unknown,
    Buy,
    Sell,
    Dividend,
    Interest,
    Deposit,
    Withdrawal,
}

impl TxType {
    /// The stored name of the transaction kind.
    pub open spec fn spec_name(self) -> Seq<char> {
        match self {
            TxType::Unknown => "UNKNOWN"@,
            TxType::Buy => "BUY"@,
            TxType::Sell => "SELL"@,
            TxType::Dividend => "DIVIDEND"@,
            TxType::Interest => "INTEREST"@,
            TxType::Deposit => "DEPOSIT"@,
            TxType::Withdrawal => "WITHDRAWAL"@,
        }
    }

    /// The name under which the value is stored.
    pub fn name(self) -> (s: &'static str)
        ensures
            s@ == self.spec_name(),
    {
        match self {
            TxType::Unknown => "UNKNOWN",
            TxType::Buy => "BUY",
            TxType::Sell => "SELL",
            TxType::Dividend => "DIVIDEND",
            TxType::Interest => "INTEREST",
            TxType::Deposit => "DEPOSIT",
            TxType::Withdrawal => "WITHDRAWAL",
        }
    }
}

/// The kind of an instrument.
#[derive(Clone, Copy, Debug, PartialEq, Eq, Structural)]
pub enum InstrumentType {
    /// A kind outside this enumeration.
    Unknown,
    Stk,
    Opt,
    Fut,
    Bond,
    Cash,
}

impl InstrumentType {
    /// The stored name of the instrument kind.
    pub open spec fn spec_name(self) -> Seq<char> {
        match self {
            InstrumentType::Unknown => "UNKNOWN"@,
            InstrumentType::Stk => "STK"@,
            InstrumentType::Opt => "OPT"@,
            InstrumentType::Fut => "FUT"@,
            InstrumentType::Bond => "BOND"@,
            InstrumentType::Cash => "CASH"@,
        }
    }

    /// The name under which the value is stored.
    pub fn name(self) -> (s: &'static str)
        ensures
            s@ == self.spec_name(),
    {
        match self {
            InstrumentType::Unknown => "UNKNOWN",
            InstrumentType::Stk => "STK",
            InstrumentType::Opt => "OPT",
            InstrumentType::Fut => "FUT",
            InstrumentType::Bond => "BOND",
            InstrumentType::Cash => "CASH",
        }
    }
}

/// Whether an option gives the right to sell or to buy.
#[derive(Clone, Copy, Debug, PartialEq, Eq, Structural)]
pub enum PutCall {
    /// A value outside this enumeration.
    Unknown,
    Put,
    Call,
}

impl PutCall {
    /// The stored name of the option side.
    pub open spec fn spec_name(self) -> Seq<char> {
        match self {
            PutCall::Unknown => "UNKNOWN"@,
            PutCall::Put => "PUT"@,
            PutCall::Call => "CALL"@,
        }
    }

    /// The name under which the value is stored.
    pub fn name(self) -> (s: &'static str)
        ensures
            s@ == self.spec_name(),
    {
        match self {
            PutCall::Unknown => "UNKNOWN",
            PutCall::Put => "PUT",
            PutCall::Call => "CALL",
        }
    }
}

/// When an option may be exercised.
#[derive(Clone, Copy, Debug, PartialEq, Eq, Structural)]
pub enum OptionStyle {
    /// A value outside this enumeration.
    Unknown,
    American,
    European,
}

impl OptionStyle {
    /// The stored name of the exercise style.
    pub open spec fn spec_name(self) -> Seq<char> {
        match self {
            OptionStyle::Unknown => "UNKNOWN"@,
            OptionStyle::American => "AMERICAN"@,
            OptionStyle::European => "EUROPEAN"@,
        }
    }

    /// The name under which the value is stored.
    pub fn name(self) -> (s: &'static str)
        ensures
            s@ == self.spec_name(),
    {
        match self {
            OptionStyle::Unknown => "UNKNOWN",
            OptionStyle::American => "AMERICAN",
            OptionStyle::European => "EUROPEAN",
        }
    }
}

} // verus!
