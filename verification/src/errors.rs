//! The failure taxonomy of the pipeline: one tag per stage, each carrying a
//! human-readable message.  The orchestrator never reclassifies an error, it
//! only forwards the first failing stage's tag outward unchanged.

use vstd::prelude::*;

verus! {

/// A stage-tagged failure.  Every fallible stage of the pipeline returns its
/// own variant; the variant identifies the stage that produced the failure.
#[derive(Debug)]
pub enum AppErrors {
    /// A value object (a monetary amount) was rejected by its validating
    /// factory.
    ModelCreationError(String),
    /// Price history or news could not be fetched or decoded.
    GetStockDataError(String),
    /// The latest close price needed to size a buy order was unavailable.
    ConvertMoneyToStockQuantityError(String),
    /// No open position was found for the ticker that should be liquidated.
    GetQuantityToSellEverythingError(String),
    /// The brokerage rejected the order submission.
    PlaceOrderError(String),
    /// The AI collaborator failed or returned no clear advice.
    GetOrderAdviceError(String),
    /// The current-investment snapshot could not be assembled.
    GetCurrentInvestmentError(String),
}

impl AppErrors {
    /// The message carried by the error, independent of its tag.
    pub open spec fn message_view(&self) -> Seq<char> {
        match self {
            AppErrors::ModelCreationError(m) => m@,
            AppErrors::GetStockDataError(m) => m@,
            AppErrors::ConvertMoneyToStockQuantityError(m) => m@,
            AppErrors::GetQuantityToSellEverythingError(m) => m@,
            AppErrors::PlaceOrderError(m) => m@,
            AppErrors::GetOrderAdviceError(m) => m@,
            AppErrors::GetCurrentInvestmentError(m) => m@,
        }
    }

    /// Read access to the carried message.
    pub fn message(&self) -> (m: &String)
        ensures
            m@ == self.message_view(),
    {
        match self {
            AppErrors::ModelCreationError(m) => m,
            AppErrors::GetStockDataError(m) => m,
            AppErrors::ConvertMoneyToStockQuantityError(m) => m,
            AppErrors::GetQuantityToSellEverythingError(m) => m,
            AppErrors::PlaceOrderError(m) => m,
            AppErrors::GetOrderAdviceError(m) => m,
            AppErrors::GetCurrentInvestmentError(m) => m,
        }
    }
}

} // verus!
