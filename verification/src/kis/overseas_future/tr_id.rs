//! Identifiers of the operations on overseas futures and options.

use vstd::prelude::*;

verus! {

/// Identifier of the operation that buys to open a position.
pub const NEW_BUY: &'static str = "OTFM3001U";

/// Identifier of the operation that sells to open a position.
pub const NEW_SELL: &'static str = "OTFM3002U";

/// Identifier of the operation that buys to close a position.
pub const CLOSE_BUY: &'static str = "OTFM3003U";

/// Identifier of the operation that sells to close a position.
pub const CLOSE_SELL: &'static str = "OTFM3004U";

/// Identifier of the operation that modifies or cancels an order.
pub const MODIFY_CANCEL: &'static str = "OTFM3005U";

/// Identifier of the inquiry into open positions.
pub const INQUIRE_UNSETTLED: &'static str = "OTFM3304R";

/// Identifier of the inquiry into the deposit.
pub const INQUIRE_DEPOSIT: &'static str = "OTFM3306R";

/// Identifier of the inquiry into executions.
pub const INQUIRE_EXECUTION: &'static str = "OTFM3307R";

} // verus!
