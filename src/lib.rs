//! A read-only gateway in front of a ledger's RPC endpoint: it validates
//! account addresses, and turns the ledger's balance and signature-history
//! answers, or its failures, into HTTP replies.
pub mod address;
pub mod handlers;
pub mod responses;
pub mod util;
pub mod vehicle;

pub use address::{parse_address, Address, ValidationError};
pub use handlers::{
    balance_reply, begin_request, get_balance, get_tx_history, to_tx_signatures, tx_history_reply,
    Step,
};
pub use responses::{BalanceResponse, Body, Reply, Status, TxSignature};
pub use util::{decimal_string, group_by_values, longest, Summary, User};
pub use vehicle::{sample_vehicle, vehicle_get, vehicle_post, with_id, Vehicle};
