use vstd::prelude::*;

pub mod primitives;
pub mod request;
pub mod send_transaction;
pub mod wallets;

pub use primitives::{Address, Wei};
pub use request::{NameOrAddress, TransactionRequest};
pub use send_transaction::{
    DialogMsg, Error, FinishStep, Network, RawParams, RequestParams, ReviewEvent, ReviewStep,
    SendTransaction, SendTransactionBuilder, SignerStep, SimulationRequest, UpdatePatch,
};
pub use wallets::{Account, Wallet, WalletDirectory, WalletType};

verus! {

} // verus!
