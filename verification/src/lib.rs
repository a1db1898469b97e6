//! Helpers that assemble, serialise and sign Activeledger transactions.
//!
//! A transaction is an envelope around a packet. The packet, the `$tx`
//! object, names a contract and its namespace and carries up to three
//! sections of data: input, output and read-only. The envelope adds the
//! signatures over the packet, by stream id, and two optional flags.
//!
//! [`PacketBuilder`] turns a [`PacketValue`], or JSON taken as it is, into
//! the [`PacketData`] of one section. [`TransactionBuilder`] collects the
//! fields, builds the packet, has the [`Signees`] sign its text and keeps
//! the finished envelope, to which further signatures can be added.
//!
//! JSON values are those of `serde_json` and keys are those of
//! `activeledger`. What is claimed of these two crates is stated in
//! [`json`] and in [`transaction_builder::key`]; everything else is proved.

pub mod error;
pub mod json;
pub mod packet_builder;
pub mod transaction_builder;

pub use error::{TxBuilderError, TxBuilderErrorHandler, TxBuilderResult};
pub use json::JsonModel;
pub use packet_builder::{PacketBuilder, PacketData, PacketValue};
pub use transaction_builder::{
    Key, KeyType, Signee, Signees, TransactionBody, TransactionBuilder,
};
