//! Building and signing whole transactions.

pub mod body;
pub mod builder;
pub mod key;
pub mod laws;
pub mod model;
pub mod signee;

pub use body::{TransactionBody, TransactionBodyView};
pub use builder::TransactionBuilder;
pub use key::{Key, KeyType};
pub use model::TransactionBuilderView;
pub use signee::{Signee, Signees};
