//! Looking up event outcomes in a columnar store: the rules that turn a
//! request into query text and returned rows into printed lines.

pub mod error;
pub mod ident;
pub mod outcome;
pub mod predicate;
pub mod record;
pub mod request;
pub mod resolver;
pub mod session;
pub mod text;
pub mod time;
