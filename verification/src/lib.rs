//! Order records for commissioned art: auction slots, commissions and
//! requests, each with the name and the text of the file that stores it.

pub mod commission;
pub mod error;
pub mod json;
pub mod naming;
pub mod record;
pub mod request;
pub mod storage;
pub mod timestamp;
pub mod ych;

pub use crate::commission::Commission;
pub use crate::error::RecordError;
pub use crate::record::{persist, render, Record};
pub use crate::request::Request;
pub use crate::storage::{after_open, after_write, NewFile, Opened, Stored, Written};
pub use crate::timestamp::Timestamp;
pub use crate::ych::YCH;
