pub use crate::betteroption::{BOption, IntoBOption};
pub use crate::betterresult::{BResult, IntoBResult};
