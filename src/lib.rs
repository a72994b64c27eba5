//! Optional and fallible values with explicit, intent-revealing method names,
//! each in two forms: a native enum whose layout the compiler may compress, and
//! a stable record (tag plus payload slot) whose validity is governed by its tag.
pub mod betteroption;
pub mod betterresult;
pub mod prelude;
