use vstd::prelude::*;

pub mod text;
pub mod models;
pub mod error;
pub mod validate;
pub mod config;
pub mod profiles;
pub mod html;
pub mod json;
pub mod client;
pub mod debug;
pub mod cli;

verus! {

} // verus!
