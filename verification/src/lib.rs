//! Verified core logic of the Khronos template runtime.
use vstd::prelude::*;

pub mod text;
pub mod keyed;
pub mod stings;
pub mod validators;
pub mod httpserver;
pub mod lifecycle;
pub mod discord;
pub mod httpclient;
pub mod datamgmt;
pub mod caps;
pub mod datetime;
pub mod timedelta;
pub mod pages;
pub mod channel;
pub mod wasm;
pub mod typesext;
pub mod lockdowns;
pub mod promise;
pub mod kv;

verus! {

} // verus!
