//! The three response records and the handlers that produce them.

use vstd::prelude::*;

use crate::json::{encode_field_object, field_object};

verus! {

/// The greeting text served at the root path.
pub open spec fn greeting_text() -> Seq<char> {
    "Hello from Rust!"@
}

/// The congratulation text served at `/congrats`.
pub open spec fn congrats_text() -> Seq<char> {
    "Wow! Well done Marion you just made your first Rust-Rocket API.👏"@
}

/// The liveness status served at `/health`.
pub open spec fn health_text() -> Seq<char> {
    "ok"@
}

/// A greeting: `{"message": ...}`.
pub struct Greeting {
    pub message: &'static str,
}

/// A congratulation: `{"message": ...}`.
pub struct Congrats {
    pub message: &'static str,
}

/// A liveness report: `{"status": ...}`.
pub struct Health {
    pub status: &'static str,
}

impl Greeting {
    /// The record as compact JSON text.
    pub fn to_json(&self) -> (r: Vec<u8>)
        ensures
            r@ == field_object("message"@, self.message@),
    {
        encode_field_object("message", self.message)
    }
}

impl Congrats {
    /// The record as compact JSON text.
    pub fn to_json(&self) -> (r: Vec<u8>)
        ensures
            r@ == field_object("message"@, self.message@),
    {
        encode_field_object("message", self.message)
    }
}

impl Health {
    /// The record as compact JSON text.
    pub fn to_json(&self) -> (r: Vec<u8>)
        ensures
            r@ == field_object("status"@, self.status@),
    {
        encode_field_object("status", self.status)
    }
}

/// Handler of `GET /`: the greeting.
pub fn index() -> (r: Greeting)
    ensures
        r.message@ == greeting_text(),
{
    Greeting { message: "Hello from Rust!" }
}

/// Handler of `GET /congrats`: the congratulation.
pub fn congrats() -> (r: Congrats)
    ensures
        r.message@ == congrats_text(),
{
    Congrats { message: "Wow! Well done Marion you just made your first Rust-Rocket API.👏" }
}

/// Handler of `GET /health`: the liveness report, always `ok`.
pub fn health() -> (r: Health)
    ensures
        r.status@ == health_text(),
{
    Health { status: "ok" }
}

} // verus!
