//! A small JSON web service: three fixed `GET` routes, each answering with a
//! constant one-field JSON record, and a not-found answer for everything else.
//!
//! The library holds the whole behaviour of the service as verified code: the
//! records, the JSON text they are sent as, the route table, and the dispatch
//! from a request's method and path to a response. Running an HTTP server
//! around it is left to the caller.

mod json;
mod records;
mod routes;

pub use json::{
    encode_field_object, escape_byte, escaped, field_object, hex_digit, push_escaped, quoted,
};
pub use records::{
    congrats, congrats_text, greeting_text, health, health_text, index, Congrats, Greeting, Health,
};
pub use routes::{
    endpoint_body, json_media_type, lemma_repeated_request_same_response, lemma_routes_answer_json,
    lemma_unmatched_not_found, response_for, rocket, route_for, Endpoint, Method, Response,
    ResponseView, Route, Router, STATUS_NOT_FOUND, STATUS_OK,
};
