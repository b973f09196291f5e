use vstd::prelude::*;

pub mod auth;
pub mod dao;
pub mod db_pool;
pub mod frequency;
pub mod maidenhead_locator;
pub mod pg_tls_connection_manager;
pub mod repeater_service;
pub mod service;
pub mod test_data;
pub mod text;
pub mod web;

verus! {

/// The greeting the service answers its health probe with.
pub fn hello() -> (s: &'static str)
    ensures
        s@ == "hello world"@,
{
    "hello world"
}

} // verus!
