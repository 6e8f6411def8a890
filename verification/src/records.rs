//! The record types that flow through the core.
//!
//! A snapshot is an ordered collection of `User` records produced wholesale by
//! one successful fetch; a batch is an ordered collection of `Post` records
//! treated as one indivisible unit on the channel.  The core treats both as
//! opaque payloads: only the few fields that its reports read are modelled.

use vstd::prelude::*;

verus! {

/// One record of the cached resource.
#[derive(Debug, Clone, PartialEq, Eq)]
pub struct User {
    pub id: i32,
    pub name: String,
}

/// One record of the streamed resource.
#[derive(Debug, Clone, PartialEq, Eq)]
pub struct Post {
    pub user_id: i32,
    pub id: i32,
    pub title: String,
    pub body: String,
}

} // verus!
