//! Outbound federation delivery, and what goes with it.
//!
//! Every remote instance has a queue of its own: a worker that walks the log
//! of activities in the order of their ids, sends each activity that is for
//! the instance, and keeps a cursor that survives a crash. A destination that
//! fails is retried with growing delays and holds up nobody but itself.
//! Incoming activities, and those made here, pass one and the same two steps
//! before they change the local records: first they are verified, then
//! received, and receiving an activity twice is receiving it once.
//!
//! Nothing in this library waits, sleeps or talks to a database. A worker, a
//! task and a cache are told what happened and answer with what is to be
//! done; whoever drives them does it.

// The delivery engine.
pub mod backoff;
pub mod queue;
pub mod worker;
pub mod delivery_order;
pub mod targets;
pub mod supervisor;
pub mod task;

// The caches in front of the database.
pub mod cache;
pub mod flights;
pub mod lookups;
pub mod actor;
pub mod config;

// Activities and the records that they change.
pub mod local_state;
pub mod activity;
pub mod inbox;
pub mod idempotence;
pub mod lock_post;
pub mod note;

// Listings and their cursors.
pub mod enums;
pub mod pagination;
pub mod post_query;
pub mod community_query;

// People, tokens, the site and the jobs that keep the database tidy.
pub mod person;
pub mod tokens;
pub mod site;
pub mod maintenance;
pub mod nodeinfo;

mod key_seal;
mod seq_facts;
