//! Authoritative simulation core of a multiplayer game server.
//!
//! The library owns the live world state, advances it on a fixed tick in
//! ordered phases, resolves skill and inventory actions, and produces a
//! visibility-scoped stream of state-change notifications per client.

pub mod action;
pub mod chardata;
pub mod charselect;
pub mod entity;
pub mod gold;
pub mod inputs;
pub mod inventory;
pub mod inventory_ops;
pub mod item;
pub mod itemdata;
pub mod login;
pub mod messages;
pub mod monster;
pub mod objects;
pub mod pickup;
pub mod position;
pub mod protocol;
pub mod region;
pub mod schedule;
pub mod store;
pub mod sync;
pub mod time;
pub mod visibility;
pub mod world;
