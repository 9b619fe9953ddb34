//! A real-time chat relay: sessions register with a coordinator, join rooms,
//! and exchange text, typing, read-receipt, join/leave and system events with
//! the other members of a room or with one direct peer.
//!
//! The state of the relay is the session registry and the room membership
//! table, both owned by one [`connection_manager::RoomConnectionManager`].
//! Every change is a method on that value, so whoever holds it mutably is the
//! only writer and no two changes interleave. [`relay`] describes the state
//! and every command as mathematics, [`laws`] proves what holds of them, and
//! the executable types state their effects over that description.
//!
//! [`channel`] is the bounded queue that leads to one connection,
//! [`registry`] the sessions, [`directory`] the names of the rooms,
//! [`broadcast_service`] and [`ws_server`] the commands, and [`ws_session`]
//! what one connection asks of the server.
//! Around the relay stand what a request carries ([`request`]), the
//! settings ([`config`]), and users, rooms and tokens ([`user`], [`room`],
//! [`auth`], [`jwt`]).

pub mod auth;
pub mod broadcast_service;
pub mod channel;
pub mod clock;
pub mod config;
pub mod connection_manager;
pub mod directory;
pub mod ids;
pub mod jwt;
pub mod laws;
pub mod message;
pub mod protocol;
pub mod registry;
pub mod relay;
pub mod request;
pub mod response;
pub mod room;
pub mod user;
pub mod ws_server;
pub mod ws_session;
