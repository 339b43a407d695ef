//! Server-side implementation of an MMO network protocol: packet framing,
//! per-connection symmetric encryption, opcode-tagged IPC codecs for the
//! lobby, zone and internal control-plane sub-protocols, and the registry
//! state machine that coordinates per-connection tasks.
use vstd::prelude::*;

pub mod blowfish;
pub mod chara_make;
pub mod common;
pub mod config;
pub mod encryption;
pub mod feistel_init;
pub mod ipc;
pub mod ipc_custom;
pub mod ipc_lobby;
pub mod ipc_zone;
pub mod lobby;
pub mod login_reply;
pub mod parsing;
pub mod send_helpers;
pub mod server;
pub mod server_list;
pub mod service_login_reply;
pub mod wire;
pub mod world;

verus! {

/// Protocol version constant mixed into the session key material.
pub const GAME_VERSION: u16 = 1000;

/// Size of the read buffer used by connection loops.
pub const RECEIVE_BUFFER_SIZE: usize = 32000;

/// Turns a wire byte into a boolean: exactly the value 1 reads as true.
pub fn read_bool_from(x: u8) -> (r: bool)
    ensures
        r == (x == 1),
{
    x == 1
}

/// Turns a boolean into its wire byte: true is 1, false is 0.
pub fn write_bool_as(x: &bool) -> (r: u8)
    ensures
        r == (if *x { 1u8 } else { 0u8 }),
{
    if *x {
        1
    } else {
        0
    }
}

} // verus!
