//! Verified core of the Voxply platform: hex and wire encodings, keypair
//! identities, and the decision logic of the hub server.

pub mod alliances;
pub mod auth;
pub mod channels;
pub mod clock;
pub mod crypto;
pub mod dms;
pub mod friends;
pub mod games;
pub mod hexcodec;
pub mod hub;
pub mod identity;
pub mod keypair;
pub mod master;
pub mod messages;
pub mod outbox;
pub mod pairing;
pub mod roles;
pub mod schema;
pub mod subkey;
pub mod text;
pub mod voice;
pub mod wire;
pub mod wire_laws;
pub mod ws;
