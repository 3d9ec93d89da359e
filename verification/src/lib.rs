//! Vocoder service library: G.711 sample coding, the vocoder control state and the
//! decisions of the packet streaming endpoints.

pub mod g711;
pub mod messages;
pub mod vocoder;
pub mod packets;
