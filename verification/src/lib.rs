//! A verified codec for the PING control message of a binary, multiplexed
//! connection-framing protocol: it parses a raw frame into a typed PING
//! message or rejects it with a precise protocol violation, serializes a
//! typed message back into wire bytes, and classifies the opaque eight-byte
//! payload into the well-known semantic categories.

pub mod frame;
