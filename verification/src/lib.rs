//! Types and parsers for the u-blox binary message protocol: an
//! incremental deframer, the matching encoder, and typed message codecs.
#![allow(non_snake_case)]

pub mod framing;
pub mod messages;
