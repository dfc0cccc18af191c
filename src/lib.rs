//! Range-attested ECDSA over secp256k1: the relation that a private signed
//! digest lies inside a public interval, with its witness and parameters.
#![allow(non_snake_case)]

pub mod circuit;
pub mod curve;
pub mod field;
pub mod params;
