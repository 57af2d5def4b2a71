//! LNURL-pay and LNURL-withdraw flows for a Lightning wallet serving a
//! mainnet and a testnet instance behind one HTTP surface.

pub mod clock;
pub mod config;
pub mod envelope;
pub mod network;
pub mod page;
pub mod pay;
pub mod qr;
pub mod text;
pub mod withdraw;
