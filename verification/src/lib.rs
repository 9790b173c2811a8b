//! KUVPN core library: the decisions behind logging in to the Koç University
//! VPN gateway, watching the OpenConnect tunnel and keeping connection history,
//! each with a contract checked by Verus.

pub mod text;
pub mod calendar;
pub mod diagnostics;
pub mod history;
pub mod utils;
pub mod error;
pub mod session;
pub mod openconnect;
pub mod dsid;
pub mod theme;
pub mod dsid_cache;
pub mod gui;
pub mod cli;
