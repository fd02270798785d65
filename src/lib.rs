//! Orchestration core of a small telemetry display: which section is shown,
//! when remote data is fetched again, how a button press is debounced, and
//! which draw commands a render tick hands to the screen.

pub mod section;
pub mod text;
pub mod qr;
pub mod display;
pub mod snapshot;
pub mod retry;
pub mod button;
pub mod render;
pub mod poller;

use vstd::prelude::*;

verus! {

/// Build-time settings of the device: network credentials, the RPC endpoint
/// and the wallet whose balance and address are shown.
pub struct Config {
    pub wifi_ssid: String,
    pub wifi_psk: String,
    pub sol_rpc: String,
    pub wallet_address: String,
}

} // verus!
