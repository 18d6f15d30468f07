//! Plain data carried between the command line, the two state
//! machines and the result sink.

use vstd::prelude::*;

verus! {

pub const DEFAULT_MIN_MTU: u32 = 1280;

pub const DEFAULT_MAX_MTU: u32 = 1500;

pub const DEFAULT_STEP: u32 = 20;

pub const DEFAULT_CONTROL_PORT: u16 = 9876;

pub const DEFAULT_IPERF_PORT: u16 = 5201;

/// One measurement row: both endpoints' MTUs together with the four
/// bandwidth figures of the two test directions.  The rate type is a
/// parameter because the verified logic never looks inside a rate; the
/// shell instantiates it with its floating-point readings.
#[derive(Clone, Debug, PartialEq)]
pub struct MtuTestResult<R> {
    pub server_mtu: u32,
    pub client_mtu: u32,
    pub upload_rcv_mbps: R,
    pub upload_send_mbps: R,
    pub download_rcv_mbps: R,
    pub download_send_mbps: R,
}

/// Parameters of a server (coordinator) run.
#[derive(Clone, Debug)]
pub struct TestParameters {
    pub interface: String,
    pub min_mtu: u32,
    pub max_mtu: u32,
    pub step: u32,
    pub control_port: u16,
    pub iperf_port: u16,
}

/// Parameters of a peer (responder) run.
#[derive(Clone, Debug)]
pub struct PeerParameters {
    pub interface: String,
    pub server_ip: String,
    pub control_port: u16,
    pub iperf_port: u16,
    pub min_mtu: u32,
    pub max_mtu: u32,
    pub step: u32,
    pub csv_file: String,
}

/// Parameters of a heatmap rendering run.
#[derive(Clone, Debug)]
pub struct HeatmapParameters {
    pub log_filepath: String,
    pub heatmap_filepath: String,
}

/// Errors of the heatmap pipeline, reported by the rendering shell.
#[derive(Clone, Debug)]
pub enum HeatmapError {
    IO(String),
    CSVParse(String),
    Drawing(String),
}

/// The parsed command line.
#[derive(Clone, Debug)]
pub struct Cli {
    pub command: Commands,
}

/// The three modes the tool can run in.
#[derive(Clone, Debug)]
pub enum Commands {
    /// Coordinate a sweep: listen for the peer and drive the outer
    /// MTU loop.
    Server {
        interface: String,
        min_mtu: u32,
        max_mtu: u32,
        step: u32,
        server_port: u16,
        iperf_port: u16,
    },
    /// Respond to a sweep: connect to the server and run the inner
    /// MTU loop for every announced value.
    Peer {
        interface: String,
        server_ip: String,
        server_port: u16,
        iperf_port: u16,
        min_mtu: u32,
        max_mtu: u32,
        step: u32,
        csv_file: String,
    },
    /// Render a heatmap from an existing result file.
    Heatmap { log_filepath: String, heatmap_filepath: String },
}

} // verus!
