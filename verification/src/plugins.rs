//! Probe contract and result model.
//!
//! A `Plugin` encapsulates one scanning technique behind a uniform interface;
//! the orchestrator is polymorphic over anything implementing it. A probe
//! produces `ScanResult` records, each attributed to the scanned target and
//! to the probe's own tag; the contract of `scan` makes that attribution a
//! verified invariant.

pub mod ping;
pub mod tcp_connect;
pub mod tcp_syn;
pub mod udp;

use vstd::prelude::*;

verus! {

/// One observation produced by a single probe invocation against a single
/// target; immutable once created.
#[derive(Clone, Debug)]
pub struct ScanResult {
    /// Target that was scanned.
    pub target: String,
    /// Type of scan performed; equals the producing probe's tag.
    pub scan_type: String,
    /// Status or result of the scan.
    pub status: String,
    /// Additional details.
    pub details: Option<String>,
}

/// A probe-level failure, carrying a human-readable message.
#[derive(Debug)]
pub struct ScanError {
    /// The error message.
    pub message: String,
}

impl View for ScanError {
    type V = Seq<char>;

    open spec fn view(&self) -> Seq<char> {
        self.message@
    }
}

/// Every record in `rs` names the given target and carries the given tag.
pub open spec fn results_attributed(rs: Seq<ScanResult>, target: Seq<char>, tag: Seq<char>) -> bool {
    forall|i: int|
        0 <= i < rs.len() ==> (#[trigger] rs[i]).target@ == target && rs[i].scan_type@ == tag
}

/// The contract every scanning technique must satisfy.
///
/// `tag` is the stable machine-readable identity of the technique; `scan`
/// may produce zero or more records, or fail, and every record it produces
/// is attributed to the scanned target and to this probe's tag.
pub trait Plugin: Sized {
    /// The stable machine-readable tag of this probe.
    spec fn tag(&self) -> Seq<char>;

    /// Human-readable probe name, used for registration logging only, never
    /// for matching.
    fn name(&self) -> String;

    /// The tag used to match configured scan types; non-empty and constant
    /// for the lifetime of the instance.
    fn scan_type(&self) -> (r: String)
        ensures
            r@ == self.tag(),
            self.tag().len() > 0,
    ;

    /// Performs the scan against one target. May produce zero results or
    /// several; every produced record names that target and this probe's
    /// tag.
    fn scan(&self, target: &str) -> (r: Result<Vec<ScanResult>, ScanError>)
        ensures
            r matches Ok(rs) ==> results_attributed(rs@, target@, self.tag()),
    ;
}

/// One registrable probe of this crate: the orchestrator is generic over any
/// `Plugin`, and this enum lets one registry mix the crate's techniques.
pub enum PluginKind {
    /// ICMP echo probe.
    Ping(ping::PingScanPlugin),
    /// Full TCP connection probe.
    TcpConnect(tcp_connect::TcpConnectScanPlugin),
    /// TCP SYN probe.
    TcpSyn(tcp_syn::TcpSynScanPlugin),
    /// UDP datagram probe.
    Udp(udp::UdpScanPlugin),
}

impl Plugin for PluginKind {
    open spec fn tag(&self) -> Seq<char> {
        match self {
            PluginKind::Ping(p) => p.tag(),
            PluginKind::TcpConnect(p) => p.tag(),
            PluginKind::TcpSyn(p) => p.tag(),
            PluginKind::Udp(p) => p.tag(),
        }
    }

    fn name(&self) -> String {
        match self {
            PluginKind::Ping(p) => p.name(),
            PluginKind::TcpConnect(p) => p.name(),
            PluginKind::TcpSyn(p) => p.name(),
            PluginKind::Udp(p) => p.name(),
        }
    }

    fn scan_type(&self) -> (r: String) {
        match self {
            PluginKind::Ping(p) => p.scan_type(),
            PluginKind::TcpConnect(p) => p.scan_type(),
            PluginKind::TcpSyn(p) => p.scan_type(),
            PluginKind::Udp(p) => p.scan_type(),
        }
    }

    fn scan(&self, target: &str) -> (r: Result<Vec<ScanResult>, ScanError>) {
        match self {
            PluginKind::Ping(p) => p.scan(target),
            PluginKind::TcpConnect(p) => p.scan(target),
            PluginKind::TcpSyn(p) => p.scan(target),
            PluginKind::Udp(p) => p.scan(target),
        }
    }
}

} // verus!
