//! Ping scan probe: checks which hosts are up by sending ICMP echo requests.
//! The wire-level mechanics are not implemented yet; the probe reports one
//! placeholder record per target.

use crate::plugins::{Plugin, ScanResult, ScanError};
use vstd::prelude::*;

verus! {

/// Ping scan probe.
pub struct PingScanPlugin;

impl Plugin for PingScanPlugin {
    open spec fn tag(&self) -> Seq<char> {
        "ping"@
    }

    fn name(&self) -> (r: String)
        ensures
            r@ == "Ping Scanner"@,
    {
        "Ping Scanner".to_owned()
    }

    fn scan_type(&self) -> (r: String) {
        proof {
            reveal_strlit("ping");
        }
        "ping".to_owned()
    }

    fn scan(&self, target: &str) -> (r: Result<Vec<ScanResult>, ScanError>)
        ensures
            r is Ok,
            r matches Ok(rs) ==> {
                &&& rs@.len() == 1
                &&& rs@[0].target@ == target@
                &&& rs@[0].scan_type@ == self.tag()
                &&& rs@[0].status@ == "not_implemented"@
                &&& (rs@[0].details matches Some(d) && d@ == "Ping scan not yet implemented"@)
            },
    {
        let mut rs: Vec<ScanResult> = Vec::new();
        rs.push(
            ScanResult {
                target: target.to_owned(),
                scan_type: self.scan_type(),
                status: "not_implemented".to_owned(),
                details: Some("Ping scan not yet implemented".to_owned()),
            },
        );
        Ok(rs)
    }
}

} // verus!
