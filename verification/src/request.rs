//! The typed requests that the remote client is asked to perform, and the
//! builder that shapes marshalled arguments into them.

use vstd::prelude::*;
use crate::catalog::Operation;
use crate::marshal::{fits, value_fits};
use crate::value::NativeValue;

verus! {

/// The operating system that every new server is created with.
pub const FIXED_OS_ID: &'static str = "164";

/// The options of a server creation. The two identifiers are mandatory; an
/// optional field that is `None` is left out of the outbound call.
#[derive(Clone, Debug, PartialEq, Eq)]
pub struct ServerOptions {
    pub dc_id: String,
    pub vps_plan_id: String,
    pub os_id: &'static str,
    pub snapshot_id: Option<String>,
    pub hostname: Option<String>,
    pub label: Option<String>,
    pub tag: Option<String>,
    pub enable_private_network: Option<bool>,
}

/// One request to the remote client. Identifiers are opaque texts and are
/// forwarded as given, an empty one too.
#[derive(Clone, Debug, PartialEq, Eq)]
pub enum Request {
    ListServers { filter: Option<String> },
    CreateServer { options: ServerOptions },
    DestroyServer { server_id: String },
    SetLabel { server_id: String, label: String },
    RebootServer { server_id: String },
    StartServer { server_id: String },
    UpgradePlan { server_id: String, plan_id: String },
    ListUpgradeOptions { server_id: String },
    ListOperatingSystems,
    ListSnapshots,
    ListRegions,
    ListPlans,
}

/// The text that a native value holds, if it holds one.
pub open spec fn text_in(value: NativeValue) -> Option<String> {
    match value {
        NativeValue::Text(s) => Some(s),
        _ => None,
    }
}

/// The request that `op` makes of its marshalled arguments.
pub open spec fn spec_build(op: Operation, values: Seq<NativeValue>) -> Request {
    match op {
        Operation::ListServers => Request::ListServers { filter: text_in(values[0]) },
        Operation::CreateServer => Request::CreateServer {
            options: ServerOptions {
                dc_id: text_in(values[0])->0,
                vps_plan_id: text_in(values[1])->0,
                os_id: FIXED_OS_ID,
                snapshot_id: text_in(values[2]),
                hostname: text_in(values[3]),
                label: text_in(values[4]),
                tag: text_in(values[5]),
                enable_private_network: Some(true),
            },
        },
        Operation::DestroyServer => Request::DestroyServer { server_id: text_in(values[0])->0 },
        Operation::SetLabel => Request::SetLabel {
            server_id: text_in(values[0])->0,
            label: text_in(values[1])->0,
        },
        Operation::RebootServer => Request::RebootServer { server_id: text_in(values[0])->0 },
        Operation::StartServer => Request::StartServer { server_id: text_in(values[0])->0 },
        Operation::UpgradePlan => Request::UpgradePlan {
            server_id: text_in(values[0])->0,
            plan_id: text_in(values[1])->0,
        },
        Operation::ListUpgradeOptions => Request::ListUpgradeOptions {
            server_id: text_in(values[0])->0,
        },
        Operation::ListOperatingSystems => Request::ListOperatingSystems,
        Operation::ListSnapshots => Request::ListSnapshots,
        Operation::ListRegions => Request::ListRegions,
        Operation::ListPlans => Request::ListPlans,
    }
}

/// The text in slot `i`, if a text is there.
fn text_at(values: &Vec<NativeValue>, i: usize) -> (r: Option<String>)
    requires
        i < values@.len(),
    ensures
        r == text_in(values@[i as int]),
{
    match &values[i] {
        NativeValue::Text(s) => Some(s.clone()),
        _ => None,
    }
}

/// The options of a server creation: the caller chooses the data centre, the
/// plan, the snapshot, the host name, the label and the tag; the operating
/// system is fixed and private networking is always on.
pub fn server_options(values: &Vec<NativeValue>) -> (r: ServerOptions)
    requires
        fits(values@, Operation::CreateServer.spec_signature()),
    ensures
        spec_build(Operation::CreateServer, values@) == (Request::CreateServer { options: r }),
{
    assert(forall|i: int| 0 <= i < 6 ==> value_fits(#[trigger] values@[i], Operation::CreateServer.spec_signature()[i]));
    ServerOptions {
        dc_id: text_at(values, 0).unwrap(),
        vps_plan_id: text_at(values, 1).unwrap(),
        os_id: FIXED_OS_ID,
        snapshot_id: text_at(values, 2),
        hostname: text_at(values, 3),
        label: text_at(values, 4),
        tag: text_at(values, 5),
        enable_private_network: Some(true),
    }
}

/// Builds the request of `op` from its marshalled arguments. Nothing is
/// validated here beyond what marshalling established.
pub fn build_request(op: Operation, values: &Vec<NativeValue>) -> (r: Request)
    requires
        fits(values@, op.spec_signature()),
    ensures
        r == spec_build(op, values@),
{
    assert(forall|i: int| 0 <= i < values@.len() ==> value_fits(#[trigger] values@[i], op.spec_signature()[i]));
    match op {
        Operation::ListServers => Request::ListServers { filter: text_at(values, 0) },
        Operation::CreateServer => Request::CreateServer { options: server_options(values) },
        Operation::DestroyServer => Request::DestroyServer { server_id: text_at(values, 0).unwrap() },
        Operation::SetLabel => Request::SetLabel {
            server_id: text_at(values, 0).unwrap(),
            label: text_at(values, 1).unwrap(),
        },
        Operation::RebootServer => Request::RebootServer { server_id: text_at(values, 0).unwrap() },
        Operation::StartServer => Request::StartServer { server_id: text_at(values, 0).unwrap() },
        Operation::UpgradePlan => Request::UpgradePlan {
            server_id: text_at(values, 0).unwrap(),
            plan_id: text_at(values, 1).unwrap(),
        },
        Operation::ListUpgradeOptions => Request::ListUpgradeOptions {
            server_id: text_at(values, 0).unwrap(),
        },
        Operation::ListOperatingSystems => Request::ListOperatingSystems,
        Operation::ListSnapshots => Request::ListSnapshots,
        Operation::ListRegions => Request::ListRegions,
        Operation::ListPlans => Request::ListPlans,
    }
}

} // verus!
