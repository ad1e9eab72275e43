//! The twelve operations under the names that callers know them by. Each
//! takes the configuration value that should hold the credential, the
//! caller's positional arguments, and the invoker that makes the remote call.

use vstd::prelude::*;
use crate::bridge::{RemoteCall, held, perform, run_ready, run_result};
use crate::catalog::Operation;
use crate::error::BridgeError;
use crate::value::DynValue;

verus! {

/// Lists the servers: all of them, or those that the optional filter at
/// position 0 selects. The filter is forwarded as given.
pub fn servers<P, F: FnOnce(RemoteCall) -> Result<P, String>>(
    config: Option<&DynValue>,
    args: &Vec<DynValue>,
    invoke: F,
) -> (r: Result<P, BridgeError>)
    requires
        run_ready(Operation::ListServers, held(config), args@, invoke),
    ensures
        run_result(Operation::ListServers, held(config), args@, invoke, r),
{
    perform(Operation::ListServers, config, args, invoke)
}

/// Creates a server from six texts: data-centre id, plan id, snapshot id,
/// host name, label and tag, in this order.
pub fn create_server<P, F: FnOnce(RemoteCall) -> Result<P, String>>(
    config: Option<&DynValue>,
    args: &Vec<DynValue>,
    invoke: F,
) -> (r: Result<P, BridgeError>)
    requires
        run_ready(Operation::CreateServer, held(config), args@, invoke),
    ensures
        run_result(Operation::CreateServer, held(config), args@, invoke, r),
{
    perform(Operation::CreateServer, config, args, invoke)
}

/// Destroys the server whose id is at position 0.
pub fn destroy_server<P, F: FnOnce(RemoteCall) -> Result<P, String>>(
    config: Option<&DynValue>,
    args: &Vec<DynValue>,
    invoke: F,
) -> (r: Result<P, BridgeError>)
    requires
        run_ready(Operation::DestroyServer, held(config), args@, invoke),
    ensures
        run_result(Operation::DestroyServer, held(config), args@, invoke, r),
{
    perform(Operation::DestroyServer, config, args, invoke)
}

/// Gives the server whose id is at position 0 the label at position 1.
pub fn label_set<P, F: FnOnce(RemoteCall) -> Result<P, String>>(
    config: Option<&DynValue>,
    args: &Vec<DynValue>,
    invoke: F,
) -> (r: Result<P, BridgeError>)
    requires
        run_ready(Operation::SetLabel, held(config), args@, invoke),
    ensures
        run_result(Operation::SetLabel, held(config), args@, invoke, r),
{
    perform(Operation::SetLabel, config, args, invoke)
}

/// Reboots the server whose id is at position 0.
pub fn reboot_server<P, F: FnOnce(RemoteCall) -> Result<P, String>>(
    config: Option<&DynValue>,
    args: &Vec<DynValue>,
    invoke: F,
) -> (r: Result<P, BridgeError>)
    requires
        run_ready(Operation::RebootServer, held(config), args@, invoke),
    ensures
        run_result(Operation::RebootServer, held(config), args@, invoke, r),
{
    perform(Operation::RebootServer, config, args, invoke)
}

/// Starts the server whose id is at position 0.
pub fn start_server<P, F: FnOnce(RemoteCall) -> Result<P, String>>(
    config: Option<&DynValue>,
    args: &Vec<DynValue>,
    invoke: F,
) -> (r: Result<P, BridgeError>)
    requires
        run_ready(Operation::StartServer, held(config), args@, invoke),
    ensures
        run_result(Operation::StartServer, held(config), args@, invoke, r),
{
    perform(Operation::StartServer, config, args, invoke)
}

/// Moves the server whose id is at position 0 to the plan at position 1.
pub fn upgrade_server_plan<P, F: FnOnce(RemoteCall) -> Result<P, String>>(
    config: Option<&DynValue>,
    args: &Vec<DynValue>,
    invoke: F,
) -> (r: Result<P, BridgeError>)
    requires
        run_ready(Operation::UpgradePlan, held(config), args@, invoke),
    ensures
        run_result(Operation::UpgradePlan, held(config), args@, invoke, r),
{
    perform(Operation::UpgradePlan, config, args, invoke)
}

/// Lists the plans that the server whose id is at position 0 can move to.
pub fn upgrade_server_plan_list<P, F: FnOnce(RemoteCall) -> Result<P, String>>(
    config: Option<&DynValue>,
    args: &Vec<DynValue>,
    invoke: F,
) -> (r: Result<P, BridgeError>)
    requires
        run_ready(Operation::ListUpgradeOptions, held(config), args@, invoke),
    ensures
        run_result(Operation::ListUpgradeOptions, held(config), args@, invoke, r),
{
    perform(Operation::ListUpgradeOptions, config, args, invoke)
}

/// Lists the operating systems on offer. It takes no argument.
pub fn oses<P, F: FnOnce(RemoteCall) -> Result<P, String>>(
    config: Option<&DynValue>,
    args: &Vec<DynValue>,
    invoke: F,
) -> (r: Result<P, BridgeError>)
    requires
        run_ready(Operation::ListOperatingSystems, held(config), args@, invoke),
    ensures
        run_result(Operation::ListOperatingSystems, held(config), args@, invoke, r),
{
    perform(Operation::ListOperatingSystems, config, args, invoke)
}

/// Lists the snapshots of the account. It takes no argument.
pub fn snapshots<P, F: FnOnce(RemoteCall) -> Result<P, String>>(
    config: Option<&DynValue>,
    args: &Vec<DynValue>,
    invoke: F,
) -> (r: Result<P, BridgeError>)
    requires
        run_ready(Operation::ListSnapshots, held(config), args@, invoke),
    ensures
        run_result(Operation::ListSnapshots, held(config), args@, invoke, r),
{
    perform(Operation::ListSnapshots, config, args, invoke)
}

/// Lists the regions on offer. It takes no argument.
pub fn regions<P, F: FnOnce(RemoteCall) -> Result<P, String>>(
    config: Option<&DynValue>,
    args: &Vec<DynValue>,
    invoke: F,
) -> (r: Result<P, BridgeError>)
    requires
        run_ready(Operation::ListRegions, held(config), args@, invoke),
    ensures
        run_result(Operation::ListRegions, held(config), args@, invoke, r),
{
    perform(Operation::ListRegions, config, args, invoke)
}

/// Lists the plans on offer. It takes no argument.
pub fn plans<P, F: FnOnce(RemoteCall) -> Result<P, String>>(
    config: Option<&DynValue>,
    args: &Vec<DynValue>,
    invoke: F,
) -> (r: Result<P, BridgeError>)
    requires
        run_ready(Operation::ListPlans, held(config), args@, invoke),
    ensures
        run_result(Operation::ListPlans, held(config), args@, invoke, r),
{
    perform(Operation::ListPlans, config, args, invoke)
}

} // verus!
