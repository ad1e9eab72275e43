//! The operations of the bridge: credential, arguments, request, one remote
//! call, translated outcome.

use vstd::prelude::*;
use crate::catalog::Operation;
use crate::error::BridgeError;
use crate::marshal::{extract, lemma_marshalled_fits, marshalled};
use crate::request::{Request, build_request, spec_build};
use crate::value::DynValue;

verus! {

/// All that the remote client needs for one call: the credential it is made
/// with and the request it is to perform.
#[derive(Clone, Debug, PartialEq, Eq)]
pub struct RemoteCall {
    pub credential: String,
    pub request: Request,
}

/// Whether the configuration value holds a credential: a text, whatever it
/// says.
pub open spec fn has_credential(config: Option<DynValue>) -> bool {
    config is Some && config->0 is Text
}

/// The credential that the configuration value stands for: it must be there
/// and be a text. The text itself is not examined.
pub open spec fn spec_resolve(config: Option<DynValue>) -> Result<String, BridgeError> {
    match config {
        Some(DynValue::Text(key)) => Ok(key),
        _ => Err(BridgeError::MissingCredential),
    }
}

/// The call that `op` prepares. The credential is resolved first, so a
/// missing credential is reported whatever the arguments are; then the
/// arguments are marshalled; then the request is built.
pub open spec fn spec_prepare(op: Operation, config: Option<DynValue>, args: Seq<DynValue>) -> Result<RemoteCall, BridgeError> {
    match spec_resolve(config) {
        Err(e) => Err(e),
        Ok(credential) => match marshalled(args, op.spec_signature()) {
            Err(e) => Err(e),
            Ok(values) => Ok(RemoteCall { credential, request: spec_build(op, values) }),
        },
    }
}

/// What the caller is told of the remote client's outcome: a payload as it
/// came, or one generic failure that carries the client's diagnostic.
pub open spec fn spec_translate<P>(outcome: Result<P, String>) -> Result<P, BridgeError> {
    match outcome {
        Ok(payload) => Ok(payload),
        Err(diagnostic) => Err(BridgeError::Remote { diagnostic }),
    }
}

/// The configuration value behind an optional reference.
pub open spec fn held(config: Option<&DynValue>) -> Option<DynValue> {
    match config {
        Some(v) => Some(*v),
        None => None,
    }
}

/// Reads the credential from the configuration value.
pub fn resolve(config: Option<&DynValue>) -> (r: Result<String, BridgeError>)
    ensures
        r == spec_resolve(held(config)),
{
    match config {
        Some(DynValue::Text(key)) => Ok(key.clone()),
        _ => Err(BridgeError::MissingCredential),
    }
}

/// Prepares the one call that `op` makes, or says why none is made.
pub fn prepare(op: Operation, config: Option<&DynValue>, args: &Vec<DynValue>) -> (r: Result<RemoteCall, BridgeError>)
    ensures
        r == spec_prepare(op, held(config), args@),
{
    let credential = match resolve(config) {
        Ok(key) => key,
        Err(e) => {
            return Err(e);
        },
    };
    let sig = op.signature();
    match extract(args, &sig) {
        Err(e) => Err(e),
        Ok(values) => {
            proof {
                lemma_marshalled_fits(args@, sig@);
            }
            Ok(RemoteCall { credential, request: build_request(op, &values) })
        },
    }
}

/// Translates the remote client's outcome for the caller. A payload is handed
/// on as it is; every failure becomes the one generic error, with the
/// diagnostic unchanged.
pub fn translate<P>(outcome: Result<P, String>) -> (r: Result<P, BridgeError>)
    ensures
        r == spec_translate(outcome),
{
    match outcome {
        Ok(payload) => Ok(payload),
        Err(diagnostic) => Err(BridgeError::Remote { diagnostic }),
    }
}

/// What one run of `op` may return, when `invoke` is the remote client: the
/// error of the preparation, and then `invoke` has no part in it; or the
/// translation of an outcome that `invoke` gives for the prepared call.
pub open spec fn run_result<P, F: FnOnce(RemoteCall) -> Result<P, String>>(
    op: Operation,
    config: Option<DynValue>,
    args: Seq<DynValue>,
    invoke: F,
    r: Result<P, BridgeError>,
) -> bool {
    match spec_prepare(op, config, args) {
        Err(e) => r == Err::<P, BridgeError>(e),
        Ok(call) => exists|outcome: Result<P, String>|
            invoke.ensures((call,), outcome) && r == spec_translate(outcome),
    }
}

/// What `invoke` must accept: the call that is prepared, if one is.
pub open spec fn run_ready<P, F: FnOnce(RemoteCall) -> Result<P, String>>(
    op: Operation,
    config: Option<DynValue>,
    args: Seq<DynValue>,
    invoke: F,
) -> bool {
    spec_prepare(op, config, args) matches Ok(call) ==> invoke.requires((call,))
}

/// Runs one operation: prepares the call, hands it to `invoke` exactly once
/// if the preparation succeeded and not at all otherwise, and translates what
/// `invoke` returns.
pub fn perform<P, F: FnOnce(RemoteCall) -> Result<P, String>>(
    op: Operation,
    config: Option<&DynValue>,
    args: &Vec<DynValue>,
    invoke: F,
) -> (r: Result<P, BridgeError>)
    requires
        run_ready(op, held(config), args@, invoke),
    ensures
        run_result(op, held(config), args@, invoke, r),
{
    match prepare(op, config, args) {
        Err(e) => Err(e),
        Ok(call) => {
            let outcome = invoke(call);
            translate(outcome)
        },
    }
}

} // verus!
