//! What holds of every operation, whatever the arguments.

use vstd::prelude::*;
use crate::bridge::{RemoteCall, has_credential, run_result, spec_prepare, spec_resolve, spec_translate};
use crate::catalog::{Operation, Param};
use crate::error::BridgeError;
use crate::marshal::{
    all_faults, first_fault, lemma_faults_upto, lemma_skip_sound_slots, lemma_sound_everywhere, marshalled, slot_fault, slot_value,
};
use crate::request::spec_build;
use crate::value::{DynValue, conforms};

verus! {

/// Whether every parameter is served: a supplied argument is of the declared
/// type, and only optional parameters go without one.
pub open spec fn well_typed(args: Seq<DynValue>, sig: Seq<Param>) -> bool {
    forall|i: int|
        0 <= i < sig.len() ==> if i < args.len() {
            conforms(#[trigger] args[i], sig[i].kind)
        } else {
            !sig[i].required
        }
}

/// The first fault at or after `from` is a type mismatch, and lies at or
/// before any ill-typed argument `at`.
pub proof fn lemma_mismatch_comes_first(args: Seq<DynValue>, sig: Seq<Param>, from: int, at: int)
    requires
        0 <= from <= at < sig.len() <= usize::MAX,
        at < args.len(),
        !conforms(args[at], sig[at].kind),
    ensures
        first_fault(args, sig, from) matches Some(BridgeError::TypeMismatch { index, expected })
            && from <= index <= at && expected == sig[index as int].kind && !conforms(
            args[index as int],
            expected,
        ),
    decreases at - from,
{
    if slot_fault(args, sig, from) is None {
        lemma_mismatch_comes_first(args, sig, from + 1, at);
    }
}

/// A call is prepared exactly when the credential is a text and every
/// parameter is served; it then carries that credential and the request
/// built from the arguments, one native value for each parameter.
pub proof fn law_prepared_iff_well_formed(op: Operation, config: Option<DynValue>, args: Seq<DynValue>)
    ensures
        spec_prepare(op, config, args) is Ok <==> has_credential(config) && well_typed(
            args,
            op.spec_signature(),
        ),
        spec_prepare(op, config, args) matches Ok(call) ==> config == Some(DynValue::Text(call.credential))
            && call.request == spec_build(
            op,
            Seq::new(op.spec_signature().len(), |i: int| slot_value(args, i)),
        ),
{
    let sig = op.spec_signature();
    if well_typed(args, sig) {
        assert forall|j: int| 0 <= j < sig.len() implies slot_fault(args, sig, j) is None by {
            if j < args.len() {
                assert(conforms(args[j], sig[j].kind));
            }
        }
        lemma_skip_sound_slots(args, sig, 0, sig.len() as int);
    }
    if marshalled(args, sig) is Ok {
        lemma_sound_everywhere(args, sig, 0);
        assert forall|i: int| 0 <= i < sig.len() implies if i < args.len() {
            conforms(#[trigger] args[i], sig[i].kind)
        } else {
            !sig[i].required
        } by {
            assert(slot_fault(args, sig, i) is None);
        }
    }
}

/// With a credential and well-typed arguments, an operation succeeds
/// whenever the remote client does: if every outcome that the invoker can
/// give for the prepared call is a payload, the result is a payload that the
/// invoker gave.
pub proof fn law_success_when_remote_succeeds<P, F: FnOnce(RemoteCall) -> Result<P, String>>(
    op: Operation,
    config: Option<DynValue>,
    args: Seq<DynValue>,
    invoke: F,
    r: Result<P, BridgeError>,
)
    requires
        has_credential(config),
        well_typed(args, op.spec_signature()),
        run_result(op, config, args, invoke, r),
        forall|call: RemoteCall, outcome: Result<P, String>| #[trigger]
            invoke.ensures((call,), outcome) ==> outcome is Ok,
    ensures
        r matches Ok(payload) && invoke.ensures(
            (spec_prepare(op, config, args)->Ok_0,),
            Ok::<P, String>(payload),
        ),
{
    law_prepared_iff_well_formed(op, config, args);
}

/// Leaving out a required argument, after arguments of the right types, is
/// reported as missing at the position of the first one left out, under the
/// name of that parameter; no call is prepared, so the invoker has no part in
/// the result.
pub proof fn law_missing_argument_reported(op: Operation, config: Option<DynValue>, args: Seq<DynValue>)
    requires
        has_credential(config),
        args.len() < op.spec_signature().len(),
        op.spec_signature()[args.len() as int].required,
        forall|i: int| 0 <= i < args.len() ==> conforms(#[trigger] args[i], op.spec_signature()[i].kind),
    ensures
        spec_prepare(op, config, args) == Err::<RemoteCall, BridgeError>(
            BridgeError::MissingArgument {
                index: args.len() as usize,
                name: op.spec_signature()[args.len() as int].name,
            },
        ),
{
    let sig = op.spec_signature();
    assert forall|j: int| 0 <= j < args.len() implies slot_fault(args, sig, j) is None by {
        assert(conforms(args[j], sig[j].kind));
    }
    lemma_skip_sound_slots(args, sig, 0, args.len() as int);
}

/// An argument of the wrong type at a position of the signature is reported
/// as a type mismatch: at the first such position, with the type that was
/// expected there. No call is prepared.
pub proof fn law_type_mismatch_reported(op: Operation, config: Option<DynValue>, args: Seq<DynValue>, at: int)
    requires
        has_credential(config),
        0 <= at < args.len(),
        at < op.spec_signature().len(),
        !conforms(args[at], op.spec_signature()[at].kind),
    ensures
        spec_prepare(op, config, args) matches Err(BridgeError::TypeMismatch { index, expected })
            && index <= at && expected == op.spec_signature()[index as int].kind && !conforms(
            args[index as int],
            expected,
        ) && forall|j: int| 0 <= j < index ==> conforms(#[trigger] args[j], op.spec_signature()[j].kind),
{
    let sig = op.spec_signature();
    lemma_mismatch_comes_first(args, sig, 0, at);
    let index = first_fault(args, sig, 0)->Some_0->TypeMismatch_index;
    assert forall|j: int| 0 <= j < index implies conforms(#[trigger] args[j], sig[j].kind) by {
        if !conforms(args[j], sig[j].kind) {
            lemma_mismatch_comes_first(args, sig, 0, j);
        }
    }
}

/// Marshalling succeeds exactly when the list of all faults is empty, and
/// fails with the head of that list otherwise.
pub proof fn law_first_of_all_faults(args: Seq<DynValue>, sig: Seq<Param>)
    ensures
        marshalled(args, sig) is Ok <==> all_faults(args, sig).len() == 0,
        marshalled(args, sig) matches Err(e) ==> all_faults(args, sig).len() > 0 && e == all_faults(
            args,
            sig,
        )[0],
{
    lemma_faults_upto(args, sig, sig.len() as int);
    if all_faults(args, sig).len() == 0 {
        lemma_skip_sound_slots(args, sig, 0, sig.len() as int);
    }
}

/// The credential comes first: without one, or with one that is not a text,
/// every operation reports the missing credential, whatever the arguments.
pub proof fn law_credential_first(op: Operation, config: Option<DynValue>, args: Seq<DynValue>)
    requires
        !has_credential(config),
    ensures
        spec_resolve(config) == Err::<String, BridgeError>(BridgeError::MissingCredential),
        spec_prepare(op, config, args) == Err::<RemoteCall, BridgeError>(BridgeError::MissingCredential),
{
}

/// No operation that fails before the remote call has a result that depends
/// on the invoker: the result is the error of the preparation.
pub proof fn law_early_failure_ignores_invoker<P, F: FnOnce(RemoteCall) -> Result<P, String>>(
    op: Operation,
    config: Option<DynValue>,
    args: Seq<DynValue>,
    invoke: F,
    r: Result<P, BridgeError>,
)
    requires
        spec_prepare(op, config, args) is Err,
        run_result(op, config, args, invoke, r),
    ensures
        r == Err::<P, BridgeError>(spec_prepare(op, config, args)->Err_0),
        r matches Err(e) && !(e is Remote),
{
    if spec_resolve(config) is Ok {
        let sig = op.spec_signature();
        assert(first_fault(args, sig, 0) is Some);
        lemma_fault_is_no_remote(args, sig, 0);
    }
}

/// A fault of marshalling is a missing argument or a type mismatch.
pub proof fn lemma_fault_is_no_remote(args: Seq<DynValue>, sig: Seq<Param>, from: int)
    ensures
        first_fault(args, sig, from) matches Some(e) ==> e is MissingArgument || e is TypeMismatch,
    decreases sig.len() - from,
{
    if 0 <= from < sig.len() && slot_fault(args, sig, from) is None {
        lemma_fault_is_no_remote(args, sig, from + 1);
    }
}

/// Translation keeps a payload as it is, and keeps the diagnostic of a
/// failure; the two cannot be confused.
pub proof fn law_translation_preserves<P>(outcome: Result<P, String>)
    ensures
        outcome matches Ok(payload) ==> spec_translate(outcome) == Ok::<P, BridgeError>(payload),
        outcome matches Err(diagnostic) ==> spec_translate(outcome) == Err::<P, BridgeError>(
            BridgeError::Remote { diagnostic },
        ),
        spec_translate(outcome) is Ok <==> outcome is Ok,
{
}

} // verus!
