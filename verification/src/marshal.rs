//! The argument marshaller: strict, positional extraction of native values
//! from the caller's dynamic ones.

use vstd::prelude::*;
use crate::catalog::Param;
use crate::error::BridgeError;
use crate::value::{DynValue, NativeValue, PrimitiveKind, conforms, native_of};

verus! {

/// What is wrong with the slot of parameter `i`, if anything: a required
/// parameter has no value there, or the value there is of another type.
pub open spec fn slot_fault(args: Seq<DynValue>, sig: Seq<Param>, i: int) -> Option<BridgeError> {
    if i >= args.len() {
        if sig[i].required {
            Some(BridgeError::MissingArgument { index: i as usize, name: sig[i].name })
        } else {
            None
        }
    } else if !conforms(args[i], sig[i].kind) {
        Some(BridgeError::TypeMismatch { index: i as usize, expected: sig[i].kind })
    } else {
        None
    }
}

/// The native value of slot `i`: absent where no argument was supplied.
pub open spec fn slot_value(args: Seq<DynValue>, i: int) -> NativeValue {
    if 0 <= i < args.len() {
        native_of(args[i])
    } else {
        NativeValue::Absent
    }
}

/// The fault of the first faulty slot at or after `from`, in the order of the
/// signature.
pub open spec fn first_fault(args: Seq<DynValue>, sig: Seq<Param>, from: int) -> Option<BridgeError>
    decreases sig.len() - from,
{
    if from < 0 || from >= sig.len() {
        None
    } else if slot_fault(args, sig, from) is Some {
        slot_fault(args, sig, from)
    } else {
        first_fault(args, sig, from + 1)
    }
}

/// What marshalling `args` against `sig` yields: the first fault, or else one
/// native value for each parameter. Arguments beyond the signature are not
/// looked at.
pub open spec fn marshalled(args: Seq<DynValue>, sig: Seq<Param>) -> Result<Seq<NativeValue>, BridgeError> {
    match first_fault(args, sig, 0) {
        Some(e) => Err(e),
        None => Ok(Seq::new(sig.len(), |i: int| slot_value(args, i))),
    }
}

/// Whether a native value is one that marshalling can yield for `param`.
pub open spec fn value_fits(value: NativeValue, param: Param) -> bool {
    match value {
        NativeValue::Absent => !param.required,
        NativeValue::Text(_) => param.kind == PrimitiveKind::Text,
        NativeValue::Boolean(_) => param.kind == PrimitiveKind::Boolean,
    }
}

/// Whether `values` holds one fitting native value for each parameter.
pub open spec fn fits(values: Seq<NativeValue>, sig: Seq<Param>) -> bool {
    &&& values.len() == sig.len()
    &&& forall|i: int| 0 <= i < sig.len() ==> value_fits(#[trigger] values[i], sig[i])
}

/// Slots without a fault do not change which fault is the first.
pub proof fn lemma_skip_sound_slots(args: Seq<DynValue>, sig: Seq<Param>, from: int, to: int)
    requires
        0 <= from <= to <= sig.len(),
        forall|j: int| from <= j < to ==> slot_fault(args, sig, j) is None,
    ensures
        first_fault(args, sig, from) == first_fault(args, sig, to),
    decreases to - from,
{
    if from < to {
        lemma_skip_sound_slots(args, sig, from + 1, to);
    }
}

/// Where no fault is the first, no slot has one.
pub proof fn lemma_sound_everywhere(args: Seq<DynValue>, sig: Seq<Param>, from: int)
    requires
        0 <= from <= sig.len(),
        first_fault(args, sig, from) is None,
    ensures
        forall|j: int| from <= j < sig.len() ==> slot_fault(args, sig, j) is None,
    decreases sig.len() - from,
{
    if from < sig.len() {
        lemma_sound_everywhere(args, sig, from + 1);
    }
}

/// What marshalling yields fits the signature it was marshalled against.
pub proof fn lemma_marshalled_fits(args: Seq<DynValue>, sig: Seq<Param>)
    requires
        marshalled(args, sig) is Ok,
    ensures
        fits(marshalled(args, sig)->Ok_0, sig),
{
    lemma_sound_everywhere(args, sig, 0);
    let values = marshalled(args, sig)->Ok_0;
    assert forall|i: int| 0 <= i < sig.len() implies value_fits(#[trigger] values[i], sig[i]) by {
        assert(slot_fault(args, sig, i) is None);
        assert(values[i] == slot_value(args, i));
    }
}

/// Examines slot `i`: its native value, or what is wrong with it.
fn check_slot(args: &Vec<DynValue>, sig: &Vec<Param>, i: usize) -> (r: Result<NativeValue, BridgeError>)
    requires
        i < sig@.len(),
    ensures
        match r {
            Ok(value) => slot_fault(args@, sig@, i as int) is None && value == slot_value(args@, i as int),
            Err(e) => slot_fault(args@, sig@, i as int) == Some(e),
        },
{
    let param = sig[i];
    if i < args.len() {
        match args[i].to_native(param.kind) {
            Some(value) => Ok(value),
            None => Err(BridgeError::TypeMismatch { index: i, expected: param.kind }),
        }
    } else if param.required {
        Err(BridgeError::MissingArgument { index: i, name: param.name })
    } else {
        Ok(NativeValue::Absent)
    }
}

/// Marshals the arguments against the signature, parameter by parameter, and
/// stops at the first fault.
pub fn extract(args: &Vec<DynValue>, sig: &Vec<Param>) -> (r: Result<Vec<NativeValue>, BridgeError>)
    ensures
        match r {
            Ok(values) => marshalled(args@, sig@) == Ok::<Seq<NativeValue>, BridgeError>(values@),
            Err(e) => marshalled(args@, sig@) == Err::<Seq<NativeValue>, BridgeError>(e),
        },
{
    let mut values: Vec<NativeValue> = Vec::new();
    let mut i: usize = 0;
    while i < sig.len()
        invariant
            i <= sig.len(),
            values@.len() == i,
            forall|j: int| 0 <= j < i ==> slot_fault(args@, sig@, j) is None,
            forall|j: int| 0 <= j < i ==> values@[j] == slot_value(args@, j),
        decreases sig.len() - i,
    {
        proof {
            lemma_skip_sound_slots(args@, sig@, 0, i as int);
        }
        match check_slot(args, sig, i) {
            Ok(value) => {
                values.push(value);
            },
            Err(e) => {
                return Err(e);
            },
        }
        i += 1;
    }
    proof {
        lemma_skip_sound_slots(args@, sig@, 0, sig@.len() as int);
        assert(values@ =~= Seq::new(sig@.len(), |i: int| slot_value(args@, i)));
    }
    Ok(values)
}

/// The faults of the first `n` slots, in the order of the signature.
pub open spec fn faults_upto(args: Seq<DynValue>, sig: Seq<Param>, n: int) -> Seq<BridgeError>
    decreases n,
{
    if n <= 0 {
        Seq::empty()
    } else {
        let before = faults_upto(args, sig, n - 1);
        match slot_fault(args, sig, n - 1) {
            Some(e) => before.push(e),
            None => before,
        }
    }
}

/// Every fault of the argument list, in the order of the signature.
pub open spec fn all_faults(args: Seq<DynValue>, sig: Seq<Param>) -> Seq<BridgeError> {
    faults_upto(args, sig, sig.len() as int)
}

/// The faults of the first `n` slots are none exactly when none of these
/// slots has a fault; otherwise they begin with the first fault of all.
pub proof fn lemma_faults_upto(args: Seq<DynValue>, sig: Seq<Param>, n: int)
    requires
        0 <= n <= sig.len(),
    ensures
        faults_upto(args, sig, n).len() == 0 <==> forall|j: int|
            0 <= j < n ==> slot_fault(args, sig, j) is None,
        faults_upto(args, sig, n).len() > 0 ==> first_fault(args, sig, 0) == Some(
            faults_upto(args, sig, n)[0],
        ),
    decreases n,
{
    if n > 0 {
        lemma_faults_upto(args, sig, n - 1);
        let before = faults_upto(args, sig, n - 1);
        if before.len() == 0 {
            lemma_skip_sound_slots(args, sig, 0, n - 1);
            if slot_fault(args, sig, n - 1) is None {
                assert forall|j: int| 0 <= j < n implies slot_fault(args, sig, j) is None by {}
            }
        }
    }
}

/// Lists every fault of the argument list, not only the first: one entry for
/// each parameter whose slot is faulty, in the order of the signature.
pub fn violations(args: &Vec<DynValue>, sig: &Vec<Param>) -> (r: Vec<BridgeError>)
    ensures
        r@ == all_faults(args@, sig@),
{
    let mut found: Vec<BridgeError> = Vec::new();
    let mut i: usize = 0;
    while i < sig.len()
        invariant
            i <= sig.len(),
            found@ == faults_upto(args@, sig@, i as int),
        decreases sig.len() - i,
    {
        match check_slot(args, sig, i) {
            Ok(_) => {},
            Err(e) => {
                found.push(e);
            },
        }
        i += 1;
    }
    found
}

} // verus!
