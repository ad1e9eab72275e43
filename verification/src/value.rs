//! Dynamic values of the caller and the native values they are marshalled to.

use vstd::prelude::*;

verus! {

/// The primitive type that a parameter is declared with.
#[derive(Clone, Copy, Debug, PartialEq, Eq, Structural)]
pub enum PrimitiveKind {
    Text,
    Boolean,
}

impl PrimitiveKind {
    /// The name of the type in words.
    pub open spec fn spec_text(self) -> Seq<char> {
        match self {
            PrimitiveKind::Text => "string"@,
            PrimitiveKind::Boolean => "boolean"@,
        }
    }

    /// The name of the type in words, as shown to the caller.
    pub fn text(self) -> (r: &'static str)
        ensures
            r@ == self.spec_text(),
    {
        match self {
            PrimitiveKind::Text => "string",
            PrimitiveKind::Boolean => "boolean",
        }
    }
}

/// A value as the calling environment supplies it: its type is known only
/// once the value is looked at.
#[derive(Clone, Debug, PartialEq, Eq)]
pub enum DynValue {
    Undefined,
    Null,
    Boolean(bool),
    Integer(i64),
    Text(String),
    /// Any other value (a fractional number, an array, an object, a function):
    /// never taken for a primitive.
    Other,
}

/// A marshalled argument: a native primitive, or the marker of an optional
/// argument that was not supplied.
#[derive(Clone, Debug, PartialEq, Eq)]
pub enum NativeValue {
    Absent,
    Text(String),
    Boolean(bool),
}

/// Whether `value` can be taken as a primitive of the given kind. There is no
/// coercion: a text is a text, a boolean is a boolean.
pub open spec fn conforms(value: DynValue, kind: PrimitiveKind) -> bool {
    match kind {
        PrimitiveKind::Text => value is Text,
        PrimitiveKind::Boolean => value is Boolean,
    }
}

/// The native value that a text or a boolean stands for.
pub open spec fn native_of(value: DynValue) -> NativeValue {
    match value {
        DynValue::Text(s) => NativeValue::Text(s),
        DynValue::Boolean(b) => NativeValue::Boolean(b),
        _ => NativeValue::Absent,
    }
}

impl DynValue {
    /// Converts the value to a native one of the declared kind, or says that
    /// it is of another type.
    pub fn to_native(&self, kind: PrimitiveKind) -> (r: Option<NativeValue>)
        ensures
            r == if conforms(*self, kind) { Some(native_of(*self)) } else { None::<NativeValue> },
    {
        match kind {
            PrimitiveKind::Text => match self {
                DynValue::Text(s) => Some(NativeValue::Text(s.clone())),
                _ => None,
            },
            PrimitiveKind::Boolean => match self {
                DynValue::Boolean(b) => Some(NativeValue::Boolean(*b)),
                _ => None,
            },
        }
    }
}

} // verus!
