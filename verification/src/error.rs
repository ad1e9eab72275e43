//! The failures that an operation of the bridge can end in.

use vstd::prelude::*;
use vstd::string::StringExecFns;
use crate::catalog::ParamName;
use crate::text::{decimal, decimal_text};
use crate::value::PrimitiveKind;

verus! {

/// Why an operation failed. The first three arise before any remote call is
/// made; the last carries whatever the remote client reported, as text.
#[derive(Clone, Debug, PartialEq, Eq)]
pub enum BridgeError {
    /// The configuration holds no credential, or one that is not a text.
    MissingCredential,
    /// A required argument was not supplied at the given position.
    MissingArgument { index: usize, name: ParamName },
    /// The argument at the given position is not of the declared type.
    TypeMismatch { index: usize, expected: PrimitiveKind },
    /// The remote client failed; no kind of failure is told apart.
    Remote { diagnostic: String },
}

impl BridgeError {
    /// The diagnostic that the caller reads. A failure of the remote client
    /// is shown with the client's own words and nothing else.
    pub open spec fn spec_diagnostic(self) -> Seq<char> {
        match self {
            BridgeError::MissingCredential => "missing credential"@,
            BridgeError::MissingArgument { index, name } => "missing argument "@ + decimal(index as nat)
                + ": "@ + name.spec_text(),
            BridgeError::TypeMismatch { index, expected } => "argument "@ + decimal(index as nat)
                + " is not a "@ + expected.spec_text(),
            BridgeError::Remote { diagnostic } => diagnostic@,
        }
    }

    /// The diagnostic that the caller reads.
    pub fn diagnostic(&self) -> (r: String)
        ensures
            r@ == self.spec_diagnostic(),
    {
        match self {
            BridgeError::MissingCredential => String::from_str("missing credential"),
            BridgeError::MissingArgument { index, name } => {
                let numeral = decimal_text(*index);
                String::from_str("missing argument ").concat(numeral.as_str()).concat(": ").concat(
                    name.text(),
                )
            },
            BridgeError::TypeMismatch { index, expected } => {
                let numeral = decimal_text(*index);
                String::from_str("argument ").concat(numeral.as_str()).concat(" is not a ").concat(
                    expected.text(),
                )
            },
            BridgeError::Remote { diagnostic } => diagnostic.clone(),
        }
    }
}

} // verus!
