use vstd::prelude::*;

verus! {

/// The two failure kinds of this layer.
///
/// `Generation` means the inputs cannot produce a valid proof (for example the
/// transfer amount exceeds the spendable balance). `Verification` means a
/// sub-proof check failed or a byte buffer did not decode into a valid group
/// element or scalar; the two causes are deliberately not distinguished at the
/// interface, so that error codes leak nothing about the secret inputs.
#[derive(Clone, Copy, Debug, PartialEq, Eq, Structural)]
pub enum ProofError {
    Generation,
    Verification,
}

} // verus!
