//! Call origins and the authorization error shared by every privileged
//! operation.

use vstd::prelude::*;

verus! {

/// The provenance of a call into one of the pallets. Only `Root` may mutate
/// core state.
#[derive(Clone, Copy, PartialEq, Eq, Structural, Debug)]
pub enum Origin {
    Root,
    Signed,
    Unsigned,
}

/// Error surfaced when a privileged operation is invoked by a caller that
/// lacks the required privilege. It is rejected before any state mutation.
#[derive(Clone, Copy, PartialEq, Eq, Structural, Debug)]
pub enum DispatchError {
    BadOrigin,
}

/// Accepts exactly the maximally privileged origin.
pub fn ensure_root(origin: Origin) -> (r: Result<(), DispatchError>)
    ensures
        r == if origin == Origin::Root {
            Ok::<(), DispatchError>(())
        } else {
            Err::<(), DispatchError>(DispatchError::BadOrigin)
        },
{
    match origin {
        Origin::Root => Ok(()),
        _ => Err(DispatchError::BadOrigin),
    }
}

} // verus!
