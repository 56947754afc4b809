//! The equipment capability handed through to an assistant.

use vstd::prelude::*;

verus! {

/// An opaque piece of equipment. The orchestration core never calls it
/// directly; it is only passed through to an assistant's target derivation.
pub trait Gadget {
    fn do_stuff(&self);
}

} // verus!
