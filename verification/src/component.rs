use vstd::prelude::*;

verus! {

/// A part of the worker that is created together with the handle through
/// which the other parts talk to it.
pub trait Component: Sized {
    type Controller: Controller;

    fn new() -> (Self, Self::Controller);
}

/// The handle of a component.
pub trait Controller {}

} // verus!
