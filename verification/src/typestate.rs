//! Marker types that encode state transitions at the type level.
//!
//! These zero-sized markers let other layers tag values with the state they
//! are in, so that an illegal transition fails to compile instead of
//! failing at run time.

use vstd::prelude::*;

verus! {

/// Marker trait for session states.
pub trait SessionState {

}

/// A clean repository working tree.
pub struct Clean;

/// A working tree with uncommitted changes.
pub struct Dirty;

/// A working tree whose HEAD is detached.
pub struct Detached;

impl SessionState for Clean {

}

impl SessionState for Dirty {

}

impl SessionState for Detached {

}

/// A running change monitor.
pub struct Running;

/// A stopped change monitor.
pub struct Stopped;

impl SessionState for Running {

}

impl SessionState for Stopped {

}

/// Generic zero-sized container that carries a state marker.
pub struct State<T: SessionState> {
    _phantom: core::marker::PhantomData<T>,
}

impl<T: SessionState> State<T> {
    /// The single value of this marker state.
    pub closed spec fn spec_value() -> State<T> {
        State { _phantom: core::marker::PhantomData }
    }

    /// Create the marker value for the state `T`.
    pub fn new() -> (r: Self)
        ensures
            r == State::<T>::spec_value(),
    {
        State { _phantom: core::marker::PhantomData }
    }
}

impl<T: SessionState> Default for State<T> {
    /// The same marker value that `State::new` returns.
    fn default() -> (r: Self)
        ensures
            r == State::<T>::spec_value(),
    {
        State::new()
    }
}

} // verus!
