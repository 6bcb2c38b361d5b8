//! The traits that a program built on the client implements.

use vstd::prelude::*;

verus! {

/// The state that a program hands to its connector when it asks for a socket.
pub trait AppState {

}

} // verus!
