//! Logic of a panel start-menu applet: application categories, the
//! application list and its filters, recent-application bookkeeping and the
//! popup state machines of the two applet front ends.
use vstd::prelude::*;

pub mod applet;
pub mod logic;
pub mod window;

verus! {

} // verus!
