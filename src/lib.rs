//! A click counter served as HTML: the page, the counter fragment that
//! replaces itself on each click, and the shared state behind them.
use vstd::prelude::*;

pub mod html;
pub mod state;

verus! {

} // verus!
