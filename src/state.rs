//! The state that the handlers share: one click counter for the whole
//! process, read and incremented atomically.
use std::sync::atomic::{AtomicUsize, Ordering};
use std::sync::Arc;
use vstd::prelude::*;

use crate::html::{counter, counter_html, page, page_html};

verus! {

/// The shared state: clones share one counter.
///
/// Other holders of the counter may change it at any moment, so what a
/// handler reads is known only to be some count.
#[derive(Clone)]
pub struct AppState {
    pub counter: Arc<AtomicUsize>,
}

impl AppState {
    /// A state whose counter starts at zero.
    pub fn new() -> (r: AppState) {
        AppState { counter: Arc::new(AtomicUsize::new(0)) }
    }

    /// Renders the page with the counter as it stands.
    pub fn index(&self) -> (r: String)
        ensures
            exists|c: usize| r@ == page_html(c as nat),
    {
        let click_count = self.counter.load(Ordering::SeqCst);
        page(click_count)
    }

    /// Adds one click, then renders the counter fragment with the count
    /// read after it.
    pub fn clicked(&self) -> (r: String)
        ensures
            exists|c: usize| r@ == counter_html(c as nat),
    {
        let _ = self.counter.fetch_add(1, Ordering::SeqCst);
        let click_count = self.counter.load(Ordering::SeqCst);
        counter(click_count)
    }
}

} // verus!
