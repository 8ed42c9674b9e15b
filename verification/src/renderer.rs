//! The renderer of the screen's components.

use std::sync::Arc;
use vstd::prelude::*;

verus! {

pub struct Renderer {}

impl Renderer {
    pub fn new() -> (renderer: Arc<Self>) {
        Arc::new(Renderer {  })
    }
}

} // verus!
