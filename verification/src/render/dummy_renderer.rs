//! A renderer that draws nothing.

use crate::render::{RenderError, Renderer, Request};
use crate::shape::Shape;
use vstd::prelude::*;

verus! {

/// The renderer that accepts every frame and every shape and shows none.
#[derive(Debug, Default)]
pub struct DummyRenderer;

impl Renderer for DummyRenderer {
    /// The dummy renderer promises that every request succeeds.
    open spec fn promises(
        &self,
        request: Request,
        after: &Self,
        failed: Option<RenderError>,
    ) -> bool {
        failed is None
    }

    fn init_frame(&mut self) -> (result: Result<(), RenderError>) {
        Ok(())
    }

    fn finish_frame(&mut self) -> (result: Result<(), RenderError>) {
        Ok(())
    }

    fn render(&mut self, _name: &str, _shape: &Shape) -> (result: Result<(), RenderError>) {
        Ok(())
    }
}

} // verus!
