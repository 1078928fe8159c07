use vstd::prelude::*;

pub mod events;
pub mod render;
pub mod pipeline;
pub mod tracker;
pub mod version;

verus! {

/// The svgbob preprocessor: finds fenced code blocks tagged `bob` in a
/// markdown document, renders their contents to svg markup, and splices the
/// markup back into the document in place of the fence.
pub struct Bob;

impl Bob {
    /// Make a preprocessor value; it carries no state of its own.
    pub fn new() -> (r: Bob) {
        Bob
    }

    /// The name under which the host configures this preprocessor.
    pub fn name(&self) -> (r: &'static str)
        ensures
            r@ == "svgbob"@,
    {
        "svgbob"
    }

    /// The preprocessor runs for every output renderer except the one
    /// reserved sentinel name.
    pub fn supports_renderer(&self, renderer: &str) -> (r: bool)
        ensures
            r == (renderer@ != "not-supported"@),
    {
        let given: String = renderer.to_owned();
        let sentinel: String = "not-supported".to_owned();
        !(given == sentinel)
    }
}

} // verus!
