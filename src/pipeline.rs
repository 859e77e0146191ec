use vstd::prelude::*;

verus! {

/// Something that draws itself.
pub trait Renderer {
    fn render();
}

} // verus!
