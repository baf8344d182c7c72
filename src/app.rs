use vstd::prelude::*;

verus! {

/// What the frame loop needs to set up: the id of the canvas element and the
/// size to give it, in pixels.
#[derive(Debug)]
pub struct AppConfig {
    canvas_id: String,
    canvas_width: u32,
    canvas_height: u32,
}

impl AppConfig {
    /// The id of the canvas element.
    pub closed spec fn spec_canvas_id(&self) -> Seq<char> {
        self.canvas_id@
    }

    /// The canvas width in pixels.
    pub closed spec fn spec_canvas_width(&self) -> u32 {
        self.canvas_width
    }

    /// The canvas height in pixels.
    pub closed spec fn spec_canvas_height(&self) -> u32 {
        self.canvas_height
    }

    /// A configuration for the canvas `canvas_id` of `canvas_width` by `canvas_height`.
    pub fn new(canvas_id: String, canvas_width: u32, canvas_height: u32) -> (r: Self)
        ensures
            r.spec_canvas_id() == canvas_id@,
            r.spec_canvas_width() == canvas_width,
            r.spec_canvas_height() == canvas_height,
    {
        AppConfig { canvas_id, canvas_width, canvas_height }
    }

    /// The id of the canvas element.
    pub fn canvas_id(&self) -> (r: &str)
        ensures
            r@ == self.spec_canvas_id(),
    {
        self.canvas_id.as_str()
    }

    /// The canvas width in pixels.
    pub fn canvas_width(&self) -> (r: u32)
        ensures
            r == self.spec_canvas_width(),
    {
        self.canvas_width
    }

    /// The canvas height in pixels.
    pub fn canvas_height(&self) -> (r: u32)
        ensures
            r == self.spec_canvas_height(),
    {
        self.canvas_height
    }
}

} // verus!
