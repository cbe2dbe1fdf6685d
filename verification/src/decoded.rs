use vstd::prelude::*;
use crate::color_convert::ColorSpaceValue;

verus! {

/// One color component plane of a decoded image: its samples in row-major
/// order and the reduction factor the engine actually applied to it.
#[derive(Debug, Clone)]
pub struct Component {
    pub data: Vec<i32>,
    pub factor: u32,
}

/// A decoded image as the engine describes it: the bounding box, the
/// component planes, and the reported color space. This is the plain-value
/// form of the engine's image descriptor, copied out while the engine's
/// handles are still alive.
#[derive(Debug, Clone)]
pub struct Image {
    pub x0: u32,
    pub y0: u32,
    pub x1: u32,
    pub y1: u32,
    pub comps: Vec<Component>,
    pub color_space: ColorSpaceValue,
}

impl Image {
    /// The bounding box is ordered and every achieved reduction factor is
    /// small enough that a dimension can be shifted by it.
    pub open spec fn wf(&self) -> bool {
        &&& self.x0 <= self.x1
        &&& self.y0 <= self.y1
        &&& forall|i: int| 0 <= i < self.comps@.len() ==> (#[trigger] self.comps@[i]).factor < 32
    }

    /// An empty descriptor, as it stands before a header has been read.
    pub fn new() -> (r: Self)
        ensures
            r.wf(),
            r.x0 == 0u32 && r.y0 == 0u32 && r.x1 == 0u32 && r.y1 == 0u32,
            r.comps@.len() == 0,
            r.color_space == ColorSpaceValue::Unspecified,
    {
        Image {
            x0: 0,
            y0: 0,
            x1: 0,
            y1: 0,
            comps: Vec::new(),
            color_space: ColorSpaceValue::Unspecified,
        }
    }

    /// Full-resolution width: the extent of the bounding box.
    pub fn width(&self) -> (r: u32)
        requires
            self.wf(),
        ensures
            r == self.x1 - self.x0,
    {
        self.x1 - self.x0
    }

    /// Full-resolution height: the extent of the bounding box.
    pub fn height(&self) -> (r: u32)
        requires
            self.wf(),
        ensures
            r == self.y1 - self.y0,
    {
        self.y1 - self.y0
    }

    pub fn num_components(&self) -> (r: usize)
        ensures
            r == self.comps@.len(),
    {
        self.comps.len()
    }

    pub fn components(&self) -> (r: &Vec<Component>)
        ensures
            r == &self.comps,
    {
        &self.comps
    }

    /// The reduction factor the engine achieved, read from the first
    /// component; this library assumes it is uniform across components.
    pub fn factor(&self) -> (r: u32)
        requires
            self.comps@.len() > 0,
        ensures
            r == self.comps@[0].factor,
    {
        self.comps[0].factor
    }

    pub fn color_space(&self) -> (r: ColorSpaceValue)
        ensures
            r == self.color_space,
    {
        self.color_space
    }
}

/// Basic metadata read from a codestream header.
#[derive(Debug, Clone, PartialEq, Eq, Structural)]
pub struct Info {
    pub width: u32,
    pub height: u32,
}

impl Info {
    /// The full-resolution dimensions a header-read reports: the extents of
    /// the image bounding box.
    pub fn build(img: &Image) -> (r: Info)
        requires
            img.wf(),
        ensures
            r.width == img.x1 - img.x0,
            r.height == img.y1 - img.y0,
    {
        Info { width: img.width(), height: img.height() }
    }
}

} // verus!
