use vstd::prelude::*;

verus! {

/// A raw bitmap of `width` by `height` pixels, stored in `N` bytes.
pub struct Graphic<const N: usize> {
    pub width: u32,
    pub height: u32,
    pub data: [u8; N],
}

impl<const N: usize> Graphic<N> {
    pub fn new(width: u32, height: u32, data: [u8; N]) -> (r: Self)
        ensures
            r.width == width,
            r.height == height,
            r.data == data,
    {
        Graphic { width, height, data }
    }
}

} // verus!
