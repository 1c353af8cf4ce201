use vstd::prelude::*;

verus! {

/// Width in pixels of every image this harness creates.
pub const IMAGE_WIDTH: u32 = 1024;

/// Height in pixels of every image this harness creates.
pub const IMAGE_HEIGHT: u32 = 1024;

/// Every image holds four 8-bit channels per pixel.
pub const BYTES_PER_PIXEL: u32 = 4;

/// Local workgroup width and height declared by the image-generating shader.
pub const GENERATE_LOCAL_SIZE: u32 = 8;

/// Workgroup grid width and height dispatched by the image-generating pass.
pub const GENERATE_GROUP_COUNT: u32 = 128;

/// Local workgroup size declared by the element-mutating shader.
pub const MUTATE_LOCAL_SIZE: u32 = 64;

/// Workgroup count dispatched by the element-mutating pass.
pub const MUTATE_GROUP_COUNT: u32 = 1024;

/// Number of 32-bit elements in the mutating pass's storage buffer.
pub const ELEMENT_COUNT: u32 = 65536;

/// The constant the mutating shader multiplies each element by.
pub const MUTATE_FACTOR: u32 = 12;

/// Number of pixels in an image of the fixed extent.
pub open spec fn pixel_count() -> int {
    (IMAGE_WIDTH as int) * (IMAGE_HEIGHT as int)
}

/// Byte footprint of an image of the fixed extent: one pixel is four bytes.
pub open spec fn image_byte_count() -> int {
    pixel_count() * (BYTES_PER_PIXEL as int)
}

/// Byte footprint of an image, computed for the host when it sizes the
/// staging buffer that receives the image copy.
pub fn image_byte_len() -> (n: usize)
    ensures
        n == image_byte_count(),
{
    let w: usize = IMAGE_WIDTH as usize;
    let h: usize = IMAGE_HEIGHT as usize;
    let b: usize = BYTES_PER_PIXEL as usize;
    proof {
        assert((w as int) * (h as int) * (b as int) == 4194304) by (nonlinear_arith)
            requires
                w == 1024,
                h == 1024,
                b == 4,
        ;
    }
    w * h * b
}

/// The image-generating dispatch launches exactly one shader invocation per
/// pixel: the workgroup grid times the local size equals the image extent in
/// each dimension.
pub proof fn lemma_generate_dispatch_matches_extent()
    ensures
        GENERATE_GROUP_COUNT * GENERATE_LOCAL_SIZE == IMAGE_WIDTH,
        GENERATE_GROUP_COUNT * GENERATE_LOCAL_SIZE == IMAGE_HEIGHT,
{
}

/// The element-mutating dispatch launches exactly one shader invocation per
/// buffer element.
pub proof fn lemma_mutate_dispatch_matches_elements()
    ensures
        MUTATE_GROUP_COUNT * MUTATE_LOCAL_SIZE == ELEMENT_COUNT,
{
}

} // verus!
