use vstd::prelude::*;

verus! {

// Vertex attributes are kept as the IEEE-754 bit patterns of their `f32`
// components: the scene graph only moves them around, and the bit pattern of
// `0.0` is `0`.

/// The bits of `1.0f32`.
pub const ONE_BITS: u32 = 0x3f80_0000;

/// A 4x4 matrix as bits, column by column.
pub type Mat4Bits = [[u32; 4]; 4];

/// The identity matrix, as bits.
pub open spec fn identity_bits() -> Mat4Bits {
    [
        [ONE_BITS, 0, 0, 0],
        [0, ONE_BITS, 0, 0],
        [0, 0, ONE_BITS, 0],
        [0, 0, 0, ONE_BITS],
    ]
}

/// The identity matrix, as bits.
pub fn identity_matrix() -> (res: Mat4Bits)
    ensures
        res == identity_bits(),
{
    [
        [ONE_BITS, 0, 0, 0],
        [0, ONE_BITS, 0, 0],
        [0, 0, ONE_BITS, 0],
        [0, 0, 0, ONE_BITS],
    ]
}

/// Three components, as bits.
pub open spec fn zero3() -> [u32; 3] {
    [0u32, 0u32, 0u32]
}

/// Two components, as bits.
pub open spec fn zero2() -> [u32; 2] {
    [0u32, 0u32]
}

/// Four components, as bits.
pub open spec fn zero4() -> [u32; 4] {
    [0u32, 0u32, 0u32, 0u32]
}

/// Four joint indices, all zero.
pub open spec fn zero_joints() -> [u16; 4] {
    [0u16, 0u16, 0u16, 0u16]
}

/// One vertex of a primitive, with every attribute the PBR shader can use.
#[derive(Clone, Copy, Debug)]
pub struct Vertex {
    pub position: [u32; 3],
    pub normal: [u32; 3],
    pub tangent: [u32; 4],
    pub tex_coord_0: [u32; 2],
    pub tex_coord_1: [u32; 2],
    pub color_0: [u32; 4],
    pub joints_0: [u16; 4],
    pub weights_0: [u32; 4],
}

/// The vertex whose every attribute is zero.
pub open spec fn zero_vertex() -> Vertex {
    Vertex {
        position: zero3(),
        normal: zero3(),
        tangent: zero4(),
        tex_coord_0: zero2(),
        tex_coord_1: zero2(),
        color_0: zero4(),
        joints_0: zero_joints(),
        weights_0: zero4(),
    }
}

impl Default for Vertex {
    fn default() -> (res: Self)
        ensures
            res == zero_vertex(),
    {
        Vertex {
            position: [0, 0, 0],
            normal: [0, 0, 0],
            tangent: [0, 0, 0, 0],
            tex_coord_0: [0, 0],
            tex_coord_1: [0, 0],
            color_0: [0, 0, 0, 0],
            joints_0: [0, 0, 0, 0],
            weights_0: [0, 0, 0, 0],
        }
    }
}

} // verus!
