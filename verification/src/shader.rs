use vstd::prelude::*;

verus! {

/// Flags matching the defines in the PBR shader: a set of bits in a `u16`.
///
/// Each shader variant is identified by its flags, so the flags are also the
/// key under which a compiled shader is cached.
#[derive(Clone, Copy, Debug, PartialEq, Eq, Structural)]
pub struct ShaderFlags {
    pub bits: u16,
}

impl ShaderFlags {
    // vertex shader + fragment shader
    pub const HAS_NORMALS: u16 = 1;
    pub const HAS_TANGENTS: u16 = 2;
    pub const HAS_UV: u16 = 4;
    pub const HAS_COLORS: u16 = 8;

    // fragment shader only
    pub const USE_IBL: u16 = 16;
    pub const HAS_BASECOLORMAP: u16 = 32;
    pub const HAS_NORMALMAP: u16 = 64;
    pub const HAS_EMISSIVEMAP: u16 = 128;
    pub const HAS_METALROUGHNESSMAP: u16 = 256;
    pub const HAS_OCCLUSIONMAP: u16 = 512;
    pub const USE_TEX_LOD: u16 = 1024;

    /// All bits that name a flag.
    pub const ALL_BITS: u16 = 2047;

    /// Whether every bit of `other` is set in `self`.
    pub open spec fn has(self, other: u16) -> bool {
        self.bits & other == other
    }

    /// The set with no flag.
    pub fn empty() -> (res: ShaderFlags)
        ensures
            res.bits == 0,
    {
        ShaderFlags { bits: 0 }
    }

    /// The flags whose bits are set in `bits`; bits that name no flag are dropped.
    pub fn from_bits_truncate(bits: u16) -> (res: ShaderFlags)
        ensures
            res.bits == bits & Self::ALL_BITS,
    {
        ShaderFlags { bits: bits & Self::ALL_BITS }
    }

    /// The raw bits of the set.
    pub fn bits(&self) -> (res: u16)
        ensures
            res == self.bits,
    {
        self.bits
    }

    /// Whether the set is empty.
    pub fn is_empty(&self) -> (res: bool)
        ensures
            res == (self.bits == 0),
    {
        self.bits == 0
    }

    /// Whether every flag of `other` is in `self`.
    pub fn contains(&self, other: ShaderFlags) -> (res: bool)
        ensures
            res == self.has(other.bits),
    {
        self.bits & other.bits == other.bits
    }

    /// The union of two sets of flags (the `|` of the flags).
    pub fn union(self, other: ShaderFlags) -> (res: ShaderFlags)
        ensures
            res.bits == self.bits | other.bits,
    {
        ShaderFlags { bits: self.bits | other.bits }
    }

    /// Adds the flags of `other` to `self` (the `|=` of the flags).
    pub fn insert(&mut self, other: ShaderFlags)
        ensures
            final(self).bits == old(self).bits | other.bits,
    {
        self.bits = self.bits | other.bits;
    }
}

/// The union of flags is commutative.
pub proof fn lemma_union_commutative(a: ShaderFlags, b: ShaderFlags)
    ensures
        a.bits | b.bits == b.bits | a.bits,
{
    let (x, y) = (a.bits, b.bits);
    assert(x | y == y | x) by (bit_vector);
}

/// The union of flags is associative.
pub proof fn lemma_union_associative(a: ShaderFlags, b: ShaderFlags, c: ShaderFlags)
    ensures
        (a.bits | b.bits) | c.bits == a.bits | (b.bits | c.bits),
{
    let (x, y, z) = (a.bits, b.bits, c.bits);
    assert((x | y) | z == x | (y | z)) by (bit_vector);
}

/// Adding a set of flags twice is the same as adding it once, and the empty set
/// adds nothing.
pub proof fn lemma_union_idempotent_identity(a: ShaderFlags, b: ShaderFlags)
    ensures
        (a.bits | b.bits) | b.bits == a.bits | b.bits,
        a.bits | 0 == a.bits,
        0 | a.bits == a.bits,
{
    let (x, y) = (a.bits, b.bits);
    assert((x | y) | y == x | y) by (bit_vector);
    assert(x | 0 == x) by (bit_vector);
    assert(0 | x == x) by (bit_vector);
}

/// Whether `f` is the bit of one flag.
pub open spec fn is_flag(f: u16) -> bool {
    ||| f == 1
    ||| f == 2
    ||| f == 4
    ||| f == 8
    ||| f == 16
    ||| f == 32
    ||| f == 64
    ||| f == 128
    ||| f == 256
    ||| f == 512
    ||| f == 1024
}

/// After the union, the set holds every flag of both sets and no other flag.
pub proof fn lemma_union_members(a: ShaderFlags, b: ShaderFlags, flag: u16)
    requires
        is_flag(flag),
    ensures
        ((a.bits | b.bits) & flag == flag) <==> (a.has(flag) || b.has(flag)),
{
    let (x, y, f) = (a.bits, b.bits, flag);
    assert(f == 1 || f == 2 || f == 4 || f == 8 || f == 16 || f == 32 || f == 64 || f == 128
        || f == 256 || f == 512 || f == 1024 ==> (((x | y) & f == f) <==> (x & f == f || y & f
        == f))) by (bit_vector);
}

/// A compiled PBR shader variant, as the scene graph knows it: the flags it was
/// compiled for and its uniform locations. The program object itself belongs
/// to the rendering context, which compiles one per cached variant.
#[derive(Clone, Copy, Debug, PartialEq, Eq, Structural)]
pub struct PbrShader {
    pub flags: ShaderFlags,
    pub uniform_locations: PbrUniformLocations,
}

/// The uniform locations of a PBR shader (none are looked up yet).
#[derive(Clone, Copy, Debug, PartialEq, Eq, Structural)]
pub struct PbrUniformLocations {}

impl PbrShader {
    /// The shader variant for `flags`.
    pub fn new(flags: ShaderFlags) -> (res: PbrShader)
        ensures
            res.flags == flags,
            res.uniform_locations == (PbrUniformLocations {}),
    {
        PbrShader { flags, uniform_locations: PbrUniformLocations {} }
    }
}

} // verus!
