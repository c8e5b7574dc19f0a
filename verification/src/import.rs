//! Importing a glTF document from bytes, and reading from it the parts the
//! scene graph is built from.
use vstd::prelude::*;
use gltf::accessor::Dimensions;
use gltf::Semantic;
use crate::glb::{check_glb_length_underflows, glb_length_underflows};
use crate::vertex::Mat4Bits;
use crate::document::{
    GltfDocument, GltfMaterial, GltfMesh, GltfNode, GltfNormalTexture, GltfOcclusionTexture,
    GltfPrimitive, GltfScene, GltfTextureInfo,
};

verus! {

#[verifier::external_type_specification]
#[verifier::external_body]
pub struct ExDocument(gltf::Document);

#[verifier::external_type_specification]
#[verifier::external_body]
pub struct ExBufferData(gltf::buffer::Data);

#[verifier::external_type_specification]
#[verifier::external_body]
pub struct ExImageData(gltf::image::Data);

/// A document imported by gltf, with the buffers and images that the import
/// loaded for it (one per buffer and per image of the document, in order).
pub struct ImportData {
    pub doc: gltf::Document,
    pub buffers: Vec<gltf::buffer::Data>,
    pub images: Vec<gltf::image::Data>,
}

/// Where the reader finds an attribute of a primitive, or its indices.
#[derive(Clone, Copy, Debug, PartialEq, Eq, Structural)]
pub enum AttributeSlot {
    Positions,
    Normals,
    Tangents,
    TexCoords(u32),
    Colors(u32),
    Joints(u32),
    Weights(u32),
    Indices,
}

/// Whether an accessor holds scalars, vectors or matrices.
#[derive(Clone, Copy, Debug, PartialEq, Eq, Structural)]
pub enum Dims {
    Scalar,
    Vec2,
    Vec3,
    Vec4,
    Mat2,
    Mat3,
    Mat4,
}

/// Where a buffer view lies in its buffer, and its stride (none where the
/// data is tightly packed).
#[derive(Clone, Copy, Debug)]
pub struct ViewLayout {
    pub offset: usize,
    pub length: usize,
    pub stride: Option<usize>,
}

/// The sparse storage of an accessor: the number of replaced elements, the
/// size of an index, and the buffer views and offsets of the indices and of
/// the values.
#[derive(Clone, Copy, Debug)]
pub struct SparseLayout {
    pub count: usize,
    pub index_size: usize,
    pub indices_view: usize,
    pub indices_offset: usize,
    pub values_view: usize,
    pub values_offset: usize,
}

/// How a node stores its transform: a matrix (bits, column by column), or a
/// translation, a rotation (`x, y, z, w`) and a scale (bits).
#[derive(Clone, Copy, Debug)]
pub enum StoredTransform {
    Matrix(Mat4Bits),
    Decomposed([u32; 3], [u32; 4], [u32; 3]),
}

/// What importing `bytes` gives: the document and the data of its buffers,
/// or nothing where the importer rejects the bytes.
pub uninterp spec fn gltf_import(bytes: Seq<u8>) -> Option<(gltf::Document, Seq<gltf::buffer::Data>)>;

/// The URI of each buffer of the document that `bytes` parse to (none for
/// the binary chunk), or nothing where the bytes do not parse.
pub uninterp spec fn gltf_buffer_uris(bytes: Seq<u8>) -> Option<Seq<Option<Seq<char>>>>;

/// For each image of the document that `bytes` parse to, as its JSON gives
/// it: where it names a buffer view, that view's offset and length and the
/// declared length of its buffer; whether it has a MIME type; whether it has
/// a URI. Nothing where the bytes do not parse.
pub uninterp spec fn gltf_image_fields(bytes: Seq<u8>) -> Option<
    Seq<(Option<(usize, usize, usize)>, bool, bool)>,
>;

/// The children, mesh, camera and name of each node of an imported document.
pub uninterp spec fn gltf_nodes(document: gltf::Document) -> Seq<
    (Vec<usize>, Option<usize>, Option<usize>, Option<String>),
>;

/// The transform each node of an imported document stores.
pub uninterp spec fn gltf_node_transforms(document: gltf::Document) -> Seq<StoredTransform>;

/// The scenes of an imported document, in order.
pub uninterp spec fn gltf_scenes(document: gltf::Document) -> Seq<GltfScene>;

/// The number of primitives of each mesh of an imported document.
pub uninterp spec fn gltf_primitive_counts(document: gltf::Document) -> Seq<usize>;

/// The accessor that primitive `p` of mesh `m` reads `slot` from.
pub uninterp spec fn gltf_attribute_accessor(
    document: gltf::Document,
    m: int,
    p: int,
    slot: AttributeSlot,
) -> Option<usize>;

/// Accessor `a`: its component type (as its GL constant), dimensions, count,
/// offset, buffer view and whether it is sparse.
pub uninterp spec fn gltf_accessor_layout(document: gltf::Document, a: int) -> Option<
    (u32, Dims, usize, usize, Option<usize>, bool),
>;

/// Buffer view `v`.
pub uninterp spec fn gltf_view_layout(document: gltf::Document, v: int) -> Option<ViewLayout>;

/// The sparse storage of accessor `a`, where it has one.
pub uninterp spec fn gltf_accessor_sparse(document: gltf::Document, a: int) -> Option<SparseLayout>;

/// The positions of primitive `p` of mesh `m`.
pub uninterp spec fn gltf_positions(
    document: gltf::Document,
    buffers: Seq<gltf::buffer::Data>,
    m: int,
    p: int,
) -> Option<Vec<[u32; 3]>>;

/// The normals of primitive `p` of mesh `m`.
pub uninterp spec fn gltf_normals(
    document: gltf::Document,
    buffers: Seq<gltf::buffer::Data>,
    m: int,
    p: int,
) -> Option<Vec<[u32; 3]>>;

/// The tangents of primitive `p` of mesh `m`.
pub uninterp spec fn gltf_tangents(
    document: gltf::Document,
    buffers: Seq<gltf::buffer::Data>,
    m: int,
    p: int,
) -> Option<Vec<[u32; 4]>>;

/// Texture-coordinate set `set` of primitive `p` of mesh `m`, as `f32`s.
pub uninterp spec fn gltf_tex_coords(
    document: gltf::Document,
    buffers: Seq<gltf::buffer::Data>,
    m: int,
    p: int,
    set: int,
) -> Option<Vec<[u32; 2]>>;

/// Color set 0 of primitive `p` of mesh `m`, as RGBA `f32`s.
pub uninterp spec fn gltf_colors_0(
    document: gltf::Document,
    buffers: Seq<gltf::buffer::Data>,
    m: int,
    p: int,
) -> Option<Vec<[u32; 4]>>;

/// Joint set 0 of primitive `p` of mesh `m`, as `u16`s.
pub uninterp spec fn gltf_joints_0(
    document: gltf::Document,
    buffers: Seq<gltf::buffer::Data>,
    m: int,
    p: int,
) -> Option<Vec<[u16; 4]>>;

/// Weight set 0 of primitive `p` of mesh `m`, as `f32`s.
pub uninterp spec fn gltf_weights_0(
    document: gltf::Document,
    buffers: Seq<gltf::buffer::Data>,
    m: int,
    p: int,
) -> Option<Vec<[u32; 4]>>;

/// The indices of primitive `p` of mesh `m`, as `u32`s.
pub uninterp spec fn gltf_indices(
    document: gltf::Document,
    buffers: Seq<gltf::buffer::Data>,
    m: int,
    p: int,
) -> Option<Vec<u32>>;

/// The material of primitive `p` of mesh `m`.
pub uninterp spec fn gltf_material(document: gltf::Document, m: int, p: int) -> GltfMaterial;

// ---------------------------------------------------------------------------
// What the importer and the reader can handle.

/// A URI without a scheme, which a slice import cannot resolve.
pub open spec fn is_relative(uri: Seq<char>) -> bool {
    !uri.contains(':')
}

/// Every buffer URI of the parsed document names its scheme (a relative URI
/// makes the import fail, or, where it is not percent-encoded UTF-8, panic).
pub open spec fn buffers_resolvable(bytes: Seq<u8>) -> bool {
    gltf_buffer_uris(bytes) matches Some(uris) ==> forall|i: int|
        0 <= i < uris.len() ==> (#[trigger] uris[i] matches Some(u) ==> !is_relative(u))
}

/// An image as the importer can take it: one stored in a buffer view has a
/// MIME type and lies within its buffer's declared length (the import slices
/// the buffer data there); any other has a URI.
pub open spec fn image_loadable(image: (Option<(usize, usize, usize)>, bool, bool)) -> bool {
    match image.0 {
        Some(v) => image.1 && v.0 + v.1 <= v.2,
        None => image.2,
    }
}

/// Every image of the parsed document can be taken by the importer.
pub open spec fn images_loadable(bytes: Seq<u8>) -> bool {
    gltf_image_fields(bytes) matches Some(images) ==> forall|i: int|
        0 <= i < images.len() ==> image_loadable(#[trigger] images[i])
}

/// The byte size of a component, by its GL constant.
pub open spec fn component_size(gl: u32) -> int {
    if gl == 5120 || gl == 5121 {
        1
    } else if gl == 5122 || gl == 5123 {
        2
    } else {
        4
    }
}

/// The number of components of an element.
pub open spec fn multiplicity(d: Dims) -> int {
    match d {
        Dims::Scalar => 1,
        Dims::Vec2 => 2,
        Dims::Vec3 => 3,
        Dims::Vec4 => 4,
        Dims::Mat2 => 4,
        Dims::Mat3 => 9,
        Dims::Mat4 => 16,
    }
}

/// The byte size of the elements the reader reads for `slot` from an accessor
/// of component type `gl` and dimensions `d`, or nothing where the reader has
/// no case for them (`u8`: 5121, `u16`: 5123, `u32`: 5125, `f32`: 5126).
pub open spec fn element_size(slot: AttributeSlot, gl: u32, d: Dims) -> Option<int> {
    match slot {
        AttributeSlot::Positions => Some(12),
        AttributeSlot::Normals => Some(12),
        AttributeSlot::Tangents => Some(16),
        AttributeSlot::TexCoords(_) => if gl == 5121 || gl == 5123 || gl == 5126 {
            Some(2 * component_size(gl))
        } else {
            None
        },
        AttributeSlot::Colors(_) => if (gl == 5121 || gl == 5123 || gl == 5126) && (d == Dims::Vec3
            || d == Dims::Vec4) {
            Some(multiplicity(d) * component_size(gl))
        } else {
            None
        },
        AttributeSlot::Joints(_) => if gl == 5121 || gl == 5123 {
            Some(4 * component_size(gl))
        } else {
            None
        },
        AttributeSlot::Weights(_) => if gl == 5121 || gl == 5123 || gl == 5126 {
            Some(4 * component_size(gl))
        } else {
            None
        },
        AttributeSlot::Indices => if gl == 5121 || gl == 5123 || gl == 5125 {
            Some(component_size(gl))
        } else {
            None
        },
    }
}

/// The reader reads indices of unsigned bytes, shorts and ints (1, 2 and 4
/// bytes each) and no others; texture coordinates of two unsigned bytes,
/// shorts or floats; colors of three or four unsigned bytes, shorts or
/// floats; joints of four unsigned bytes or shorts; weights of four unsigned
/// bytes, shorts or floats; positions and normals of 12 bytes and tangents of
/// 16.
pub proof fn lemma_reader_element_sizes(d: Dims, set: u32)
    ensures
        element_size(AttributeSlot::Indices, 5121, d) == Some(1int),
        element_size(AttributeSlot::Indices, 5123, d) == Some(2int),
        element_size(AttributeSlot::Indices, 5125, d) == Some(4int),
        element_size(AttributeSlot::Indices, 5120, d) is None,
        element_size(AttributeSlot::Indices, 5122, d) is None,
        element_size(AttributeSlot::Indices, 5126, d) is None,
        element_size(AttributeSlot::TexCoords(set), 5121, d) == Some(2int),
        element_size(AttributeSlot::TexCoords(set), 5123, d) == Some(4int),
        element_size(AttributeSlot::TexCoords(set), 5126, d) == Some(8int),
        element_size(AttributeSlot::TexCoords(set), 5125, d) is None,
        element_size(AttributeSlot::Colors(set), 5121, Dims::Vec3) == Some(3int),
        element_size(AttributeSlot::Colors(set), 5123, Dims::Vec3) == Some(6int),
        element_size(AttributeSlot::Colors(set), 5126, Dims::Vec3) == Some(12int),
        element_size(AttributeSlot::Colors(set), 5121, Dims::Vec4) == Some(4int),
        element_size(AttributeSlot::Colors(set), 5123, Dims::Vec4) == Some(8int),
        element_size(AttributeSlot::Colors(set), 5126, Dims::Vec4) == Some(16int),
        element_size(AttributeSlot::Colors(set), 5126, Dims::Mat2) is None,
        element_size(AttributeSlot::Joints(set), 5121, d) == Some(4int),
        element_size(AttributeSlot::Joints(set), 5123, d) == Some(8int),
        element_size(AttributeSlot::Joints(set), 5126, d) is None,
        element_size(AttributeSlot::Weights(set), 5121, d) == Some(4int),
        element_size(AttributeSlot::Weights(set), 5123, d) == Some(8int),
        element_size(AttributeSlot::Weights(set), 5126, d) == Some(16int),
        element_size(AttributeSlot::Positions, 5126, d) == Some(12int),
        element_size(AttributeSlot::Normals, 5126, d) == Some(12int),
        element_size(AttributeSlot::Tangents, 5126, d) == Some(16int),
{
}

/// An index accessor of unsigned ints (or bytes, or shorts) that is not
/// sparse, holds scalars and reads a sound span of its buffer view can be
/// read.
pub proof fn lemma_scalar_indices_readable(document: gltf::Document, a: int)
    requires
        gltf_accessor_layout(document, a) matches Some((gl, dims, count, offset, view, sparse)) && {
            &&& gl == 5121 || gl == 5123 || gl == 5125
            &&& dims == Dims::Scalar
            &&& !sparse
            &&& view matches Some(v) && gltf_view_layout(document, v as int) matches Some(vl)
                && span_ok(vl, offset as int, count as int, component_size(gl))
        },
    ensures
        accessor_readable(document, a, AttributeSlot::Indices),
{
}

/// Reading `count` elements of `size` bytes from `offset` in a view: there is
/// an element, the stride is no shorter than an element, and neither the
/// end of the elements nor the end of the view overflows.
pub open spec fn span_ok(view: ViewLayout, offset: int, count: int, size: int) -> bool {
    let stride = match view.stride {
        Some(s) => s as int,
        None => size,
    };
    &&& count >= 1
    &&& stride >= size
    &&& offset + stride * (count - 1) + size <= usize::MAX
    &&& view.offset + view.length <= usize::MAX
}

/// The reader can read accessor `a` for `slot` without failing an assertion
/// or overflowing: it has a case for the accessor's component type and
/// dimensions, the element sizes agree, and every span it reads is sound.
pub open spec fn accessor_readable(document: gltf::Document, a: int, slot: AttributeSlot) -> bool {
    match gltf_accessor_layout(document, a) {
        None => false,
        Some((gl, dims, count, offset, view, sparse)) => match element_size(slot, gl, dims) {
            None => false,
            Some(size) => {
                &&& !sparse ==> multiplicity(dims) * component_size(gl) == size
                &&& view matches Some(v) ==> (gltf_view_layout(document, v as int) matches Some(
                    vl,
                ) && span_ok(vl, offset as int, count as int, size))
                &&& sparse ==> sparse_readable(document, a, count as int, size)
            },
        },
    }
}

/// The sparse storage of accessor `a` can be read: its indices and values
/// spans are sound, and the element count fits the reader's `u32` counter.
pub open spec fn sparse_readable(document: gltf::Document, a: int, count: int, size: int) -> bool {
    &&& count <= u32::MAX
    &&& gltf_accessor_sparse(document, a) matches Some(sp)
    &&& gltf_view_layout(document, sp.indices_view as int) matches Some(iv)
    &&& span_ok(iv, sp.indices_offset as int, sp.count as int, sp.index_size as int)
    &&& gltf_view_layout(document, sp.values_view as int) matches Some(vv)
    &&& span_ok(vv, sp.values_offset as int, sp.count as int, size)
}

/// The reader can read `slot` of primitive `p` of mesh `m`: it is missing, or
/// its accessor can be read.
pub open spec fn slot_readable(document: gltf::Document, m: int, p: int, slot: AttributeSlot) -> bool {
    match gltf_attribute_accessor(document, m, p, slot) {
        None => true,
        Some(a) => accessor_readable(document, a as int, slot),
    }
}

/// Texture-coordinate set `set` can be read.
pub open spec fn tex_set_readable(document: gltf::Document, m: int, p: int, set: int) -> bool {
    slot_readable(document, m, p, AttributeSlot::TexCoords(set as u32))
}

/// Mesh `m` of the document exists and has a primitive `p`.
pub open spec fn primitive_in_range(document: gltf::Document, m: int, p: int) -> bool {
    &&& 0 <= m < gltf_primitive_counts(document).len()
    &&& 0 <= p < gltf_primitive_counts(document)[m]
}

/// Every attribute that is read from primitive `p` of mesh `m` can be read:
/// positions, normals, tangents, colors, joints and weights of set 0, the
/// indices, and each texture-coordinate set up to the first that reads as
/// missing.
pub open spec fn primitive_readable(
    document: gltf::Document,
    buffers: Seq<gltf::buffer::Data>,
    m: int,
    p: int,
) -> bool {
    &&& slot_readable(document, m, p, AttributeSlot::Positions)
    &&& slot_readable(document, m, p, AttributeSlot::Normals)
    &&& slot_readable(document, m, p, AttributeSlot::Tangents)
    &&& slot_readable(document, m, p, AttributeSlot::Colors(0))
    &&& slot_readable(document, m, p, AttributeSlot::Joints(0))
    &&& slot_readable(document, m, p, AttributeSlot::Weights(0))
    &&& slot_readable(document, m, p, AttributeSlot::Indices)
    &&& forall|set: int|
        0 <= set < u32::MAX && (forall|k: int|
            0 <= k < set ==> #[trigger] gltf_tex_coords(document, buffers, m, p, k) is Some)
            ==> #[trigger] tex_set_readable(document, m, p, set)
}

/// Some node of the document has mesh `m`.
pub open spec fn mesh_referenced(document: gltf::Document, m: int) -> bool {
    exists|i: int|
        0 <= i < gltf_nodes(document).len() && #[trigger] gltf_nodes(document)[i].1 == Some(
            m as usize,
        )
}

/// Every primitive of every mesh that a node refers to can be read (the
/// scene graph reads no other mesh).
pub open spec fn document_readable(document: gltf::Document, buffers: Seq<gltf::buffer::Data>) -> bool {
    forall|m: int, p: int|
        primitive_in_range(document, m, p) && mesh_referenced(document, m)
            ==> #[trigger] primitive_readable(document, buffers, m, p)
}

/// The importer accepts `bytes` and every primitive of the meshes nodes refer
/// to can be read: the GLB header (if any) is no shorter than itself, every buffer URI
/// names its scheme, every image can be taken by the importer, the import
/// succeeds and its accessors can be read.
pub open spec fn import_succeeds(bytes: Seq<u8>) -> bool {
    &&& !glb_length_underflows(bytes)
    &&& buffers_resolvable(bytes)
    &&& images_loadable(bytes)
    &&& gltf_import(bytes) matches Some(imp)
    &&& document_readable(imp.0, imp.1)
}

// ---------------------------------------------------------------------------
// What is read.

/// The node's matrix and decomposition agree with what it stores: the stored
/// matrix, or the stored translation, rotation and scale. The other part is
/// computed in floating point from the stored one.
pub open spec fn transform_agrees(
    stored: StoredTransform,
    matrix: Mat4Bits,
    translation: [u32; 3],
    rotation: [u32; 4],
    scale: [u32; 3],
) -> bool {
    match stored {
        StoredTransform::Matrix(mx) => matrix == mx,
        StoredTransform::Decomposed(t, r, s) => translation == t && rotation == r && scale == s,
    }
}

/// `n` holds what is read of node `i`: its own position as index, its
/// children, mesh, camera and name, and a transform that agrees with the
/// stored one.
pub open spec fn node_models(document: gltf::Document, i: int, n: GltfNode) -> bool {
    let links = gltf_nodes(document)[i];
    &&& n.index == i
    &&& n.children == links.0
    &&& n.mesh == links.1
    &&& n.camera == links.2
    &&& n.name == links.3
    &&& transform_agrees(
        gltf_node_transforms(document)[i],
        n.matrix,
        n.translation,
        n.rotation,
        n.scale,
    )
}

/// `g` holds what the reader gives for primitive `p` of mesh `m`: each
/// attribute, the texture-coordinate sets up to the first that is missing,
/// the indices and the material.
pub open spec fn primitive_models(
    document: gltf::Document,
    buffers: Seq<gltf::buffer::Data>,
    m: int,
    p: int,
    g: GltfPrimitive,
) -> bool {
    &&& g.positions == gltf_positions(document, buffers, m, p)
    &&& g.normals == gltf_normals(document, buffers, m, p)
    &&& g.tangents == gltf_tangents(document, buffers, m, p)
    &&& forall|set: int|
        0 <= set < g.tex_coords@.len() ==> gltf_tex_coords(document, buffers, m, p, set) == Some(
            #[trigger] g.tex_coords@[set],
        )
    &&& g.tex_coords@.len() <= u32::MAX
    &&& g.tex_coords@.len() < u32::MAX ==> gltf_tex_coords(
        document,
        buffers,
        m,
        p,
        g.tex_coords@.len() as int,
    ) is None
    &&& g.colors_0 == gltf_colors_0(document, buffers, m, p)
    &&& g.joints_0 == gltf_joints_0(document, buffers, m, p)
    &&& g.weights_0 == gltf_weights_0(document, buffers, m, p)
    &&& g.indices == gltf_indices(document, buffers, m, p)
    &&& g.material == gltf_material(document, m, p)
}

/// `d` holds what is read from the imported document: its nodes, its scenes,
/// and its meshes, each with its position as index and, where a node refers
/// to it, its primitives (a mesh no node refers to is kept without them).
pub open spec fn models(document: gltf::Document, buffers: Seq<gltf::buffer::Data>, d: GltfDocument) -> bool {
    &&& d.nodes@.len() == gltf_nodes(document).len()
    &&& forall|i: int| 0 <= i < d.nodes@.len() ==> node_models(document, i, #[trigger] d.nodes@[i])
    &&& d.scenes@ == gltf_scenes(document)
    &&& d.meshes@.len() == gltf_primitive_counts(document).len()
    &&& forall|m: int|
        0 <= m < d.meshes@.len() ==> {
            &&& (#[trigger] d.meshes@[m]).index == m
            &&& !mesh_referenced(document, m) ==> d.meshes@[m].primitives@.len() == 0
            &&& mesh_referenced(document, m) ==> d.meshes@[m].primitives@.len()
                == gltf_primitive_counts(document)[m]
            &&& forall|p: int|
                0 <= p < d.meshes@[m].primitives@.len() ==> primitive_models(
                    document,
                    buffers,
                    m,
                    p,
                    #[trigger] d.meshes@[m].primitives@[p],
                )
        }
}

/// The views of optional strings.
pub open spec fn uri_views(uris: Seq<Option<String>>) -> Seq<Option<Seq<char>>> {
    uris.map_values(|u: Option<String>| match u {
        Some(s) => Some(s@),
        None => None,
    })
}

// ---------------------------------------------------------------------------
// Calls into gltf.

/// The buffer URIs of the document that `bytes` parse to, with
/// `gltf::Gltf::from_slice` (the parse that `gltf::import_slice` starts
/// with) and `Buffer::source`: a URI, or none for the binary chunk.
/// Claimed: the result is a function of the bytes alone.
#[verifier::external_body]
fn buffer_uris(bytes: &[u8]) -> (res: Option<Vec<Option<String>>>)
    requires
        !glb_length_underflows(bytes@),
    ensures
        match res {
            None => gltf_buffer_uris(bytes@) is None,
            Some(u) => gltf_buffer_uris(bytes@) == Some(uri_views(u@)),
        },
{
    gltf::Gltf::from_slice(bytes).ok().map(|g| g.buffers().map(|b| match b.source() {
        gltf::buffer::Source::Uri(u) => Some(u.to_string()),
        gltf::buffer::Source::Bin => None,
    }).collect())
}

/// For each image of the document that `bytes` parse to
/// (`gltf::Gltf::from_slice`), read from its JSON without `Image::source`
/// (which unwraps the MIME type of an image in a buffer view and the URI of
/// any other): its buffer view's offset and length and its buffer's declared
/// length (`Document::views`), whether it has a MIME type, whether it has a
/// URI. Claimed: the result is a function of the bytes alone.
#[verifier::external_body]
fn image_fields(bytes: &[u8]) -> (res: Option<Vec<(Option<(usize, usize, usize)>, bool, bool)>>)
    requires
        !glb_length_underflows(bytes@),
    ensures
        match res {
            None => gltf_image_fields(bytes@) is None,
            Some(v) => gltf_image_fields(bytes@) == Some(v@),
        },
{
    gltf::Gltf::from_slice(bytes).ok().map(|g| g.as_json().images.iter().map(|i| (
        i.buffer_view.as_ref().and_then(|v| g.views().nth(v.value())).map(|w| (w.offset(), w.length(), w.buffer().length())),
        i.mime_type.is_some(),
        i.uri.is_some(),
    )).collect())
}

/// Imports a glTF document from bytes with `gltf::import_slice`, which parses
/// the document (binary or JSON), validates it and loads its buffers and
/// images from the bytes and from data URIs; it reads no file, since the
/// import has no base path. It is called only where the GLB length does not
/// underflow, no buffer URI is relative, and every image in a buffer view has
/// a MIME type and lies in its buffer's declared length (the buffer data is
/// at least that long) and every other image has a URI, so that it does not
/// panic. Claimed: the document and buffer data are a
/// function of the bytes alone (`gltf_import`). Not claimed: which documents
/// it accepts.
#[verifier::external_body]
fn import_slice(bytes: &[u8]) -> (res: Option<ImportData>)
    requires
        !glb_length_underflows(bytes@),
        buffers_resolvable(bytes@),
        images_loadable(bytes@),
    ensures
        match res {
            None => gltf_import(bytes@) is None,
            Some(imp) => gltf_import(bytes@) == Some((imp.doc, imp.buffers@)),
        },
{
    gltf::import_slice(bytes).ok().map(|(doc, buffers, images)| ImportData { doc, buffers, images })
}

/// The number of nodes of the document (`Document::nodes`).
#[verifier::external_body]
fn node_count(document: &gltf::Document) -> (res: usize)
    ensures
        res == gltf_nodes(*document).len(),
        res == gltf_node_transforms(*document).len(),
{
    document.nodes().len()
}

/// Node `i` of the document (`Document::nodes`): its index, which is its
/// position `i`, the indices of its children, its mesh and camera, and its
/// name.
#[verifier::external_body]
fn node_at(document: &gltf::Document, i: usize) -> (res: Option<
    (usize, Vec<usize>, Option<usize>, Option<usize>, Option<String>),
>)
    ensures
        i < gltf_nodes(*document).len() ==> res == Some(
            (
                i,
                gltf_nodes(*document)[i as int].0,
                gltf_nodes(*document)[i as int].1,
                gltf_nodes(*document)[i as int].2,
                gltf_nodes(*document)[i as int].3,
            ),
        ),
{
    document.nodes().nth(i).map(|n| (
        n.index(),
        n.children().map(|c| c.index()).collect(),
        n.mesh().map(|m| m.index()),
        n.camera().map(|c| c.index()),
        n.name().map(|s| s.to_string()),
    ))
}

/// The matrix and the decomposed translation, rotation (`x, y, z, w`) and
/// scale of node `i` (`Transform::matrix`, `Transform::decomposed`), as bits.
/// Claimed: the part the node stores is returned as stored. The other part
/// is computed in floating point; nothing is claimed of its bits (a NaN's
/// bits are not fixed), so two calls may differ there.
#[verifier::external_body]
fn node_transform(document: &gltf::Document, i: usize) -> (res: Option<
    (Mat4Bits, [u32; 3], [u32; 4], [u32; 3]),
>)
    ensures
        i < gltf_node_transforms(*document).len() ==> res is Some,
        i < gltf_node_transforms(*document).len() ==> transform_agrees(
            gltf_node_transforms(*document)[i as int],
            res.unwrap().0,
            res.unwrap().1,
            res.unwrap().2,
            res.unwrap().3,
        ),
{
    document.nodes().nth(i).map(|n| {
        let (t, r, s) = n.transform().decomposed();
        let matrix = n.transform().matrix().map(|col| col.map(|x| x.to_bits()));
        (matrix, t.map(|x| x.to_bits()), r.map(|x| x.to_bits()), s.map(|x| x.to_bits()))
    })
}

/// The accessor that primitive `p` of mesh `m` reads `slot` from
/// (`Primitive::get` with the slot's semantic, or `Primitive::indices`).
#[verifier::external_body]
fn attribute_accessor(document: &gltf::Document, m: usize, p: usize, slot: AttributeSlot) -> (res:
    Option<usize>)
    ensures
        primitive_in_range(*document, m as int, p as int) ==> res == gltf_attribute_accessor(
            *document,
            m as int,
            p as int,
            slot,
        ),
{
    let prim = document.meshes().nth(m).and_then(|mesh| mesh.primitives().nth(p));
    prim.and_then(|g| match slot {
        AttributeSlot::Positions => g.get(&Semantic::Positions),
        AttributeSlot::Normals => g.get(&Semantic::Normals),
        AttributeSlot::Tangents => g.get(&Semantic::Tangents),
        AttributeSlot::TexCoords(s) => g.get(&Semantic::TexCoords(s)),
        AttributeSlot::Colors(s) => g.get(&Semantic::Colors(s)),
        AttributeSlot::Joints(s) => g.get(&Semantic::Joints(s)),
        AttributeSlot::Weights(s) => g.get(&Semantic::Weights(s)),
        AttributeSlot::Indices => g.indices(),
    }).map(|a| a.index())
}

/// Accessor `a` (`Document::accessors`): the GL constant of its component
/// type, its dimensions, count and offset, its buffer view and whether it is
/// sparse.
#[verifier::external_body]
fn accessor_layout(document: &gltf::Document, a: usize) -> (res: Option<
    (u32, Dims, usize, usize, Option<usize>, bool),
>)
    ensures
        res == gltf_accessor_layout(*document, a as int),
{
    document.accessors().nth(a).map(|acc| (
        acc.data_type().as_gl_enum(),
        match acc.dimensions() {
            Dimensions::Scalar => Dims::Scalar,
            Dimensions::Vec2 => Dims::Vec2,
            Dimensions::Vec3 => Dims::Vec3,
            Dimensions::Vec4 => Dims::Vec4,
            Dimensions::Mat2 => Dims::Mat2,
            Dimensions::Mat3 => Dims::Mat3,
            Dimensions::Mat4 => Dims::Mat4,
        },
        acc.count(), acc.offset(), acc.view().map(|v| v.index()), acc.sparse().is_some(),
    ))
}

/// Buffer view `v` (`Document::views`): its offset, length and stride.
#[verifier::external_body]
fn view_layout(document: &gltf::Document, v: usize) -> (res: Option<ViewLayout>)
    ensures
        res == gltf_view_layout(*document, v as int),
{
    document.views().nth(v).map(|w| ViewLayout { offset: w.offset(), length: w.length(), stride: w.stride() })
}

/// The sparse storage of accessor `a` (`Accessor::sparse`), where it has one.
#[verifier::external_body]
fn accessor_sparse(document: &gltf::Document, a: usize) -> (res: Option<SparseLayout>)
    ensures
        res == gltf_accessor_sparse(*document, a as int),
{
    document.accessors().nth(a).and_then(|acc| acc.sparse()).map(|sp| SparseLayout {
        count: sp.count(),
        index_size: sp.indices().index_type().size(),
        indices_view: sp.indices().view().index(),
        indices_offset: sp.indices().offset(),
        values_view: sp.values().view().index(),
        values_offset: sp.values().offset(),
    })
}

/// The positions of primitive `p` of mesh `m` (`Reader::read_positions`), as
/// bits. The reader takes buffer data from the buffers the import loaded; it
/// is called only where their accessor can be read.
#[verifier::external_body]
fn read_positions(
    document: &gltf::Document,
    buffers: &Vec<gltf::buffer::Data>,
    m: usize,
    p: usize,
) -> (res: Option<Vec<[u32; 3]>>)
    requires
        primitive_in_range(*document, m as int, p as int),
        slot_readable(*document, m as int, p as int, AttributeSlot::Positions),
    ensures
        res == gltf_positions(*document, buffers@, m as int, p as int),
{
    let prim = document.meshes().nth(m).and_then(|mesh| mesh.primitives().nth(p));
    prim.and_then(|g| g.reader(|b| buffers.get(b.index()).map(|d| &d.0[..])).read_positions().map(|it| it.map(|v| v.map(|x| x.to_bits())).collect()))
}

/// The normals of primitive `p` of mesh `m` (`Reader::read_normals`), as
/// bits. The reader takes buffer data from the buffers the import loaded; it
/// is called only where their accessor can be read.
#[verifier::external_body]
fn read_normals(
    document: &gltf::Document,
    buffers: &Vec<gltf::buffer::Data>,
    m: usize,
    p: usize,
) -> (res: Option<Vec<[u32; 3]>>)
    requires
        primitive_in_range(*document, m as int, p as int),
        slot_readable(*document, m as int, p as int, AttributeSlot::Normals),
    ensures
        res == gltf_normals(*document, buffers@, m as int, p as int),
{
    let prim = document.meshes().nth(m).and_then(|mesh| mesh.primitives().nth(p));
    prim.and_then(|g| g.reader(|b| buffers.get(b.index()).map(|d| &d.0[..])).read_normals().map(|it| it.map(|v| v.map(|x| x.to_bits())).collect()))
}

/// The tangents of primitive `p` of mesh `m` (`Reader::read_tangents`), as
/// bits. The reader takes buffer data from the buffers the import loaded; it
/// is called only where their accessor can be read.
#[verifier::external_body]
fn read_tangents(
    document: &gltf::Document,
    buffers: &Vec<gltf::buffer::Data>,
    m: usize,
    p: usize,
) -> (res: Option<Vec<[u32; 4]>>)
    requires
        primitive_in_range(*document, m as int, p as int),
        slot_readable(*document, m as int, p as int, AttributeSlot::Tangents),
    ensures
        res == gltf_tangents(*document, buffers@, m as int, p as int),
{
    let prim = document.meshes().nth(m).and_then(|mesh| mesh.primitives().nth(p));
    prim.and_then(|g| g.reader(|b| buffers.get(b.index()).map(|d| &d.0[..])).read_tangents().map(|it| it.map(|v| v.map(|x| x.to_bits())).collect()))
}

/// Texture-coordinate set `set` of primitive `p` of mesh `m`
/// (`Reader::read_tex_coords`, converted to `f32`), as bits. The reader takes
/// buffer data from the buffers the import loaded; it is called only where
/// the set's accessor can be read.
#[verifier::external_body]
fn read_tex_coords(
    document: &gltf::Document,
    buffers: &Vec<gltf::buffer::Data>,
    m: usize,
    p: usize,
    set: u32,
) -> (res: Option<Vec<[u32; 2]>>)
    requires
        primitive_in_range(*document, m as int, p as int),
        slot_readable(*document, m as int, p as int, AttributeSlot::TexCoords(set)),
    ensures
        res == gltf_tex_coords(*document, buffers@, m as int, p as int, set as int),
{
    let prim = document.meshes().nth(m).and_then(|mesh| mesh.primitives().nth(p));
    prim.and_then(|g| g.reader(|b| buffers.get(b.index()).map(|d| &d.0[..])).read_tex_coords(set).map(|it| it.into_f32().map(|v| v.map(|x| x.to_bits())).collect()))
}

/// Color set 0 of primitive `p` of mesh `m` (`Reader::read_colors`, converted
/// to RGBA `f32`), as bits. The reader takes buffer data from the buffers the
/// import loaded; it is called only where their accessor can be read.
#[verifier::external_body]
fn read_colors_0(
    document: &gltf::Document,
    buffers: &Vec<gltf::buffer::Data>,
    m: usize,
    p: usize,
) -> (res: Option<Vec<[u32; 4]>>)
    requires
        primitive_in_range(*document, m as int, p as int),
        slot_readable(*document, m as int, p as int, AttributeSlot::Colors(0)),
    ensures
        res == gltf_colors_0(*document, buffers@, m as int, p as int),
{
    let prim = document.meshes().nth(m).and_then(|mesh| mesh.primitives().nth(p));
    prim.and_then(|g| g.reader(|b| buffers.get(b.index()).map(|d| &d.0[..])).read_colors(0).map(|it| it.into_rgba_f32().map(|v| v.map(|x| x.to_bits())).collect()))
}

/// Joint set 0 of primitive `p` of mesh `m` (`Reader::read_joints`, converted
/// to `u16`). The reader takes buffer data from the buffers the import
/// loaded; it is called only where their accessor can be read.
#[verifier::external_body]
fn read_joints_0(
    document: &gltf::Document,
    buffers: &Vec<gltf::buffer::Data>,
    m: usize,
    p: usize,
) -> (res: Option<Vec<[u16; 4]>>)
    requires
        primitive_in_range(*document, m as int, p as int),
        slot_readable(*document, m as int, p as int, AttributeSlot::Joints(0)),
    ensures
        res == gltf_joints_0(*document, buffers@, m as int, p as int),
{
    let prim = document.meshes().nth(m).and_then(|mesh| mesh.primitives().nth(p));
    prim.and_then(|g| g.reader(|b| buffers.get(b.index()).map(|d| &d.0[..])).read_joints(0).map(|it| it.into_u16().collect()))
}

/// Weight set 0 of primitive `p` of mesh `m` (`Reader::read_weights`,
/// converted to `f32`), as bits. The reader takes buffer data from the
/// buffers the import loaded; it is called only where their accessor can be
/// read.
#[verifier::external_body]
fn read_weights_0(
    document: &gltf::Document,
    buffers: &Vec<gltf::buffer::Data>,
    m: usize,
    p: usize,
) -> (res: Option<Vec<[u32; 4]>>)
    requires
        primitive_in_range(*document, m as int, p as int),
        slot_readable(*document, m as int, p as int, AttributeSlot::Weights(0)),
    ensures
        res == gltf_weights_0(*document, buffers@, m as int, p as int),
{
    let prim = document.meshes().nth(m).and_then(|mesh| mesh.primitives().nth(p));
    prim.and_then(|g| g.reader(|b| buffers.get(b.index()).map(|d| &d.0[..])).read_weights(0).map(|it| it.into_f32().map(|v| v.map(|x| x.to_bits())).collect()))
}

/// The indices of primitive `p` of mesh `m` (`Reader::read_indices`,
/// converted to `u32`). The reader takes buffer data from the buffers the
/// import loaded; it is called only where their accessor can be read.
#[verifier::external_body]
fn read_indices(
    document: &gltf::Document,
    buffers: &Vec<gltf::buffer::Data>,
    m: usize,
    p: usize,
) -> (res: Option<Vec<u32>>)
    requires
        primitive_in_range(*document, m as int, p as int),
        slot_readable(*document, m as int, p as int, AttributeSlot::Indices),
    ensures
        res == gltf_indices(*document, buffers@, m as int, p as int),
{
    let prim = document.meshes().nth(m).and_then(|mesh| mesh.primitives().nth(p));
    prim.and_then(|g| g.reader(|b| buffers.get(b.index()).map(|d| &d.0[..])).read_indices().map(|it| it.into_u32().collect()))
}

/// The number of scenes of the document (`Document::scenes`).
#[verifier::external_body]
fn scene_count(document: &gltf::Document) -> (res: usize)
    ensures
        res == gltf_scenes(*document).len(),
{
    document.scenes().len()
}

/// Scene `i` of the document (`Document::scenes`): its name and the indices
/// of its root nodes.
#[verifier::external_body]
fn scene_at(document: &gltf::Document, i: usize) -> (res: Option<GltfScene>)
    ensures
        i < gltf_scenes(*document).len() ==> res == Some(gltf_scenes(*document)[i as int]),
{
    document.scenes().nth(i).map(
        |s| GltfScene { name: s.name().map(|n| n.to_string()), nodes: s.nodes().map(|n| n.index()).collect() },
    )
}

/// The number of meshes of the document (`Document::meshes`).
#[verifier::external_body]
fn mesh_count(document: &gltf::Document) -> (res: usize)
    ensures
        res == gltf_primitive_counts(*document).len(),
{
    document.meshes().len()
}

/// The index of mesh `m` (`Document::meshes`), which is its position `m`,
/// and its number of primitives.
#[verifier::external_body]
fn mesh_at(document: &gltf::Document, m: usize) -> (res: Option<(usize, usize)>)
    ensures
        m < gltf_primitive_counts(*document).len() ==> res == Some(
            (m, gltf_primitive_counts(*document)[m as int]),
        ),
{
    document.meshes().nth(m).map(|mesh| (mesh.index(), mesh.primitives().len()))
}

/// The glTF index, name, emissive factor (bits) and emissive texture of the
/// material of primitive `p` of mesh `m` (`Primitive::material`).
#[verifier::external_body]
fn material_basics(document: &gltf::Document, m: usize, p: usize) -> (res: Option<
    (Option<usize>, Option<String>, [u32; 3], Option<GltfTextureInfo>),
>)
    ensures
        primitive_in_range(*document, m as int, p as int) ==> res == Some(
            (
                gltf_material(*document, m as int, p as int).index,
                gltf_material(*document, m as int, p as int).name,
                gltf_material(*document, m as int, p as int).emissive_factor,
                gltf_material(*document, m as int, p as int).emissive_texture,
            ),
        ),
{
    let prim = document.meshes().nth(m).and_then(|mesh| mesh.primitives().nth(p));
    prim.map(|g| g.material()).map(|mat| (
        mat.index(),
        mat.name().map(|s| s.to_string()),
        mat.emissive_factor().map(|x| x.to_bits()),
        mat.emissive_texture().map(|i| GltfTextureInfo { texture: i.texture().index(), tex_coord: i.tex_coord() }),
    ))
}

/// The base color and metallic-roughness textures of the material of
/// primitive `p` of mesh `m` (`Material::pbr_metallic_roughness`).
#[verifier::external_body]
fn material_pbr_textures(document: &gltf::Document, m: usize, p: usize) -> (res: Option<(Option<GltfTextureInfo>, Option<GltfTextureInfo>)>)
    ensures
        primitive_in_range(*document, m as int, p as int) ==> res == Some(
            (
                gltf_material(*document, m as int, p as int).base_color_texture,
                gltf_material(*document, m as int, p as int).metallic_roughness_texture,
            ),
        ),
{
    let prim = document.meshes().nth(m).and_then(|mesh| mesh.primitives().nth(p));
    prim.map(|g| g.material().pbr_metallic_roughness()).map(|pbr| (
        pbr.base_color_texture().map(|i| GltfTextureInfo { texture: i.texture().index(), tex_coord: i.tex_coord() }),
        pbr.metallic_roughness_texture().map(|i| GltfTextureInfo { texture: i.texture().index(), tex_coord: i.tex_coord() }),
    ))
}

/// The normal texture (with its scale, bits) and occlusion texture (with its
/// strength, bits) of the material of primitive `p` of mesh `m`
/// (`Primitive::material`).
#[verifier::external_body]
fn material_detail_textures(document: &gltf::Document, m: usize, p: usize) -> (res: Option<(Option<GltfNormalTexture>, Option<GltfOcclusionTexture>)>)
    ensures
        primitive_in_range(*document, m as int, p as int) ==> res == Some(
            (
                gltf_material(*document, m as int, p as int).normal_texture,
                gltf_material(*document, m as int, p as int).occlusion_texture,
            ),
        ),
{
    let prim = document.meshes().nth(m).and_then(|mesh| mesh.primitives().nth(p));
    prim.map(|g| g.material()).map(|mat| (
        mat.normal_texture().map(|n| GltfNormalTexture { texture: n.texture().index(), tex_coord: n.tex_coord(), scale: n.scale().to_bits() }),
        mat.occlusion_texture().map(|o| GltfOcclusionTexture { texture: o.texture().index(), tex_coord: o.tex_coord(), strength: o.strength().to_bits() }),
    ))
}

// ---------------------------------------------------------------------------
// Checks and reading.

/// The byte size of a component, by its GL constant.
fn component_size_of(gl: u32) -> (res: usize)
    ensures
        res == component_size(gl),
{
    if gl == 5120 || gl == 5121 {
        1
    } else if gl == 5122 || gl == 5123 {
        2
    } else {
        4
    }
}

/// The number of components of an element.
fn multiplicity_of(d: Dims) -> (res: usize)
    ensures
        res == multiplicity(d),
{
    match d {
        Dims::Scalar => 1,
        Dims::Vec2 => 2,
        Dims::Vec3 => 3,
        Dims::Vec4 => 4,
        Dims::Mat2 => 4,
        Dims::Mat3 => 9,
        Dims::Mat4 => 16,
    }
}

/// The byte size of the elements the reader reads for `slot`, or nothing
/// where it has no case for the component type and dimensions.
fn element_size_of(slot: AttributeSlot, gl: u32, d: Dims) -> (res: Option<usize>)
    ensures
        match res {
            Some(s) => element_size(slot, gl, d) == Some(s as int),
            None => element_size(slot, gl, d) is None,
        },
{
    let cs = component_size_of(gl);
    let float_or_unsigned = gl == 5121 || gl == 5123 || gl == 5126;
    match slot {
        AttributeSlot::Positions => Some(12),
        AttributeSlot::Normals => Some(12),
        AttributeSlot::Tangents => Some(16),
        AttributeSlot::TexCoords(_) => if float_or_unsigned {
            Some(2 * cs)
        } else {
            None
        },
        AttributeSlot::Colors(_) => if float_or_unsigned && (d == Dims::Vec3 || d == Dims::Vec4) {
            Some(multiplicity_of(d) * cs)
        } else {
            None
        },
        AttributeSlot::Joints(_) => if gl == 5121 || gl == 5123 {
            Some(4 * cs)
        } else {
            None
        },
        AttributeSlot::Weights(_) => if float_or_unsigned {
            Some(4 * cs)
        } else {
            None
        },
        AttributeSlot::Indices => if gl == 5121 || gl == 5123 || gl == 5125 {
            Some(cs)
        } else {
            None
        },
    }
}

/// Whether reading `count` elements of `size` bytes from `offset` in `view`
/// is sound.
fn check_span(view: ViewLayout, offset: usize, count: usize, size: usize) -> (res: bool)
    ensures
        res == span_ok(view, offset as int, count as int, size as int),
{
    let stride = match view.stride {
        Some(s) => s,
        None => size,
    };
    if count == 0 || stride < size {
        return false;
    }
    let end = match stride.checked_mul(count - 1) {
        Some(x) => match x.checked_add(offset) {
            Some(y) => y.checked_add(size),
            None => None,
        },
        None => None,
    };
    end.is_some() && view.offset.checked_add(view.length).is_some()
}

/// Whether the sparse storage of accessor `a` can be read.
fn check_sparse(document: &gltf::Document, a: usize, count: usize, size: usize) -> (res: bool)
    ensures
        res == sparse_readable(*document, a as int, count as int, size as int),
{
    if count > 4294967295usize {
        return false;
    }
    let sp = match accessor_sparse(document, a) {
        Some(sp) => sp,
        None => return false,
    };
    let iv = match view_layout(document, sp.indices_view) {
        Some(v) => v,
        None => return false,
    };
    if !check_span(iv, sp.indices_offset, sp.count, sp.index_size) {
        return false;
    }
    match view_layout(document, sp.values_view) {
        Some(vv) => check_span(vv, sp.values_offset, sp.count, size),
        None => false,
    }
}

/// Whether accessor `a` can be read for `slot`.
fn check_accessor(document: &gltf::Document, a: usize, slot: AttributeSlot) -> (res: bool)
    ensures
        res == accessor_readable(*document, a as int, slot),
{
    let (gl, dims, count, offset, view, sparse) = match accessor_layout(document, a) {
        Some(l) => l,
        None => return false,
    };
    let size = match element_size_of(slot, gl, dims) {
        Some(s) => s,
        None => return false,
    };
    if !sparse && multiplicity_of(dims) * component_size_of(gl) != size {
        return false;
    }
    if let Some(v) = view {
        match view_layout(document, v) {
            Some(vl) => if !check_span(vl, offset, count, size) {
                return false;
            },
            None => return false,
        }
    }
    !sparse || check_sparse(document, a, count, size)
}

/// Whether `slot` of primitive `p` of mesh `m` can be read.
fn check_slot(document: &gltf::Document, m: usize, p: usize, slot: AttributeSlot) -> (res: bool)
    requires
        primitive_in_range(*document, m as int, p as int),
    ensures
        res == slot_readable(*document, m as int, p as int, slot),
{
    match attribute_accessor(document, m, p, slot) {
        None => true,
        Some(a) => check_accessor(document, a, slot),
    }
}

/// The texture-coordinate sets of primitive `p` of mesh `m`, up to the first
/// set that is missing (or, at most, as many as a `u32` counts); nothing
/// where a set on the way cannot be read.
fn read_tex_coord_sets(imp: &ImportData, m: usize, p: usize) -> (res: Option<Vec<Vec<[u32; 2]>>>)
    requires
        primitive_in_range(imp.doc, m as int, p as int),
    ensures
        res is Some <==> forall|set: int|
            0 <= set < u32::MAX && (forall|k: int|
                0 <= k < set ==> #[trigger] gltf_tex_coords(imp.doc, imp.buffers@, m as int, p as int, k) is Some)
                ==> #[trigger] tex_set_readable(imp.doc, m as int, p as int, set),
        res matches Some(sets) ==> {
            &&& sets@.len() <= u32::MAX
            &&& forall|set: int|
                0 <= set < sets@.len() ==> gltf_tex_coords(
                    imp.doc,
                    imp.buffers@,
                    m as int,
                    p as int,
                    set,
                ) == Some(#[trigger] sets@[set])
            &&& sets@.len() < u32::MAX ==> gltf_tex_coords(
                imp.doc,
                imp.buffers@,
                m as int,
                p as int,
                sets@.len() as int,
            ) is None
        },
{
    let ghost doc = imp.doc;
    let ghost bufs = imp.buffers@;
    let mut sets: Vec<Vec<[u32; 2]>> = Vec::new();
    let mut set: u32 = 0;
    while set < u32::MAX
        invariant
            doc == imp.doc,
            bufs == imp.buffers@,
            primitive_in_range(doc, m as int, p as int),
            sets@.len() == set,
            forall|k: int|
                0 <= k < sets@.len() ==> gltf_tex_coords(doc, bufs, m as int, p as int, k) == Some(
                    #[trigger] sets@[k],
                ),
            forall|k: int| 0 <= k < set ==> #[trigger] tex_set_readable(doc, m as int, p as int, k),
        decreases u32::MAX - set,
    {
        if !check_slot(&imp.doc, m, p, AttributeSlot::TexCoords(set)) {
            proof {
                assert(!tex_set_readable(doc, m as int, p as int, set as int));
                assert forall|k: int| 0 <= k < set implies #[trigger] gltf_tex_coords(
                    doc,
                    bufs,
                    m as int,
                    p as int,
                    k,
                ) is Some by {
                    assert(gltf_tex_coords(doc, bufs, m as int, p as int, k) == Some(sets@[k]));
                }
            }
            return None;
        }
        proof {
            assert(tex_set_readable(doc, m as int, p as int, set as int));
        }
        match read_tex_coords(&imp.doc, &imp.buffers, m, p, set) {
            Some(coords) => {
                sets.push(coords);
                set = set + 1;
            },
            None => {
                proof {
                    assert forall|s: int|
                        0 <= s < u32::MAX && (forall|k: int|
                            0 <= k < s ==> #[trigger] gltf_tex_coords(doc, bufs, m as int, p as int, k)
                                is Some) implies #[trigger] tex_set_readable(doc, m as int, p as int, s) by {
                        if s > set {
                            assert(gltf_tex_coords(doc, bufs, m as int, p as int, set as int) is None);
                        }
                    }
                }
                return Some(sets);
            },
        }
    }
    proof {
        assert forall|s: int|
            0 <= s < u32::MAX && (forall|k: int|
                0 <= k < s ==> #[trigger] gltf_tex_coords(doc, bufs, m as int, p as int, k) is Some)
                implies #[trigger] tex_set_readable(doc, m as int, p as int, s) by {}
    }
    Some(sets)
}

/// Primitive `p` of mesh `m` as read from the import, or nothing where one
/// of its attributes cannot be read.
fn primitive_model(imp: &ImportData, m: usize, p: usize) -> (res: Option<GltfPrimitive>)
    requires
        primitive_in_range(imp.doc, m as int, p as int),
    ensures
        res is Some <==> primitive_readable(imp.doc, imp.buffers@, m as int, p as int),
        res matches Some(g) ==> primitive_models(imp.doc, imp.buffers@, m as int, p as int, g),
{
    let doc = &imp.doc;
    if !(check_slot(doc, m, p, AttributeSlot::Positions) && check_slot(doc, m, p, AttributeSlot::Normals)
        && check_slot(doc, m, p, AttributeSlot::Tangents) && check_slot(doc, m, p, AttributeSlot::Colors(0))
        && check_slot(doc, m, p, AttributeSlot::Joints(0)) && check_slot(doc, m, p, AttributeSlot::Weights(0))
        && check_slot(doc, m, p, AttributeSlot::Indices)) {
        return None;
    }
    let tex_coords = match read_tex_coord_sets(imp, m, p) {
        Some(t) => t,
        None => return None,
    };
    let (index, name, emissive_factor, emissive_texture) = match material_basics(doc, m, p) {
        Some(b) => b,
        None => (None, None, [0, 0, 0], None),
    };
    let (base_color_texture, metallic_roughness_texture) = match material_pbr_textures(doc, m, p) {
        Some(t) => t,
        None => (None, None),
    };
    let (normal_texture, occlusion_texture) = match material_detail_textures(doc, m, p) {
        Some(t) => t,
        None => (None, None),
    };
    Some(
        GltfPrimitive {
            positions: read_positions(doc, &imp.buffers, m, p),
            normals: read_normals(doc, &imp.buffers, m, p),
            tangents: read_tangents(doc, &imp.buffers, m, p),
            tex_coords,
            colors_0: read_colors_0(doc, &imp.buffers, m, p),
            joints_0: read_joints_0(doc, &imp.buffers, m, p),
            weights_0: read_weights_0(doc, &imp.buffers, m, p),
            indices: read_indices(doc, &imp.buffers, m, p),
            material: GltfMaterial {
                index,
                name,
                base_color_texture,
                metallic_roughness_texture,
                normal_texture,
                occlusion_texture,
                emissive_texture,
                emissive_factor,
            },
        },
    )
}

/// The nodes of the import, in order.
fn nodes_model(imp: &ImportData) -> (res: Vec<GltfNode>)
    ensures
        res@.len() == gltf_nodes(imp.doc).len(),
        forall|i: int| 0 <= i < res@.len() ==> node_models(imp.doc, i, #[trigger] res@[i]),
{
    let mut nodes: Vec<GltfNode> = Vec::new();
    let node_total = node_count(&imp.doc);
    let mut i: usize = 0;
    while i < node_total
        invariant
            node_total == gltf_nodes(imp.doc).len(),
            node_total == gltf_node_transforms(imp.doc).len(),
            i <= node_total,
            nodes@.len() == i,
            forall|j: int| 0 <= j < i ==> node_models(imp.doc, j, #[trigger] nodes@[j]),
        decreases node_total - i,
    {
        if let (Some((index, children, mesh, camera, name)), Some((matrix, translation, rotation, scale))) = (
            node_at(&imp.doc, i),
            node_transform(&imp.doc, i),
        ) {
            nodes.push(
                GltfNode { index, children, mesh, camera, name, matrix, translation, rotation, scale },
            );
        }
        i = i + 1;
    }
    nodes
}

/// The scenes of the import, in order.
fn scenes_model(imp: &ImportData) -> (res: Vec<GltfScene>)
    ensures
        res@ == gltf_scenes(imp.doc),
{
    let mut scenes: Vec<GltfScene> = Vec::new();
    let scene_total = scene_count(&imp.doc);
    let mut i: usize = 0;
    while i < scene_total
        invariant
            scene_total == gltf_scenes(imp.doc).len(),
            i <= scene_total,
            scenes@ == gltf_scenes(imp.doc).take(i as int),
        decreases scene_total - i,
    {
        if let Some(scene) = scene_at(&imp.doc, i) {
            scenes.push(scene);
        }
        i = i + 1;
        assert(scenes@ =~= gltf_scenes(imp.doc).take(i as int));
    }
    assert(gltf_scenes(imp.doc).take(scene_total as int) =~= gltf_scenes(imp.doc));
    scenes
}

/// Whether some node of `nodes`, as read from the import, has mesh `m`.
fn mesh_is_referenced(imp: &ImportData, nodes: &Vec<GltfNode>, m: usize) -> (res: bool)
    requires
        nodes@.len() == gltf_nodes(imp.doc).len(),
        forall|i: int| 0 <= i < nodes@.len() ==> node_models(imp.doc, i, #[trigger] nodes@[i]),
    ensures
        res == mesh_referenced(imp.doc, m as int),
{
    let mut i: usize = 0;
    while i < nodes.len()
        invariant
            nodes@.len() == gltf_nodes(imp.doc).len(),
            forall|k: int| 0 <= k < nodes@.len() ==> node_models(imp.doc, k, #[trigger] nodes@[k]),
            i <= nodes@.len(),
            forall|k: int| 0 <= k < i ==> #[trigger] gltf_nodes(imp.doc)[k].1 != Some(m),
        decreases nodes@.len() - i,
    {
        let found = match nodes[i].mesh {
            Some(x) => x == m,
            None => false,
        };
        assert(node_models(imp.doc, i as int, nodes@[i as int]));
        if found {
            assert(gltf_nodes(imp.doc)[i as int].1 == Some(m));
            return true;
        }
        i = i + 1;
    }
    false
}

/// The document as read from the import, or nothing where a primitive of a
/// mesh that a node refers to cannot be read. A mesh no node refers to is
/// kept without its primitives.
fn document_model(imp: &ImportData) -> (res: Option<GltfDocument>)
    ensures
        res is Some <==> document_readable(imp.doc, imp.buffers@),
        res matches Some(d) ==> models(imp.doc, imp.buffers@, d),
{
    let nodes = nodes_model(imp);
    let scenes = scenes_model(imp);
    let mut meshes: Vec<GltfMesh> = Vec::new();
    let mesh_total = mesh_count(&imp.doc);
    let mut m: usize = 0;
    while m < mesh_total
        invariant
            mesh_total == gltf_primitive_counts(imp.doc).len(),
            nodes@.len() == gltf_nodes(imp.doc).len(),
            forall|i: int| 0 <= i < nodes@.len() ==> node_models(imp.doc, i, #[trigger] nodes@[i]),
            m <= mesh_total,
            meshes@.len() == m,
            forall|k: int, q: int|
                0 <= k < m && primitive_in_range(imp.doc, k, q) && mesh_referenced(imp.doc, k)
                    ==> #[trigger] primitive_readable(imp.doc, imp.buffers@, k, q),
            forall|k: int|
                0 <= k < m ==> {
                    &&& (#[trigger] meshes@[k]).index == k
                    &&& !mesh_referenced(imp.doc, k) ==> meshes@[k].primitives@.len() == 0
                    &&& mesh_referenced(imp.doc, k) ==> meshes@[k].primitives@.len()
                        == gltf_primitive_counts(imp.doc)[k]
                    &&& forall|q: int|
                        0 <= q < meshes@[k].primitives@.len() ==> primitive_models(
                            imp.doc,
                            imp.buffers@,
                            k,
                            q,
                            #[trigger] meshes@[k].primitives@[q],
                        )
                },
        decreases mesh_total - m,
    {
        let (index, count) = match mesh_at(&imp.doc, m) {
            Some(info) => info,
            None => (m, 0),
        };
        let referenced = mesh_is_referenced(imp, &nodes, m);
        let primitive_total = if referenced {
            count
        } else {
            0
        };
        let mut primitives: Vec<GltfPrimitive> = Vec::new();
        let mut p: usize = 0;
        while p < primitive_total
            invariant
                m < mesh_total,
                mesh_total == gltf_primitive_counts(imp.doc).len(),
                referenced == mesh_referenced(imp.doc, m as int),
                referenced ==> primitive_total == gltf_primitive_counts(imp.doc)[m as int],
                !referenced ==> primitive_total == 0,
                p <= primitive_total,
                primitives@.len() == p,
                forall|q: int|
                    0 <= q < p ==> #[trigger] primitive_readable(imp.doc, imp.buffers@, m as int, q),
                forall|q: int|
                    0 <= q < p ==> primitive_models(
                        imp.doc,
                        imp.buffers@,
                        m as int,
                        q,
                        #[trigger] primitives@[q],
                    ),
            decreases primitive_total - p,
        {
            match primitive_model(imp, m, p) {
                Some(g) => primitives.push(g),
                None => {
                    assert(primitive_in_range(imp.doc, m as int, p as int));
                    return None;
                },
            }
            p = p + 1;
        }
        meshes.push(GltfMesh { index, primitives });
        m = m + 1;
    }
    Some(GltfDocument { nodes, meshes, scenes })
}

/// Whether `uri` names its scheme.
fn has_scheme(uri: &String) -> (res: bool)
    ensures
        res == !is_relative(uri@),
{
    let s = uri.as_str();
    let n = s.unicode_len();
    let mut i: usize = 0;
    while i < n
        invariant
            n == s@.len(),
            s@ == uri@,
            i <= n,
            forall|j: int| 0 <= j < i ==> s@[j] != ':',
        decreases n - i,
    {
        if s.get_char(i) == ':' {
            return true;
        }
        i = i + 1;
    }
    false
}

/// Whether every buffer URI of the parsed bytes names its scheme.
fn check_buffers_resolvable(bytes: &[u8]) -> (res: bool)
    requires
        !glb_length_underflows(bytes@),
    ensures
        res == buffers_resolvable(bytes@),
{
    let uris = match buffer_uris(bytes) {
        Some(u) => u,
        None => return true,
    };
    let ghost views = uri_views(uris@);
    let mut i: usize = 0;
    while i < uris.len()
        invariant
            views == uri_views(uris@),
            gltf_buffer_uris(bytes@) == Some(views),
            i <= uris@.len(),
            forall|j: int| 0 <= j < i ==> (#[trigger] views[j] matches Some(u) ==> !is_relative(u)),
        decreases uris@.len() - i,
    {
        if let Some(u) = &uris[i] {
            if !has_scheme(u) {
                assert(views[i as int] == Some(u@));
                assert(gltf_buffer_uris(bytes@) == Some(views));
                assert(!(views[i as int] matches Some(w) ==> !is_relative(w)));
                return false;
            }
        }
        i = i + 1;
    }
    assert(gltf_buffer_uris(bytes@) == Some(views));
    true
}

/// Whether every image of the parsed bytes can be taken by the importer.
fn check_images_loadable(bytes: &[u8]) -> (res: bool)
    requires
        !glb_length_underflows(bytes@),
    ensures
        res == images_loadable(bytes@),
{
    let images = match image_fields(bytes) {
        Some(v) => v,
        None => return true,
    };
    let mut i: usize = 0;
    while i < images.len()
        invariant
            gltf_image_fields(bytes@) == Some(images@),
            i <= images@.len(),
            forall|j: int| 0 <= j < i ==> image_loadable(#[trigger] images@[j]),
        decreases images@.len() - i,
    {
        let (view, has_mime, has_uri) = images[i];
        let ok = match view {
            Some((offset, length, buffer_length)) => has_mime && offset <= buffer_length && length
                <= buffer_length - offset,
            None => has_uri,
        };
        if !ok {
            assert(images@[i as int] == (view, has_mime, has_uri));
            assert(!image_loadable(images@[i as int]));
            assert(gltf_image_fields(bytes@) == Some(images@));
            assert(!images_loadable(bytes@)) by {
                let imgs = gltf_image_fields(bytes@).unwrap();
                assert(imgs == images@);
                assert(!image_loadable(imgs[i as int]));
            }
            return false;
        }
        i = i + 1;
    }
    true
}

/// Imports a glTF document from bytes and reads from it the parts the scene
/// graph is built from. There is no document where the GLB header's length
/// is shorter than the header, a buffer URI has no scheme (a slice import
/// cannot resolve it), an image lacks the MIME type or URI the importer
/// unwraps or lies beyond its buffer's declared length, the importer
/// rejects the bytes, or an accessor of a mesh that a node refers to cannot
/// be read. A mesh no node refers to is kept without its primitives.
/// Each node carries its position as index, and its matrix or its
/// decomposition is the one it stores.
pub fn import_gltf(bytes: &[u8]) -> (res: Option<GltfDocument>)
    ensures
        res is Some <==> import_succeeds(bytes@),
        res matches Some(d) ==> models(gltf_import(bytes@).unwrap().0, gltf_import(bytes@).unwrap().1, d),
        res matches Some(d) ==> d.indices_are_positions(),
{
    if check_glb_length_underflows(bytes) || !check_buffers_resolvable(bytes) || !check_images_loadable(
        bytes,
    ) {
        return None;
    }
    match import_slice(bytes) {
        Some(imp) => document_model(&imp),
        None => None,
    }
}

} // verus!
