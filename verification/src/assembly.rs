//! Assembling the vertices of a primitive from its attributes.
use vstd::prelude::*;
use crate::document::GltfPrimitive;
use crate::shader::ShaderFlags;
use crate::vertex::{Vertex, zero2, zero3, zero4, zero_joints, zero_vertex};

verus! {

/// Element `i` of an optional attribute, or `default` past its end.
pub open spec fn attr_at<T>(attr: Option<Vec<T>>, i: int, default: T) -> T {
    match attr {
        Some(v) => if i < v@.len() {
            v@[i]
        } else {
            default
        },
        None => default,
    }
}

/// Coordinate `i` of texture-coordinate set `set`, or zero past its end.
pub open spec fn tex_coord_at(sets: Seq<Vec<[u32; 2]>>, set: int, i: int) -> [u32; 2] {
    if set < sets.len() && i < sets[set]@.len() {
        sets[set]@[i]
    } else {
        zero2()
    }
}

/// Vertex `i` of a primitive: its position, and each attribute that is
/// copied (normals only when `with_normals`), or zero where an attribute is
/// missing or shorter than the positions. Texture-coordinate sets past the
/// second are ignored.
pub open spec fn assembled_vertex(p: GltfPrimitive, i: int, with_normals: bool) -> Vertex {
    Vertex {
        position: p.positions.unwrap()@[i],
        normal: if with_normals {
            attr_at(p.normals, i, zero3())
        } else {
            zero3()
        },
        tangent: attr_at(p.tangents, i, zero4()),
        tex_coord_0: tex_coord_at(p.tex_coords@, 0, i),
        tex_coord_1: tex_coord_at(p.tex_coords@, 1, i),
        color_0: attr_at(p.colors_0, i, zero4()),
        joints_0: attr_at(p.joints_0, i, zero_joints()),
        weights_0: attr_at(p.weights_0, i, zero4()),
    }
}

/// The shader flags that a primitive's attributes call for: normals (only
/// when `with_normals`), tangents, texture coordinates and colors.
pub open spec fn attribute_flags(p: GltfPrimitive, with_normals: bool) -> u16 {
    let f0: u16 = 0;
    let f1 = if with_normals && p.normals is Some {
        f0 | ShaderFlags::HAS_NORMALS
    } else {
        f0
    };
    let f2 = if p.tangents is Some {
        f1 | ShaderFlags::HAS_TANGENTS
    } else {
        f1
    };
    let f3 = if p.tex_coords@.len() > 0 {
        f2 | ShaderFlags::HAS_UV
    } else {
        f2
    };
    if p.colors_0 is Some {
        f3 | ShaderFlags::HAS_COLORS
    } else {
        f3
    }
}

/// The attribute flags hold exactly the flags of the attributes present.
pub proof fn lemma_attribute_flags(p: GltfPrimitive, with_normals: bool)
    ensures
        ({
            let f = attribute_flags(p, with_normals);
            &&& (f & ShaderFlags::HAS_NORMALS == ShaderFlags::HAS_NORMALS) == (with_normals
                && p.normals is Some)
            &&& (f & ShaderFlags::HAS_TANGENTS == ShaderFlags::HAS_TANGENTS) == (p.tangents is Some)
            &&& (f & ShaderFlags::HAS_UV == ShaderFlags::HAS_UV) == (p.tex_coords@.len() > 0)
            &&& (f & ShaderFlags::HAS_COLORS == ShaderFlags::HAS_COLORS) == (p.colors_0 is Some)
            &&& f & !15u16 == 0
        }),
{
    let a = with_normals && p.normals is Some;
    let b = p.tangents is Some;
    let c = p.tex_coords@.len() > 0;
    let d = p.colors_0 is Some;
    let f = attribute_flags(p, with_normals);
    assert({
        &&& (f & 1 == 1) == a
        &&& (f & 2 == 2) == b
        &&& (f & 4 == 4) == c
        &&& (f & 8 == 8) == d
        &&& f & !15u16 == 0
    }) by (bit_vector)
        requires
            f == (if d {
                (if c {
                    (if b {
                        (if a {
                            0u16 | 1u16
                        } else {
                            0u16
                        }) | 2u16
                    } else {
                        (if a {
                            0u16 | 1u16
                        } else {
                            0u16
                        })
                    }) | 4u16
                } else {
                    (if b {
                        (if a {
                            0u16 | 1u16
                        } else {
                            0u16
                        }) | 2u16
                    } else {
                        (if a {
                            0u16 | 1u16
                        } else {
                            0u16
                        })
                    })
                }) | 8u16
            } else {
                (if c {
                    (if b {
                        (if a {
                            0u16 | 1u16
                        } else {
                            0u16
                        }) | 2u16
                    } else {
                        (if a {
                            0u16 | 1u16
                        } else {
                            0u16
                        })
                    }) | 4u16
                } else {
                    (if b {
                        (if a {
                            0u16 | 1u16
                        } else {
                            0u16
                        }) | 2u16
                    } else {
                        (if a {
                            0u16 | 1u16
                        } else {
                            0u16
                        })
                    })
                })
            }),
    ;
}

/// Copies `attr[i]` into the `normal` of vertex `i`, for each element of `attr`.
fn set_normals(vertices: &mut Vec<Vertex>, attr: &Vec<[u32; 3]>)
    requires
        attr@.len() <= old(vertices)@.len(),
    ensures
        final(vertices)@.len() == old(vertices)@.len(),
        forall|j: int|
            0 <= j < old(vertices)@.len() ==> #[trigger] final(vertices)@[j] == (if j < attr@.len() {
                Vertex { normal: attr@[j], ..old(vertices)@[j] }
            } else {
                old(vertices)@[j]
            }),
{
    let mut i: usize = 0;
    while i < attr.len()
        invariant
            i <= attr@.len(),
            attr@.len() <= vertices@.len(),
            vertices@.len() == old(vertices)@.len(),
            forall|j: int|
                0 <= j < vertices@.len() ==> #[trigger] vertices@[j] == (if j < i {
                    Vertex { normal: attr@[j], ..old(vertices)@[j] }
                } else {
                    old(vertices)@[j]
                }),
        decreases attr@.len() - i,
    {
        let mut v = vertices[i];
        v.normal = attr[i];
        vertices.set(i, v);
        i = i + 1;
    }
}

/// Copies `attr[i]` into the `tangent` of vertex `i`, for each element of `attr`.
fn set_tangents(vertices: &mut Vec<Vertex>, attr: &Vec<[u32; 4]>)
    requires
        attr@.len() <= old(vertices)@.len(),
    ensures
        final(vertices)@.len() == old(vertices)@.len(),
        forall|j: int|
            0 <= j < old(vertices)@.len() ==> #[trigger] final(vertices)@[j] == (if j < attr@.len() {
                Vertex { tangent: attr@[j], ..old(vertices)@[j] }
            } else {
                old(vertices)@[j]
            }),
{
    let mut i: usize = 0;
    while i < attr.len()
        invariant
            i <= attr@.len(),
            attr@.len() <= vertices@.len(),
            vertices@.len() == old(vertices)@.len(),
            forall|j: int|
                0 <= j < vertices@.len() ==> #[trigger] vertices@[j] == (if j < i {
                    Vertex { tangent: attr@[j], ..old(vertices)@[j] }
                } else {
                    old(vertices)@[j]
                }),
        decreases attr@.len() - i,
    {
        let mut v = vertices[i];
        v.tangent = attr[i];
        vertices.set(i, v);
        i = i + 1;
    }
}

/// Copies `attr[i]` into the `tex_coord_0` of vertex `i`, for each element of `attr`.
fn set_tex_coords_0(vertices: &mut Vec<Vertex>, attr: &Vec<[u32; 2]>)
    requires
        attr@.len() <= old(vertices)@.len(),
    ensures
        final(vertices)@.len() == old(vertices)@.len(),
        forall|j: int|
            0 <= j < old(vertices)@.len() ==> #[trigger] final(vertices)@[j] == (if j < attr@.len() {
                Vertex { tex_coord_0: attr@[j], ..old(vertices)@[j] }
            } else {
                old(vertices)@[j]
            }),
{
    let mut i: usize = 0;
    while i < attr.len()
        invariant
            i <= attr@.len(),
            attr@.len() <= vertices@.len(),
            vertices@.len() == old(vertices)@.len(),
            forall|j: int|
                0 <= j < vertices@.len() ==> #[trigger] vertices@[j] == (if j < i {
                    Vertex { tex_coord_0: attr@[j], ..old(vertices)@[j] }
                } else {
                    old(vertices)@[j]
                }),
        decreases attr@.len() - i,
    {
        let mut v = vertices[i];
        v.tex_coord_0 = attr[i];
        vertices.set(i, v);
        i = i + 1;
    }
}

/// Copies `attr[i]` into the `tex_coord_1` of vertex `i`, for each element of `attr`.
fn set_tex_coords_1(vertices: &mut Vec<Vertex>, attr: &Vec<[u32; 2]>)
    requires
        attr@.len() <= old(vertices)@.len(),
    ensures
        final(vertices)@.len() == old(vertices)@.len(),
        forall|j: int|
            0 <= j < old(vertices)@.len() ==> #[trigger] final(vertices)@[j] == (if j < attr@.len() {
                Vertex { tex_coord_1: attr@[j], ..old(vertices)@[j] }
            } else {
                old(vertices)@[j]
            }),
{
    let mut i: usize = 0;
    while i < attr.len()
        invariant
            i <= attr@.len(),
            attr@.len() <= vertices@.len(),
            vertices@.len() == old(vertices)@.len(),
            forall|j: int|
                0 <= j < vertices@.len() ==> #[trigger] vertices@[j] == (if j < i {
                    Vertex { tex_coord_1: attr@[j], ..old(vertices)@[j] }
                } else {
                    old(vertices)@[j]
                }),
        decreases attr@.len() - i,
    {
        let mut v = vertices[i];
        v.tex_coord_1 = attr[i];
        vertices.set(i, v);
        i = i + 1;
    }
}

/// Copies `attr[i]` into the `color_0` of vertex `i`, for each element of `attr`.
fn set_colors(vertices: &mut Vec<Vertex>, attr: &Vec<[u32; 4]>)
    requires
        attr@.len() <= old(vertices)@.len(),
    ensures
        final(vertices)@.len() == old(vertices)@.len(),
        forall|j: int|
            0 <= j < old(vertices)@.len() ==> #[trigger] final(vertices)@[j] == (if j < attr@.len() {
                Vertex { color_0: attr@[j], ..old(vertices)@[j] }
            } else {
                old(vertices)@[j]
            }),
{
    let mut i: usize = 0;
    while i < attr.len()
        invariant
            i <= attr@.len(),
            attr@.len() <= vertices@.len(),
            vertices@.len() == old(vertices)@.len(),
            forall|j: int|
                0 <= j < vertices@.len() ==> #[trigger] vertices@[j] == (if j < i {
                    Vertex { color_0: attr@[j], ..old(vertices)@[j] }
                } else {
                    old(vertices)@[j]
                }),
        decreases attr@.len() - i,
    {
        let mut v = vertices[i];
        v.color_0 = attr[i];
        vertices.set(i, v);
        i = i + 1;
    }
}

/// Copies `attr[i]` into the `joints_0` of vertex `i`, for each element of `attr`.
fn set_joints(vertices: &mut Vec<Vertex>, attr: &Vec<[u16; 4]>)
    requires
        attr@.len() <= old(vertices)@.len(),
    ensures
        final(vertices)@.len() == old(vertices)@.len(),
        forall|j: int|
            0 <= j < old(vertices)@.len() ==> #[trigger] final(vertices)@[j] == (if j < attr@.len() {
                Vertex { joints_0: attr@[j], ..old(vertices)@[j] }
            } else {
                old(vertices)@[j]
            }),
{
    let mut i: usize = 0;
    while i < attr.len()
        invariant
            i <= attr@.len(),
            attr@.len() <= vertices@.len(),
            vertices@.len() == old(vertices)@.len(),
            forall|j: int|
                0 <= j < vertices@.len() ==> #[trigger] vertices@[j] == (if j < i {
                    Vertex { joints_0: attr@[j], ..old(vertices)@[j] }
                } else {
                    old(vertices)@[j]
                }),
        decreases attr@.len() - i,
    {
        let mut v = vertices[i];
        v.joints_0 = attr[i];
        vertices.set(i, v);
        i = i + 1;
    }
}

/// Copies `attr[i]` into the `weights_0` of vertex `i`, for each element of `attr`.
fn set_weights(vertices: &mut Vec<Vertex>, attr: &Vec<[u32; 4]>)
    requires
        attr@.len() <= old(vertices)@.len(),
    ensures
        final(vertices)@.len() == old(vertices)@.len(),
        forall|j: int|
            0 <= j < old(vertices)@.len() ==> #[trigger] final(vertices)@[j] == (if j < attr@.len() {
                Vertex { weights_0: attr@[j], ..old(vertices)@[j] }
            } else {
                old(vertices)@[j]
            }),
{
    let mut i: usize = 0;
    while i < attr.len()
        invariant
            i <= attr@.len(),
            attr@.len() <= vertices@.len(),
            vertices@.len() == old(vertices)@.len(),
            forall|j: int|
                0 <= j < vertices@.len() ==> #[trigger] vertices@[j] == (if j < i {
                    Vertex { weights_0: attr@[j], ..old(vertices)@[j] }
                } else {
                    old(vertices)@[j]
                }),
        decreases attr@.len() - i,
    {
        let mut v = vertices[i];
        v.weights_0 = attr[i];
        vertices.set(i, v);
        i = i + 1;
    }
}

/// One vertex per position, with every other attribute zero.
fn init_vertices(positions: &Vec<[u32; 3]>) -> (vertices: Vec<Vertex>)
    ensures
        vertices@.len() == positions@.len(),
        forall|j: int|
            0 <= j < positions@.len() ==> #[trigger] vertices@[j] == (Vertex {
                position: positions@[j],
                ..zero_vertex()
            }),
{
    let mut vertices: Vec<Vertex> = Vec::new();
    let mut i: usize = 0;
    while i < positions.len()
        invariant
            i <= positions@.len(),
            vertices@.len() == i,
            forall|j: int|
                0 <= j < i ==> #[trigger] vertices@[j] == (Vertex {
                    position: positions@[j],
                    ..zero_vertex()
                }),
        decreases positions@.len() - i,
    {
        vertices.push(Vertex { position: positions[i], ..Vertex::default() });
        i = i + 1;
    }
    vertices
}

/// The vertices of a primitive and the shader flags its attributes call for.
/// The normals are copied, and flagged, only when `with_normals`.
pub fn assemble_vertices(p: &GltfPrimitive, with_normals: bool) -> (res: (Vec<Vertex>, ShaderFlags))
    requires
        p.attributes_fit(with_normals),
    ensures
        res.0@.len() == p.vertex_count(),
        forall|i: int|
            0 <= i < p.vertex_count() ==> #[trigger] res.0@[i] == assembled_vertex(
                *p,
                i,
                with_normals,
            ),
        res.1.bits == attribute_flags(*p, with_normals),
{
    let positions = p.positions.as_ref().unwrap();
    let mut vertices = init_vertices(positions);
    let mut shader_flags = ShaderFlags::empty();

    if with_normals {
        if let Some(normals) = &p.normals {
            set_normals(&mut vertices, normals);
            shader_flags.insert(ShaderFlags { bits: ShaderFlags::HAS_NORMALS });
        }
    }
    if let Some(tangents) = &p.tangents {
        set_tangents(&mut vertices, tangents);
        shader_flags.insert(ShaderFlags { bits: ShaderFlags::HAS_TANGENTS });
    }
    let ghost before_uv = shader_flags.bits;
    let ghost pre = vertices@;
    let mut tex_coord_set: usize = 0;
    while tex_coord_set < p.tex_coords.len()
        invariant
            p.attributes_fit(with_normals),
            tex_coord_set <= p.tex_coords@.len(),
            vertices@.len() == p.vertex_count(),
            pre.len() == p.vertex_count(),
            forall|j: int|
                0 <= j < p.vertex_count() ==> #[trigger] vertices@[j] == (Vertex {
                    tex_coord_0: if tex_coord_set > 0 {
                        tex_coord_at(p.tex_coords@, 0, j)
                    } else {
                        zero2()
                    },
                    tex_coord_1: if tex_coord_set > 1 {
                        tex_coord_at(p.tex_coords@, 1, j)
                    } else {
                        zero2()
                    },
                    ..pre[j]
                }),
            shader_flags.bits == (if tex_coord_set > 0 {
                before_uv | ShaderFlags::HAS_UV
            } else {
                before_uv
            }),
        decreases p.tex_coords@.len() - tex_coord_set,
    {
        if tex_coord_set > 1 {
            tex_coord_set = tex_coord_set + 1;
            continue;
        }
        if tex_coord_set == 0 {
            set_tex_coords_0(&mut vertices, &p.tex_coords[0]);
        } else {
            set_tex_coords_1(&mut vertices, &p.tex_coords[1]);
        }
        let ghost prev = shader_flags.bits;
        shader_flags.insert(ShaderFlags { bits: ShaderFlags::HAS_UV });
        proof {
            let b = before_uv;
            assert((b | 4u16) | 4u16 == b | 4u16) by (bit_vector);
        }
        tex_coord_set = tex_coord_set + 1;
    }
    if let Some(colors) = &p.colors_0 {
        set_colors(&mut vertices, colors);
        shader_flags.insert(ShaderFlags { bits: ShaderFlags::HAS_COLORS });
    }
    if let Some(joints) = &p.joints_0 {
        set_joints(&mut vertices, joints);
    }
    if let Some(weights) = &p.weights_0 {
        set_weights(&mut vertices, weights);
    }
    (vertices, shader_flags)
}

} // verus!
