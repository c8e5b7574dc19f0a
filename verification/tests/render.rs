use gltf_viewer::document::{
    GltfDocument, GltfMaterial, GltfMesh, GltfNode, GltfNormalTexture, GltfOcclusionTexture,
    GltfPrimitive, GltfTextureInfo,
};
use gltf_viewer::render::material::{check_material_loadable, load_texture, Material};
use gltf_viewer::render::mesh::Mesh;
use gltf_viewer::render::node::{tree_below_exec, Node};
use gltf_viewer::render::primitive::{DrawCall, Primitive, Texture};
use gltf_viewer::render::root::{check_root_loadable, Root};
use gltf_viewer::shader::ShaderFlags;
use gltf_viewer::vertex::{Vertex, ONE_BITS};
use std::collections::HashMap;

fn material(index: Option<usize>) -> GltfMaterial {
    GltfMaterial {
        index,
        name: Some(format!("mat{:?}", index)),
        base_color_texture: None,
        metallic_roughness_texture: None,
        normal_texture: None,
        occlusion_texture: None,
        emissive_texture: None,
        emissive_factor: [1, 2, 3],
    }
}

fn textured_material(index: usize) -> GltfMaterial {
    let mut m = material(Some(index));
    m.base_color_texture = Some(GltfTextureInfo { texture: 4, tex_coord: 0 });
    m.metallic_roughness_texture = Some(GltfTextureInfo { texture: 2, tex_coord: 0 });
    m.normal_texture = Some(GltfNormalTexture { texture: 4, tex_coord: 0, scale: 77 });
    m.occlusion_texture = Some(GltfOcclusionTexture { texture: 9, tex_coord: 0, strength: 55 });
    m.emissive_texture = Some(GltfTextureInfo { texture: 2, tex_coord: 0 });
    m
}

fn primitive(n: u32, mat: GltfMaterial) -> GltfPrimitive {
    GltfPrimitive {
        positions: Some((0..n).map(|i| [i, i, i]).collect()),
        normals: Some((0..n).map(|i| [i + 1, 0, 0]).collect()),
        tangents: None,
        tex_coords: vec![],
        colors_0: None,
        joints_0: None,
        weights_0: None,
        indices: None,
        material: mat,
    }
}

fn empty_root() -> Root {
    Root {
        nodes: vec![],
        meshes: vec![],
        textures: vec![],
        materials: vec![],
        shaders: HashMap::new(),
        camera_nodes: vec![],
    }
}

fn node(index: usize, children: Vec<usize>, mesh: Option<usize>, camera: Option<usize>) -> GltfNode {
    GltfNode {
        index,
        children,
        mesh,
        camera,
        name: None,
        matrix: [[5; 4]; 4],
        translation: [0, 0, 0],
        rotation: [1, 2, 3, 4],
        scale: [6, 7, 8],
    }
}

fn doc() -> GltfDocument {
    GltfDocument {
        nodes: vec![
            node(0, vec![1, 2], Some(0), None),
            node(1, vec![], None, Some(0)),
            node(2, vec![], Some(0), Some(1)),
            node(3, vec![], Some(1), None),
        ],
        meshes: vec![
            GltfMesh { index: 0, primitives: vec![primitive(3, textured_material(0))] },
            GltfMesh {
                index: 1,
                primitives: vec![primitive(1, textured_material(0)), primitive(2, material(None))],
            },
        ],
        scenes: vec![],
    }
}

#[test]
fn texture_record_clones() {
    let t = Texture { id: 3, type_: "diffuse".to_string(), path: "a.png".to_string() };
    let c = t.clone();
    assert_eq!(c.id, 3);
    assert_eq!(c.path, "a.png");
}

#[test]
fn load_texture_caches_each_texture_once() {
    let mut root = empty_root();
    assert_eq!(load_texture(4, 0, &mut root), 4);
    assert_eq!(load_texture(2, 0, &mut root), 2);
    assert_eq!(load_texture(4, 0, &mut root), 4);
    assert_eq!(root.textures, vec![4, 2]);
}

#[test]
fn material_from_gltf_loads_textures_in_order() {
    let mut root = empty_root();
    let m = Material::from_gltf(&textured_material(6), &mut root);
    assert_eq!(m.index, Some(6));
    assert_eq!(m.name, Some("matSome(6)".to_string()));
    assert_eq!(m.base_color_texture, Some(4));
    assert_eq!(m.metallic_roughness_texture, Some(2));
    assert_eq!(m.normal_texture, Some(4));
    assert_eq!(m.normal_scale, Some(77));
    assert_eq!(m.occlusion_texture, Some(9));
    assert_eq!(m.occlusion_strength, 55);
    assert_eq!(m.emissive_texture, Some(2));
    assert_eq!(m.emissive_factor, [1, 2, 3]);
    assert_eq!(root.textures, vec![4, 2, 9]);
    assert_eq!(
        m.shader_flags().bits(),
        ShaderFlags::HAS_BASECOLORMAP
            | ShaderFlags::HAS_NORMALMAP
            | ShaderFlags::HAS_EMISSIVEMAP
            | ShaderFlags::HAS_METALROUGHNESSMAP
            | ShaderFlags::HAS_OCCLUSIONMAP
    );
}

#[test]
fn material_without_textures_has_defaults() {
    let mut root = empty_root();
    let m = Material::from_gltf(&material(None), &mut root);
    assert_eq!(m.normal_scale, None);
    assert_eq!(m.occlusion_strength, 0);
    assert_eq!(m.shader_flags().bits(), 0);
    assert!(root.textures.is_empty());
}

#[test]
fn textures_must_use_the_first_coordinate_set() {
    assert!(check_material_loadable(&textured_material(0)));
    let mut m = textured_material(0);
    m.occlusion_texture = Some(GltfOcclusionTexture { texture: 1, tex_coord: 1, strength: 0 });
    assert!(!check_material_loadable(&m));
}

#[test]
fn primitive_new_counts_indices() {
    let vertices = [Vertex::default()];
    let flags = ShaderFlags { bits: ShaderFlags::HAS_UV };
    let p = Primitive::new(&vertices, Some(vec![0, 0, 0, 0]), 2, flags);
    assert_eq!(
        p,
        Primitive { num_vertices: 1, indexed: true, num_indices: 4, material: 2, pbr_shader: flags }
    );
    let unindexed = Primitive::new(&vertices, None, 0, flags);
    assert_eq!(unindexed.num_indices, 0);
    assert!(!unindexed.indexed);
}

#[test]
fn primitive_from_gltf_flags_normals_and_material_maps() {
    let mut root = empty_root();
    let mut g = primitive(2, textured_material(0));
    g.tex_coords = vec![vec![[1, 1]]];
    g.indices = Some(vec![0, 1, 0]);
    let p = Primitive::from_gltf(&g, 0, 0, &mut root);
    assert_eq!(p.num_indices, 3);
    assert_eq!(p.material, 0);
    assert_eq!(
        p.pbr_shader.bits(),
        ShaderFlags::HAS_NORMALS
            | ShaderFlags::HAS_UV
            | ShaderFlags::HAS_BASECOLORMAP
            | ShaderFlags::HAS_NORMALMAP
            | ShaderFlags::HAS_EMISSIVEMAP
            | ShaderFlags::HAS_METALROUGHNESSMAP
            | ShaderFlags::HAS_OCCLUSIONMAP
    );
    assert_eq!(root.shaders.get(&p.pbr_shader.bits()).unwrap().flags, p.pbr_shader);
}

#[test]
fn primitive_from_gltf_twice_changes_nothing_the_second_time() {
    let mut root = empty_root();
    let g = primitive(2, textured_material(3));
    let first = Primitive::from_gltf(&g, 0, 0, &mut root);
    let textures = root.textures.clone();
    let materials = root.materials.len();
    let shaders = root.shaders.len();
    let second = Primitive::from_gltf(&g, 0, 0, &mut root);
    assert_eq!(first, second);
    assert_eq!(root.textures, textures);
    assert_eq!(root.materials.len(), materials);
    assert_eq!(root.shaders.len(), shaders);
}

#[test]
fn primitive_draw_copies_the_model_matrix() {
    let p = Primitive {
        num_vertices: 3,
        indexed: false,
        num_indices: 0,
        material: 0,
        pbr_shader: ShaderFlags::empty(),
    };
    let m: [[u32; 4]; 4] = [[1, 2, 3, 4], [5, 6, 7, 8], [9, 10, 11, 12], [13, 14, 15, 16]];
    let setup = p.draw(m);
    assert_eq!(setup.draw, DrawCall::Arrays { count: 3 });
    assert_eq!(setup.program, ShaderFlags::empty());
    let expected: Vec<u32> = (1..=16).collect();
    assert_eq!(&setup.model_matrix[..16], &expected[..]);
    assert!(setup.model_matrix[16..].iter().all(|&x| x == 0));
}

#[test]
fn primitive_draw_uses_indices_where_there_are_some() {
    let vertices = [Vertex::default(), Vertex::default()];
    let p = Primitive::new(&vertices, Some(vec![0, 1, 1, 0, 1]), 0, ShaderFlags::empty());
    assert_eq!(p.draw([[0; 4]; 4]).draw, DrawCall::Elements { count: 5 });
    let q = Primitive::new(&vertices, None, 0, ShaderFlags::empty());
    assert_eq!(q.draw([[0; 4]; 4]).draw, DrawCall::Arrays { count: 2 });
}

#[test]
fn mesh_from_gltf_keeps_the_gltf_index() {
    let mut root = empty_root();
    let g = GltfMesh { index: 7, primitives: vec![primitive(1, material(Some(1)))] };
    let mesh = Mesh::from_gltf(&g, &mut root);
    assert_eq!(mesh.index, 7);
    assert_eq!(mesh.primitives.len(), 1);
    assert!(root.meshes.is_empty());
}

#[test]
fn nodes_share_meshes_and_list_cameras() {
    let doc = doc();
    assert!(check_root_loadable(&doc));
    let root = Root::from_gltf(&doc);
    assert_eq!(root.nodes.len(), 4);
    assert_eq!(root.meshes.len(), 2);
    assert_eq!(root.nodes[0].mesh, Some(0));
    assert_eq!(root.nodes[2].mesh, Some(0));
    assert_eq!(root.nodes[3].mesh, Some(1));
    assert_eq!(root.nodes[1].mesh, None);
    assert_eq!(root.nodes[0].children, vec![1, 2]);
    assert_eq!(root.nodes[0].rotation, [4, 1, 2, 3]);
    assert_eq!(root.nodes[0].scale, [6, 7, 8]);
    // materials: index 0 shared by both meshes; the default material once
    assert_eq!(root.materials.len(), 2);
    assert_eq!(root.textures, vec![4, 2, 9]);
    assert_eq!(root.camera_nodes, vec![1, 2]);
    assert!(root.get_camera_node(0).camera.is_some());
    assert_eq!(root.get_camera_node(1).index, 2);
    let identity = [
        [0x3f80_0000, 0, 0, 0],
        [0, ONE_BITS, 0, 0],
        [0, 0, ONE_BITS, 0],
        [0, 0, 0, ONE_BITS],
    ];
    assert_eq!(root.nodes[3].final_transform, identity);
}

#[test]
fn root_checks_reject_bad_documents() {
    let mut bad_mesh = doc();
    bad_mesh.nodes[3].mesh = Some(9);
    assert!(!check_root_loadable(&bad_mesh));
    let mut no_positions = doc();
    no_positions.meshes[1].primitives[1].positions = None;
    assert!(!check_root_loadable(&no_positions));
    let mut long_normals = doc();
    long_normals.meshes[0].primitives[0].normals = Some(vec![[0; 3]; 9]);
    assert!(!check_root_loadable(&long_normals));
}

#[test]
fn draw_walks_children_through_the_root() {
    let doc = doc();
    let root = Root::from_gltf(&doc);
    let n = root.nodes.len();
    assert!(tree_below_exec(&root.nodes, 0, n));
    let commands = root.nodes[0].draw(&root);
    // node 0 (mesh 0), node 1 (none), node 2 (mesh 0)
    assert_eq!(commands.len(), 2);
    assert_eq!(commands[0].mesh, 0);
    assert_eq!(commands[1].mesh, 0);
}

#[test]
fn cycles_are_no_trees() {
    let mut root = empty_root();
    root.nodes = Root::from_gltf(&doc()).nodes;
    root.nodes[1].children = vec![0];
    let n = root.nodes.len();
    assert!(!tree_below_exec(&root.nodes, 0, n));
    assert!(tree_below_exec(&root.nodes, 2, n));
    root.nodes[2].children = vec![10];
    assert!(!tree_below_exec(&root.nodes, 2, n));
}

#[test]
fn node_access_by_index() {
    let mut root = Root::from_gltf(&doc());
    {
        let node: &mut Node = root.unsafe_get_node_mut(3);
        node.children.push(0);
    }
    assert_eq!(root.nodes[3].children, vec![0]);
}

#[test]
fn primitives_point_into_caches_with_distinct_material_indices() {
    let mut root = empty_root();
    let mut built = Vec::new();
    for index in [Some(1), Some(2), Some(1), None, Some(2), None] {
        let g = primitive(1, material(index));
        let p = Primitive::from_gltf(&g, 0, 0, &mut root);
        assert_eq!(root.materials[p.material].index, index);
        assert!(root.shaders.contains_key(&p.pbr_shader.bits()));
        built.push(p);
    }
    assert_eq!(root.materials.len(), 3);
    for i in 0..root.materials.len() {
        for j in 0..i {
            assert_ne!(root.materials[i].index, root.materials[j].index);
        }
    }
}
