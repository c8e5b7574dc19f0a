use gltf_viewer::document::{
    GltfDocument, GltfMaterial, GltfMesh, GltfNode, GltfPrimitive, GltfScene, GltfTextureInfo,
};
use gltf_viewer::gltf_tree::material::{create_material, shader_flags, Material};
use gltf_viewer::gltf_tree::mesh::{check_mesh_buildable, create_mesh, draw_mesh};
use gltf_viewer::gltf_tree::node::{check_node_buildable, create_node, draw_node};
use gltf_viewer::gltf_tree::primitive::{
    check_primitive_buildable, create_primitive, draw_primitive, find_material, prepare_draw,
};
use gltf_viewer::gltf_tree::root::{check_all_nodes_buildable, create_root, Root};
use gltf_viewer::gltf_tree::scene::{create_scene, draw_scene, Scene};
use gltf_viewer::gltf_tree::viewer::prepare_gltf;
use gltf_viewer::shader::ShaderFlags;
use gltf_viewer::vertex::{Vertex, ONE_BITS};
use std::collections::HashMap;

fn material(index: Option<usize>) -> GltfMaterial {
    GltfMaterial {
        index,
        name: None,
        base_color_texture: None,
        metallic_roughness_texture: None,
        normal_texture: None,
        occlusion_texture: None,
        emissive_texture: None,
        emissive_factor: [0, 0, 0],
    }
}

fn primitive(n: u32, mat: Option<usize>) -> GltfPrimitive {
    GltfPrimitive {
        positions: Some((0..n).map(|i| [i, i + 100, i + 200]).collect()),
        normals: Some((0..n).map(|i| [i + 7, 0, 0]).collect()),
        tangents: None,
        tex_coords: vec![],
        colors_0: None,
        joints_0: None,
        weights_0: None,
        indices: Some((0..n).collect()),
        material: material(mat),
    }
}

fn empty_root() -> Root {
    Root { nodes: vec![], meshes: vec![], materials: vec![], shaders: HashMap::new() }
}

fn node(index: usize, children: Vec<usize>, mesh: Option<usize>) -> GltfNode {
    GltfNode {
        index,
        children,
        mesh,
        camera: None,
        name: Some(format!("node{}", index)),
        matrix: [[0; 4]; 4],
        translation: [1, 2, 3],
        rotation: [10, 11, 12, 13],
        scale: [ONE_BITS, ONE_BITS, ONE_BITS],
    }
}

fn two_level_doc() -> GltfDocument {
    GltfDocument {
        nodes: vec![node(0, vec![1], Some(0)), node(1, vec![], Some(1))],
        meshes: vec![
            GltfMesh { index: 0, primitives: vec![primitive(3, Some(0))] },
            GltfMesh { index: 1, primitives: vec![primitive(2, Some(4)), primitive(1, None)] },
        ],
        scenes: vec![GltfScene { name: Some("main".to_string()), nodes: vec![0] }],
    }
}

#[test]
fn shader_flags_has_base_color_map_only_with_base_color_texture() {
    let plain = Material { index: Some(0), base_color_texture: None };
    let textured = Material { index: Some(1), base_color_texture: Some(3) };
    assert_eq!(shader_flags(&plain).bits(), 0);
    assert_eq!(shader_flags(&textured).bits(), ShaderFlags::HAS_BASECOLORMAP);
}

#[test]
fn create_material_ignores_the_gltf_material() {
    let mut g = material(Some(5));
    g.base_color_texture = Some(GltfTextureInfo { texture: 2, tex_coord: 0 });
    let m = create_material(&g, &empty_root());
    assert_eq!(m, Material { index: Some(0), base_color_texture: None });
}

#[test]
fn prepare_draw_lays_out_three_components_per_vertex() {
    let mut v0 = Vertex::default();
    v0.position = [1, 2, 3];
    v0.normal = [4, 5, 6];
    let mut v1 = Vertex::default();
    v1.position = [7, 8, 9];
    let buffers = prepare_draw(&[v0, v1], Some(vec![0, 1, 1]));
    assert_eq!(buffers.positions, vec![1, 2, 3, 7, 8, 9]);
    assert_eq!(buffers.normals, vec![4, 5, 6, 0, 0, 0]);
    assert_eq!(buffers.indices, vec![0, 1, 1]);
}

#[test]
fn create_primitive_assembles_buffers_without_normals() {
    let mut root = empty_root();
    let mut g = primitive(2, Some(0));
    g.tangents = Some(vec![[1, 1, 1, 1]]);
    g.tex_coords = vec![vec![[5, 6]], vec![[7, 8], [9, 10]], vec![[99, 99]]];
    g.colors_0 = Some(vec![[1, 2, 3, 4], [5, 6, 7, 8]]);
    let p = create_primitive(&mut root, &g, 0, 0);
    assert_eq!(p.num_vertices, 10);
    assert_eq!(p.num_indices, 10);
    assert_eq!(p.buffers.positions, vec![0, 100, 200, 1, 101, 201]);
    // normals are not copied by this scene graph
    assert_eq!(p.buffers.normals, vec![0, 0, 0, 0, 0, 0]);
    assert_eq!(p.buffers.indices, vec![0, 1]);
    assert_eq!(
        p.pbr_shader.bits(),
        ShaderFlags::HAS_TANGENTS | ShaderFlags::HAS_UV | ShaderFlags::HAS_COLORS
    );
    assert_eq!(p.material, 0);
    assert_eq!(root.materials, vec![Material { index: Some(0), base_color_texture: None }]);
    assert!(root.shaders.contains_key(&p.pbr_shader.bits()));
    assert_eq!(root.shaders.len(), 1);
}

#[test]
fn create_primitive_finds_a_cached_material_and_its_flags() {
    let mut root = empty_root();
    root.materials.push(Material { index: Some(7), base_color_texture: None });
    root.materials.push(Material { index: Some(3), base_color_texture: Some(1) });
    root.materials.push(Material { index: Some(3), base_color_texture: None });
    let p = create_primitive(&mut root, &primitive(1, Some(3)), 0, 0);
    assert_eq!(p.material, 1);
    assert_eq!(root.materials.len(), 3);
    assert_eq!(p.pbr_shader.bits(), ShaderFlags::HAS_BASECOLORMAP);
}

#[test]
fn create_primitive_appends_a_material_where_none_matches() {
    let mut root = empty_root();
    let first = create_primitive(&mut root, &primitive(1, None), 0, 0);
    let second = create_primitive(&mut root, &primitive(1, None), 1, 0);
    // the default material is never found again: every use appends one
    assert_eq!(first.material, 0);
    assert_eq!(second.material, 1);
    assert_eq!(root.materials.len(), 2);
    // the shader variant is shared
    assert_eq!(root.shaders.len(), 1);
}

#[test]
fn create_primitive_repeated_with_material_zero_changes_nothing() {
    let mut root = empty_root();
    let g = primitive(2, Some(0));
    let first = create_primitive(&mut root, &g, 0, 0);
    let materials = root.materials.clone();
    let shaders = root.shaders.len();
    let second = create_primitive(&mut root, &g, 0, 0);
    assert_eq!(first.material, second.material);
    assert_eq!(first.pbr_shader, second.pbr_shader);
    assert_eq!(root.materials, materials);
    assert_eq!(root.shaders.len(), shaders);
}

#[test]
fn find_material_returns_the_first_match() {
    let materials = vec![
        Material { index: None, base_color_texture: None },
        Material { index: Some(2), base_color_texture: None },
        Material { index: Some(2), base_color_texture: Some(0) },
    ];
    assert_eq!(find_material(&materials, Some(2)), Some(1));
    assert_eq!(find_material(&materials, None), Some(0));
    assert_eq!(find_material(&materials, Some(9)), None);
}

#[test]
fn primitive_buildability_is_checked() {
    assert!(check_primitive_buildable(&primitive(2, None)));
    let mut no_positions = primitive(2, None);
    no_positions.positions = None;
    assert!(!check_primitive_buildable(&no_positions));
    let mut no_indices = primitive(2, None);
    no_indices.indices = None;
    assert!(!check_primitive_buildable(&no_indices));
    let mut long_tangents = primitive(2, None);
    long_tangents.tangents = Some(vec![[0; 4]; 3]);
    assert!(!check_primitive_buildable(&long_tangents));
    // normals are not copied, so their length does not matter here
    let mut long_normals = primitive(1, None);
    long_normals.normals = Some(vec![[0; 3]; 5]);
    assert!(check_primitive_buildable(&long_normals));
    // texture-coordinate sets past the second are ignored
    let mut third_set = primitive(1, None);
    third_set.tex_coords = vec![vec![], vec![], vec![[0, 0]; 4]];
    assert!(check_primitive_buildable(&third_set));
}

#[test]
fn create_mesh_builds_each_primitive_with_index_zero() {
    let mut root = empty_root();
    let g = GltfMesh { index: 4, primitives: vec![primitive(1, Some(0)), primitive(2, Some(0))] };
    assert!(check_mesh_buildable(&g));
    let mesh = create_mesh(&mut root, &g);
    assert_eq!(mesh.index, 0);
    assert_eq!(mesh.primitives.len(), 2);
    assert_eq!(mesh.primitives[1].buffers.positions.len(), 6);
    assert_eq!(root.materials.len(), 1);
    let commands = draw_mesh(&mesh, [[3; 4]; 4]);
    assert_eq!(commands.len(), 2);
    assert_eq!(commands[1].model_matrix, [[3; 4]; 4]);
}

#[test]
fn create_node_builds_the_subtree_and_reorders_the_rotation() {
    let doc = two_level_doc();
    let mut root = empty_root();
    assert!(check_node_buildable(&doc, 0, doc.nodes.len()));
    let n = create_node(&doc, 0, &mut root);
    assert_eq!(n.index, 0);
    assert_eq!(n.rotation, [13, 10, 11, 12]);
    assert_eq!(n.translation, [1, 2, 3]);
    assert_eq!(n.name, Some("node0".to_string()));
    assert_eq!(n.children.len(), 1);
    assert_eq!(n.children[0].index, 1);
    assert_eq!(n.children[0].mesh.as_ref().unwrap().primitives.len(), 2);
    let identity = [
        [0x3f80_0000, 0, 0, 0],
        [0, ONE_BITS, 0, 0],
        [0, 0, ONE_BITS, 0],
        [0, 0, 0, ONE_BITS],
    ];
    assert_eq!(n.final_transform, identity);
    // materials: index 0 (created), then one created for index 4, one for the default
    assert_eq!(root.materials.len(), 3);
    assert!(root.meshes.is_empty());
    assert!(root.nodes.is_empty());
}

#[test]
fn cyclic_nodes_are_rejected_by_the_check() {
    let mut doc = two_level_doc();
    doc.nodes[1].children = vec![0];
    assert!(!check_node_buildable(&doc, 0, doc.nodes.len()));
    assert!(!check_all_nodes_buildable(&doc));
    let mut dangling = two_level_doc();
    dangling.nodes[1].children = vec![5];
    assert!(!check_all_nodes_buildable(&dangling));
}

#[test]
fn create_root_builds_every_node_with_its_subtree() {
    let doc = two_level_doc();
    assert!(check_all_nodes_buildable(&doc));
    let root = create_root(&doc);
    assert_eq!(root.nodes.len(), 2);
    // node 0 carries node 1 again as its child
    assert_eq!(root.nodes[0].children[0].index, 1);
    assert_eq!(root.nodes[1].index, 1);
    assert!(root.meshes.is_empty());
}

#[test]
fn draw_visits_meshes_depth_first() {
    let doc = two_level_doc();
    let root = create_root(&doc);
    let commands = draw_node(&root.nodes[0]);
    // node 0: one primitive; node 1: two primitives
    assert_eq!(commands.len(), 3);
    assert_eq!(commands[0].material, root.nodes[0].mesh.as_ref().unwrap().primitives[0].material);
    let c = draw_primitive(&root.nodes[1].mesh.as_ref().unwrap().primitives[0], [[9; 4]; 4]);
    assert_eq!(c.model_matrix, [[9; 4]; 4]);
}

#[test]
fn scene_keeps_its_name_and_root_nodes() {
    let doc = two_level_doc();
    let root = create_root(&doc);
    let scene = create_scene(&doc.scenes[0], &root);
    assert_eq!(scene.name, Some("main".to_string()));
    assert_eq!(scene.nodes, vec![0]);
    let commands = draw_scene(&root, &scene);
    assert_eq!(commands.len(), 3);
    let default_scene = Scene::default();
    assert_eq!(default_scene.name, None);
    assert!(default_scene.nodes.is_empty());
    assert!(draw_scene(&root, &default_scene).is_empty());
}

#[test]
fn prepare_gltf_builds_the_first_scene() {
    let mut doc = two_level_doc();
    doc.scenes.push(GltfScene { name: None, nodes: vec![1, 0] });
    let (root, scene) = prepare_gltf(&doc);
    assert_eq!(root.nodes.len(), 2);
    assert_eq!(scene.nodes, vec![0]);
}
