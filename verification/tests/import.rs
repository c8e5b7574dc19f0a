use gltf_viewer::gltf_tree::root::check_all_nodes_buildable;
use gltf_viewer::gltf_tree::viewer::prepare_gltf;
use gltf_viewer::import::import_gltf;
use gltf_viewer::render::root::{check_root_loadable, Root};

fn base64(data: &[u8]) -> String {
    const TABLE: &[u8] = b"ABCDEFGHIJKLMNOPQRSTUVWXYZabcdefghijklmnopqrstuvwxyz0123456789+/";
    let mut out = String::new();
    for chunk in data.chunks(3) {
        let b = [chunk[0], *chunk.get(1).unwrap_or(&0), *chunk.get(2).unwrap_or(&0)];
        let n = ((b[0] as u32) << 16) | ((b[1] as u32) << 8) | b[2] as u32;
        for k in 0..4 {
            if k <= chunk.len() {
                out.push(TABLE[((n >> (18 - 6 * k)) & 63) as usize] as char);
            } else {
                out.push('=');
            }
        }
    }
    out
}

fn triangle_gltf() -> Vec<u8> {
    let mut data: Vec<u8> = Vec::new();
    for v in [0.0f32, 0.0, 0.0, 1.0, 0.0, 0.0, 0.0, 1.0, 0.0] {
        data.extend_from_slice(&v.to_le_bytes());
    }
    for v in [0.0f32, 0.0, 1.0, 0.0, 0.0, 1.0] {
        data.extend_from_slice(&v.to_le_bytes());
    }
    for i in [0u16, 1, 2] {
        data.extend_from_slice(&i.to_le_bytes());
    }
    let json = format!(
        r#"{{
  "asset": {{"version": "2.0"}},
  "scene": 0,
  "scenes": [{{"name": "main", "nodes": [0]}}],
  "nodes": [
    {{"name": "root", "mesh": 0, "children": [1], "translation": [1.0, 2.0, 3.0]}},
    {{"rotation": [0.0, 0.0, 0.0, 1.0]}}
  ],
  "meshes": [{{"primitives": [{{"attributes": {{"POSITION": 0, "TEXCOORD_0": 1}}, "indices": 2, "material": 0}}]}}],
  "materials": [{{"name": "paint", "emissiveFactor": [1.0, 0.0, 0.0]}}],
  "buffers": [{{"byteLength": {len}, "uri": "data:application/octet-stream;base64,{data}"}}],
  "bufferViews": [
    {{"buffer": 0, "byteOffset": 0, "byteLength": 36}},
    {{"buffer": 0, "byteOffset": 36, "byteLength": 24}},
    {{"buffer": 0, "byteOffset": 60, "byteLength": 6}}
  ],
  "accessors": [
    {{"bufferView": 0, "componentType": 5126, "count": 3, "type": "VEC3", "min": [0.0, 0.0, 0.0], "max": [1.0, 1.0, 0.0]}},
    {{"bufferView": 1, "componentType": 5126, "count": 3, "type": "VEC2"}},
    {{"bufferView": 2, "componentType": 5123, "count": 3, "type": "SCALAR"}}
  ]
}}"#,
        len = data.len(),
        data = base64(&data)
    );
    json.into_bytes()
}

#[test]
fn import_reads_nodes_meshes_and_scenes() {
    let doc = import_gltf(&triangle_gltf()).unwrap();
    assert_eq!(doc.nodes.len(), 2);
    assert_eq!(doc.nodes[0].index, 0);
    assert_eq!(doc.nodes[0].children, vec![1]);
    assert_eq!(doc.nodes[0].mesh, Some(0));
    assert_eq!(doc.nodes[0].name, Some("root".to_string()));
    assert_eq!(doc.nodes[0].translation, [1.0f32.to_bits(), 2.0f32.to_bits(), 3.0f32.to_bits()]);
    assert_eq!(doc.nodes[0].matrix[3], [1.0f32.to_bits(), 2.0f32.to_bits(), 3.0f32.to_bits(), 1.0f32.to_bits()]);
    assert_eq!(doc.nodes[1].rotation, [0, 0, 0, 1.0f32.to_bits()]);
    assert_eq!(doc.scenes.len(), 1);
    assert_eq!(doc.scenes[0].name, Some("main".to_string()));
    assert_eq!(doc.scenes[0].nodes, vec![0]);
    assert_eq!(doc.meshes.len(), 1);
    assert_eq!(doc.meshes[0].index, 0);
    let p = &doc.meshes[0].primitives[0];
    let one = 1.0f32.to_bits();
    assert_eq!(p.positions, Some(vec![[0, 0, 0], [one, 0, 0], [0, one, 0]]));
    assert_eq!(p.normals, None);
    assert_eq!(p.tex_coords, vec![vec![[0, 0], [one, 0], [0, one]]]);
    assert_eq!(p.indices, Some(vec![0, 1, 2]));
    assert_eq!(p.material.index, Some(0));
    assert_eq!(p.material.name, Some("paint".to_string()));
    assert_eq!(p.material.emissive_factor, [one, 0, 0]);
    assert_eq!(p.material.base_color_texture, None);
}

#[test]
fn import_rejects_what_is_no_gltf() {
    assert!(import_gltf(b"certainly not gltf").is_none());
    assert!(import_gltf(b"{}").is_none());
}

#[test]
fn imported_document_builds_both_scene_graphs() {
    let doc = import_gltf(&triangle_gltf()).unwrap();
    assert!(check_all_nodes_buildable(&doc));
    let (root, scene) = prepare_gltf(&doc);
    assert_eq!(root.nodes.len(), 2);
    assert_eq!(scene.nodes, vec![0]);
    assert_eq!(root.nodes[0].mesh.as_ref().unwrap().primitives[0].buffers.positions.len(), 9);
    assert!(check_root_loadable(&doc));
    let legacy = Root::from_gltf(&doc);
    assert_eq!(legacy.meshes.len(), 1);
    assert_eq!(legacy.meshes[0].primitives[0].num_indices, 3);
}

fn with(replace: &str, by: &str) -> Vec<u8> {
    let text = String::from_utf8(triangle_gltf()).unwrap();
    assert!(text.contains(replace));
    text.replacen(replace, by, 1).into_bytes()
}

#[test]
fn import_gives_each_node_its_position_as_index() {
    let doc = import_gltf(&triangle_gltf()).unwrap();
    for (i, node) in doc.nodes.iter().enumerate() {
        assert_eq!(node.index, i);
    }
}

#[test]
fn import_rejects_a_relative_buffer_uri() {
    let text = String::from_utf8(triangle_gltf()).unwrap();
    let start = text.find("\"uri\": \"").unwrap() + 8;
    let end = start + text[start..].find('"').unwrap();
    let bad = format!("{}%FF{}", &text[..start], &text[end..]);
    assert!(import_gltf(bad.as_bytes()).is_none());
    let plain = format!("{}model.bin{}", &text[..start], &text[end..]);
    assert!(import_gltf(plain.as_bytes()).is_none());
}

#[test]
fn import_rejects_a_glb_header_shorter_than_itself() {
    let mut bytes = b"glTF".to_vec();
    bytes.extend_from_slice(&2u32.to_le_bytes());
    bytes.extend_from_slice(&4u32.to_le_bytes());
    assert!(import_gltf(&bytes).is_none());
}

#[test]
fn import_rejects_positions_that_are_no_three_floats() {
    let bytes = with("\"count\": 3, \"type\": \"VEC3\"", "\"count\": 3, \"type\": \"VEC2\"");
    assert!(import_gltf(&bytes).is_none());
}

#[test]
fn import_rejects_an_empty_accessor() {
    let bytes = with("\"componentType\": 5126, \"count\": 3, \"type\": \"VEC2\"", "\"componentType\": 5126, \"count\": 0, \"type\": \"VEC2\"");
    assert!(import_gltf(&bytes).is_none());
}

#[test]
fn import_rejects_float_indices() {
    let bytes = with("\"componentType\": 5123, \"count\": 3, \"type\": \"SCALAR\"", "\"componentType\": 5126, \"count\": 3, \"type\": \"SCALAR\"");
    assert!(import_gltf(&bytes).is_none());
}

#[test]
fn import_rejects_an_image_view_beyond_its_buffer() {
    let bytes = with(
        "\"materials\":",
        "\"images\": [{\"bufferView\": 3, \"mimeType\": \"image/png\"}], \"materials\":",
    );
    let bytes = String::from_utf8(bytes).unwrap().replacen(
        "{\"buffer\": 0, \"byteOffset\": 60, \"byteLength\": 6}",
        "{\"buffer\": 0, \"byteOffset\": 60, \"byteLength\": 6}, {\"buffer\": 0, \"byteOffset\": 60, \"byteLength\": 100}",
        1,
    );
    assert!(import_gltf(bytes.as_bytes()).is_none());
}

#[test]
fn import_rejects_images_the_importer_cannot_take() {
    let in_view_without_mime = with(
        "\"materials\":",
        "\"images\": [{\"bufferView\": 0}], \"materials\":",
    );
    assert!(import_gltf(&in_view_without_mime).is_none());
    let without_source = with("\"materials\":", "\"images\": [{}], \"materials\":");
    assert!(import_gltf(&without_source).is_none());
}

const SECOND_MESH: &str = "}]}, {\"primitives\": [{\"attributes\": {\"POSITION\": 0, \"NORMAL\": 1}}]}],";

#[test]
fn import_reads_only_the_meshes_nodes_refer_to() {
    let bytes = with("}]}],", SECOND_MESH);
    let doc = import_gltf(&bytes).unwrap();
    assert_eq!(doc.meshes.len(), 2);
    assert_eq!(doc.meshes[1].index, 1);
    assert!(doc.meshes[1].primitives.is_empty());
    assert_eq!(doc.meshes[0].primitives.len(), 1);
}

#[test]
fn import_rejects_an_unreadable_mesh_a_node_refers_to() {
    let bytes = String::from_utf8(with("}]}],", SECOND_MESH)).unwrap().replacen(
        "{\"rotation\": [0.0, 0.0, 0.0, 1.0]}",
        "{\"rotation\": [0.0, 0.0, 0.0, 1.0], \"mesh\": 1}",
        1,
    );
    assert!(import_gltf(bytes.as_bytes()).is_none());
}
