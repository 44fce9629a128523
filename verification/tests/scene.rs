use defren::mesh::{gfx_quad_setup, interleave_vertex_data, Mesh};
use defren::payload::{QuatBits, Vec3Bits, BITS_ONE, BITS_ZERO};
use defren::scene::{LoadedScene, Object, Scene};
use defren::transform::Transform;

fn object(kind: &str) -> Object {
    Object {
        type_field: kind.to_string(),
        name: "thing".to_string(),
        path: None,
        transform: Transform::default(),
        phys: None,
        color: None,
    }
}

#[test]
fn empty_scene_has_white_sun_and_no_lights() {
    let s = LoadedScene::new();
    assert_eq!(s.models.len(), 0);
    assert_eq!(s.point_lights.len(), 0);
    assert_eq!(s.sun_light.direction, QuatBits::identity());
    assert_eq!(s.sun_light.color, Vec3Bits::one());
}

#[test]
fn load_classifies_objects_in_order() {
    let mut model_obj = object("model");
    model_obj.path = Some("content/models/sphere.gltf".to_string());
    model_obj.transform.position = Vec3Bits::new(1, 2, 3);
    let mut sun_obj = object("light_sun");
    sun_obj.transform.rotation = QuatBits::new(9, 9, 9, 9);
    sun_obj.color = Some(Vec3Bits::new(5, 6, 7));
    let mut point_obj = object("light_point");
    point_obj.transform.position = Vec3Bits::new(4, 4, 4);
    let scene = Scene {
        type_field: "scene".to_string(),
        name: "test".to_string(),
        objects: vec![model_obj, sun_obj, point_obj, object("unknown_kind")],
    };
    let (loaded, paths) = scene.load();
    assert_eq!(loaded.models.len(), 1);
    assert_eq!(loaded.models[0].transform.position, Vec3Bits::new(1, 2, 3));
    assert_eq!(loaded.models[0].meshes.len(), 0);
    assert_eq!(paths, vec!["content/models/sphere.gltf".to_string()]);
    assert_eq!(loaded.sun_light.direction, QuatBits::new(9, 9, 9, 9));
    assert_eq!(loaded.sun_light.color, Vec3Bits::new(5, 6, 7));
    assert_eq!(loaded.point_lights.len(), 1);
    assert_eq!(loaded.point_lights[0].transform.position, Vec3Bits::new(4, 4, 4));
    assert_eq!(loaded.point_lights[0].orig_pos, Vec3Bits::new(4, 4, 4));
    // A fresh point light is magenta.
    assert_eq!(
        loaded.point_lights[0].color,
        Vec3Bits { x: BITS_ONE, y: BITS_ZERO, z: BITS_ONE }
    );
}

#[test]
fn sun_without_color_defaults_to_white() {
    let mut sun_obj = object("light_sun");
    sun_obj.transform.rotation = QuatBits::new(1, 2, 3, 4);
    let scene = Scene {
        type_field: "scene".to_string(),
        name: "test".to_string(),
        objects: vec![sun_obj],
    };
    let (loaded, _) = scene.load();
    assert_eq!(loaded.sun_light.color, Vec3Bits::one());
    assert_eq!(loaded.sun_light.direction, QuatBits::new(1, 2, 3, 4));
}

#[test]
fn last_sun_object_wins() {
    let mut first = object("light_sun");
    first.transform.rotation = QuatBits::new(1, 1, 1, 1);
    let mut second = object("light_sun");
    second.transform.rotation = QuatBits::new(2, 2, 2, 2);
    let scene = Scene {
        type_field: "scene".to_string(),
        name: "test".to_string(),
        objects: vec![first, second],
    };
    let (loaded, _) = scene.load();
    assert_eq!(loaded.sun_light.direction, QuatBits::new(2, 2, 2, 2));
}

#[test]
fn interleave_packs_eight_words_per_vertex() {
    let vertices = vec![10, 11, 12, 20, 21, 22];
    let normals = vec![30, 31, 32, 40, 41, 42];
    let texcoords = vec![50, 51, 60, 61];
    let data = interleave_vertex_data(&vertices, &normals, &texcoords);
    assert_eq!(
        data,
        vec![10, 11, 12, 30, 31, 32, 50, 51, 20, 21, 22, 40, 41, 42, 60, 61]
    );
}

#[test]
fn interleave_of_nothing_is_empty() {
    let data = interleave_vertex_data(&vec![], &vec![], &vec![]);
    assert!(data.is_empty());
}

#[test]
fn mesh_counts_follow_the_streams() {
    let vertices = vec![0u32; 9];
    let indices = vec![0u32, 1, 2];
    let m = Mesh::new(5, 6, 7, &vertices, &indices, 11, 12, 13, 14);
    assert_eq!(m.vertex_count, 3);
    assert_eq!(m.index_count, 3);
    assert_eq!(
        m.render(),
        defren::cmd::Cmd::DrawIndexed { vao: 5, index_count: 3 }
    );
}

#[test]
fn quad_is_a_four_vertex_strip_over_the_corners() {
    let data = gfx_quad_setup();
    assert_eq!(
        data,
        vec![-1, 1, 0, 0, 1, -1, -1, 0, 0, 0, 1, 1, 0, 1, 1, 1, -1, 0, 1, 0]
    );
}
