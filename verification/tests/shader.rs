use defren::cmd::{Cmd, UniformValue};
use defren::payload::Vec3Bits;
use defren::shader::Shader;

fn scanned() -> Vec<(String, i32)> {
    vec![
        ("uProjViewMat".to_string(), 0),
        ("uModelMat".to_string(), 1),
        ("uCamPos".to_string(), 2),
    ]
}

#[test]
fn caches_scanned_uniforms() {
    let s = Shader::new(7, 8, 9, scanned());
    assert_eq!(s.program, 7);
    assert_eq!(s.vertex, 8);
    assert_eq!(s.fragment, 9);
    assert_eq!(s.get_location("uProjViewMat"), 0);
    assert_eq!(s.get_location("uModelMat"), 1);
    assert_eq!(s.get_location("uCamPos"), 2);
}

#[test]
fn first_scan_of_a_name_wins() {
    let s = Shader::new(
        1,
        2,
        3,
        vec![("uCamPos".to_string(), 4), ("uCamPos".to_string(), 9)],
    );
    assert_eq!(s.get_location("uCamPos"), 4);
    assert_eq!(s.uniforms.len(), 1);
}

#[test]
fn unscanned_name_resolves_to_no_op_location() {
    let s = Shader::new(7, 8, 9, scanned());
    assert_eq!(s.get_location("uNotThere"), -1);
    // The submission is still emitted, with the no-op location the driver
    // silently ignores: an optimised-out uniform is tolerated.
    let c = s.set_f32("uNotThere", 0);
    assert_eq!(
        c,
        Cmd::SetUniform { program: 7, location: -1, value: UniformValue::F32(0) }
    );
}

#[test]
fn submissions_carry_the_cached_location_and_value() {
    let s = Shader::new(7, 8, 9, scanned());
    let v = Vec3Bits::new(1, 2, 3);
    assert_eq!(
        s.set_vec3("uCamPos", &v),
        Cmd::SetUniform { program: 7, location: 2, value: UniformValue::Vec3(v) }
    );
    assert_eq!(
        s.set_i32("uModelMat", 5),
        Cmd::SetUniform { program: 7, location: 1, value: UniformValue::I32(5) }
    );
    assert_eq!(s.bind(), Cmd::UseProgram(7));
}

#[test]
fn rescanning_extends_the_cache() {
    let mut s = Shader::new(7, 8, 9, scanned());
    s.scan_uniforms(vec![("uLightSpaceMat".to_string(), 11)]);
    assert_eq!(s.get_location("uLightSpaceMat"), 11);
    assert_eq!(s.get_location("uProjViewMat"), 0);
}
