//! Scene state and the per-mesh uniform submission of the geometry passes.
//!
//! A parsed scene description is an ordered list of typed objects; loading
//! classifies them in order into models, the single directional light and
//! the point lights.  Rendering a loaded scene emits, for every mesh of
//! every model, the full uniform and texture submission the geometry shader
//! expects, then an indexed draw.

use vstd::prelude::*;

use crate::cmd::Cmd;
use crate::cmd::UniformValue;
use crate::mesh::Mesh;
use crate::payload::BITS_ONE;
use crate::payload::BITS_ZERO;
use crate::payload::QuatBits;
use crate::payload::Vec3Bits;
use crate::shader::Shader;
use crate::shader::spec_lookup;
use crate::transform::Transform;

verus! {

/// A surface material: its diffuse texture path and a specular factor,
/// carried as a float bit pattern.
pub struct Material {
    pub diffuse: String,
    pub specular: u32,
}

impl Material {
    /// The fallback material: the placeholder texture, no specular.
    pub fn default() -> (m: Material)
        ensures
            m.diffuse@ == "content/textures/missing.png"@,
            m.specular == BITS_ZERO,
    {
        Material { diffuse: "content/textures/missing.png".to_owned(), specular: BITS_ZERO }
    }
}

/// One object of a scene description, classified by its type string.
pub struct Object {
    pub type_field: String,
    pub name: String,
    pub path: Option<String>,
    pub transform: Transform,
    pub phys: Option<String>,
    pub color: Option<Vec3Bits>,
}

/// A parsed scene description.
pub struct Scene {
    pub type_field: String,
    pub name: String,
    pub objects: Vec<Object>,
}

/// The scene's one directional light.
#[derive(Clone, Copy, PartialEq, Eq, Structural, Debug)]
pub struct SunLight {
    pub direction: QuatBits,
    pub color: Vec3Bits,
}

/// A point light; `orig_pos` remembers the loaded position so upstream
/// animation can offset from it each frame.
#[derive(Clone, Copy, PartialEq, Eq, Structural, Debug)]
pub struct PointLight {
    pub transform: Transform,
    pub color: Vec3Bits,
    pub orig_pos: Vec3Bits,
}

/// A placed model: its meshes and its transform.
pub struct Model {
    pub meshes: Vec<Mesh>,
    pub transform: Transform,
}

/// A scene after loading: what the passes consume.
pub struct LoadedScene {
    pub models: Vec<Model>,
    pub point_lights: Vec<PointLight>,
    pub sun_light: SunLight,
}

/// The colour a sun object without an explicit colour gets: white.
pub open spec fn spec_default_sun_color() -> Vec3Bits {
    Vec3Bits { x: BITS_ONE, y: BITS_ONE, z: BITS_ONE }
}

/// The colour every loaded point light starts with: magenta.
pub open spec fn spec_point_light_color() -> Vec3Bits {
    Vec3Bits { x: BITS_ONE, y: BITS_ZERO, z: BITS_ONE }
}

/// The sun before any sun object is seen: white, pointing along the
/// identity rotation.
pub open spec fn spec_default_sun() -> SunLight {
    SunLight {
        direction: QuatBits { x: BITS_ZERO, y: BITS_ZERO, z: BITS_ZERO, w: BITS_ONE },
        color: spec_default_sun_color(),
    }
}

/// The transforms of the model objects among the first `n`, in order.
pub open spec fn spec_model_transforms(objects: Seq<Object>, n: int) -> Seq<Transform>
    decreases n,
{
    if n <= 0 {
        Seq::empty()
    } else {
        let rest = spec_model_transforms(objects, n - 1);
        if objects[n - 1].type_field@ == "model"@ {
            rest.push(objects[n - 1].transform)
        } else {
            rest
        }
    }
}

/// The asset paths of the model objects among the first `n`, in order.
pub open spec fn spec_model_paths(objects: Seq<Object>, n: int) -> Seq<Seq<char>>
    decreases n,
{
    if n <= 0 {
        Seq::empty()
    } else {
        let rest = spec_model_paths(objects, n - 1);
        if objects[n - 1].type_field@ == "model"@ {
            rest.push(objects[n - 1].path.unwrap()@)
        } else {
            rest
        }
    }
}

/// The sun after the first `n` objects: the last sun object seen wins; its
/// colour defaults to white when absent.
pub open spec fn spec_sun(objects: Seq<Object>, n: int) -> SunLight
    decreases n,
{
    if n <= 0 {
        spec_default_sun()
    } else {
        let rest = spec_sun(objects, n - 1);
        if objects[n - 1].type_field@ == "light_sun"@ {
            SunLight {
                direction: objects[n - 1].transform.rotation,
                color: match objects[n - 1].color {
                    Some(c) => c,
                    None => spec_default_sun_color(),
                },
            }
        } else {
            rest
        }
    }
}

/// The point lights among the first `n` objects, in order, each starting at
/// its object's position.
pub open spec fn spec_point_lights(objects: Seq<Object>, n: int) -> Seq<PointLight>
    decreases n,
{
    if n <= 0 {
        Seq::empty()
    } else {
        let rest = spec_point_lights(objects, n - 1);
        if objects[n - 1].type_field@ == "light_point"@ {
            rest.push(
                PointLight {
                    transform: objects[n - 1].transform,
                    color: spec_point_light_color(),
                    orig_pos: objects[n - 1].transform.position,
                },
            )
        } else {
            rest
        }
    }
}

/// Compares a string to a literal.
fn str_eq(a: &String, b: &str) -> (r: bool)
    ensures
        r == (a@ == b@),
{
    let owned: String = b.to_owned();
    a.eq(&owned)
}

impl Scene {
    /// Classifies the scene's objects, in order: model objects become placed
    /// models (their meshes still to be filled from the returned asset
    /// paths), the last sun object sets the directional light, point
    /// objects append point lights, and an unknown type is skipped.  A
    /// physics tag is parsed upstream but acted on nowhere, so it is
    /// ignored here.
    pub fn load(&self) -> (r: (LoadedScene, Vec<String>))
        requires
            forall|i: int|
                0 <= i < self.objects@.len() && self.objects@[i].type_field@ == "model"@
                    ==> self.objects@[i].path is Some,
        ensures
            r.0.models@.len() == spec_model_transforms(
                self.objects@,
                self.objects@.len() as int,
            ).len(),
            forall|i: int|
                0 <= i < r.0.models@.len() ==> (#[trigger] r.0.models@[i]).transform
                    == spec_model_transforms(self.objects@, self.objects@.len() as int)[i],
            forall|i: int|
                0 <= i < r.0.models@.len() ==> (#[trigger] r.0.models@[i]).meshes@.len() == 0,
            r.0.sun_light == spec_sun(self.objects@, self.objects@.len() as int),
            r.0.point_lights@ == spec_point_lights(self.objects@, self.objects@.len() as int),
            r.1@.len() == spec_model_paths(self.objects@, self.objects@.len() as int).len(),
            forall|i: int|
                0 <= i < r.1@.len() ==> (#[trigger] r.1@[i])@ == spec_model_paths(
                    self.objects@,
                    self.objects@.len() as int,
                )[i],
    {
        let mut loaded = LoadedScene::new();
        let mut paths: Vec<String> = Vec::new();
        let ghost objects = self.objects@;
        let mut i: usize = 0;
        while i < self.objects.len()
            invariant
                i <= objects.len(),
                self.objects@ == objects,
                forall|k: int|
                    0 <= k < objects.len() && objects[k].type_field@ == "model"@
                        ==> objects[k].path is Some,
                loaded.models@.len() == spec_model_transforms(objects, i as int).len(),
                forall|k: int|
                    0 <= k < loaded.models@.len() ==> (#[trigger] loaded.models@[k]).transform
                        == spec_model_transforms(objects, i as int)[k],
                forall|k: int|
                    0 <= k < loaded.models@.len() ==> (#[trigger] loaded.models@[k]).meshes@.len()
                        == 0,
                loaded.sun_light == spec_sun(objects, i as int),
                loaded.point_lights@ == spec_point_lights(objects, i as int),
                paths@.len() == spec_model_paths(objects, i as int).len(),
                forall|k: int|
                    0 <= k < paths@.len() ==> (#[trigger] paths@[k])@ == spec_model_paths(
                        objects,
                        i as int,
                    )[k],
            decreases objects.len() - i,
        {
            proof {
                broadcast use vstd::string::group_string_axioms;

                // The three type literals have distinct lengths, so matching
                // one rules the others out.
                reveal_strlit("model");
                reveal_strlit("light_sun");
                reveal_strlit("light_point");
                assert("model"@.len() == 5);
                assert("light_sun"@.len() == 9);
                assert("light_point"@.len() == 11);
            }
            let object = &self.objects[i];
            if str_eq(&object.type_field, "model") {
                let model = Model { meshes: Vec::new(), transform: object.transform };
                loaded.models.push(model);
                let path: String = match &object.path {
                    Some(p) => p.clone(),
                    None => String::new(),
                };
                paths.push(path);
            } else if str_eq(&object.type_field, "light_sun") {
                loaded.sun_light.direction = object.transform.rotation;
                loaded.sun_light.color = match &object.color {
                    Some(c) => *c,
                    None => Vec3Bits::one(),
                };
            } else if str_eq(&object.type_field, "light_point") {
                loaded.point_lights.push(
                    PointLight {
                        transform: object.transform,
                        color: Vec3Bits { x: BITS_ONE, y: BITS_ZERO, z: BITS_ONE },
                        orig_pos: object.transform.position,
                    },
                );
            }
            i = i + 1;
        }
        (loaded, paths)
    }
}

/// The submission for one mesh of a model: bind the shader, submit the
/// camera, model and lighting uniforms, bind each material channel to its
/// fixed texture unit, and draw.  `proj_view` is the value handed to the
/// vertex transform — the camera's matrix in the geometry pass, the
/// light-space matrix in the shadow pass.
pub open spec fn spec_mesh_render_cmds(
    shader: Shader,
    sun: SunLight,
    proj_view: UniformValue,
    cam_pos: Vec3Bits,
    transform: Transform,
    mesh: Mesh,
) -> Seq<Cmd> {
    let p = shader.program;
    let u = shader.uniforms@;
    seq![
        Cmd::UseProgram(p),
        Cmd::SetUniform { program: p, location: spec_lookup(u, "uProjViewMat"@), value: proj_view },
        Cmd::SetUniform {
            program: p,
            location: spec_lookup(u, "uModelMat"@),
            value: UniformValue::ModelMatrix(transform),
        },
        Cmd::SetUniform {
            program: p,
            location: spec_lookup(u, "uCamPos"@),
            value: UniformValue::Vec3(cam_pos),
        },
        Cmd::SetUniform {
            program: p,
            location: spec_lookup(u, "lightingInfo.vLightDir"@),
            value: UniformValue::EulerAngles(sun.direction),
        },
        Cmd::SetUniform {
            program: p,
            location: spec_lookup(u, "lightingInfo.vLightColor"@),
            value: UniformValue::Vec3(sun.color),
        },
        Cmd::SetUniform {
            program: p,
            location: spec_lookup(u, "materialInfo.fSpecular"@),
            value: UniformValue::F32(BITS_ZERO),
        },
        Cmd::SetUniform {
            program: p,
            location: spec_lookup(u, "materialInfo.tDiffuseTex"@),
            value: UniformValue::I32(0),
        },
        Cmd::BindTexture { unit: 0, texture: mesh.diffuse_texture },
        Cmd::SetUniform {
            program: p,
            location: spec_lookup(u, "materialInfo.tNormalTex"@),
            value: UniformValue::I32(1),
        },
        Cmd::BindTexture { unit: 1, texture: mesh.normal_texture },
        Cmd::SetUniform {
            program: p,
            location: spec_lookup(u, "materialInfo.tOrmTex"@),
            value: UniformValue::I32(2),
        },
        Cmd::BindTexture { unit: 2, texture: mesh.orm_texture },
        Cmd::SetUniform {
            program: p,
            location: spec_lookup(u, "materialInfo.tEmissiveTex"@),
            value: UniformValue::I32(3),
        },
        Cmd::BindTexture { unit: 3, texture: mesh.emissive_texture },
        Cmd::DrawIndexed { vao: mesh.vao, index_count: mesh.index_count },
    ]
}

/// The submissions for the first `n` meshes of a model, in order.
pub open spec fn spec_model_render_cmds(
    shader: Shader,
    sun: SunLight,
    proj_view: UniformValue,
    cam_pos: Vec3Bits,
    transform: Transform,
    meshes: Seq<Mesh>,
    n: int,
) -> Seq<Cmd>
    decreases n,
{
    if n <= 0 {
        Seq::empty()
    } else {
        spec_model_render_cmds(shader, sun, proj_view, cam_pos, transform, meshes, n - 1)
            + spec_mesh_render_cmds(shader, sun, proj_view, cam_pos, transform, meshes[n - 1])
    }
}

/// The submissions for the first `n` models of a scene, in order.
pub open spec fn spec_scene_render_cmds(
    shader: Shader,
    sun: SunLight,
    proj_view: UniformValue,
    cam_pos: Vec3Bits,
    models: Seq<Model>,
    n: int,
) -> Seq<Cmd>
    decreases n,
{
    if n <= 0 {
        Seq::empty()
    } else {
        spec_scene_render_cmds(shader, sun, proj_view, cam_pos, models, n - 1)
            + spec_model_render_cmds(
            shader,
            sun,
            proj_view,
            cam_pos,
            models[n - 1].transform,
            models[n - 1].meshes@,
            models[n - 1].meshes@.len() as int,
        )
    }
}

/// Mesh submissions never touch the pass state: they are uniform and
/// texture submissions and draws only.
pub proof fn lemma_mesh_render_cmds_neutral(
    shader: Shader,
    sun: SunLight,
    proj_view: UniformValue,
    cam_pos: Vec3Bits,
    transform: Transform,
    mesh: Mesh,
)
    ensures
        forall|i: int|
            0 <= i < spec_mesh_render_cmds(shader, sun, proj_view, cam_pos, transform, mesh).len()
                ==> !(#[trigger] spec_mesh_render_cmds(
                shader,
                sun,
                proj_view,
                cam_pos,
                transform,
                mesh,
            )[i]).is_state_cmd(),
{
}

/// A model's whole submission never touches the pass state.
pub proof fn lemma_model_render_cmds_neutral(
    shader: Shader,
    sun: SunLight,
    proj_view: UniformValue,
    cam_pos: Vec3Bits,
    transform: Transform,
    meshes: Seq<Mesh>,
    n: int,
)
    ensures
        forall|i: int|
            0 <= i < spec_model_render_cmds(
                shader,
                sun,
                proj_view,
                cam_pos,
                transform,
                meshes,
                n,
            ).len() ==> !(#[trigger] spec_model_render_cmds(
                shader,
                sun,
                proj_view,
                cam_pos,
                transform,
                meshes,
                n,
            )[i]).is_state_cmd(),
    decreases n,
{
    if n > 0 {
        lemma_model_render_cmds_neutral(shader, sun, proj_view, cam_pos, transform, meshes, n - 1);
        lemma_mesh_render_cmds_neutral(shader, sun, proj_view, cam_pos, transform, meshes[n - 1]);
        let a = spec_model_render_cmds(shader, sun, proj_view, cam_pos, transform, meshes, n - 1);
        let b = spec_mesh_render_cmds(shader, sun, proj_view, cam_pos, transform, meshes[n - 1]);
        assert forall|i: int| 0 <= i < (a + b).len() implies !(#[trigger] (a + b)[i]).is_state_cmd()
            by {
            if i < a.len() {
                assert((a + b)[i] == a[i]);
            } else {
                assert((a + b)[i] == b[i - a.len()]);
            }
        }
    }
}

/// A scene's whole submission never touches the pass state.
pub proof fn lemma_scene_render_cmds_neutral(
    shader: Shader,
    sun: SunLight,
    proj_view: UniformValue,
    cam_pos: Vec3Bits,
    models: Seq<Model>,
    n: int,
)
    ensures
        forall|i: int|
            0 <= i < spec_scene_render_cmds(shader, sun, proj_view, cam_pos, models, n).len()
                ==> !(#[trigger] spec_scene_render_cmds(
                shader,
                sun,
                proj_view,
                cam_pos,
                models,
                n,
            )[i]).is_state_cmd(),
    decreases n,
{
    if n > 0 {
        lemma_scene_render_cmds_neutral(shader, sun, proj_view, cam_pos, models, n - 1);
        lemma_model_render_cmds_neutral(
            shader,
            sun,
            proj_view,
            cam_pos,
            models[n - 1].transform,
            models[n - 1].meshes@,
            models[n - 1].meshes@.len() as int,
        );
        let a = spec_scene_render_cmds(shader, sun, proj_view, cam_pos, models, n - 1);
        let b = spec_model_render_cmds(
            shader,
            sun,
            proj_view,
            cam_pos,
            models[n - 1].transform,
            models[n - 1].meshes@,
            models[n - 1].meshes@.len() as int,
        );
        assert forall|i: int| 0 <= i < (a + b).len() implies !(#[trigger] (a + b)[i]).is_state_cmd()
            by {
            if i < a.len() {
                assert((a + b)[i] == a[i]);
            } else {
                assert((a + b)[i] == b[i - a.len()]);
            }
        }
    }
}

impl Model {
    /// Emits the full geometry submission for every mesh of this model.
    pub fn render(
        &self,
        sun: &SunLight,
        shader: &Shader,
        proj_view: &UniformValue,
        cam_pos: &Vec3Bits,
    ) -> (cmds: Vec<Cmd>)
        ensures
            cmds@ == spec_model_render_cmds(
                *shader,
                *sun,
                *proj_view,
                *cam_pos,
                self.transform,
                self.meshes@,
                self.meshes@.len() as int,
            ),
    {
        let mut cmds: Vec<Cmd> = Vec::new();
        let mut i: usize = 0;
        while i < self.meshes.len()
            invariant
                i <= self.meshes@.len(),
                cmds@ == spec_model_render_cmds(
                    *shader,
                    *sun,
                    *proj_view,
                    *cam_pos,
                    self.transform,
                    self.meshes@,
                    i as int,
                ),
            decreases self.meshes@.len() - i,
        {
            let mesh = &self.meshes[i];
            cmds.push(shader.bind());
            cmds.push(shader.set_value("uProjViewMat", *proj_view));
            cmds.push(
                shader.set_value("uModelMat", UniformValue::ModelMatrix(self.transform)),
            );
            cmds.push(shader.set_vec3("uCamPos", cam_pos));
            cmds.push(
                shader.set_value("lightingInfo.vLightDir", UniformValue::EulerAngles(sun.direction)),
            );
            cmds.push(shader.set_vec3("lightingInfo.vLightColor", &sun.color));
            cmds.push(shader.set_f32("materialInfo.fSpecular", BITS_ZERO));
            cmds.push(shader.set_i32("materialInfo.tDiffuseTex", 0));
            cmds.push(Cmd::BindTexture { unit: 0, texture: mesh.diffuse_texture });
            cmds.push(shader.set_i32("materialInfo.tNormalTex", 1));
            cmds.push(Cmd::BindTexture { unit: 1, texture: mesh.normal_texture });
            cmds.push(shader.set_i32("materialInfo.tOrmTex", 2));
            cmds.push(Cmd::BindTexture { unit: 2, texture: mesh.orm_texture });
            cmds.push(shader.set_i32("materialInfo.tEmissiveTex", 3));
            cmds.push(Cmd::BindTexture { unit: 3, texture: mesh.emissive_texture });
            cmds.push(mesh.render());
            proof {
                assert(cmds@ =~= spec_model_render_cmds(
                    *shader,
                    *sun,
                    *proj_view,
                    *cam_pos,
                    self.transform,
                    self.meshes@,
                    i + 1,
                ));
            }
            i = i + 1;
        }
        cmds
    }
}

impl LoadedScene {
    /// An empty scene with the default sun and no lights or models.
    pub fn new() -> (s: LoadedScene)
        ensures
            s.models@.len() == 0,
            s.point_lights@.len() == 0,
            s.sun_light == spec_default_sun(),
    {
        LoadedScene {
            models: Vec::new(),
            point_lights: Vec::new(),
            sun_light: SunLight { direction: QuatBits::identity(), color: Vec3Bits::one() },
        }
    }

    /// Emits the geometry submission for every model of the scene, in order.
    pub fn render(&self, shader: &Shader, proj_view: &UniformValue, cam_pos: &Vec3Bits) -> (cmds:
        Vec<Cmd>)
        ensures
            cmds@ == spec_scene_render_cmds(
                *shader,
                self.sun_light,
                *proj_view,
                *cam_pos,
                self.models@,
                self.models@.len() as int,
            ),
    {
        let mut cmds: Vec<Cmd> = Vec::new();
        let mut i: usize = 0;
        while i < self.models.len()
            invariant
                i <= self.models@.len(),
                cmds@ == spec_scene_render_cmds(
                    *shader,
                    self.sun_light,
                    *proj_view,
                    *cam_pos,
                    self.models@,
                    i as int,
                ),
            decreases self.models@.len() - i,
        {
            let mut sub = self.models[i].render(&self.sun_light, shader, proj_view, cam_pos);
            cmds.append(&mut sub);
            i = i + 1;
        }
        cmds
    }
}

} // verus!
