//! Scene objects as the runtime holds them.
//!
//! Objects come fully formed from the scene description before any script
//! runs; the runtime itself never parses descriptions. Each object carries a
//! name, a kind tag, an optional mesh reference, transform vectors, a color
//! normalized to the unit range, a field of view and an intensity.

use vstd::prelude::*;

use crate::scalar::{Fixed, Vec3F};

verus! {

/// Mathematical image of a scene object.
#[verifier::ext_equal]
pub struct ObjView {
    pub name: Seq<char>,
    pub object_type: Seq<char>,
    pub mesh: Option<Seq<char>>,
    pub color: Vec3F,
    pub position: Vec3F,
    pub rotation: Vec3F,
    pub scale: Vec3F,
    pub fov: Fixed,
    pub intensity: Fixed,
}

/// Scene object as described by the authoring tools.
#[derive(Debug)]
pub struct SceneObject {
    pub name: String,
    pub object_type: String,
    pub mesh: Option<String>,
    pub color: Vec3F,
    pub position: Vec3F,
    pub rotation: Vec3F,
    pub scale: Vec3F,
    pub fov: Fixed,
    pub intensity: Fixed,
}

impl View for SceneObject {
    type V = ObjView;

    open spec fn view(&self) -> ObjView {
        ObjView {
            name: self.name@,
            object_type: self.object_type@,
            mesh: match self.mesh {
                Option::Some(ref m) => Option::Some(m@),
                Option::None => Option::None,
            },
            color: self.color,
            position: self.position,
            rotation: self.rotation,
            scale: self.scale,
            fov: self.fov,
            intensity: self.intensity,
        }
    }
}

impl Clone for SceneObject {
    /// A clone is indistinguishable from the original.
    fn clone(&self) -> (r: Self)
        ensures
            r@ == self@,
    {
        SceneObject {
            name: self.name.clone(),
            object_type: self.object_type.clone(),
            mesh: match &self.mesh {
                Some(m) => Some(m.clone()),
                None => None,
            },
            color: self.color,
            position: self.position,
            rotation: self.rotation,
            scale: self.scale,
            fov: self.fov,
            intensity: self.intensity,
        }
    }
}

impl SceneObject {
    /// A blank object: unnamed mesh-less object at the origin with unit
    /// scale, white color, a 45-degree field of view and unit intensity.
    pub fn blank() -> (r: SceneObject)
        ensures
            r@ =~= SceneObject::blank_view(),
            r@.name.len() == 0,
            r@.object_type.len() == 0,
            r@.mesh is None,
            r@.color == Vec3F::one_spec(),
            r@.position == Vec3F::zero_spec(),
            r@.rotation == Vec3F::zero_spec(),
            r@.scale == Vec3F::one_spec(),
            r@.fov.micros == 45 * crate::scalar::MICROS_PER_UNIT,
            r@.intensity.micros == crate::scalar::MICROS_PER_UNIT,
    {
        SceneObject {
            name: String::new(),
            object_type: String::new(),
            mesh: None,
            color: Vec3F::one(),
            position: Vec3F::zero(),
            rotation: Vec3F::zero(),
            scale: Vec3F::one(),
            fov: Fixed { micros: 45_000_000 },
            intensity: Fixed { micros: 1_000_000 },
        }
    }

    /// A blank object carrying the given name.
    pub fn named(name: String) -> (r: SceneObject)
        ensures
            r@ == (ObjView { name: name@, ..SceneObject::blank_view() }),
    {
        let mut object = Self::blank();
        object.name = name;
        proof {
            assert(object@.object_type =~= Seq::<char>::empty());
            assert(object@ =~= (ObjView { name: name@, ..SceneObject::blank_view() }));
        }
        object
    }

    /// The view every blank object has.
    pub open spec fn blank_view() -> ObjView {
        ObjView {
            name: Seq::empty(),
            object_type: Seq::empty(),
            mesh: Option::None,
            color: Vec3F::one_spec(),
            position: Vec3F::zero_spec(),
            rotation: Vec3F::zero_spec(),
            scale: Vec3F::one_spec(),
            fov: Fixed { micros: 45_000_000 },
            intensity: Fixed { micros: 1_000_000 },
        }
    }
}

/// A light source extracted from the scene object list.
#[derive(Debug, Clone, Copy, PartialEq, Eq, Structural)]
pub struct Light {
    pub position: Vec3F,
    pub color: Vec3F,
    pub intensity: Fixed,
}

/// Runtime representation of a scene: its objects, with the lights among
/// them also listed separately.
#[derive(Debug)]
pub struct Scene {
    pub objects: Vec<SceneObject>,
    pub lights: Vec<Light>,
}

/// The lights that a list of objects induces, in order: one for each object
/// whose kind tag is `light`.
pub open spec fn spec_lights(objs: Seq<ObjView>) -> Seq<Light>
    decreases objs.len(),
{
    if objs.len() == 0 {
        Seq::empty()
    } else {
        spec_lights(objs.drop_last()) + (if objs.last().object_type == "light"@ {
            seq![
                Light {
                    position: objs.last().position,
                    color: objs.last().color,
                    intensity: objs.last().intensity,
                },
            ]
        } else {
            Seq::empty()
        })
    }
}

/// Collects a light for every object tagged `light`, in scene order.
pub fn lights_from_objects(objects: &Vec<SceneObject>) -> (r: Vec<Light>)
    ensures
        r@ == spec_lights(objects@.map_values(|o: SceneObject| o@)),
{
    let ghost views = objects@.map_values(|o: SceneObject| o@);
    let mut lights: Vec<Light> = Vec::new();
    let n = objects.len();
    let mut i: usize = 0;
    while i < n
        invariant
            i <= n,
            n == objects@.len(),
            views == objects@.map_values(|o: SceneObject| o@),
            lights@ == spec_lights(views.take(i as int)),
        decreases n - i,
    {
        let object = &objects[i];
        if crate::text::str_eq(object.object_type.as_str(), "light") {
            lights.push(
                Light {
                    position: object.position,
                    color: object.color,
                    intensity: object.intensity,
                },
            );
        }
        proof {
            assert(views.take(i + 1).drop_last() =~= views.take(i as int));
            assert(views.take(i + 1).last() == views[i as int]);
        }
        i = i + 1;
    }
    proof {
        assert(views.take(n as int) =~= views);
    }
    lights
}

} // verus!
