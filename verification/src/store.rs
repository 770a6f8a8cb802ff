//! The scene store: the authoritative, shared table of scene objects.
//!
//! [`SceneTable`] is the table itself, with exact contracts: lookups and
//! field writes go to the first object of the given name, and a write
//! changes that one field of that one object and nothing else. Unknown
//! names leave the table untouched and report failure.
//!
//! [`DataModel`] shares one table between the render loop and every script
//! through a readers-writer lock; any number of readers may take snapshots
//! while writers are mutually exclusive.

use std::sync::Arc;

use vstd::prelude::*;
use vstd::rwlock::{RwLock, RwLockPredicate, WriteHandle};

use crate::scalar::{Fixed, Vec3F};
use crate::scene::{ObjView, SceneObject};
use crate::text::str_eq;

verus! {

/// A field of a scene object that scripts may write.
#[derive(Debug, Clone, Copy, PartialEq, Eq, Structural)]
pub enum Field {
    Position,
    Rotation,
    Scale,
    Color,
    Fov,
    Intensity,
}

/// First position of an object named `name`, if any.
pub open spec fn spec_index_of(objs: Seq<ObjView>, name: Seq<char>) -> Option<int>
    decreases objs.len(),
{
    if objs.len() == 0 {
        Option::None
    } else if objs[0].name == name {
        Option::Some(0)
    } else {
        match spec_index_of(objs.drop_first(), name) {
            Option::None => Option::None,
            Option::Some(i) => Option::Some(i + 1),
        }
    }
}

/// What the found position means: in range, the right name, and no earlier
/// object of that name.
pub proof fn lemma_index_of(objs: Seq<ObjView>, name: Seq<char>)
    ensures
        match spec_index_of(objs, name) {
            Option::None => forall|i: int|
                0 <= i < objs.len() ==> (#[trigger] objs[i]).name != name,
            Option::Some(i) => {
                &&& 0 <= i < objs.len()
                &&& objs[i].name == name
                &&& forall|j: int| 0 <= j < i ==> (#[trigger] objs[j]).name != name
            },
        },
    decreases objs.len(),
{
    if objs.len() == 0 {
    } else if objs[0].name == name {
    } else {
        let rest = objs.drop_first();
        lemma_index_of(rest, name);
        assert(forall|j: int| 0 <= j < rest.len() ==> #[trigger] rest[j] == objs[j + 1]);
        match spec_index_of(rest, name) {
            Option::None => {
                assert forall|i: int| 0 <= i < objs.len() implies (#[trigger] objs[i]).name
                    != name by {
                    if i > 0 {
                        assert(objs[i] == rest[i - 1]);
                    }
                }
            },
            Option::Some(i) => {
                assert(spec_index_of(objs, name) == Option::Some(i + 1));
                assert forall|j: int| 0 <= j < i + 1 implies (#[trigger] objs[j]).name != name by {
                    if j > 0 {
                        assert(objs[j] == rest[j - 1]);
                    }
                }
            },
        }
    }
}

/// The view `obj` takes when `field` is set to the given vector or scalar.
pub open spec fn spec_with_field(obj: ObjView, field: Field, vector: Vec3F, scalar: Fixed) -> ObjView {
    match field {
        Field::Position => ObjView { position: vector, ..obj },
        Field::Rotation => ObjView { rotation: vector, ..obj },
        Field::Scale => ObjView { scale: vector, ..obj },
        Field::Color => ObjView { color: vector, ..obj },
        Field::Fov => ObjView { fov: scalar, ..obj },
        Field::Intensity => ObjView { intensity: scalar, ..obj },
    }
}

/// The table after writing `field` of the first object named `name`:
/// unchanged when the name is unknown.
pub open spec fn spec_after_write(
    objs: Seq<ObjView>,
    name: Seq<char>,
    field: Field,
    vector: Vec3F,
    scalar: Fixed,
) -> Seq<ObjView> {
    match spec_index_of(objs, name) {
        Option::None => objs,
        Option::Some(i) => objs.update(i, spec_with_field(objs[i], field, vector, scalar)),
    }
}

/// The ordered collection of scene objects.
///
/// Lookups and writes address the first object of a given name, so a
/// duplicate name behind it is unreachable, as in a scene that was loaded
/// with such duplicates.
#[derive(Debug)]
pub struct SceneTable {
    objects: Vec<SceneObject>,
}

impl View for SceneTable {
    type V = Seq<ObjView>;

    closed spec fn view(&self) -> Seq<ObjView> {
        self.objects@.map_values(|o: SceneObject| o@)
    }
}

impl SceneTable {
    /// A table holding exactly the given objects, in order.
    pub fn from_objects(objects: Vec<SceneObject>) -> (r: SceneTable)
        ensures
            r@ == objects@.map_values(|o: SceneObject| o@),
    {
        SceneTable { objects }
    }

    /// An empty table.
    pub fn empty() -> (r: SceneTable)
        ensures
            r@.len() == 0,
    {
        let table = SceneTable { objects: Vec::new() };
        proof {
            assert(table@ =~= Seq::<ObjView>::empty());
        }
        table
    }

    /// How many objects the table holds.
    pub fn len(&self) -> (r: usize)
        ensures
            r == self@.len(),
    {
        self.objects.len()
    }

    /// A copy of every object, in table order.
    pub fn snapshot(&self) -> (r: Vec<SceneObject>)
        ensures
            r@.map_values(|o: SceneObject| o@) == self@,
    {
        let n = self.objects.len();
        let mut out: Vec<SceneObject> = Vec::new();
        let mut i: usize = 0;
        while i < n
            invariant
                i <= n,
                n == self.objects@.len(),
                out@.len() == i,
                forall|j: int| 0 <= j < i ==> (#[trigger] out@[j])@ == self@[j],
            decreases n - i,
        {
            out.push(self.objects[i].clone());
            i = i + 1;
        }
        proof {
            assert(out@.map_values(|o: SceneObject| o@) =~= self@);
        }
        out
    }

    /// The object names, in table order, as scripts enumerate them.
    pub fn names(&self) -> (r: Vec<String>)
        ensures
            r@.map_values(|s: String| s@) == self@.map_values(|o: ObjView| o.name),
    {
        let n = self.objects.len();
        let mut out: Vec<String> = Vec::new();
        let mut i: usize = 0;
        while i < n
            invariant
                i <= n,
                n == self.objects@.len(),
                out@.len() == i,
                forall|j: int| 0 <= j < i ==> (#[trigger] out@[j])@ == self@[j].name,
            decreases n - i,
        {
            out.push(self.objects[i].name.clone());
            proof {
                assert(self@[i as int] == self.objects@[i as int]@);
            }
            i = i + 1;
        }
        proof {
            assert(out@.map_values(|s: String| s@) =~= self@.map_values(|o: ObjView| o.name));
        }
        out
    }

    /// Position of the first object named `name`, if any.
    fn position_of(&self, name: &str) -> (r: Option<usize>)
        ensures
            match spec_index_of(self@, name@) {
                Option::None => r is None,
                Option::Some(i) => 0 <= i < self@.len() && r is Some && r->0 == i,
            },
    {
        proof {
            lemma_index_of(self@, name@);
        }
        let n = self.objects.len();
        let mut i: usize = 0;
        while i < n
            invariant
                i <= n,
                n == self.objects@.len(),
                forall|j: int| 0 <= j < i ==> (#[trigger] self@[j]).name != name@,
            decreases n - i,
        {
            if str_eq(self.objects[i].name.as_str(), name) {
                proof {
                    lemma_index_first(self@, name@, i as int);
                }
                return Some(i);
            }
            i = i + 1;
        }
        None
    }

    /// Returns a copy of the first object named `name`.
    pub fn get(&self, name: &str) -> (r: Option<SceneObject>)
        ensures
            match spec_index_of(self@, name@) {
                Option::None => r is None,
                Option::Some(i) => r is Some && r->0@ == self@[i],
            },
    {
        match self.position_of(name) {
            Some(i) => {
                proof {
                    assert(self@[i as int] == self.objects@[i as int]@);
                }
                Some(self.objects[i].clone())
            },
            None => None,
        }
    }

    /// Writes one field of the first object named `name`; reports whether
    /// such an object exists. Nothing else changes.
    pub fn set_field(&mut self, name: &str, field: Field, vector: Vec3F, scalar: Fixed) -> (r:
        bool)
        ensures
            r == (spec_index_of(old(self)@, name@) is Some),
            final(self)@ == spec_after_write(old(self)@, name@, field, vector, scalar),
    {
        let i = match self.position_of(name) {
            Some(i) => i,
            None => {
                return false;
            },
        };
        write_field(&mut self.objects, i, field, vector, scalar);
        true
    }

    /// Sets the position of the named object.
    pub fn set_position(&mut self, name: &str, position: Vec3F) -> (r: bool)
        ensures
            r == (spec_index_of(old(self)@, name@) is Some),
            final(self)@ == spec_after_write(
                old(self)@,
                name@,
                Field::Position,
                position,
                Fixed { micros: 0 },
            ),
    {
        self.set_field(name, Field::Position, position, Fixed::zero())
    }

    /// Sets the rotation of the named object.
    pub fn set_rotation(&mut self, name: &str, rotation: Vec3F) -> (r: bool)
        ensures
            r == (spec_index_of(old(self)@, name@) is Some),
            final(self)@ == spec_after_write(
                old(self)@,
                name@,
                Field::Rotation,
                rotation,
                Fixed { micros: 0 },
            ),
    {
        self.set_field(name, Field::Rotation, rotation, Fixed::zero())
    }

    /// Sets the scale of the named object.
    pub fn set_scale(&mut self, name: &str, scale: Vec3F) -> (r: bool)
        ensures
            r == (spec_index_of(old(self)@, name@) is Some),
            final(self)@ == spec_after_write(
                old(self)@,
                name@,
                Field::Scale,
                scale,
                Fixed { micros: 0 },
            ),
    {
        self.set_field(name, Field::Scale, scale, Fixed::zero())
    }

    /// Sets the color of the named object (unit-range channels).
    pub fn set_color(&mut self, name: &str, color: Vec3F) -> (r: bool)
        ensures
            r == (spec_index_of(old(self)@, name@) is Some),
            final(self)@ == spec_after_write(
                old(self)@,
                name@,
                Field::Color,
                color,
                Fixed { micros: 0 },
            ),
    {
        self.set_field(name, Field::Color, color, Fixed::zero())
    }

    /// Sets the field of view of the named object.
    pub fn set_fov(&mut self, name: &str, fov: Fixed) -> (r: bool)
        ensures
            r == (spec_index_of(old(self)@, name@) is Some),
            final(self)@ == spec_after_write(
                old(self)@,
                name@,
                Field::Fov,
                Vec3F::zero_spec(),
                fov,
            ),
    {
        self.set_field(name, Field::Fov, Vec3F::zero(), fov)
    }

    /// Sets the intensity of the named object.
    pub fn set_intensity(&mut self, name: &str, intensity: Fixed) -> (r: bool)
        ensures
            r == (spec_index_of(old(self)@, name@) is Some),
            final(self)@ == spec_after_write(
                old(self)@,
                name@,
                Field::Intensity,
                Vec3F::zero_spec(),
                intensity,
            ),
    {
        self.set_field(name, Field::Intensity, Vec3F::zero(), intensity)
    }
}

/// Overwrites one field of the object at position `i`.
fn write_field(objects: &mut Vec<SceneObject>, i: usize, field: Field, vector: Vec3F, scalar: Fixed)
    requires
        i < old(objects)@.len(),
    ensures
        final(objects)@.map_values(|o: SceneObject| o@) == old(objects)@.map_values(
            |o: SceneObject| o@,
        ).update(
            i as int,
            spec_with_field(
                old(objects)@.map_values(|o: SceneObject| o@)[i as int],
                field,
                vector,
                scalar,
            ),
        ),
{
    let ghost old_views = objects@.map_values(|o: SceneObject| o@);
    let object = &mut objects[i];
    match field {
        Field::Position => {
            object.position = vector;
        },
        Field::Rotation => {
            object.rotation = vector;
        },
        Field::Scale => {
            object.scale = vector;
        },
        Field::Color => {
            object.color = vector;
        },
        Field::Fov => {
            object.fov = scalar;
        },
        Field::Intensity => {
            object.intensity = scalar;
        },
    }
    proof {
        let views = objects@.map_values(|o: SceneObject| o@);
        let target = old_views.update(
            i as int,
            spec_with_field(old_views[i as int], field, vector, scalar),
        );
        assert forall|j: int| 0 <= j < views.len() implies views[j] =~= target[j] by {
            assert(views[j] == objects@[j]@);
            assert(old_views[j] == old(objects)@[j]@);
        }
        assert(views =~= target);
    }
}


/// The pair a field read gives back: the vector part and the scalar part,
/// whichever the field uses.
pub open spec fn spec_read_back(obj: ObjView, field: Field) -> (Vec3F, Fixed) {
    match field {
        Field::Position => (obj.position, Fixed { micros: 0 }),
        Field::Rotation => (obj.rotation, Fixed { micros: 0 }),
        Field::Scale => (obj.scale, Fixed { micros: 0 }),
        Field::Color => (obj.color, Fixed { micros: 0 }),
        Field::Fov => (Vec3F::zero_spec(), obj.fov),
        Field::Intensity => (Vec3F::zero_spec(), obj.intensity),
    }
}

/// A write changes no name, so lookups land on the same positions before
/// and after.
pub proof fn lemma_index_of_names_only(a: Seq<ObjView>, b: Seq<ObjView>, name: Seq<char>)
    requires
        a.len() == b.len(),
        forall|i: int| 0 <= i < a.len() ==> (#[trigger] a[i]).name == b[i].name,
    ensures
        spec_index_of(a, name) == spec_index_of(b, name),
    decreases a.len(),
{
    if a.len() > 0 {
        assert(forall|i: int|
            0 <= i < a.drop_first().len() ==> (#[trigger] a.drop_first()[i]).name == a[i + 1].name
                && (#[trigger] b.drop_first()[i]).name == b[i + 1].name);
        lemma_index_of_names_only(a.drop_first(), b.drop_first(), name);
    }
}

/// A well-formed write to a known object is visible: reading that object's
/// field right after the write gives exactly the written value, and every
/// other object and field is untouched.
pub proof fn lemma_write_visible(
    objs: Seq<ObjView>,
    name: Seq<char>,
    field: Field,
    vector: Vec3F,
    scalar: Fixed,
)
    requires
        spec_index_of(objs, name) is Some,
    ensures
        ({
            let i = spec_index_of(objs, name)->0;
            let after = spec_after_write(objs, name, field, vector, scalar);
            &&& spec_index_of(after, name) == spec_index_of(objs, name)
            &&& spec_read_back(after[i], field) == (match field {
                Field::Fov | Field::Intensity => (Vec3F::zero_spec(), scalar),
                _ => (vector, Fixed { micros: 0 }),
            })
            &&& after.len() == objs.len()
            &&& forall|j: int| 0 <= j < objs.len() && j != i ==> after[j] == objs[j]
            &&& forall|g: Field| g != field ==> spec_read_back(after[i], g) == spec_read_back(objs[i], g)
        }),
{
    let i = spec_index_of(objs, name)->0;
    let after = spec_after_write(objs, name, field, vector, scalar);
    lemma_index_of(objs, name);
    assert(forall|j: int| 0 <= j < objs.len() ==> (#[trigger] after[j]).name == objs[j].name);
    lemma_index_of_names_only(after, objs, name);
}

/// A write to an unknown name is a no-op: the table is unchanged and no
/// later read can tell the write happened.
pub proof fn lemma_unknown_write_is_noop(
    objs: Seq<ObjView>,
    name: Seq<char>,
    field: Field,
    vector: Vec3F,
    scalar: Fixed,
)
    requires
        spec_index_of(objs, name) is None,
    ensures
        spec_after_write(objs, name, field, vector, scalar) == objs,
{
}

/// Two writes to different objects, or to different fields of one object,
/// both land: neither update is lost, whichever order they arrive in.
pub proof fn lemma_independent_writes(
    objs: Seq<ObjView>,
    name1: Seq<char>,
    field1: Field,
    vector1: Vec3F,
    scalar1: Fixed,
    name2: Seq<char>,
    field2: Field,
    vector2: Vec3F,
    scalar2: Fixed,
)
    requires
        spec_index_of(objs, name1) is Some,
        spec_index_of(objs, name2) is Some,
        name1 != name2 || field1 != field2,
    ensures
        ({
            let once = spec_after_write(objs, name1, field1, vector1, scalar1);
            let twice = spec_after_write(once, name2, field2, vector2, scalar2);
            &&& spec_read_back(twice[spec_index_of(objs, name1)->0], field1) == spec_read_back(
                once[spec_index_of(objs, name1)->0],
                field1,
            )
            &&& spec_read_back(twice[spec_index_of(objs, name2)->0], field2) == (match field2 {
                Field::Fov | Field::Intensity => (Vec3F::zero_spec(), scalar2),
                _ => (vector2, Fixed { micros: 0 }),
            })
        }),
{
    let once = spec_after_write(objs, name1, field1, vector1, scalar1);
    lemma_write_visible(objs, name1, field1, vector1, scalar1);
    lemma_index_of(objs, name1);
    lemma_index_of(objs, name2);
    assert(forall|j: int| 0 <= j < objs.len() ==> (#[trigger] once[j]).name == objs[j].name);
    lemma_index_of_names_only(once, objs, name2);
    lemma_write_visible(once, name2, field2, vector2, scalar2);
    if name1 == name2 {
        lemma_index_of(once, name1);
    }
}

/// Two writes to the same field of the same object leave exactly the later
/// value: last-writer-wins, with no third value ever observable.
pub proof fn lemma_last_writer_wins(
    objs: Seq<ObjView>,
    name: Seq<char>,
    field: Field,
    vector1: Vec3F,
    scalar1: Fixed,
    vector2: Vec3F,
    scalar2: Fixed,
)
    requires
        spec_index_of(objs, name) is Some,
    ensures
        ({
            let once = spec_after_write(objs, name, field, vector1, scalar1);
            let twice = spec_after_write(once, name, field, vector2, scalar2);
            twice == spec_after_write(objs, name, field, vector2, scalar2)
        }),
{
    let once = spec_after_write(objs, name, field, vector1, scalar1);
    let twice = spec_after_write(once, name, field, vector2, scalar2);
    let direct = spec_after_write(objs, name, field, vector2, scalar2);
    lemma_write_visible(objs, name, field, vector1, scalar1);
    lemma_index_of(objs, name);
    assert(forall|j: int| 0 <= j < objs.len() ==> (#[trigger] once[j]).name == objs[j].name);
    lemma_index_of_names_only(once, objs, name);
    let i = spec_index_of(objs, name)->0;
    assert(twice[i] =~= direct[i]);
    assert(twice =~= direct);
}

/// A found name at position `i` with no earlier match is where the search
/// lands.
proof fn lemma_index_first(objs: Seq<ObjView>, name: Seq<char>, i: int)
    requires
        0 <= i < objs.len(),
        objs[i].name == name,
        forall|j: int| 0 <= j < i ==> (#[trigger] objs[j]).name != name,
    ensures
        spec_index_of(objs, name) == Option::Some(i),
    decreases i,
{
    if i == 0 {
    } else {
        assert(objs[0].name != name);
        lemma_index_first(objs.drop_first(), name, i - 1);
        assert(forall|j: int|
            0 <= j < i - 1 ==> (#[trigger] objs.drop_first()[j]).name == objs[j + 1].name);
    }
}

/// Anything may sit in the scene lock; the store's contracts live on
/// [`SceneTable`] itself.
pub struct AnyTable;

impl RwLockPredicate<SceneTable> for AnyTable {
    open spec fn inv(self, t: SceneTable) -> bool {
        true
    }
}

/// Thread-safe container mirroring the mutable state of the scene graph.
///
/// Cloning shares the same underlying table; readers take consistent
/// snapshots while writers exclude each other. What a concurrent reader
/// observes depends on scheduling, so the exact write contracts live on
/// [`SceneTable`]; each method here holds the lock for one table operation.
pub struct DataModel {
    objects: Arc<RwLock<SceneTable, AnyTable>>,
}

impl DataModel {
    /// Whether two models hand out the same shared table.
    pub closed spec fn shares_with(&self, other: &DataModel) -> bool {
        self.objects == other.objects
    }
}

impl Clone for DataModel {
    /// The clone shares this model's table.
    fn clone(&self) -> (r: Self)
        ensures
            r.shares_with(self),
    {
        DataModel { objects: self.objects.clone() }
    }
}

impl DataModel {
    /// Creates an empty data model.
    pub fn new() -> Self {
        DataModel { objects: Arc::new(RwLock::new(SceneTable::empty(), Ghost(AnyTable))) }
    }

    /// Creates a data model from an initial set of objects.
    pub fn from_objects(objects: Vec<SceneObject>) -> Self {
        DataModel {
            objects: Arc::new(RwLock::new(SceneTable::from_objects(objects), Ghost(AnyTable))),
        }
    }

    /// Replaces the stored objects with a new snapshot.
    pub fn replace_objects(&self, objects: Vec<SceneObject>) {
        let (_, handle) = self.objects.acquire_write();
        handle.release_write(SceneTable::from_objects(objects));
    }

    /// The object names, in stable snapshot order.
    pub fn names(&self) -> Vec<String> {
        let handle = self.objects.acquire_read();
        let names = handle.borrow().names();
        handle.release_read();
        names
    }

    /// Returns a snapshot of all stored objects.
    pub fn all_objects(&self) -> Vec<SceneObject> {
        let handle = self.objects.acquire_read();
        let snapshot = handle.borrow().snapshot();
        handle.release_read();
        snapshot
    }

    /// Returns a clone of the requested object, if it exists right now.
    pub fn get(&self, name: &str) -> Option<SceneObject> {
        let handle = self.objects.acquire_read();
        let result = handle.borrow().get(name);
        handle.release_read();
        result
    }

    /// Takes the write lock: the caller gets the table and the handle that
    /// gives it back through `release_write`.
    pub fn begin_write(&self) -> (SceneTable, WriteHandle<'_, SceneTable, AnyTable>) {
        self.objects.acquire_write()
    }

    /// Writes one field of the named object; reports whether it existed.
    pub fn set_field(&self, name: &str, field: Field, vector: Vec3F, scalar: Fixed) -> bool {
        let (mut table, handle) = self.objects.acquire_write();
        let found = table.set_field(name, field, vector, scalar);
        handle.release_write(table);
        found
    }

    /// Sets the position of the named object.
    pub fn set_position(&self, name: &str, position: Vec3F) -> bool {
        self.set_field(name, Field::Position, position, Fixed::zero())
    }

    /// Sets the rotation of the named object.
    pub fn set_rotation(&self, name: &str, rotation: Vec3F) -> bool {
        self.set_field(name, Field::Rotation, rotation, Fixed::zero())
    }

    /// Sets the scale of the named object.
    pub fn set_scale(&self, name: &str, scale: Vec3F) -> bool {
        self.set_field(name, Field::Scale, scale, Fixed::zero())
    }

    /// Sets the color of the named object (unit-range channels).
    pub fn set_color(&self, name: &str, color: Vec3F) -> bool {
        self.set_field(name, Field::Color, color, Fixed::zero())
    }

    /// Sets the field of view of the named object.
    pub fn set_fov(&self, name: &str, fov: Fixed) -> bool {
        self.set_field(name, Field::Fov, Vec3F::zero(), fov)
    }

    /// Sets the intensity of the named object.
    pub fn set_intensity(&self, name: &str, intensity: Fixed) -> bool {
        self.set_field(name, Field::Intensity, Vec3F::zero(), intensity)
    }
}

} // verus!
