//! Collision shapes of a map as its physics data describes them: meshes,
//! hulls and collision attributes, read from KeyValues3 values.
use vstd::prelude::*;
use crate::kv3::{Kv3Value, spec_get, spec_as_u64, spec_as_u32, spec_as_vec3_f64};
use crate::mesh::{MeshNode, NodeLookupError, parse_mesh_nodes, parse_vec3_list, resolve_node, spec_mesh_nodes,
    spec_resolve_node, spec_vec3_records};
use crate::physics::CollisionAttribute;

verus! {

/// Why physics data could not be read: the message of the step that failed.
#[derive(Debug, Clone, PartialEq, Eq)]
pub struct PhysicsParseError {
    pub message: String,
}

/// A read of one member: its value, or the message of the failure.
pub type SpecRead<T> = Result<T, Seq<char>>;

/// The member `key`, or `missing` when there is none.
pub open spec fn spec_member(value: Kv3Value, key: Seq<char>, missing: Seq<char>) -> SpecRead<Kv3Value> {
    match spec_get(value, key) {
        Some(m) => Ok(m),
        None => Err(missing),
    }
}

pub open spec fn spec_read_str(value: Kv3Value, key: Seq<char>, missing: Seq<char>, wrong: Seq<char>) -> SpecRead<Seq<char>> {
    match spec_member(value, key, missing) {
        Ok(Kv3Value::String(s)) => Ok(s@),
        Ok(_) => Err(wrong),
        Err(e) => Err(e),
    }
}

pub open spec fn spec_read_u64(value: Kv3Value, key: Seq<char>, missing: Seq<char>, wrong: Seq<char>) -> SpecRead<u64> {
    match spec_member(value, key, missing) {
        Ok(m) => match spec_as_u64(m) {
            Some(u) => Ok(u),
            None => Err(wrong),
        },
        Err(e) => Err(e),
    }
}

pub open spec fn spec_read_vec3(value: Kv3Value, key: Seq<char>, missing: Seq<char>, wrong: Seq<char>) -> SpecRead<(u64, u64, u64)> {
    match spec_member(value, key, missing) {
        Ok(m) => match spec_as_vec3_f64(m) {
            Some(v) => Ok(v),
            None => Err(wrong),
        },
        Err(e) => Err(e),
    }
}

pub open spec fn spec_read_binary(value: Kv3Value, key: Seq<char>, missing: Seq<char>, wrong: Seq<char>) -> SpecRead<Seq<u8>> {
    match spec_member(value, key, missing) {
        Ok(Kv3Value::Binary(b)) => Ok(b@),
        Ok(_) => Err(wrong),
        Err(e) => Err(e),
    }
}

pub open spec fn spec_read_array(value: Kv3Value, key: Seq<char>, missing: Seq<char>, wrong: Seq<char>) -> SpecRead<Seq<Kv3Value>> {
    match spec_member(value, key, missing) {
        Ok(Kv3Value::Array(a)) => Ok(a@),
        Ok(_) => Err(wrong),
        Err(e) => Err(e),
    }
}

/// An array of integers that each fit 32 bits.
pub open spec fn spec_all_u32(items: Seq<Kv3Value>) -> Option<Seq<u32>> {
    if forall|i: int| 0 <= i < items.len() ==> #[trigger] spec_as_u32(items[i]) is Some {
        Some(Seq::new(items.len(), |i: int| spec_as_u32(items[i])->0))
    } else {
        None
    }
}

/// An array of unsigned integers.
pub open spec fn spec_all_u64(items: Seq<Kv3Value>) -> Option<Seq<u64>> {
    if forall|i: int| 0 <= i < items.len() ==> #[trigger] spec_as_u64(items[i]) is Some {
        Some(Seq::new(items.len(), |i: int| spec_as_u64(items[i])->0))
    } else {
        None
    }
}

/// The text of a string value.
pub open spec fn spec_text(value: Kv3Value) -> Seq<char> {
    match value {
        Kv3Value::String(s) => s@,
        _ => Seq::empty(),
    }
}

/// An array of strings.
pub open spec fn spec_all_str(items: Seq<Kv3Value>) -> Option<Seq<Seq<char>>> {
    if forall|i: int| 0 <= i < items.len() ==> #[trigger] items[i] is String {
        Some(Seq::new(items.len(), |i: int| spec_text(items[i])))
    } else {
        None
    }
}

/// The message of a failed read, if it failed.
pub open spec fn spec_failure<T>(read: SpecRead<T>) -> Option<Seq<char>> {
    match read {
        Ok(_) => None,
        Err(e) => Some(e),
    }
}

/// The first failure among reads made in order.
pub open spec fn spec_first_failure(failures: Seq<Option<Seq<char>>>) -> Option<Seq<char>>
    decreases failures.len(),
{
    if failures.len() == 0 {
        None
    } else {
        match failures[0] {
            Some(e) => Some(e),
            None => spec_first_failure(failures.drop_first()),
        }
    }
}

fn member<'a>(value: &'a Kv3Value, key: &str, missing: &str) -> (m: Result<&'a Kv3Value, PhysicsParseError>)
    ensures
        match spec_member(*value, key@, missing@) {
            Ok(v) => m matches Ok(r) && *r == v,
            Err(e) => m matches Err(err) && err.message@ == e,
        },
{
    match value.get(key) {
        Some(m) => Ok(m),
        None => Err(PhysicsParseError { message: missing.to_owned() }),
    }
}

fn read_str(value: &Kv3Value, key: &str, missing: &str, wrong: &str) -> (r: Result<String, PhysicsParseError>)
    ensures
        match spec_read_str(*value, key@, missing@, wrong@) {
            Ok(s) => r matches Ok(t) && t@ == s,
            Err(e) => r matches Err(err) && err.message@ == e,
        },
{
    match member(value, key, missing) {
        Ok(m) => match m.as_str() {
            Some(s) => Ok(s.to_owned()),
            None => Err(PhysicsParseError { message: wrong.to_owned() }),
        },
        Err(e) => Err(e),
    }
}

fn read_u64(value: &Kv3Value, key: &str, missing: &str, wrong: &str) -> (r: Result<u64, PhysicsParseError>)
    ensures
        match spec_read_u64(*value, key@, missing@, wrong@) {
            Ok(u) => r == Ok::<u64, PhysicsParseError>(u),
            Err(e) => r matches Err(err) && err.message@ == e,
        },
{
    match member(value, key, missing) {
        Ok(m) => match m.as_u64() {
            Some(u) => Ok(u),
            None => Err(PhysicsParseError { message: wrong.to_owned() }),
        },
        Err(e) => Err(e),
    }
}

fn read_vec3(value: &Kv3Value, key: &str, missing: &str, wrong: &str) -> (r: Result<(u64, u64, u64), PhysicsParseError>)
    ensures
        match spec_read_vec3(*value, key@, missing@, wrong@) {
            Ok(v) => r == Ok::<(u64, u64, u64), PhysicsParseError>(v),
            Err(e) => r matches Err(err) && err.message@ == e,
        },
{
    match member(value, key, missing) {
        Ok(m) => match m.as_vec3_f64() {
            Some(v) => Ok(v),
            None => Err(PhysicsParseError { message: wrong.to_owned() }),
        },
        Err(e) => Err(e),
    }
}

fn read_binary<'a>(value: &'a Kv3Value, key: &str, missing: &str, wrong: &str) -> (r: Result<&'a Vec<u8>, PhysicsParseError>)
    ensures
        match spec_read_binary(*value, key@, missing@, wrong@) {
            Ok(b) => r matches Ok(bytes) && bytes@ == b,
            Err(e) => r matches Err(err) && err.message@ == e,
        },
{
    match member(value, key, missing) {
        Ok(m) => match m.as_binary() {
            Some(b) => Ok(b),
            None => Err(PhysicsParseError { message: wrong.to_owned() }),
        },
        Err(e) => Err(e),
    }
}

fn read_array<'a>(value: &'a Kv3Value, key: &str, missing: &str, wrong: &str) -> (r: Result<&'a Vec<Kv3Value>, PhysicsParseError>)
    ensures
        match spec_read_array(*value, key@, missing@, wrong@) {
            Ok(a) => r matches Ok(items) && items@ == a,
            Err(e) => r matches Err(err) && err.message@ == e,
        },
{
    match member(value, key, missing) {
        Ok(m) => match m.as_array() {
            Some(a) => Ok(a),
            None => Err(PhysicsParseError { message: wrong.to_owned() }),
        },
        Err(e) => Err(e),
    }
}

fn all_u32(items: &Vec<Kv3Value>) -> (numbers: Option<Vec<u32>>)
    ensures
        match spec_all_u32(items@) {
            Some(s) => numbers matches Some(n) && n@ == s,
            None => numbers is None,
        },
{
    let mut numbers: Vec<u32> = Vec::new();
    let mut i: usize = 0;
    while i < items.len()
        invariant
            i <= items@.len(),
            numbers@.len() == i,
            forall|j: int| 0 <= j < i ==> spec_as_u32(items@[j]) == Some(#[trigger] numbers@[j]),
        decreases items@.len() - i,
    {
        match items[i].as_u32() {
            Some(n) => numbers.push(n),
            None => {
                assert(spec_as_u32(items@[i as int]) is None);
                return None;
            },
        }
        i = i + 1;
    }
    assert forall|j: int| 0 <= j < items@.len() implies #[trigger] spec_as_u32(items@[j]) is Some by {
        assert(spec_as_u32(items@[j]) == Some(numbers@[j]));
    }
    assert(numbers@ =~= Seq::new(items@.len(), |j: int| spec_as_u32(items@[j])->0));
    Some(numbers)
}

fn all_u64(items: &Vec<Kv3Value>) -> (numbers: Option<Vec<u64>>)
    ensures
        match spec_all_u64(items@) {
            Some(s) => numbers matches Some(n) && n@ == s,
            None => numbers is None,
        },
{
    let mut numbers: Vec<u64> = Vec::new();
    let mut i: usize = 0;
    while i < items.len()
        invariant
            i <= items@.len(),
            numbers@.len() == i,
            forall|j: int| 0 <= j < i ==> spec_as_u64(items@[j]) == Some(#[trigger] numbers@[j]),
        decreases items@.len() - i,
    {
        match items[i].as_u64() {
            Some(n) => numbers.push(n),
            None => {
                assert(spec_as_u64(items@[i as int]) is None);
                return None;
            },
        }
        i = i + 1;
    }
    assert forall|j: int| 0 <= j < items@.len() implies #[trigger] spec_as_u64(items@[j]) is Some by {
        assert(spec_as_u64(items@[j]) == Some(numbers@[j]));
    }
    assert(numbers@ =~= Seq::new(items@.len(), |j: int| spec_as_u64(items@[j])->0));
    Some(numbers)
}

fn all_str(items: &Vec<Kv3Value>) -> (texts: Option<Vec<String>>)
    ensures
        match spec_all_str(items@) {
            Some(s) => texts matches Some(t) && t@.map_values(|x: String| x@) == s,
            None => texts is None,
        },
{
    let mut texts: Vec<String> = Vec::new();
    let mut i: usize = 0;
    while i < items.len()
        invariant
            i <= items@.len(),
            texts@.len() == i,
            forall|j: int| 0 <= j < i ==> #[trigger] items@[j] is String && texts@[j]@ == spec_text(items@[j]),
        decreases items@.len() - i,
    {
        match items[i].as_str() {
            Some(s) => {
                let text = s.to_owned();
                assert(items@[i as int] is String && text@ == spec_text(items@[i as int]));
                texts.push(text);
                assert(texts@[i as int]@ == spec_text(items@[i as int]));
            },
            None => {
                assert(!(items@[i as int] is String));
                return None;
            },
        }
        i = i + 1;
    }
    assert forall|j: int| 0 <= j < items@.len() implies #[trigger] items@[j] is String by {
        assert((texts@[j])@ == spec_text(items@[j]));
    }
    assert(texts@.map_values(|x: String| x@) =~= Seq::new(items@.len(), |j: int| spec_text(items@[j])));
    Some(texts)
}

/// `before` + `key` + `after`, the shape of the messages about a member.
fn message_about(before: &str, key: &str, after: &str) -> (message: String)
    ensures
        message@ == before@ + key@ + after@,
{
    let mut message = before.to_owned();
    message.append(key);
    message.append(after);
    message
}

/// An array member whose items are all unsigned integers.
pub open spec fn spec_read_u64_array(value: Kv3Value, key: Seq<char>) -> SpecRead<Seq<u64>> {
    match spec_read_array(value, key, "missing "@ + key, "expected "@ + key + " to be an array"@) {
        Ok(items) => match spec_all_u64(items) {
            Some(numbers) => Ok(numbers),
            None => Err("failed to convert "@ + key + " into Vec<u64>"@),
        },
        Err(e) => Err(e),
    }
}

/// An array member whose items are all strings.
pub open spec fn spec_read_string_array(value: Kv3Value, key: Seq<char>) -> SpecRead<Seq<Seq<char>>> {
    match spec_read_array(value, key, "missing "@ + key, "expected "@ + key + " to be an array"@) {
        Ok(items) => match spec_all_str(items) {
            Some(texts) => Ok(texts),
            None => Err("failed to convert "@ + key + " into Vec<String>"@),
        },
        Err(e) => Err(e),
    }
}

/// The views of some strings.
pub open spec fn spec_texts(strings: Seq<String>) -> Seq<Seq<char>> {
    strings.map_values(|s: String| s@)
}

impl CollisionAttribute {
    fn parse_array_u64(object: &Kv3Value, key: &str) -> (r: Result<Vec<u64>, PhysicsParseError>)
        ensures
            match spec_read_u64_array(*object, key@) {
                Ok(numbers) => r matches Ok(n) && n@ == numbers,
                Err(e) => r matches Err(err) && err.message@ == e,
            },
    {
        let missing = message_about("missing ", key, "");
        let wrong = message_about("expected ", key, " to be an array");
        proof {
            assert(missing@ =~= "missing "@ + key@) by { reveal_strlit(""); }
        }
        match read_array(object, key, missing.as_str(), wrong.as_str()) {
            Ok(items) => match all_u64(items) {
                Some(numbers) => Ok(numbers),
                None => Err(PhysicsParseError { message: message_about("failed to convert ", key, " into Vec<u64>") }),
            },
            Err(e) => Err(e),
        }
    }

    fn parse_array_string(object: &Kv3Value, key: &str) -> (r: Result<Vec<String>, PhysicsParseError>)
        ensures
            match spec_read_string_array(*object, key@) {
                Ok(texts) => r matches Ok(t) && spec_texts(t@) == texts,
                Err(e) => r matches Err(err) && err.message@ == e,
            },
    {
        let missing = message_about("missing ", key, "");
        let wrong = message_about("expected ", key, " to be an array");
        proof {
            assert(missing@ =~= "missing "@ + key@) by { reveal_strlit(""); }
        }
        match read_array(object, key, missing.as_str(), wrong.as_str()) {
            Ok(items) => match all_str(items) {
                Some(texts) => Ok(texts),
                None => Err(PhysicsParseError { message: message_about("failed to convert ", key, " into Vec<String>") }),
            },
            Err(e) => Err(e),
        }
    }

    /// Reads a collision attribute: its group and the groups it interacts
    /// as, excludes and interacts with, by id and by name.
    pub fn parse(value: &Kv3Value) -> (attribute: Result<CollisionAttribute, PhysicsParseError>)
        ensures
            match attribute {
                Ok(a) => spec_collision_attribute_failure(*value) is None && spec_collision_attribute_matches(*value, a),
                Err(e) => spec_collision_attribute_failure(*value) == Some(e.message@),
            },
    {
        proof {
            reveal_with_fuel(spec_first_failure, 9);
        }
        let group_id = match read_u64(value, "m_CollisionGroup", "missing m_CollisionGroup", "expected m_CollisionGroup to be an u64") {
            Ok(v) => v,
            Err(e) => return Err(e),
        };
        let group_name = match read_str(value, "m_CollisionGroupString", "missing m_CollisionGroupString", "expected m_CollisionGroupString to be a string") {
            Ok(v) => v,
            Err(e) => return Err(e),
        };
        let interact_as = match Self::parse_array_u64(value, "m_InteractAs") {
            Ok(v) => v,
            Err(e) => return Err(e),
        };
        let interact_as_name = match Self::parse_array_string(value, "m_InteractAsStrings") {
            Ok(v) => v,
            Err(e) => return Err(e),
        };
        let interact_exclude = match Self::parse_array_u64(value, "m_InteractExclude") {
            Ok(v) => v,
            Err(e) => return Err(e),
        };
        let interact_exclude_name = match Self::parse_array_string(value, "m_InteractExcludeStrings") {
            Ok(v) => v,
            Err(e) => return Err(e),
        };
        let interact_with = match Self::parse_array_u64(value, "m_InteractWith") {
            Ok(v) => v,
            Err(e) => return Err(e),
        };
        let interact_with_name = match Self::parse_array_string(value, "m_InteractWithStrings") {
            Ok(v) => v,
            Err(e) => return Err(e),
        };
        Ok(CollisionAttribute {
            group_id,
            group_name,
            interact_as,
            interact_as_name,
            interact_exclude,
            interact_exclude_name,
            interact_with,
            interact_with_name,
        })
    }
}

/// The first failing read of a collision attribute, in the order they are
/// made.
pub open spec fn spec_collision_attribute_failure(value: Kv3Value) -> Option<Seq<char>> {
    spec_first_failure(seq![
        spec_failure(spec_read_u64(value, "m_CollisionGroup"@, "missing m_CollisionGroup"@, "expected m_CollisionGroup to be an u64"@)),
        spec_failure(spec_read_str(value, "m_CollisionGroupString"@, "missing m_CollisionGroupString"@, "expected m_CollisionGroupString to be a string"@)),
        spec_failure(spec_read_u64_array(value, "m_InteractAs"@)),
        spec_failure(spec_read_string_array(value, "m_InteractAsStrings"@)),
        spec_failure(spec_read_u64_array(value, "m_InteractExclude"@)),
        spec_failure(spec_read_string_array(value, "m_InteractExcludeStrings"@)),
        spec_failure(spec_read_u64_array(value, "m_InteractWith"@)),
        spec_failure(spec_read_string_array(value, "m_InteractWithStrings"@)),
    ])
}

/// A collision attribute holds what its members read.
pub open spec fn spec_collision_attribute_matches(value: Kv3Value, a: CollisionAttribute) -> bool {
    &&& spec_read_u64(value, "m_CollisionGroup"@, "missing m_CollisionGroup"@, "expected m_CollisionGroup to be an u64"@) == Ok::<u64, Seq<char>>(a.group_id)
    &&& spec_read_str(value, "m_CollisionGroupString"@, "missing m_CollisionGroupString"@, "expected m_CollisionGroupString to be a string"@) == Ok::<Seq<char>, Seq<char>>(a.group_name@)
    &&& spec_read_u64_array(value, "m_InteractAs"@) == Ok::<Seq<u64>, Seq<char>>(a.interact_as@)
    &&& spec_read_string_array(value, "m_InteractAsStrings"@) == Ok::<Seq<Seq<char>>, Seq<char>>(spec_texts(a.interact_as_name@))
    &&& spec_read_u64_array(value, "m_InteractExclude"@) == Ok::<Seq<u64>, Seq<char>>(a.interact_exclude@)
    &&& spec_read_string_array(value, "m_InteractExcludeStrings"@) == Ok::<Seq<Seq<char>>, Seq<char>>(spec_texts(a.interact_exclude_name@))
    &&& spec_read_u64_array(value, "m_InteractWith"@) == Ok::<Seq<u64>, Seq<char>>(a.interact_with@)
    &&& spec_read_string_array(value, "m_InteractWithStrings"@) == Ok::<Seq<Seq<char>>, Seq<char>>(spec_texts(a.interact_with_name@))
}

/// A triangle mesh of a collision shape. Coordinates are kept as the bits
/// of their floats (`f64` for the bounds and areas, `f32` for vertices).
pub struct Mesh {
    pub user_friendly_name: String,
    pub collision_attribute_index: usize,
    pub surface_property_index: usize,
    pub v_min: (u64, u64, u64),
    pub v_max: (u64, u64, u64),
    pub materials: Vec<u32>,
    pub nodes: Vec<MeshNode>,
    pub vertices: Vec<(u32, u32, u32)>,
    pub triangles: Vec<(u32, u32, u32)>,
    pub orthographic_areas: (u64, u64, u64),
}

/// The materials of a mesh: an array of integers that fit 32 bits.
pub open spec fn spec_read_materials(mesh: Kv3Value) -> SpecRead<Seq<u32>> {
    match spec_read_array(mesh, "m_Materials"@, "missing m_Materials"@, "expected an array for m_Materials"@) {
        Ok(items) => match spec_all_u32(items) {
            Some(numbers) => Ok(numbers),
            None => Err("failed to parse all m_Materials as u32"@),
        },
        Err(e) => Err(e),
    }
}

pub open spec fn spec_mesh_name(value: Kv3Value) -> SpecRead<Seq<char>> {
    spec_read_str(value, "m_UserFriendlyName"@, "missing m_UserFriendlyName"@, "expected a String for m_UserFriendlyName"@)
}

pub open spec fn spec_collision_index(value: Kv3Value) -> SpecRead<u64> {
    spec_read_u64(value, "m_nCollisionAttributeIndex"@, "missing m_nCollisionAttributeIndex"@, "expected a String for m_nCollisionAttributeIndex"@)
}

pub open spec fn spec_surface_index(value: Kv3Value) -> SpecRead<u64> {
    spec_read_u64(value, "m_nSurfacePropertyIndex"@, "missing m_nSurfacePropertyIndex"@, "expected a String for m_nSurfacePropertyIndex"@)
}

pub open spec fn spec_read_vec3_named(value: Kv3Value, key: Seq<char>) -> SpecRead<(u64, u64, u64)> {
    spec_read_vec3(value, key, "missing "@ + key, "expected a Vec3 for "@ + key)
}

pub open spec fn spec_read_binary_named(value: Kv3Value, key: Seq<char>) -> SpecRead<Seq<u8>> {
    spec_read_binary(value, key, "missing "@ + key, "expected "@ + key + " to be binary"@)
}

/// The first failing read of a mesh, in the order they are made.
pub open spec fn spec_mesh_failure(value: Kv3Value) -> Option<Seq<char>> {
    let head = spec_first_failure(seq![
        spec_failure(spec_mesh_name(value)),
        spec_failure(spec_collision_index(value)),
        spec_failure(spec_surface_index(value)),
    ]);
    if head is Some {
        head
    } else {
        match spec_member(value, "m_Mesh"@, "missing m_Mesh"@) {
            Err(e) => Some(e),
            Ok(mesh) => spec_first_failure(seq![
                spec_failure(spec_read_vec3_named(mesh, "m_vMin"@)),
                spec_failure(spec_read_vec3_named(mesh, "m_vMax"@)),
                spec_failure(spec_read_materials(mesh)),
                spec_failure(spec_read_binary_named(mesh, "m_Nodes"@)),
                spec_failure(spec_read_binary_named(mesh, "m_Vertices"@)),
                spec_failure(spec_read_binary_named(mesh, "m_Triangles"@)),
                spec_failure(spec_read_vec3_named(mesh, "m_vOrthographicAreas"@)),
            ]),
        }
    }
}

/// A mesh holds what its members read, with its binary data decoded.
pub open spec fn spec_mesh_matches(value: Kv3Value, m: Mesh) -> bool {
    &&& spec_mesh_name(value) == Ok::<Seq<char>, Seq<char>>(m.user_friendly_name@)
    &&& spec_collision_index(value) matches Ok(i) && m.collision_attribute_index == i as usize
    &&& spec_surface_index(value) matches Ok(i) && m.surface_property_index == i as usize
    &&& spec_member(value, "m_Mesh"@, "missing m_Mesh"@) matches Ok(mesh) && {
        &&& spec_read_vec3_named(mesh, "m_vMin"@) == Ok::<(u64, u64, u64), Seq<char>>(m.v_min)
        &&& spec_read_vec3_named(mesh, "m_vMax"@) == Ok::<(u64, u64, u64), Seq<char>>(m.v_max)
        &&& spec_read_materials(mesh) == Ok::<Seq<u32>, Seq<char>>(m.materials@)
        &&& spec_read_binary_named(mesh, "m_Nodes"@) matches Ok(b) && m.nodes@ == spec_mesh_nodes(b)
        &&& spec_read_binary_named(mesh, "m_Vertices"@) matches Ok(b) && m.vertices@ == spec_vec3_records(b)
        &&& spec_read_binary_named(mesh, "m_Triangles"@) matches Ok(b) && m.triangles@ == spec_vec3_records(b)
        &&& spec_read_vec3_named(mesh, "m_vOrthographicAreas"@) == Ok::<(u64, u64, u64), Seq<char>>(m.orthographic_areas)
    }
}

fn read_vec3_named(value: &Kv3Value, key: &str) -> (r: Result<(u64, u64, u64), PhysicsParseError>)
    ensures
        match spec_read_vec3_named(*value, key@) {
            Ok(v) => r == Ok::<(u64, u64, u64), PhysicsParseError>(v),
            Err(e) => r matches Err(err) && err.message@ == e,
        },
{
    let missing = message_about("missing ", key, "");
    let wrong = message_about("expected a Vec3 for ", key, "");
    proof {
        reveal_strlit("");
        assert(missing@ =~= "missing "@ + key@);
        assert(wrong@ =~= "expected a Vec3 for "@ + key@);
    }
    read_vec3(value, key, missing.as_str(), wrong.as_str())
}

fn read_binary_named<'a>(value: &'a Kv3Value, key: &str) -> (r: Result<&'a Vec<u8>, PhysicsParseError>)
    ensures
        match spec_read_binary_named(*value, key@) {
            Ok(b) => r matches Ok(bytes) && bytes@ == b,
            Err(e) => r matches Err(err) && err.message@ == e,
        },
{
    let missing = message_about("missing ", key, "");
    let wrong = message_about("expected ", key, " to be binary");
    proof {
        reveal_strlit("");
        assert(missing@ =~= "missing "@ + key@);
    }
    read_binary(value, key, missing.as_str(), wrong.as_str())
}

impl Mesh {
    /// Reads a mesh: its name, attribute indices, bounds, materials, and
    /// its node tree, vertices and triangles from their binary data.
    pub fn parse(value: &Kv3Value) -> (mesh: Result<Mesh, PhysicsParseError>)
        ensures
            match mesh {
                Ok(m) => spec_mesh_failure(*value) is None && spec_mesh_matches(*value, m),
                Err(e) => spec_mesh_failure(*value) == Some(e.message@),
            },
    {
        proof {
            reveal_with_fuel(spec_first_failure, 8);
        }
        let user_friendly_name = match read_str(value, "m_UserFriendlyName", "missing m_UserFriendlyName", "expected a String for m_UserFriendlyName") {
            Ok(v) => v,
            Err(e) => return Err(e),
        };
        let collision_attribute_index = match read_u64(value, "m_nCollisionAttributeIndex", "missing m_nCollisionAttributeIndex", "expected a String for m_nCollisionAttributeIndex") {
            Ok(v) => v as usize,
            Err(e) => return Err(e),
        };
        let surface_property_index = match read_u64(value, "m_nSurfacePropertyIndex", "missing m_nSurfacePropertyIndex", "expected a String for m_nSurfacePropertyIndex") {
            Ok(v) => v as usize,
            Err(e) => return Err(e),
        };
        let mesh = match member(value, "m_Mesh", "missing m_Mesh") {
            Ok(m) => m,
            Err(e) => return Err(e),
        };
        let v_min = match read_vec3_named(mesh, "m_vMin") {
            Ok(v) => v,
            Err(e) => return Err(e),
        };
        let v_max = match read_vec3_named(mesh, "m_vMax") {
            Ok(v) => v,
            Err(e) => return Err(e),
        };
        let materials = match read_array(mesh, "m_Materials", "missing m_Materials", "expected an array for m_Materials") {
            Ok(items) => match all_u32(items) {
                Some(numbers) => numbers,
                None => return Err(PhysicsParseError { message: "failed to parse all m_Materials as u32".to_owned() }),
            },
            Err(e) => return Err(e),
        };
        let nodes = match read_binary_named(mesh, "m_Nodes") {
            Ok(bytes) => parse_mesh_nodes(bytes.as_slice()),
            Err(e) => return Err(e),
        };
        let vertices = match read_binary_named(mesh, "m_Vertices") {
            Ok(bytes) => parse_vec3_list(bytes.as_slice()),
            Err(e) => return Err(e),
        };
        let triangles = match read_binary_named(mesh, "m_Triangles") {
            Ok(bytes) => parse_vec3_list(bytes.as_slice()),
            Err(e) => return Err(e),
        };
        let orthographic_areas = match read_vec3_named(mesh, "m_vOrthographicAreas") {
            Ok(v) => v,
            Err(e) => return Err(e),
        };
        Ok(Mesh {
            user_friendly_name,
            collision_attribute_index,
            surface_property_index,
            v_min,
            v_max,
            materials,
            nodes,
            vertices,
            triangles,
            orthographic_areas,
        })
    }

    /// Finds the index of the tree node that holds a point; `contains`
    /// tells for each node whether its bounds hold the point.
    pub fn resolve_node(&self, contains: &Vec<bool>) -> (node: Result<Option<usize>, NodeLookupError>)
        requires
            self.nodes@.len() == contains@.len(),
        ensures
            node == match spec_resolve_node(self.nodes@, contains@) {
                Ok(Some(i)) => Ok(Some(i as usize)),
                Ok(None) => Ok(None),
                Err(e) => Err::<Option<usize>, NodeLookupError>(e),
            },
    {
        resolve_node(&self.nodes, contains)
    }
}

/// A convex hull of a collision shape. Coordinates are kept as the bits of
/// their floats (`f64` for bounds, centroid and areas, `f32` for vertices).
pub struct Hull {
    pub user_friendly_name: String,
    pub collision_attribute_index: u64,
    pub surface_property_index: u64,
    pub v_max_bounds: (u64, u64, u64),
    pub v_min_bounds: (u64, u64, u64),
    pub centroid: (u64, u64, u64),
    pub orthographic_areas: (u64, u64, u64),
    pub vertices: Vec<(u32, u32, u32)>,
}

/// The first failing read of a hull, in the order they are made.
pub open spec fn spec_hull_failure(value: Kv3Value) -> Option<Seq<char>> {
    let head = spec_first_failure(seq![
        spec_failure(spec_mesh_name(value)),
        spec_failure(spec_collision_index(value)),
        spec_failure(spec_surface_index(value)),
    ]);
    if head is Some {
        head
    } else {
        match spec_member(value, "m_Hull"@, "missing m_Hull"@) {
            Err(e) => Some(e),
            Ok(hull) => match spec_member(hull, "m_Bounds"@, "missing m_Bounds"@) {
                Err(e) => Some(e),
                Ok(bounds) => spec_first_failure(seq![
                    spec_failure(spec_read_vec3_named(bounds, "m_vMaxBounds"@)),
                    spec_failure(spec_read_vec3_named(bounds, "m_vMinBounds"@)),
                    spec_failure(spec_read_vec3_named(hull, "m_vCentroid"@)),
                    spec_failure(spec_read_vec3_named(hull, "m_vOrthographicAreas"@)),
                    spec_failure(spec_read_binary_named(hull, "m_Vertices"@)),
                ]),
            },
        }
    }
}

/// A hull holds what its members read, with its vertices decoded.
pub open spec fn spec_hull_matches(value: Kv3Value, h: Hull) -> bool {
    &&& spec_mesh_name(value) == Ok::<Seq<char>, Seq<char>>(h.user_friendly_name@)
    &&& spec_collision_index(value) == Ok::<u64, Seq<char>>(h.collision_attribute_index)
    &&& spec_surface_index(value) == Ok::<u64, Seq<char>>(h.surface_property_index)
    &&& spec_member(value, "m_Hull"@, "missing m_Hull"@) matches Ok(hull) && {
        &&& spec_member(hull, "m_Bounds"@, "missing m_Bounds"@) matches Ok(bounds) && {
            &&& spec_read_vec3_named(bounds, "m_vMaxBounds"@) == Ok::<(u64, u64, u64), Seq<char>>(h.v_max_bounds)
            &&& spec_read_vec3_named(bounds, "m_vMinBounds"@) == Ok::<(u64, u64, u64), Seq<char>>(h.v_min_bounds)
        }
        &&& spec_read_vec3_named(hull, "m_vCentroid"@) == Ok::<(u64, u64, u64), Seq<char>>(h.centroid)
        &&& spec_read_vec3_named(hull, "m_vOrthographicAreas"@) == Ok::<(u64, u64, u64), Seq<char>>(h.orthographic_areas)
        &&& spec_read_binary_named(hull, "m_Vertices"@) matches Ok(b) && h.vertices@ == spec_vec3_records(b)
    }
}

impl Hull {
    /// Reads a hull: its name, attribute indices, bounds, centroid, areas
    /// and vertices.
    pub fn parse(value: &Kv3Value) -> (hull: Result<Hull, PhysicsParseError>)
        ensures
            match hull {
                Ok(h) => spec_hull_failure(*value) is None && spec_hull_matches(*value, h),
                Err(e) => spec_hull_failure(*value) == Some(e.message@),
            },
    {
        proof {
            reveal_with_fuel(spec_first_failure, 6);
        }
        let user_friendly_name = match read_str(value, "m_UserFriendlyName", "missing m_UserFriendlyName", "expected a String for m_UserFriendlyName") {
            Ok(v) => v,
            Err(e) => return Err(e),
        };
        let collision_attribute_index = match read_u64(value, "m_nCollisionAttributeIndex", "missing m_nCollisionAttributeIndex", "expected a String for m_nCollisionAttributeIndex") {
            Ok(v) => v,
            Err(e) => return Err(e),
        };
        let surface_property_index = match read_u64(value, "m_nSurfacePropertyIndex", "missing m_nSurfacePropertyIndex", "expected a String for m_nSurfacePropertyIndex") {
            Ok(v) => v,
            Err(e) => return Err(e),
        };
        let hull = match member(value, "m_Hull", "missing m_Hull") {
            Ok(m) => m,
            Err(e) => return Err(e),
        };
        let bounds = match member(hull, "m_Bounds", "missing m_Bounds") {
            Ok(m) => m,
            Err(e) => return Err(e),
        };
        let v_max_bounds = match read_vec3_named(bounds, "m_vMaxBounds") {
            Ok(v) => v,
            Err(e) => return Err(e),
        };
        let v_min_bounds = match read_vec3_named(bounds, "m_vMinBounds") {
            Ok(v) => v,
            Err(e) => return Err(e),
        };
        let centroid = match read_vec3_named(hull, "m_vCentroid") {
            Ok(v) => v,
            Err(e) => return Err(e),
        };
        let orthographic_areas = match read_vec3_named(hull, "m_vOrthographicAreas") {
            Ok(v) => v,
            Err(e) => return Err(e),
        };
        let vertices = match read_binary_named(hull, "m_Vertices") {
            Ok(bytes) => parse_vec3_list(bytes.as_slice()),
            Err(e) => return Err(e),
        };
        Ok(Hull {
            user_friendly_name,
            collision_attribute_index,
            surface_property_index,
            v_max_bounds,
            v_min_bounds,
            centroid,
            orthographic_areas,
            vertices,
        })
    }
}

/// The collision shape of a map part: its collision attribute indices, its
/// meshes and its hulls.
pub struct Shape {
    pub collision_attribute_indices: Vec<u64>,
    pub hulls: Vec<Hull>,
    pub meshes: Vec<Mesh>,
}

/// The first mesh among `items[from..]` that fails to read, by its failure.
pub open spec fn spec_meshes_failure(items: Seq<Kv3Value>, from: int) -> Option<Seq<char>>
    decreases items.len() - from,
{
    if from < 0 || from >= items.len() {
        None
    } else {
        match spec_mesh_failure(items[from]) {
            Some(e) => Some(e),
            None => spec_meshes_failure(items, from + 1),
        }
    }
}

/// The first hull among `items[from..]` that fails to read, by its failure.
pub open spec fn spec_hulls_failure(items: Seq<Kv3Value>, from: int) -> Option<Seq<char>>
    decreases items.len() - from,
{
    if from < 0 || from >= items.len() {
        None
    } else {
        match spec_hull_failure(items[from]) {
            Some(e) => Some(e),
            None => spec_hulls_failure(items, from + 1),
        }
    }
}

pub open spec fn spec_attribute_indices(value: Kv3Value) -> SpecRead<Seq<u64>> {
    match spec_read_array(value, "m_CollisionAttributeIndices"@, "missing m_CollisionAttributeIndices"@,
        "expected an array for m_CollisionAttributeIndices"@) {
        Ok(items) => match spec_all_u64(items) {
            Some(numbers) => Ok(numbers),
            None => Err("failed to parse all m_CollisionAttributeIndices as u64"@),
        },
        Err(e) => Err(e),
    }
}

pub open spec fn spec_mesh_items(value: Kv3Value) -> SpecRead<Seq<Kv3Value>> {
    spec_read_array(value, "m_meshes"@, "missing meshes"@, "meshes should be an array"@)
}

pub open spec fn spec_hull_items(value: Kv3Value) -> SpecRead<Seq<Kv3Value>> {
    spec_read_array(value, "m_hulls"@, "missing hulls"@, "hulls should be an array"@)
}

/// The first failing read of a shape: its attribute indices, then its
/// meshes in order, then its hulls in order.
pub open spec fn spec_shape_failure(value: Kv3Value) -> Option<Seq<char>> {
    spec_first_failure(seq![
        spec_failure(spec_attribute_indices(value)),
        match spec_mesh_items(value) {
            Ok(items) => spec_meshes_failure(items, 0),
            Err(e) => Some(e),
        },
        match spec_hull_items(value) {
            Ok(items) => spec_hulls_failure(items, 0),
            Err(e) => Some(e),
        },
    ])
}

/// A shape holds what its members read: one mesh per mesh item and one
/// hull per hull item, in order.
pub open spec fn spec_shape_matches(value: Kv3Value, shape: Shape) -> bool {
    &&& spec_attribute_indices(value) == Ok::<Seq<u64>, Seq<char>>(shape.collision_attribute_indices@)
    &&& spec_mesh_items(value) matches Ok(items) && shape.meshes@.len() == items.len() && forall|i: int|
        0 <= i < items.len() ==> #[trigger] spec_mesh_matches(items[i], shape.meshes@[i])
    &&& spec_hull_items(value) matches Ok(items) && shape.hulls@.len() == items.len() && forall|i: int|
        0 <= i < items.len() ==> #[trigger] spec_hull_matches(items[i], shape.hulls@[i])
}

fn parse_meshes(items: &Vec<Kv3Value>) -> (meshes: Result<Vec<Mesh>, PhysicsParseError>)
    ensures
        match meshes {
            Ok(m) => spec_meshes_failure(items@, 0) is None && m@.len() == items@.len() && forall|i: int|
                0 <= i < items@.len() ==> #[trigger] spec_mesh_matches(items@[i], m@[i]),
            Err(e) => spec_meshes_failure(items@, 0) == Some(e.message@),
        },
{
    let mut meshes: Vec<Mesh> = Vec::new();
    let mut i: usize = 0;
    while i < items.len()
        invariant
            i <= items@.len(),
            meshes@.len() == i,
            forall|j: int| 0 <= j < i ==> #[trigger] spec_mesh_matches(items@[j], meshes@[j]),
            spec_meshes_failure(items@, 0) == spec_meshes_failure(items@, i as int),
        decreases items@.len() - i,
    {
        match Mesh::parse(&items[i]) {
            Ok(mesh) => meshes.push(mesh),
            Err(e) => return Err(e),
        }
        i = i + 1;
    }
    Ok(meshes)
}

fn parse_hulls(items: &Vec<Kv3Value>) -> (hulls: Result<Vec<Hull>, PhysicsParseError>)
    ensures
        match hulls {
            Ok(h) => spec_hulls_failure(items@, 0) is None && h@.len() == items@.len() && forall|i: int|
                0 <= i < items@.len() ==> #[trigger] spec_hull_matches(items@[i], h@[i]),
            Err(e) => spec_hulls_failure(items@, 0) == Some(e.message@),
        },
{
    let mut hulls: Vec<Hull> = Vec::new();
    let mut i: usize = 0;
    while i < items.len()
        invariant
            i <= items@.len(),
            hulls@.len() == i,
            forall|j: int| 0 <= j < i ==> #[trigger] spec_hull_matches(items@[j], hulls@[j]),
            spec_hulls_failure(items@, 0) == spec_hulls_failure(items@, i as int),
        decreases items@.len() - i,
    {
        match Hull::parse(&items[i]) {
            Ok(hull) => hulls.push(hull),
            Err(e) => return Err(e),
        }
        i = i + 1;
    }
    Ok(hulls)
}

impl Shape {
    /// Reads a shape (a `MRnShape` object): its collision attribute
    /// indices, then its meshes, then its hulls.
    pub fn parse(value: &Kv3Value) -> (shape: Result<Shape, PhysicsParseError>)
        ensures
            match shape {
                Ok(s) => spec_shape_failure(*value) is None && spec_shape_matches(*value, s),
                Err(e) => spec_shape_failure(*value) == Some(e.message@),
            },
    {
        proof {
            reveal_with_fuel(spec_first_failure, 4);
        }
        let collision_attribute_indices = match read_array(value, "m_CollisionAttributeIndices",
            "missing m_CollisionAttributeIndices", "expected an array for m_CollisionAttributeIndices") {
            Ok(items) => match all_u64(items) {
                Some(numbers) => numbers,
                None => return Err(PhysicsParseError {
                    message: "failed to parse all m_CollisionAttributeIndices as u64".to_owned(),
                }),
            },
            Err(e) => return Err(e),
        };
        let meshes = match read_array(value, "m_meshes", "missing meshes", "meshes should be an array") {
            Ok(items) => match parse_meshes(items) {
                Ok(meshes) => meshes,
                Err(e) => return Err(e),
            },
            Err(e) => return Err(e),
        };
        let hulls = match read_array(value, "m_hulls", "missing hulls", "hulls should be an array") {
            Ok(items) => match parse_hulls(items) {
                Ok(hulls) => hulls,
                Err(e) => return Err(e),
            },
            Err(e) => return Err(e),
        };
        Ok(Shape { collision_attribute_indices, meshes, hulls })
    }
}

} // verus!
