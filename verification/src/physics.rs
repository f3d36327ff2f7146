//! World collision data: collision attributes and the world as loaded from
//! the physics data of a map file.
use vstd::prelude::*;
use std::path::PathBuf;
use crate::kv3::Kv3Value;
use crate::rubikon::{
    PhysicsParseError, Shape, spec_collision_attribute_failure, spec_collision_attribute_matches, spec_member,
    spec_read_array, spec_shape_failure, spec_shape_matches,
};

verus! {

/// `std::path::PathBuf`, carried as an opaque value.
#[verifier::external_type_specification]
#[verifier::external_body]
pub struct ExPathBuf(PathBuf);

/// What `Path::file_name` gives for a path: its last component when that
/// is a normal one (not a root, `.` or `..`), as a path of its own. It
/// depends on the path alone.
pub uninterp spec fn spec_file_name(path: PathBuf) -> Option<PathBuf>;

/// What `Path::to_str` gives for a path: its text when it is valid
/// Unicode. It depends on the path alone.
pub uninterp spec fn spec_path_text(path: PathBuf) -> Option<Seq<char>>;

/// Whether a path has a file name.
pub open spec fn spec_has_file_name(path: PathBuf) -> bool {
    spec_file_name(path) is Some
}

/// The text of a path's file name, when it has one that is valid Unicode.
pub open spec fn spec_file_name_text(path: PathBuf) -> Option<Seq<char>> {
    match spec_file_name(path) {
        Some(name) => spec_path_text(name),
        None => None,
    }
}

/// Calls `Path::file_name` and takes the name as a `PathBuf`. Which paths
/// have a file name rests on `std`'s parsing of components; the result is
/// named by `spec_file_name`.
#[verifier::external_body]
fn path_file_name(path: &PathBuf) -> (name: Option<PathBuf>)
    ensures
        name == spec_file_name(*path),
{
    path.file_name().map(PathBuf::from)
}

/// Calls `Path::to_str` and takes the text as a `String`; the result is
/// named by `spec_path_text`.
#[verifier::external_body]
fn path_to_str(path: &PathBuf) -> (text: Option<String>)
    ensures
        match text {
            Some(t) => spec_path_text(*path) == Some(t@),
            None => spec_path_text(*path) is None,
        },
{
    path.to_str().map(String::from)
}

/// Collision group of the world, with the groups it interacts with.
#[derive(Debug)]
pub struct CollisionAttribute {
    pub group_id: u64,
    pub group_name: String,
    pub interact_as: Vec<u64>,
    pub interact_as_name: Vec<String>,
    pub interact_exclude: Vec<u64>,
    pub interact_exclude_name: Vec<String>,
    pub interact_with: Vec<u64>,
    pub interact_with_name: Vec<String>,
}

/// Collision group whose meshes block rays.
pub const DEFAULT_COLLISION_GROUP: &'static str = "Default";

/// Why the physics data of a map could not be loaded.
#[derive(Debug, Clone, PartialEq, Eq)]
pub enum WorldLoadError {
    /// "path is missing a file name"
    MissingFileName,
    /// "world file name contains invalid characters"
    InvalidFileName,
    /// A member of the physics data is missing or of another type; the
    /// message says which.
    Data(PhysicsParseError),
    /// "failed to parse m_collisionAttributes as Vec<CollisionAttribute>",
    /// because of the given error.
    CollisionAttribute(PhysicsParseError),
    /// "expected only one map part"
    ExpectedOneMapPart,
    /// "failed to parse world shape", because of the given error.
    Shape(PhysicsParseError),
}

/// Collision data of one map.
pub struct WorldPhysics {
    world_name: String,
    world_file_path: PathBuf,
    collision_attributes: Vec<CollisionAttribute>,
    shape: Shape,
}

/// The first collision attribute among `items[from..]` that fails to read,
/// by its failure.
pub open spec fn spec_attributes_failure(items: Seq<Kv3Value>, from: int) -> Option<Seq<char>>
    decreases items.len() - from,
{
    if from < 0 || from >= items.len() {
        None
    } else {
        match spec_collision_attribute_failure(items[from]) {
            Some(e) => Some(e),
            None => spec_attributes_failure(items, from + 1),
        }
    }
}

pub open spec fn spec_attribute_items(data: Kv3Value) -> Result<Seq<Kv3Value>, Seq<char>> {
    spec_read_array(data, "m_collisionAttributes"@, "missing m_collisionAttributes"@,
        "expected m_collisionAttributes to be an array"@)
}

pub open spec fn spec_part_items(data: Kv3Value) -> Result<Seq<Kv3Value>, Seq<char>> {
    spec_read_array(data, "m_parts"@, "missing parts"@, "expected array"@)
}

/// Whether an error carries the given message.
pub open spec fn spec_says(error: PhysicsParseError, message: Seq<char>) -> bool {
    error.message@ == message
}

fn parse_attributes(items: &Vec<Kv3Value>) -> (attributes: Result<Vec<CollisionAttribute>, PhysicsParseError>)
    ensures
        match attributes {
            Ok(a) => spec_attributes_failure(items@, 0) is None && a@.len() == items@.len() && forall|i: int|
                0 <= i < items@.len() ==> #[trigger] spec_collision_attribute_matches(items@[i], a@[i]),
            Err(e) => spec_attributes_failure(items@, 0) == Some(e.message@),
        },
{
    let mut attributes: Vec<CollisionAttribute> = Vec::new();
    let mut i: usize = 0;
    while i < items.len()
        invariant
            i <= items@.len(),
            attributes@.len() == i,
            forall|j: int| 0 <= j < i ==> #[trigger] spec_collision_attribute_matches(items@[j], attributes@[j]),
            spec_attributes_failure(items@, 0) == spec_attributes_failure(items@, i as int),
        decreases items@.len() - i,
    {
        match CollisionAttribute::parse(&items[i]) {
            Ok(attribute) => attributes.push(attribute),
            Err(e) => return Err(e),
        }
        i = i + 1;
    }
    Ok(attributes)
}

/// What loading the physics data `data` of the map file at `path` gives,
/// for a world named `name`: the first part of the data that fails to read,
/// by its error, or the world assembled from the collision attributes and
/// the shape of the one map part.
pub open spec fn spec_loaded(world: Result<WorldPhysics, WorldLoadError>, name: Seq<char>, path: PathBuf, data: Kv3Value) -> bool {
    match spec_attribute_items(data) {
        Err(e) => world matches Err(WorldLoadError::Data(err)) && spec_says(err, e),
        Ok(attribute_items) => match spec_attributes_failure(attribute_items, 0) {
            Some(e) => world matches Err(WorldLoadError::CollisionAttribute(err)) && spec_says(err, e),
            None => match spec_part_items(data) {
                Err(e) => world matches Err(WorldLoadError::Data(err)) && spec_says(err, e),
                Ok(parts) => if parts.len() != 1 {
                    world == Err::<WorldPhysics, WorldLoadError>(WorldLoadError::ExpectedOneMapPart)
                } else {
                    match spec_member(parts[0], "m_rnShape"@, "shape to be an object"@) {
                        Err(e) => world matches Err(WorldLoadError::Data(err)) && spec_says(err, e),
                        Ok(shape_value) => match spec_shape_failure(shape_value) {
                            Some(e) => world matches Err(WorldLoadError::Shape(err)) && spec_says(err, e),
                            None => world matches Ok(w) && {
                                &&& w.name() == name
                                &&& w.file_path() == path
                                &&& w.attributes().len() == attribute_items.len()
                                &&& forall|i: int| 0 <= i < attribute_items.len()
                                    ==> #[trigger] spec_collision_attribute_matches(attribute_items[i], w.attributes()[i])
                                &&& spec_shape_matches(shape_value, w.world_shape())
                            },
                        },
                    }
                },
            },
        },
    }
}

impl WorldPhysics {
    pub closed spec fn name(self) -> Seq<char> {
        self.world_name@
    }

    pub closed spec fn file_path(self) -> PathBuf {
        self.world_file_path
    }

    pub closed spec fn attributes(self) -> Seq<CollisionAttribute> {
        self.collision_attributes@
    }

    pub closed spec fn world_shape(self) -> Shape {
        self.shape
    }

    /// The name of a world: the file name of its map file, such as
    /// `de_mirage.vpk`. A path without a file name (such as `/` or `..`)
    /// has none, and neither has one whose file name is not valid Unicode.
    pub fn world_name_from_path(world_file_path: &PathBuf) -> (name: Result<String, WorldLoadError>)
        ensures
            match spec_file_name(*world_file_path) {
                None => name == Err::<String, WorldLoadError>(WorldLoadError::MissingFileName),
                Some(file_name) => match spec_path_text(file_name) {
                    None => name == Err::<String, WorldLoadError>(WorldLoadError::InvalidFileName),
                    Some(text) => name matches Ok(n) && n@ == text,
                },
            },
    {
        let file_name = match path_file_name(world_file_path) {
            Some(name) => name,
            None => return Err(WorldLoadError::MissingFileName),
        };
        match path_to_str(&file_name) {
            Some(text) => Ok(text),
            None => Err(WorldLoadError::InvalidFileName),
        }
    }

    /// Loads a world from the physics data of the map file at
    /// `world_file_path`: the world is named after the file (see
    /// `world_name_from_path`), whose failures come first; then the data
    /// must hold the collision attributes and exactly one map part, whose
    /// shape is the world's.
    pub fn load(world_file_path: PathBuf, physics_data: &Kv3Value) -> (world: Result<Self, WorldLoadError>)
        ensures
            match spec_file_name(world_file_path) {
                None => world == Err::<Self, WorldLoadError>(WorldLoadError::MissingFileName),
                Some(file_name) => match spec_path_text(file_name) {
                    None => world == Err::<Self, WorldLoadError>(WorldLoadError::InvalidFileName),
                    Some(text) => spec_loaded(world, text, world_file_path, *physics_data),
                },
            },
    {
        match Self::world_name_from_path(&world_file_path) {
            Ok(name) => Self::from_physics_data(name, world_file_path, physics_data),
            Err(e) => Err(e),
        }
    }

    /// Assembles a world named `world_name` from the physics data of the map
    /// file at `world_file_path`: the data must hold the collision attributes
    /// and exactly one map part, whose shape is the world's.
    pub fn from_physics_data(world_name: String, world_file_path: PathBuf, physics_data: &Kv3Value) -> (world: Result<Self, WorldLoadError>)
        ensures
            spec_loaded(world, world_name@, world_file_path, *physics_data),
    {
        let attribute_items = match physics_data.get("m_collisionAttributes") {
            Some(v) => match v.as_array() {
                Some(items) => items,
                None => return Err(WorldLoadError::Data(PhysicsParseError {
                    message: "expected m_collisionAttributes to be an array".to_owned(),
                })),
            },
            None => return Err(WorldLoadError::Data(PhysicsParseError {
                message: "missing m_collisionAttributes".to_owned(),
            })),
        };
        let collision_attributes = match parse_attributes(attribute_items) {
            Ok(attributes) => attributes,
            Err(e) => return Err(WorldLoadError::CollisionAttribute(e)),
        };
        let map_parts = match physics_data.get("m_parts") {
            Some(v) => match v.as_array() {
                Some(items) => items,
                None => return Err(WorldLoadError::Data(PhysicsParseError { message: "expected array".to_owned() })),
            },
            None => return Err(WorldLoadError::Data(PhysicsParseError { message: "missing parts".to_owned() })),
        };
        if map_parts.len() != 1 {
            return Err(WorldLoadError::ExpectedOneMapPart);
        }
        let shape_value = match map_parts[0].get("m_rnShape") {
            Some(v) => v,
            None => return Err(WorldLoadError::Data(PhysicsParseError { message: "shape to be an object".to_owned() })),
        };
        let shape = match Shape::parse(shape_value) {
            Ok(shape) => shape,
            Err(e) => return Err(WorldLoadError::Shape(e)),
        };
        Ok(WorldPhysics { world_name, world_file_path, collision_attributes, shape })
    }

    pub fn world_name(&self) -> (name: &str)
        ensures
            name@ == self.name(),
    {
        self.world_name.as_str()
    }

    /// The path of the map file that the world was loaded from.
    pub fn world_file_path(&self) -> (path: &PathBuf)
        ensures
            *path == self.file_path(),
    {
        &self.world_file_path
    }

    pub fn shape(&self) -> (shape: &Shape)
        ensures
            *shape == self.world_shape(),
    {
        &self.shape
    }

    pub fn collision_attributes(&self) -> (attributes: &Vec<CollisionAttribute>)
        ensures
            attributes@ == self.attributes(),
    {
        &self.collision_attributes
    }

    /// Whether a mesh with the given collision attribute index blocks rays:
    /// the attribute must exist and belong to the default collision group.
    pub fn is_blocking_attribute(&self, collision_attribute_index: usize) -> (blocking: bool)
        ensures
            blocking == (collision_attribute_index < self.attributes().len()
                && self.attributes()[collision_attribute_index as int].group_name@ == DEFAULT_COLLISION_GROUP@),
    {
        if collision_attribute_index < self.collision_attributes.len() {
            let attribute = &self.collision_attributes[collision_attribute_index];
            attribute.group_name.as_str().to_owned() == DEFAULT_COLLISION_GROUP.to_owned()
        } else {
            false
        }
    }

    /// Whether mesh `i` of the world's shape blocks rays: its collision
    /// attribute exists and belongs to the default group.
    pub open spec fn mesh_blocks(self, i: int) -> bool {
        let a = self.world_shape().meshes@[i].collision_attribute_index;
        a < self.attributes().len() && self.attributes()[a as int].group_name@ == DEFAULT_COLLISION_GROUP@
    }

    /// Indices of the meshes that a ray is traced against: those whose
    /// collision attribute blocks rays, in mesh order.
    pub fn blocking_meshes(&self) -> (indices: Vec<usize>)
        ensures
            forall|k: int| 0 <= k < indices@.len() ==> #[trigger] indices@[k] < self.world_shape().meshes@.len(),
            forall|k: int, l: int| 0 <= k < l < indices@.len() ==> indices@[k] < indices@[l],
            forall|i: int| 0 <= i < self.world_shape().meshes@.len() ==> (indices@.contains(i as usize)
                <==> #[trigger] self.mesh_blocks(i)),
    {
        let mut indices: Vec<usize> = Vec::new();
        let mut i: usize = 0;
        while i < self.shape.meshes.len()
            invariant
                i <= self.shape.meshes@.len(),
                forall|k: int| 0 <= k < indices@.len() ==> #[trigger] indices@[k] < i,
                forall|k: int, l: int| 0 <= k < l < indices@.len() ==> indices@[k] < indices@[l],
                forall|j: int| 0 <= j < i ==> (indices@.contains(j as usize) <==> #[trigger] self.mesh_blocks(j)),
            decreases self.shape.meshes@.len() - i,
        {
            let ghost before = indices@;
            if self.is_blocking_attribute(self.shape.meshes[i].collision_attribute_index) {
                indices.push(i);
            }
            proof {
                assert forall|j: int| 0 <= j <= i implies (indices@.contains(j as usize) <==> #[trigger] self.mesh_blocks(
                    j,
                )) by {
                    vstd::seq_lib::lemma_seq_contains_after_push(before, i, j as usize);
                    if j == i {
                        assert(!before.contains(i)) by {
                            if before.contains(i) {
                                let k = choose|k: int| 0 <= k < before.len() && before[k] == i;
                                assert(before[k] < i);
                            }
                        }
                    }
                }
            }
            i = i + 1;
        }
        indices
    }
}

} // verus!
