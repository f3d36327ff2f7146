//! Binary layout of collision mesh data: tree nodes, vertices and triangles
//! stored as little-endian words, and the walk down the node tree.
use vstd::prelude::*;
use byteorder::{ByteOrder, LittleEndian};

verus! {

/// Value of the four little-endian bytes of `bytes` that start at `offset`.
pub open spec fn spec_le_u32(bytes: Seq<u8>, offset: int) -> int {
    bytes[offset] + 256 * bytes[offset + 1] + 65536 * bytes[offset + 2] + 16777216 * bytes[offset + 3]
}

/// Calls `byteorder::LittleEndian::read_u32`, which reads the first four
/// bytes of the buffer as a little-endian word (and panics on fewer).
#[verifier::external_body]
fn read_u32_le(buf: &[u8]) -> (word: u32)
    requires
        buf@.len() >= 4,
    ensures
        word == spec_le_u32(buf@, 0),
{
    LittleEndian::read_u32(buf)
}

/// The little-endian word at `offset`.
pub fn word_at(bytes: &[u8], offset: usize) -> (word: u32)
    requires
        offset + 4 <= bytes@.len(),
    ensures
        word == spec_le_u32(bytes@, offset as int),
{
    let len = bytes.len();
    assert(offset + 4 <= len);
    let part = vstd::slice::slice_subrange(bytes, offset, offset + 4);
    read_u32_le(part)
}

/// Three words read one after the other from `offset`.
pub open spec fn spec_vec3_at(bytes: Seq<u8>, offset: int) -> (u32, u32, u32) {
    (
        spec_le_u32(bytes, offset) as u32,
        spec_le_u32(bytes, offset + 4) as u32,
        spec_le_u32(bytes, offset + 8) as u32,
    )
}

/// Three little-endian words starting at `offset`.
pub fn vec3_at(bytes: &[u8], offset: usize) -> (v: (u32, u32, u32))
    requires
        offset + 12 <= bytes@.len(),
    ensures
        v == spec_vec3_at(bytes@, offset as int),
{
    let len = bytes.len();
    assert(offset + 12 <= len);
    let x = word_at(bytes, offset);
    let y = word_at(bytes, offset + 4);
    let z = word_at(bytes, offset + 8);
    (x, y, z)
}

/// A node of a collision mesh's bounding tree. The bounds are kept as the
/// bit patterns of their `f32` coordinates.
#[derive(Debug, Clone, Copy)]
pub struct MeshNode {
    pub min: (u32, u32, u32),
    pub max: (u32, u32, u32),
    /// Flags in the top four bits (`0xC` marks a leaf), the distance to the
    /// second child in the low 28 bits.
    pub children: u32,
    pub triangle_offset: u32,
}

/// Size in bytes of one stored tree node.
pub const MESH_NODE_SIZE: usize = 32;

/// Size in bytes of one stored vertex or triangle.
pub const VEC3_SIZE: usize = 12;

/// The node stored at `offset`: minimum, child word, maximum, triangle
/// offset.
pub open spec fn spec_mesh_node_at(bytes: Seq<u8>, offset: int) -> MeshNode {
    MeshNode {
        min: spec_vec3_at(bytes, offset),
        children: spec_le_u32(bytes, offset + 12) as u32,
        max: spec_vec3_at(bytes, offset + 16),
        triangle_offset: spec_le_u32(bytes, offset + 28) as u32,
    }
}

/// Flags of a node, kept in the top four bits of its child word.
pub open spec fn spec_node_flags(children: u32) -> u8 {
    (children / 0x1000_0000) as u8
}

/// Distance from a node to its second child, kept in the low 28 bits of
/// its child word.
pub open spec fn spec_node_child_offset(children: u32) -> int {
    (children % 0x1000_0000) as int
}

pub open spec fn spec_node_is_leaf(children: u32) -> bool {
    spec_node_flags(children) == 0x0C
}

impl MeshNode {
    /// Reads one node from the first 32 bytes of `buffer`; `None` when the
    /// buffer is shorter.
    pub fn parse(buffer: &[u8]) -> (node: Option<MeshNode>)
        ensures
            buffer@.len() < MESH_NODE_SIZE <==> node is None,
            node matches Some(n) ==> n == spec_mesh_node_at(buffer@, 0),
    {
        if buffer.len() < MESH_NODE_SIZE {
            return None;
        }
        Some(Self::parse_at(buffer, 0))
    }

    fn parse_at(bytes: &[u8], offset: usize) -> (node: MeshNode)
        requires
            offset + 32 <= bytes@.len(),
        ensures
            node == spec_mesh_node_at(bytes@, offset as int),
    {
        let len = bytes.len();
        assert(offset + 32 <= len);
        let min = vec3_at(bytes, offset);
        let children = word_at(bytes, offset + 12);
        let max = vec3_at(bytes, offset + 16);
        let triangle_offset = word_at(bytes, offset + 28);
        MeshNode { min, max, children, triangle_offset }
    }

    pub fn flags(&self) -> (flags: u8)
        ensures
            flags == spec_node_flags(self.children),
    {
        let children = self.children;
        let flags = (children >> 28) as u8;
        assert(flags == (children / 0x1000_0000) as u8) by (bit_vector)
            requires
                flags == (children >> 28) as u8,
        ;
        flags
    }

    pub fn children(&self) -> (offset: usize)
        ensures
            offset == spec_node_child_offset(self.children),
    {
        let children = self.children;
        let masked = children & 0x0FFF_FFFF;
        assert(masked == children % 0x1000_0000) by (bit_vector)
            requires
                masked == children & 0x0FFF_FFFF,
        ;
        masked as usize
    }

    pub fn is_leaf(&self) -> (leaf: bool)
        ensures
            leaf == spec_node_is_leaf(self.children),
    {
        self.flags() == 0x0C
    }
}

/// Number of whole records of `size` bytes in `len` bytes, and that the
/// loop over them ends where it should.
proof fn lemma_record_count(len: int, size: int, count: int)
    requires
        size > 0,
        0 <= count,
        count * size <= len,
        len - count * size < size,
    ensures
        count == len / size,
{
    assert(count == len / size) by (nonlinear_arith)
        requires
            size > 0,
            0 <= count,
            count * size <= len,
            len - count * size < size,
    ;
}

/// The nodes stored in `bytes`: one per whole 32 bytes.
pub open spec fn spec_mesh_nodes(bytes: Seq<u8>) -> Seq<MeshNode> {
    Seq::new(bytes.len() / 32, |i: int| spec_mesh_node_at(bytes, 32 * i))
}

/// The three-word records stored in `bytes`: one per whole 12 bytes.
pub open spec fn spec_vec3_records(bytes: Seq<u8>) -> Seq<(u32, u32, u32)> {
    Seq::new(bytes.len() / 12, |i: int| spec_vec3_at(bytes, 12 * i))
}

/// Decodes the node tree of a mesh: one node per whole 32 bytes, trailing
/// bytes ignored.
pub fn parse_mesh_nodes(data: &[u8]) -> (nodes: Vec<MeshNode>)
    ensures
        nodes@ == spec_mesh_nodes(data@),
{
    let len = data.len();
    let mut nodes: Vec<MeshNode> = Vec::new();
    let mut offset: usize = 0;
    while len - offset >= MESH_NODE_SIZE
        invariant
            len == data@.len(),
            offset <= len,
            offset == 32 * nodes@.len(),
            forall|i: int| 0 <= i < nodes@.len() ==> #[trigger] nodes@[i] == spec_mesh_node_at(data@, 32 * i),
        decreases len - offset,
    {
        let node = MeshNode::parse_at(data, offset);
        nodes.push(node);
        offset = offset + MESH_NODE_SIZE;
    }
    proof {
        lemma_record_count(len as int, 32, nodes@.len() as int);
        assert(nodes@ =~= spec_mesh_nodes(data@));
    }
    nodes
}

/// Decodes a list of three-word records (vertex coordinates as `f32` bit
/// patterns, or the corner indices of triangles): one per whole 12 bytes,
/// trailing bytes ignored.
pub fn parse_vec3_list(data: &[u8]) -> (items: Vec<(u32, u32, u32)>)
    ensures
        items@ == spec_vec3_records(data@),
{
    let len = data.len();
    let mut items: Vec<(u32, u32, u32)> = Vec::new();
    let mut offset: usize = 0;
    while len - offset >= VEC3_SIZE
        invariant
            len == data@.len(),
            offset <= len,
            offset == 12 * items@.len(),
            forall|i: int| 0 <= i < items@.len() ==> #[trigger] items@[i] == spec_vec3_at(data@, 12 * i),
        decreases len - offset,
    {
        let item = vec3_at(data, offset);
        items.push(item);
        offset = offset + VEC3_SIZE;
    }
    proof {
        lemma_record_count(len as int, 12, items@.len() as int);
        assert(items@ =~= spec_vec3_records(data@));
    }
    items
}

/// Why the node containing a point could not be found.
#[derive(Debug, Clone, Copy, PartialEq, Eq, Structural)]
pub enum NodeLookupError {
    /// The tree has no root node.
    MissingInitialNode,
    /// The first child of a node lies outside the tree.
    MissingNextNodeA(u64),
    /// The second child of a node lies outside the tree.
    MissingNextNodeB(u64),
    /// The walk did not reach a leaf within the step limit (the tree is too
    /// deep or has a cycle).
    TooDeep,
}

/// Most steps taken down the node tree.
pub const MAX_NODE_STEPS: u32 = 1000;

/// Walk down the tree from node `index`, with `fuel` steps left.
/// `contains[i]` tells whether node `i`'s bounds hold the point.
pub open spec fn spec_walk_nodes(nodes: Seq<MeshNode>, contains: Seq<bool>, index: int, fuel: nat) -> Result<Option<int>, NodeLookupError>
    decreases fuel,
{
    if fuel == 0 {
        Err(NodeLookupError::TooDeep)
    } else if spec_node_is_leaf(nodes[index].children) {
        Ok(Some(index))
    } else if index + 1 >= nodes.len() {
        Err(NodeLookupError::MissingNextNodeA((index + 1) as u64))
    } else if contains[index + 1] {
        spec_walk_nodes(nodes, contains, index + 1, (fuel - 1) as nat)
    } else {
        let b = index + spec_node_child_offset(nodes[index].children);
        if b >= nodes.len() {
            Err(NodeLookupError::MissingNextNodeB(if b > u64::MAX { u64::MAX } else { b as u64 }))
        } else if contains[b] {
            spec_walk_nodes(nodes, contains, b, (fuel - 1) as nat)
        } else {
            Ok(Some(index))
        }
    }
}

/// The deepest node on the path from the root whose bounds hold the point,
/// or `None` when the root's bounds do not hold it.
pub open spec fn spec_resolve_node(nodes: Seq<MeshNode>, contains: Seq<bool>) -> Result<Option<int>, NodeLookupError> {
    if nodes.len() == 0 {
        Err(NodeLookupError::MissingInitialNode)
    } else if !contains[0] {
        Ok(None)
    } else {
        spec_walk_nodes(nodes, contains, 0, MAX_NODE_STEPS as nat)
    }
}

/// Finds the index of the tree node that holds a point. `contains` tells
/// for each node whether its bounds hold the point.
pub fn resolve_node(nodes: &Vec<MeshNode>, contains: &Vec<bool>) -> (node: Result<Option<usize>, NodeLookupError>)
    requires
        nodes@.len() == contains@.len(),
    ensures
        node == match spec_resolve_node(nodes@, contains@) {
            Ok(Some(i)) => Ok(Some(i as usize)),
            Ok(None) => Ok(None),
            Err(e) => Err::<Option<usize>, NodeLookupError>(e),
        },
        node matches Ok(Some(i)) ==> i < nodes@.len(),
{
    if nodes.len() == 0 {
        return Err(NodeLookupError::MissingInitialNode);
    }
    if !contains[0] {
        return Ok(None);
    }
    let len = nodes.len();
    let mut current: usize = 0;
    let mut iterations: u32 = 0;
    while iterations < MAX_NODE_STEPS
        invariant
            len == nodes@.len(),
            len == contains@.len(),
            current < len,
            iterations <= MAX_NODE_STEPS,
            spec_resolve_node(nodes@, contains@) == spec_walk_nodes(
                nodes@,
                contains@,
                current as int,
                (MAX_NODE_STEPS - iterations) as nat,
            ),
        decreases MAX_NODE_STEPS - iterations,
    {
        iterations = iterations + 1;
        let node = &nodes[current];
        if node.is_leaf() {
            return Ok(Some(current));
        }
        if current + 1 >= len {
            return Err(NodeLookupError::MissingNextNodeA((current + 1) as u64));
        }
        if contains[current + 1] {
            current = current + 1;
            continue;
        }
        let offset = node.children();
        let b: u64 = match (current as u64).checked_add(offset as u64) {
            Some(b) => b,
            None => return Err(NodeLookupError::MissingNextNodeB(u64::MAX)),
        };
        if b >= len as u64 {
            return Err(NodeLookupError::MissingNextNodeB(b));
        }
        if contains[b as usize] {
            current = b as usize;
            continue;
        }
        return Ok(Some(current));
    }
    Err(NodeLookupError::TooDeep)
}

/// A walk that starts at a node holding the point ends, when it ends with a
/// node, at a node that holds the point and from which the walk cannot go
/// deeper: a leaf, or a node neither of whose children holds the point.
proof fn lemma_walk_ends_deepest(nodes: Seq<MeshNode>, contains: Seq<bool>, index: int, fuel: nat)
    requires
        nodes.len() == contains.len(),
        0 <= index < nodes.len(),
        contains[index],
    ensures
        spec_walk_nodes(nodes, contains, index, fuel) matches Ok(Some(i)) ==> {
            &&& 0 <= i < nodes.len()
            &&& contains[i]
            &&& !spec_node_is_leaf(nodes[i].children) ==> {
                &&& i + 1 < nodes.len() && !contains[i + 1]
                &&& i + spec_node_child_offset(nodes[i].children) < nodes.len()
                &&& !contains[i + spec_node_child_offset(nodes[i].children)]
            }
        },
        !(spec_walk_nodes(nodes, contains, index, fuel) is Ok && spec_walk_nodes(nodes, contains, index, fuel)->Ok_0 is None),
    decreases fuel,
{
    if fuel > 0 && !spec_node_is_leaf(nodes[index].children) && index + 1 < nodes.len() {
        if contains[index + 1] {
            lemma_walk_ends_deepest(nodes, contains, index + 1, (fuel - 1) as nat);
        } else {
            let b = index + spec_node_child_offset(nodes[index].children);
            if b < nodes.len() && contains[b] {
                lemma_walk_ends_deepest(nodes, contains, b, (fuel - 1) as nat);
            }
        }
    }
}

/// The node that a point resolves to holds the point and is as deep as the
/// walk can go: a leaf, or a node neither of whose children holds the
/// point. A point outside the root resolves to no node.
pub proof fn lemma_resolved_node_holds_point(nodes: Seq<MeshNode>, contains: Seq<bool>)
    requires
        nodes.len() == contains.len(),
    ensures
        spec_resolve_node(nodes, contains) matches Ok(Some(i)) ==> {
            &&& 0 <= i < nodes.len()
            &&& contains[i]
            &&& !spec_node_is_leaf(nodes[i].children) ==> {
                &&& i + 1 < nodes.len() && !contains[i + 1]
                &&& i + spec_node_child_offset(nodes[i].children) < nodes.len()
                &&& !contains[i + spec_node_child_offset(nodes[i].children)]
            }
        },
        spec_resolve_node(nodes, contains) == Ok::<Option<int>, NodeLookupError>(None) <==> (nodes.len() > 0
            && !contains[0]),
{
    if nodes.len() > 0 && contains[0] {
        lemma_walk_ends_deepest(nodes, contains, 0, MAX_NODE_STEPS as nat);
    }
}

/// The first child of a node is tried before its second: when the root is
/// not a leaf and its first child (the node right after it) is a leaf that
/// holds the point, the point resolves to that child, whatever the second
/// child holds.
pub proof fn lemma_first_child_preferred(nodes: Seq<MeshNode>, contains: Seq<bool>)
    requires
        nodes.len() == contains.len(),
        nodes.len() >= 2,
        contains[0],
        !spec_node_is_leaf(nodes[0].children),
        contains[1],
        spec_node_is_leaf(nodes[1].children),
    ensures
        spec_resolve_node(nodes, contains) == Ok::<Option<int>, NodeLookupError>(Some(1)),
{
    reveal_with_fuel(spec_walk_nodes, 3);
}

/// The second child is taken only when the first does not hold the point:
/// then, when the second child is a leaf that holds it, the point resolves
/// to the second child.
pub proof fn lemma_second_child_when_first_misses(nodes: Seq<MeshNode>, contains: Seq<bool>)
    requires
        nodes.len() == contains.len(),
        nodes.len() >= 2,
        contains[0],
        !spec_node_is_leaf(nodes[0].children),
        !contains[1],
        spec_node_child_offset(nodes[0].children) < nodes.len(),
        contains[spec_node_child_offset(nodes[0].children)],
        spec_node_is_leaf(nodes[spec_node_child_offset(nodes[0].children)].children),
    ensures
        spec_resolve_node(nodes, contains) == Ok::<Option<int>, NodeLookupError>(Some(
            spec_node_child_offset(nodes[0].children),
        )),
{
    reveal_with_fuel(spec_walk_nodes, 3);
}

} // verus!
