use std::cell::Cell;
use std::path::PathBuf;
use std::sync::Arc;

use valthrun::cache::{CacheEntry, EntryCache};
use valthrun::color::Color;
use valthrun::handle::{
    empty_module_info, initial_string_read, read_string_step, CSModuleInfo, Module, ModuleInfo, StringRead,
};
use valthrun::mesh::{parse_mesh_nodes, parse_vec3_list, resolve_node, word_at, MeshNode, NodeLookupError};
use valthrun::kv3::Kv3Value;
use valthrun::physics::{CollisionAttribute, WorldLoadError, WorldPhysics};
use valthrun::rubikon::{Hull, Mesh, PhysicsParseError};
use valthrun::text::{c_string, find_nul, CStringError};
use valthrun::web_radar::{
    player_name_from_bytes, radar_equipment, update_due, PlayerNameError, WebRadarEvent, WebRadarState, WEAPON_KNIFE,
};

fn le(word: u32) -> [u8; 4] {
    word.to_le_bytes()
}

fn node_bytes(min: [u32; 3], children: u32, max: [u32; 3], triangle_offset: u32) -> Vec<u8> {
    let mut out = Vec::new();
    for w in min {
        out.extend_from_slice(&le(w));
    }
    out.extend_from_slice(&le(children));
    for w in max {
        out.extend_from_slice(&le(w));
    }
    out.extend_from_slice(&le(triangle_offset));
    out
}

#[test]
fn little_endian_words() {
    let bytes = [0x78u8, 0x56, 0x34, 0x12, 0xFF];
    assert_eq!(word_at(&bytes, 0), 0x1234_5678);
    assert_eq!(word_at(&bytes, 1), 0xFF12_3456);
}

#[test]
fn mesh_nodes_decode() {
    let mut data = node_bytes([1, 2, 3], 0xC000_0000, [4, 5, 6], 7);
    data.extend(node_bytes([8, 9, 10], 0x0000_0002, [11, 12, 13], 14));
    data.extend_from_slice(&[0xAA; 5]);
    let nodes = parse_mesh_nodes(&data);
    assert_eq!(nodes.len(), 2);
    assert_eq!(nodes[0].min, (1, 2, 3));
    assert_eq!(nodes[0].max, (4, 5, 6));
    assert_eq!(nodes[0].triangle_offset, 7);
    assert!(nodes[0].is_leaf());
    assert_eq!(nodes[0].flags(), 0x0C);
    assert_eq!(nodes[1].children(), 2);
    assert!(!nodes[1].is_leaf());
    assert!(MeshNode::parse(&data[..31]).is_none());
    assert_eq!(MeshNode::parse(&data).unwrap().children, 0xC000_0000);
}

#[test]
fn vec3_records_decode() {
    let mut data = Vec::new();
    for w in [1u32, 2, 3, 0x3F80_0000, 0, 0xFFFF_FFFF] {
        data.extend_from_slice(&le(w));
    }
    data.push(9);
    let items = parse_vec3_list(&data);
    assert_eq!(items, vec![(1, 2, 3), (0x3F80_0000, 0, 0xFFFF_FFFF)]);
    assert!(parse_vec3_list(&data[..11]).is_empty());
}

fn node(children: u32) -> MeshNode {
    MeshNode { min: (0, 0, 0), max: (0, 0, 0), children, triangle_offset: 0 }
}

#[test]
fn node_lookup_walks_the_tree() {
    // root with children at 1 and 3; node 3 is a leaf
    let nodes = vec![node(0x0000_0003), node(0xC000_0000), node(0xC000_0000), node(0xC000_0000)];
    assert_eq!(resolve_node(&nodes, &vec![true, false, false, true]), Ok(Some(3)));
    assert_eq!(resolve_node(&nodes, &vec![true, true, false, false]), Ok(Some(1)));
    assert_eq!(resolve_node(&nodes, &vec![true, false, false, false]), Ok(Some(0)));
    assert_eq!(resolve_node(&nodes, &vec![false, true, true, true]), Ok(None));
    assert_eq!(resolve_node(&vec![], &vec![]), Err(NodeLookupError::MissingInitialNode));
    assert_eq!(resolve_node(&vec![node(5)], &vec![true]), Err(NodeLookupError::MissingNextNodeA(1)));
    assert_eq!(
        resolve_node(&vec![node(5), node(0xC000_0000)], &vec![true, false]),
        Err(NodeLookupError::MissingNextNodeB(5))
    );
    // a node that points at itself loops until the step limit
    assert_eq!(resolve_node(&vec![node(0), node(0)], &vec![true, false]), Err(NodeLookupError::TooDeep));
}

#[test]
fn zero_terminated_strings() {
    assert_eq!(find_nul(b"abc\0def"), Some(3));
    assert_eq!(find_nul(b"abc"), None);
    assert_eq!(c_string(b"hello\0world"), Ok("hello".to_string()));
    assert_eq!(c_string(b"\0"), Ok(String::new()));
    assert_eq!(c_string(b"hello"), Err(CStringError::MissingNul));
    assert_eq!(c_string(&[0xFF, 0xFE, 0]), Err(CStringError::InvalidUtf8));
    assert_eq!(c_string("grüße\0".as_bytes()), Ok("grüße".to_string()));
}

#[test]
fn player_names() {
    assert_eq!(player_name_from_bytes(b"s1mple\0\0\0"), Ok("s1mple".to_string()));
    assert_eq!(player_name_from_bytes(b"noend"), Err(PlayerNameError::MissingNulTerminator));
    assert_eq!(player_name_from_bytes(&[0xC3, 0x28, 0]), Err(PlayerNameError::InvalidName));
    assert_eq!(PlayerNameError::InvalidName.message(), "invalid player name");
    assert_eq!(PlayerNameError::MissingNulTerminator.message(), "player name missing nul terminator");
}

#[test]
fn string_reads_grow_until_terminated() {
    assert_eq!(initial_string_read(None), 8);
    assert_eq!(initial_string_read(Some(128)), 128);
    assert_eq!(read_string_step(b"abcdefgh", 8), StringRead::ReadMore(16));
    assert_eq!(read_string_step(b"abc\0efgh", 8), StringRead::Text("abc".to_string()));
    assert_eq!(read_string_step(&[0x80, 0, 0, 0], 4), StringRead::InvalidContents);
}

fn modules() -> CSModuleInfo {
    CSModuleInfo {
        process_id: 42,
        client: ModuleInfo { base_address: 0x1000, module_size: 0x500 },
        engine: ModuleInfo { base_address: 0x8000, module_size: 0x100 },
        schemasystem: ModuleInfo { base_address: 0x9000, module_size: 0x10 },
    }
}

#[test]
fn module_addresses() {
    let info = modules();
    assert_eq!(Module::Client.get_base_offset(&info), Some(info.client));
    assert_eq!(Module::Absolute.get_base_offset(&info), Some(empty_module_info()));
    assert_eq!(empty_module_info().module_size, u64::MAX);
    assert_eq!(info.memory_address(Module::Engine, 0x20), 0x8020);
    assert_eq!(info.memory_address(Module::Absolute, 0x20), 0x20);
    assert_eq!(info.rebase_offsets(Module::Schemasystem, &vec![0x10, 0x8, 0x4]), vec![0x9010, 0x8, 0x4]);
    assert_eq!(info.pattern_offset(Module::Client, Some(0x1234)), Some(0x234));
    assert_eq!(info.pattern_offset(Module::Client, Some(0x10)), Some(0x10u64.wrapping_sub(0x1000)));
    assert_eq!(info.pattern_offset(Module::Client, None), None);
}

#[test]
fn web_radar_states() {
    let connected = WebRadarState::after(WebRadarEvent::SessionCreated { session_id: "abc".to_string() });
    assert_eq!(connected, WebRadarState::Connected { session_id: "abc".to_string() });
    assert!(connected.is_connected());
    let failed = WebRadarState::after(WebRadarEvent::SessionFailed { error: "refused".to_string() });
    assert_eq!(failed, WebRadarState::Disconnected { message: "refused".to_string() });
    assert!(!failed.is_connected());
    assert_eq!(
        WebRadarState::after(WebRadarEvent::ConnectionClosed),
        WebRadarState::Disconnected { message: "connection closed".to_string() }
    );
    assert_eq!(
        WebRadarState::after(WebRadarEvent::ConnectionError { error: "reset".to_string() }),
        WebRadarState::Disconnected { message: "connection error: reset".to_string() }
    );
    assert_eq!(
        WebRadarState::after(WebRadarEvent::ClosedLocally),
        WebRadarState::Disconnected { message: "locally closed".to_string() }
    );
    assert!(!WebRadarState::Connecting.is_connected());
    assert_eq!(radar_equipment(true, true, Some(9)), (9, true));
    assert_eq!(radar_equipment(true, false, None), (WEAPON_KNIFE, false));
    assert_eq!(radar_equipment(false, true, Some(9)), (0, false));
    assert!(!update_due(15));
    assert!(update_due(16));
}

#[test]
fn colors_round_trip() {
    let mut color = Color::from_u8([1, 2, 3, 4]);
    assert_eq!(color.as_u8(), [1, 2, 3, 4]);
    color.set_alpha_u8(200);
    assert_eq!(color.as_u8(), [1, 2, 3, 200]);
    assert_eq!(Color::from_u8([0xFF, 0, 0, 0x80]).as_u8(), [0xFF, 0, 0, 0x80]);
}

#[test]
fn cache_loads_once() {
    let calls = Cell::new(0u32);
    let mut cache = EntryCache::new(|key: &u64| {
        calls.set(calls.get() + 1);
        if *key == 13 {
            Err("unlucky".to_string())
        } else {
            Ok(*key * 2)
        }
    });
    let first = cache.lookup(21).unwrap();
    assert_eq!(*first, 42);
    let second = cache.lookup(21).unwrap();
    assert_eq!(*second, 42);
    assert!(Arc::ptr_eq(&first, &second));
    assert_eq!(calls.get(), 1);
    assert_eq!(cache.lookup(13), Err("unlucky".to_string()));
    assert_eq!(cache.lookup(13), Err("unlucky".to_string()));
    assert_eq!(calls.get(), 3);
    cache.cleanup();
    assert_eq!(*cache.lookup(21).unwrap(), 42);
}

#[test]
fn cache_entry_usage() {
    let mut entry = CacheEntry::create(5u8);
    entry.flag_use();
    assert_eq!(entry.commit_use(), 0);
    // unused since the commit: the idle time is counted from the last use
    assert!(entry.commit_use() < 5);
}

fn text(s: &str) -> Kv3Value {
    Kv3Value::String(s.to_string())
}

fn object(members: Vec<(&str, Kv3Value)>) -> Kv3Value {
    Kv3Value::Object(members.into_iter().map(|(k, v)| (k.to_string(), v)).collect())
}

fn doubles(values: [f64; 3]) -> Kv3Value {
    Kv3Value::Array(values.iter().map(|v| Kv3Value::Double(v.to_bits())).collect())
}

fn attribute_value(group: &str) -> Kv3Value {
    object(vec![
        ("m_CollisionGroup", Kv3Value::UInt(1)),
        ("m_CollisionGroupString", text(group)),
        ("m_InteractAs", Kv3Value::Array(vec![Kv3Value::UInt(2)])),
        ("m_InteractAsStrings", Kv3Value::Array(vec![text("solid")])),
        ("m_InteractExclude", Kv3Value::Array(vec![])),
        ("m_InteractExcludeStrings", Kv3Value::Array(vec![])),
        ("m_InteractWith", Kv3Value::Array(vec![Kv3Value::Int(3)])),
        ("m_InteractWithStrings", Kv3Value::Array(vec![text("player")])),
    ])
}

fn mesh_value(attribute_index: u64) -> Kv3Value {
    object(vec![
        ("m_UserFriendlyName", text("ground")),
        ("m_nCollisionAttributeIndex", Kv3Value::UInt(attribute_index)),
        ("m_nSurfacePropertyIndex", Kv3Value::UInt(4)),
        (
            "m_Mesh",
            object(vec![
                ("m_vMin", doubles([-1.0, -2.0, -3.0])),
                ("m_vMax", doubles([1.0, 2.0, 3.0])),
                ("m_Materials", Kv3Value::Array(vec![Kv3Value::UInt(7)])),
                ("m_Nodes", Kv3Value::Binary(node_bytes([0, 0, 0], 0xC000_0000, [1, 1, 1], 0))),
                ("m_Vertices", Kv3Value::Binary([1.0f32, 2.0, 3.0].iter().flat_map(|f| f.to_bits().to_le_bytes()).collect())),
                ("m_Triangles", Kv3Value::Binary([0u32, 1, 2].iter().flat_map(|w| w.to_le_bytes()).collect())),
                ("m_vOrthographicAreas", doubles([0.5, 0.5, 0.5])),
            ]),
        ),
    ])
}

fn physics_value(parts: Vec<Kv3Value>, attributes: Vec<Kv3Value>) -> Kv3Value {
    object(vec![("m_collisionAttributes", Kv3Value::Array(attributes)), ("m_parts", Kv3Value::Array(parts))])
}

fn part_value(meshes: Vec<Kv3Value>) -> Kv3Value {
    object(vec![(
        "m_rnShape",
        object(vec![
            ("m_CollisionAttributeIndices", Kv3Value::Array(vec![Kv3Value::UInt(0)])),
            ("m_meshes", Kv3Value::Array(meshes)),
            ("m_hulls", Kv3Value::Array(vec![])),
        ]),
    )])
}

#[test]
fn kv3_reads() {
    let value = object(vec![("a", Kv3Value::UInt(5)), ("a", Kv3Value::UInt(6)), ("n", Kv3Value::Int(-1))]);
    assert!(matches!(value.get("a"), Some(Kv3Value::UInt(5))));
    assert!(value.get("b").is_none());
    assert_eq!(value.get("a").unwrap().as_u64(), Some(5));
    assert_eq!(value.get("n").unwrap().as_u64(), None);
    assert_eq!(Kv3Value::UInt(1 << 40).as_u32(), None);
    assert_eq!(Kv3Value::Int(7).as_u32(), Some(7));
    assert_eq!(doubles([1.0, 2.0, 3.0]).as_vec3_f64(), Some((1.0f64.to_bits(), 2.0f64.to_bits(), 3.0f64.to_bits())));
    assert_eq!(Kv3Value::Array(vec![Kv3Value::Double(0)]).as_vec3_f64(), None);
    assert_eq!(text("x").as_str(), Some("x"));
    assert!(Kv3Value::Null.as_array().is_none());
}

#[test]
fn collision_attribute_parse() {
    let attribute = CollisionAttribute::parse(&attribute_value("Default")).unwrap();
    assert_eq!(attribute.group_id, 1);
    assert_eq!(attribute.group_name, "Default");
    assert_eq!(attribute.interact_as, vec![2]);
    assert_eq!(attribute.interact_as_name, vec!["solid".to_string()]);
    assert_eq!(attribute.interact_with, vec![3]);
    let broken = object(vec![("m_CollisionGroup", text("one"))]);
    assert_eq!(
        CollisionAttribute::parse(&broken).unwrap_err().message,
        "expected m_CollisionGroup to be an u64"
    );
    let no_names = object(vec![
        ("m_CollisionGroup", Kv3Value::UInt(1)),
        ("m_CollisionGroupString", text("Default")),
        ("m_InteractAs", Kv3Value::Array(vec![])),
        ("m_InteractAsStrings", Kv3Value::Array(vec![Kv3Value::UInt(1)])),
    ]);
    assert_eq!(
        CollisionAttribute::parse(&no_names).unwrap_err().message,
        "failed to convert m_InteractAsStrings into Vec<String>"
    );
    assert_eq!(CollisionAttribute::parse(&Kv3Value::Null).unwrap_err().message, "missing m_CollisionGroup");
}

#[test]
fn mesh_and_hull_parse() {
    let mesh = Mesh::parse(&mesh_value(0)).unwrap();
    assert_eq!(mesh.user_friendly_name, "ground");
    assert_eq!(mesh.surface_property_index, 4);
    assert_eq!(mesh.v_min, ((-1.0f64).to_bits(), (-2.0f64).to_bits(), (-3.0f64).to_bits()));
    assert_eq!(mesh.materials, vec![7]);
    assert_eq!(mesh.nodes.len(), 1);
    assert!(mesh.nodes[0].is_leaf());
    assert_eq!(mesh.vertices, vec![(1.0f32.to_bits(), 2.0f32.to_bits(), 3.0f32.to_bits())]);
    assert_eq!(mesh.triangles, vec![(0, 1, 2)]);
    assert_eq!(mesh.resolve_node(&vec![true]), Ok(Some(0)));
    let no_mesh = object(vec![
        ("m_UserFriendlyName", text("x")),
        ("m_nCollisionAttributeIndex", Kv3Value::UInt(0)),
        ("m_nSurfacePropertyIndex", Kv3Value::UInt(0)),
    ]);
    assert_eq!(Mesh::parse(&no_mesh).err().unwrap().message, "missing m_Mesh");
    let hull = object(vec![
        ("m_UserFriendlyName", text("box")),
        ("m_nCollisionAttributeIndex", Kv3Value::UInt(1)),
        ("m_nSurfacePropertyIndex", Kv3Value::UInt(2)),
        (
            "m_Hull",
            object(vec![
                ("m_Bounds", object(vec![("m_vMaxBounds", doubles([1.0, 1.0, 1.0])), ("m_vMinBounds", doubles([0.0; 3]))])),
                ("m_vCentroid", doubles([0.5; 3])),
                ("m_vOrthographicAreas", doubles([1.0; 3])),
                ("m_Vertices", Kv3Value::Binary(vec![0; 25])),
            ]),
        ),
    ]);
    let hull = Hull::parse(&hull).ok().unwrap();
    assert_eq!(hull.collision_attribute_index, 1);
    assert_eq!(hull.vertices.len(), 2);
    assert_eq!(hull.centroid, (0.5f64.to_bits(), 0.5f64.to_bits(), 0.5f64.to_bits()));
}

#[test]
fn world_loads_from_physics_data() {
    let data = physics_value(
        vec![part_value(vec![mesh_value(0), mesh_value(1), mesh_value(9)])],
        vec![attribute_value("Default"), attribute_value("Debris")],
    );
    let world = WorldPhysics::load(PathBuf::from("maps/de_dust2.vpk"), &data).ok().unwrap();
    assert_eq!(world.world_name(), "de_dust2.vpk");
    assert_eq!(world.world_file_path(), PathBuf::from("maps/de_dust2.vpk").as_path());
    assert_eq!(world.shape().meshes.len(), 3);
    assert_eq!(world.shape().collision_attribute_indices, vec![0]);
    assert_eq!(world.collision_attributes().len(), 2);
    assert!(world.is_blocking_attribute(0));
    assert!(!world.is_blocking_attribute(1));
    assert!(!world.is_blocking_attribute(2));
    assert_eq!(world.blocking_meshes(), vec![0]);
}

#[test]
fn world_names_come_from_the_file_name() {
    assert_eq!(WorldPhysics::world_name_from_path(&PathBuf::from("assets/de_mirage.vpk")), Ok("de_mirage.vpk".to_string()));
    assert_eq!(WorldPhysics::world_name_from_path(&PathBuf::from("/")), Err(WorldLoadError::MissingFileName));
    assert_eq!(WorldPhysics::world_name_from_path(&PathBuf::from("..")), Err(WorldLoadError::MissingFileName));
    let data = physics_value(vec![part_value(vec![mesh_value(0)])], vec![attribute_value("Default")]);
    assert_eq!(WorldPhysics::load(PathBuf::from("/"), &data).err().unwrap(), WorldLoadError::MissingFileName);
    assert_eq!(WorldPhysics::load(PathBuf::from(".."), &Kv3Value::Null).err().unwrap(), WorldLoadError::MissingFileName);
    let named = WorldPhysics::from_physics_data("de_nuke".to_string(), PathBuf::from("maps/x.vpk"), &data).ok().unwrap();
    assert_eq!(named.world_name(), "de_nuke");
}

#[test]
fn world_load_errors() {
    let load = |data: &Kv3Value| WorldPhysics::load(PathBuf::from("x.vpk"), data).err().unwrap();
    assert_eq!(
        load(&Kv3Value::Null),
        WorldLoadError::Data(PhysicsParseError { message: "missing m_collisionAttributes".to_string() })
    );
    assert_eq!(load(&physics_value(vec![], vec![])), WorldLoadError::ExpectedOneMapPart);
    assert_eq!(
        load(&physics_value(vec![part_value(vec![]), part_value(vec![])], vec![])),
        WorldLoadError::ExpectedOneMapPart
    );
    assert_eq!(
        load(&physics_value(vec![object(vec![])], vec![])),
        WorldLoadError::Data(PhysicsParseError { message: "shape to be an object".to_string() })
    );
    assert_eq!(
        load(&physics_value(vec![part_value(vec![object(vec![])])], vec![])),
        WorldLoadError::Shape(PhysicsParseError { message: "missing m_UserFriendlyName".to_string() })
    );
    assert_eq!(
        load(&physics_value(vec![part_value(vec![])], vec![Kv3Value::Null])),
        WorldLoadError::CollisionAttribute(PhysicsParseError { message: "missing m_CollisionGroup".to_string() })
    );
    let no_parts = object(vec![("m_collisionAttributes", Kv3Value::Array(vec![]))]);
    assert_eq!(load(&no_parts), WorldLoadError::Data(PhysicsParseError { message: "missing parts".to_string() }));
}
