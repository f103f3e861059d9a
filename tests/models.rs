use user_api::core_models::{Asset, Editor, Engine, Level as CoreLevel, LevelNode};
use user_api::shared_models::{Cell, Level, Monster, Weapon};
use serde_json::Value;

fn level_to_json(lvl: &CoreLevel) -> String {
    let nodes: Vec<Value> = lvl
        .nodes
        .iter()
        .map(|n| {
            let mut m = serde_json::Map::new();
            m.insert("id".to_string(), Value::from(n.id));
            m.insert("x".to_string(), Value::from(n.x));
            m.insert("y".to_string(), Value::from(n.y));
            m.insert("t".to_string(), Value::from(n.t.clone()));
            Value::Object(m)
        })
        .collect();
    let mut m = serde_json::Map::new();
    m.insert("id".to_string(), Value::from(lvl.id));
    m.insert("name".to_string(), Value::from(lvl.name.clone()));
    m.insert("width".to_string(), Value::from(lvl.width));
    m.insert("height".to_string(), Value::from(lvl.height));
    m.insert("nodes".to_string(), Value::Array(nodes));
    serde_json::to_string(&Value::Object(m)).unwrap()
}

fn level_from_json(s: &str) -> CoreLevel {
    let v: Value = serde_json::from_str(s).unwrap();
    let num = |v: &Value, k: &str| v[k].as_i64().unwrap();
    let nodes = v["nodes"]
        .as_array()
        .unwrap()
        .iter()
        .map(|n| LevelNode {
            id: num(n, "id") as u32,
            x: num(n, "x") as i32,
            y: num(n, "y") as i32,
            t: n["t"].as_str().unwrap().to_string(),
        })
        .collect();
    CoreLevel {
        id: num(&v, "id") as u32,
        name: v["name"].as_str().unwrap().to_string(),
        width: num(&v, "width") as u32,
        height: num(&v, "height") as u32,
        nodes,
    }
}

#[test]
fn test_level_json_roundtrip() {
    let lvl = CoreLevel {
        id: 1,
        name: "Demo Level".to_string(),
        width: 8,
        height: 6,
        nodes: vec![LevelNode { id: 1, x: 0, y: 0, t: "floor".to_string() }],
    };
    let json = level_to_json(&lvl);
    let dec: CoreLevel = level_from_json(&json);
    assert_eq!(lvl.id, dec.id);
    assert_eq!(lvl.nodes.len(), dec.nodes.len());
}

#[test]
fn level_new_dimensions() {
    let lvl = Level::new(3, 2);
    assert_eq!(lvl.width, 3);
    assert_eq!(lvl.height, 2);
    assert_eq!(lvl.cells.len(), 6);
}

#[test]
fn weapon_basic_fields() {
    let w = Weapon { name: "Pistol", damage: 12 };
    assert_eq!(w.name, "Pistol");
    assert_eq!(w.damage, 12);
}

#[test]
fn monster_basic_fields() {
    let m = Monster { name: "Goblin", health: 30 };
    assert_eq!(m.name, "Goblin");
    assert_eq!(m.health, 30);
}

#[test]
fn level_cells_are_row_major() {
    let lvl = Level::new(3, 2);
    assert_eq!(lvl.cells[0], Cell(0, 0));
    assert_eq!(lvl.cells[2], Cell(2, 0));
    assert_eq!(lvl.cells[3], Cell(0, 1));
    assert_eq!(lvl.cells[5], Cell(2, 1));
}

#[test]
fn level_new_empty() {
    let lvl = Level::new(0, 4);
    assert_eq!(lvl.height, 4);
    assert!(lvl.cells.is_empty());
}

#[test]
fn named_records_keep_their_names() {
    assert_eq!(Editor::new("map editor").name, "map editor");
    assert_eq!(Engine::new("core").name, "core");
    let a = Asset::new(7, "wall.png");
    assert_eq!(a.id, 7);
    assert_eq!(a.name, "wall.png");
    let lvl = CoreLevel {
        id: 1,
        name: "Demo Level".to_string(),
        width: 8,
        height: 6,
        nodes: vec![LevelNode { id: 1, x: 0, y: 0, t: "floor".to_string() }],
    };
    assert_eq!(lvl.nodes.len(), 1);
    assert_eq!(lvl.nodes[0].t, "floor");
}
