use vstd::prelude::*;

verus! {

/// An editor session, identified by a display name.
pub struct Editor {
    pub name: String,
}

impl Editor {
    pub fn new(name: &str) -> (r: Self)
        ensures
            r.name@ == name@,
    {
        Editor { name: name.to_owned() }
    }
}

/// The engine facade, identified by a display name.
pub struct Engine {
    pub name: String,
}

impl Engine {
    pub fn new(name: &str) -> (r: Self)
        ensures
            r.name@ == name@,
    {
        Engine { name: name.to_owned() }
    }
}

/// A named asset record.
pub struct Asset {
    pub id: u32,
    pub name: String,
}

impl Asset {
    pub fn new(id: u32, name: &str) -> (r: Self)
        ensures
            r.id == id,
            r.name@ == name@,
    {
        Asset { id, name: name.to_owned() }
    }
}

/// A level made of typed nodes.
#[derive(Clone, Debug)]
pub struct Level {
    pub id: u32,
    pub name: String,
    pub width: u32,
    pub height: u32,
    pub nodes: Vec<LevelNode>,
}

/// One node of a level: a position and a tile type.
#[derive(Clone, Debug)]
pub struct LevelNode {
    pub id: u32,
    pub x: i32,
    pub y: i32,
    pub t: String,
}

} // verus!
