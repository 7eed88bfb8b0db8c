//! The zones at the edge of the window that resize it.
use vstd::prelude::*;
use vstd::string::*;

verus! {

/// An edge or a corner of the window.
#[derive(Debug, Clone, Copy, PartialEq, Eq, Structural)]
pub enum Zone {
    North,
    South,
    East,
    West,
    NorthEast,
    NorthWest,
    SouthEast,
    SouthWest,
}

impl Zone {
    pub open spec fn id(self) -> Seq<char> {
        match self {
            Zone::North => "n"@,
            Zone::South => "s"@,
            Zone::East => "e"@,
            Zone::West => "w"@,
            Zone::NorthEast => "ne"@,
            Zone::NorthWest => "nw"@,
            Zone::SouthEast => "se"@,
            Zone::SouthWest => "sw"@,
        }
    }
}

/// What a zone is called in the ids of its widgets.
pub fn zone_name(zone: Zone) -> (r: &'static str)
    ensures
        r@ == zone.id(),
{
    match zone {
        Zone::North => "n",
        Zone::South => "s",
        Zone::East => "e",
        Zone::West => "w",
        Zone::NorthEast => "ne",
        Zone::NorthWest => "nw",
        Zone::SouthEast => "se",
        Zone::SouthWest => "sw",
    }
}

/// What one frame of a zone comes to: whether the pointer takes its shape, and
/// whether the window starts to be resized. Nothing happens under something that
/// is drawn above the panels.
pub fn show(covered: bool, hovered: bool, dragged: bool, drag_started: bool) -> (r: (bool, bool))
    ensures
        r.0 == (!covered && (hovered || dragged)),
        r.1 == (!covered && drag_started),
{
    if covered {
        (false, false)
    } else {
        (hovered || dragged, drag_started)
    }
}

/// No two zones share an id.
pub proof fn zone_names_differ(a: Zone, b: Zone)
    requires
        a != b,
    ensures
        a.id() != b.id(),
{
    reveal_strlit("n");
    reveal_strlit("s");
    reveal_strlit("e");
    reveal_strlit("w");
    reveal_strlit("ne");
    reveal_strlit("nw");
    reveal_strlit("se");
    reveal_strlit("sw");
    assert(a.id().len() == b.id().len() ==> a.id()[0] != b.id()[0] || a.id().last()
        != b.id().last());
}

}
