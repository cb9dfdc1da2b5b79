//! Cursor names for the resize zones.

use vstd::prelude::*;
use crate::edge::{Edge, Outside};

verus! {

/// The name of the cursor that shows a resize from `edge`, or of the ordinary
/// cursor where there is no edge.
pub open spec fn cursor_name(edge: Option<Edge>) -> Seq<char> {
    match edge {
        Some(Edge::NorthWest) => "nw-resize"@,
        Some(Edge::North) => "n-resize"@,
        Some(Edge::NorthEast) => "ne-resize"@,
        Some(Edge::West) => "w-resize"@,
        Some(Edge::East) => "e-resize"@,
        Some(Edge::SouthWest) => "sw-resize"@,
        Some(Edge::South) => "s-resize"@,
        Some(Edge::SouthEast) => "se-resize"@,
        None => "default"@,
    }
}

/// The name of the cursor to show over `edge`.
pub fn cursor_name_from_edge(edge: &Option<Edge>) -> (name: &'static str)
    ensures
        name@ == cursor_name(*edge),
{
    match edge {
        Some(Edge::NorthWest) => "nw-resize",
        Some(Edge::NorthEast) => "ne-resize",
        Some(Edge::SouthWest) => "sw-resize",
        Some(Edge::SouthEast) => "se-resize",
        Some(Edge::West) => "w-resize",
        Some(Edge::East) => "e-resize",
        Some(Edge::North) => "n-resize",
        Some(Edge::South) => "s-resize",
        None => "default",
    }
}

/// The cursor to show when the pointer has moved to a place described by `outside`.
pub fn on_motion(outside: Outside) -> (name: &'static str)
    ensures
        name@ == cursor_name(outside.spec_edge()),
{
    let edge = outside.edge();
    cursor_name_from_edge(&edge)
}

/// Every resize zone has a cursor name of its own: two zones with the same
/// name are the same zone, so no edge shares the ordinary cursor's name.
pub proof fn cursor_names_differ(a: Option<Edge>, b: Option<Edge>)
    ensures
        cursor_name(a) == cursor_name(b) <==> a == b,
        a is Some ==> cursor_name(a) != "default"@,
{
    reveal_strlit("nw-resize");
    reveal_strlit("n-resize");
    reveal_strlit("ne-resize");
    reveal_strlit("w-resize");
    reveal_strlit("e-resize");
    reveal_strlit("sw-resize");
    reveal_strlit("s-resize");
    reveal_strlit("se-resize");
    reveal_strlit("default");
    if a != b && cursor_name(a) == cursor_name(b) {
        assert(cursor_name(a).len() == cursor_name(b).len());
        assert(cursor_name(a)[0] == cursor_name(b)[0]);
        assert(cursor_name(a)[1] == cursor_name(b)[1]);
    }
    if a is Some {
        assert(cursor_name(a).len() != "default"@.len());
    }
}

} // verus!
