use edge_resize::{cursor_name_from_edge, on_motion, select_edge, Edge, Outside};

const ALL: [Option<Edge>; 9] = [
    None,
    Some(Edge::NorthWest),
    Some(Edge::North),
    Some(Edge::NorthEast),
    Some(Edge::West),
    Some(Edge::East),
    Some(Edge::SouthWest),
    Some(Edge::South),
    Some(Edge::SouthEast),
];

#[test]
fn cursor_names() {
    assert_eq!(cursor_name_from_edge(&Some(Edge::NorthWest)), "nw-resize");
    assert_eq!(cursor_name_from_edge(&Some(Edge::NorthEast)), "ne-resize");
    assert_eq!(cursor_name_from_edge(&Some(Edge::SouthWest)), "sw-resize");
    assert_eq!(cursor_name_from_edge(&Some(Edge::SouthEast)), "se-resize");
    assert_eq!(cursor_name_from_edge(&Some(Edge::West)), "w-resize");
    assert_eq!(cursor_name_from_edge(&Some(Edge::East)), "e-resize");
    assert_eq!(cursor_name_from_edge(&Some(Edge::North)), "n-resize");
    assert_eq!(cursor_name_from_edge(&Some(Edge::South)), "s-resize");
    assert_eq!(cursor_name_from_edge(&None), "default");
}

#[test]
fn cursor_names_are_distinct() {
    for a in ALL {
        for b in ALL {
            assert_eq!(cursor_name_from_edge(&a) == cursor_name_from_edge(&b), a == b);
        }
    }
}

#[test]
fn only_the_interior_has_the_default_cursor() {
    for edge in ALL {
        assert_eq!(cursor_name_from_edge(&edge) == "default", edge.is_none());
    }
}

#[test]
fn scenario_cursors() {
    assert_eq!(cursor_name_from_edge(&select_edge(-5, -5, 260, 160)), "nw-resize");
    assert_eq!(cursor_name_from_edge(&select_edge(130, -5, 260, 160)), "n-resize");
    assert_eq!(cursor_name_from_edge(&select_edge(130, 80, 260, 160)), "default");
    assert_eq!(cursor_name_from_edge(&select_edge(300, 300, 260, 160)), "se-resize");
}

#[test]
fn motion_picks_the_cursor_of_the_zone() {
    assert_eq!(on_motion(Outside::of(-5, -5, 260, 160)), "nw-resize");
    assert_eq!(on_motion(Outside::of(130, 170, 260, 160)), "s-resize");
    assert_eq!(on_motion(Outside::of(270, 80, 260, 160)), "e-resize");
    assert_eq!(on_motion(Outside::of(130, 80, 260, 160)), "default");
    assert_eq!(
        on_motion(Outside { left: false, right: true, above: false, below: true }),
        "se-resize"
    );
}
