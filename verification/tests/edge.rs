use chrome_leap::edge::Edge;

#[test]
fn edge_names_are_left_and_right() {
    assert_eq!(Edge::Left.name(), "left");
    assert_eq!(Edge::Right.name(), "right");
}

#[test]
fn edge_is_found_by_its_name() {
    assert_eq!(Edge::from_name("left"), Some(Edge::Left));
    assert_eq!(Edge::from_name("right"), Some(Edge::Right));
}

#[test]
fn other_names_name_no_edge() {
    assert_eq!(Edge::from_name(""), None);
    assert_eq!(Edge::from_name("Left"), None);
    assert_eq!(Edge::from_name("left "), None);
    assert_eq!(Edge::from_name("top"), None);
}
