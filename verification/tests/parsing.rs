use way_cooler_ipc::args::{
    parse_identifier, parse_direction, parse_axis, parse_edge, ContainerIdentifier, Direction,
    SplitAxis, ResizeEdge,
};
use way_cooler_ipc::errors::CommandError;
use way_cooler_ipc::ident::{parse_uuid, format_uuid};

fn edge(top: bool, bottom: bool, left: bool, right: bool) -> ResizeEdge {
    ResizeEdge { top, bottom, left, right }
}

#[test]
fn empty_identifier_is_unspecified_not_a_fault() {
    assert_eq!(parse_identifier("container_id", ""), Ok(None));
}

#[test]
fn malformed_identifier_faults_naming_the_field() {
    let r = parse_identifier("container_id", "not-a-uuid");
    assert_eq!(r, Err(CommandError::InvalidArgument("container_id".to_string())));
    let r = parse_identifier("view_id", "00000000-0000-0000-0000-00000000000x");
    assert_eq!(r, Err(CommandError::InvalidArgument("view_id".to_string())));
    // a hyphen out of place
    let r = parse_identifier("container_id", "000000000-000-0000-0000-000000000001");
    assert_eq!(r, Err(CommandError::InvalidArgument("container_id".to_string())));
    // one character short
    let r = parse_identifier("container_id", "00000000-0000-0000-0000-00000000001");
    assert_eq!(r, Err(CommandError::InvalidArgument("container_id".to_string())));
}

#[test]
fn well_formed_identifier_parses_to_its_value() {
    let r = parse_identifier("container_id", "00000000-0000-0000-0000-000000000001");
    assert_eq!(r, Ok(Some(ContainerIdentifier(1))));
    let r = parse_identifier("container_id", "deadbeef-0000-0000-0000-000000000000");
    assert_eq!(r, Ok(Some(ContainerIdentifier(0xdeadbeef000000000000000000000000))));
}

#[test]
fn identifier_parsing_is_case_insensitive_on_digits() {
    let lower = parse_uuid("deadbeef-0000-0000-0000-000000000abc");
    let upper = parse_uuid("DEADBEEF-0000-0000-0000-000000000ABC");
    assert!(lower.is_some());
    assert_eq!(lower, upper);
}

#[test]
fn formatted_identifier_round_trips() {
    let s = format_uuid(1);
    assert_eq!(s, "00000000-0000-0000-0000-000000000001");
    assert_eq!(parse_uuid(&s), Some(1));
    let v = 0x0123456789abcdef0123456789abcdefu128;
    let s = format_uuid(v);
    assert_eq!(s, "01234567-89ab-cdef-0123-456789abcdef");
    assert_eq!(parse_uuid(&s), Some(v));
    let s = format_uuid(u128::MAX);
    assert_eq!(s, "ffffffff-ffff-ffff-ffff-ffffffffffff");
    assert_eq!(parse_uuid(&s), Some(u128::MAX));
}

#[test]
fn directions_parse_deterministically() {
    assert_eq!(parse_direction("direction", "up"), Ok(Direction::Up));
    assert_eq!(parse_direction("direction", "down"), Ok(Direction::Down));
    assert_eq!(parse_direction("direction", "left"), Ok(Direction::Left));
    assert_eq!(parse_direction("direction", "right"), Ok(Direction::Right));
    // repeated calls on the same input give the same output
    assert_eq!(parse_direction("direction", "left"), parse_direction("direction", "left"));
}

#[test]
fn unknown_direction_token_faults() {
    assert_eq!(
        parse_direction("direction", "north"),
        Err(CommandError::InvalidArgument("direction".to_string()))
    );
    assert_eq!(
        parse_direction("direction", ""),
        Err(CommandError::InvalidArgument("direction".to_string()))
    );
}

#[test]
fn axes_parse_deterministically() {
    assert_eq!(parse_axis("split_direction", "horizontal"), Ok(SplitAxis::Horizontal));
    assert_eq!(parse_axis("split_direction", "vertical"), Ok(SplitAxis::Vertical));
    assert_eq!(parse_axis("split_direction", "tabbed"), Ok(SplitAxis::Tabbed));
    assert_eq!(parse_axis("split_direction", "stacked"), Ok(SplitAxis::Stacked));
    assert_eq!(
        parse_axis("split_direction", "diagonal"),
        Err(CommandError::InvalidArgument("split_direction".to_string()))
    );
}

#[test]
fn edge_lists_union_their_tokens() {
    assert_eq!(parse_edge("dir", "top"), Ok(edge(true, false, false, false)));
    assert_eq!(parse_edge("dir", "bottom"), Ok(edge(false, true, false, false)));
    assert_eq!(parse_edge("dir", "left"), Ok(edge(false, false, true, false)));
    assert_eq!(parse_edge("dir", "right"), Ok(edge(false, false, false, true)));
    assert_eq!(parse_edge("dir", "top,right"), Ok(edge(true, false, false, true)));
    assert_eq!(
        parse_edge("dir", "top,bottom,left,right"),
        Ok(edge(true, true, true, true))
    );
}

#[test]
fn edge_union_is_commutative_and_idempotent() {
    assert_eq!(parse_edge("dir", "top,left"), parse_edge("dir", "left,top"));
    assert_eq!(parse_edge("dir", "top,top"), Ok(edge(true, false, false, false)));
}

#[test]
fn empty_edge_list_is_the_empty_set() {
    assert_eq!(parse_edge("dir", ""), Ok(edge(false, false, false, false)));
}

#[test]
fn one_unknown_edge_token_faults_the_whole_list() {
    assert_eq!(
        parse_edge("dir", "middle"),
        Err(CommandError::InvalidArgument("dir".to_string()))
    );
    assert_eq!(
        parse_edge("dir", "top,middle"),
        Err(CommandError::InvalidArgument("dir".to_string()))
    );
}
