//! The argument resolver: pure parsing of wire strings into domain values.
//!
//! Every parser takes the wire field name (carried inside the fault on bad
//! input) and the raw value. Each result is pinned to a spec function of the
//! raw characters alone, so parsing is deterministic: repeated calls on the
//! same input yield the same value.

use vstd::prelude::*;
use vstd::string::StrSliceExecFns;
use crate::errors::CommandError;
use crate::ident::{parse_uuid, uuid_well_formed, uuid_value};
use crate::strutil::str_eq;

verus! {

/// An opaque reference to a tree node, validated but not interpreted here.
#[derive(PartialEq, Eq, Structural, Clone, Copy, Debug, Hash)]
pub struct ContainerIdentifier(pub u128);

/// A cardinal movement direction.
#[derive(PartialEq, Eq, Structural, Clone, Copy, Debug)]
pub enum Direction {
    Up,
    Down,
    Left,
    Right,
}

/// How a container splits or tiles its children.
#[derive(PartialEq, Eq, Structural, Clone, Copy, Debug)]
pub enum SplitAxis {
    Horizontal,
    Vertical,
    Tabbed,
    Stacked,
}

/// A set of edges of a container, for interactive resizing.
#[derive(PartialEq, Eq, Structural, Clone, Copy, Debug)]
pub struct ResizeEdge {
    pub top: bool,
    pub bottom: bool,
    pub left: bool,
    pub right: bool,
}

impl ResizeEdge {
    /// The union of two edge sets.
    pub open spec fn spec_union(self, other: ResizeEdge) -> ResizeEdge {
        ResizeEdge {
            top: self.top || other.top,
            bottom: self.bottom || other.bottom,
            left: self.left || other.left,
            right: self.right || other.right,
        }
    }

    /// The edge set with no edges, the default.
    pub fn empty() -> (r: ResizeEdge)
        ensures
            r == (ResizeEdge { top: false, bottom: false, left: false, right: false }),
    {
        ResizeEdge { top: false, bottom: false, left: false, right: false }
    }

    /// Unions `other` into `self`.
    pub fn union(self, other: ResizeEdge) -> (r: ResizeEdge)
        ensures
            r == self.spec_union(other),
    {
        ResizeEdge {
            top: self.top || other.top,
            bottom: self.bottom || other.bottom,
            left: self.left || other.left,
            right: self.right || other.right,
        }
    }
}

/// Edge-set union is commutative.
pub proof fn lemma_edge_union_commutes(a: ResizeEdge, b: ResizeEdge)
    ensures
        a.spec_union(b) == b.spec_union(a),
{
}

/// Edge-set union is idempotent.
pub proof fn lemma_edge_union_idempotent(a: ResizeEdge)
    ensures
        a.spec_union(a) == a,
{
}

/// The identifier a raw wire string denotes: `Some(None)` for the empty
/// string (target unspecified), `Some(Some(v))` for a well-formed
/// identifier of value `v`, `None` for malformed input.
pub open spec fn parsed_ident(s: Seq<char>) -> Option<Option<u128>> {
    if s.len() == 0 {
        Some(None)
    } else if uuid_well_formed(s) {
        Some(Some(uuid_value(s) as u128))
    } else {
        None
    }
}

/// Parses an optional container identifier. The empty string means
/// "unspecified" and is never a fault; malformed non-empty input faults
/// with the field's name.
pub fn parse_identifier(field: &str, raw: &str) -> (r: Result<
    Option<ContainerIdentifier>,
    CommandError,
>)
    ensures
        match r {
            Ok(opt) => match opt {
                None => raw@.len() == 0,
                Some(id) => raw@.len() > 0 && uuid_well_formed(raw@) && id.0 as nat == uuid_value(
                    raw@,
                ),
            },
            Err(e) => raw@.len() > 0 && !uuid_well_formed(raw@) && (e matches
            CommandError::InvalidArgument(f) && f@ == field@),
        },
{
    if raw.unicode_len() == 0 {
        return Ok(None);
    }
    match parse_uuid(raw) {
        Some(v) => Ok(Some(ContainerIdentifier(v))),
        None => Err(CommandError::InvalidArgument(field.to_owned())),
    }
}

/// A rendered identifier round-trips: any well-formed identifier text
/// denoting value `v` parses back to exactly `v`, never to a fault.
pub proof fn lemma_identifier_round_trip(s: Seq<char>, v: u128)
    requires
        uuid_well_formed(s),
        uuid_value(s) == v as nat,
    ensures
        parsed_ident(s) == Some(Some(v)),
{
}

/// The direction a token denotes, if any.
pub open spec fn direction_of(s: Seq<char>) -> Option<Direction> {
    if s == "up"@ {
        Some(Direction::Up)
    } else if s == "down"@ {
        Some(Direction::Down)
    } else if s == "left"@ {
        Some(Direction::Left)
    } else if s == "right"@ {
        Some(Direction::Right)
    } else {
        None
    }
}

/// Parses a direction token; any token outside the vocabulary faults with
/// the field's name.
pub fn parse_direction(field: &str, raw: &str) -> (r: Result<Direction, CommandError>)
    ensures
        match r {
            Ok(d) => direction_of(raw@) == Some(d),
            Err(e) => direction_of(raw@) is None && (e matches CommandError::InvalidArgument(f)
                && f@ == field@),
        },
{
    if str_eq(raw, "up") {
        Ok(Direction::Up)
    } else if str_eq(raw, "down") {
        Ok(Direction::Down)
    } else if str_eq(raw, "left") {
        Ok(Direction::Left)
    } else if str_eq(raw, "right") {
        Ok(Direction::Right)
    } else {
        Err(CommandError::InvalidArgument(field.to_owned()))
    }
}

/// The split axis a token denotes, if any.
pub open spec fn axis_of(s: Seq<char>) -> Option<SplitAxis> {
    if s == "horizontal"@ {
        Some(SplitAxis::Horizontal)
    } else if s == "vertical"@ {
        Some(SplitAxis::Vertical)
    } else if s == "tabbed"@ {
        Some(SplitAxis::Tabbed)
    } else if s == "stacked"@ {
        Some(SplitAxis::Stacked)
    } else {
        None
    }
}

/// Parses a split-axis token; any token outside the vocabulary faults with
/// the field's name.
pub fn parse_axis(field: &str, raw: &str) -> (r: Result<SplitAxis, CommandError>)
    ensures
        match r {
            Ok(a) => axis_of(raw@) == Some(a),
            Err(e) => axis_of(raw@) is None && (e matches CommandError::InvalidArgument(f) && f@
                == field@),
        },
{
    if str_eq(raw, "horizontal") {
        Ok(SplitAxis::Horizontal)
    } else if str_eq(raw, "vertical") {
        Ok(SplitAxis::Vertical)
    } else if str_eq(raw, "tabbed") {
        Ok(SplitAxis::Tabbed)
    } else if str_eq(raw, "stacked") {
        Ok(SplitAxis::Stacked)
    } else {
        Err(CommandError::InvalidArgument(field.to_owned()))
    }
}

/// The edge set one token denotes. The empty token denotes the empty set,
/// so an omitted list defaults to no edges.
pub open spec fn edge_of_token(t: Seq<char>) -> Option<ResizeEdge> {
    if t == "top"@ {
        Some(ResizeEdge { top: true, bottom: false, left: false, right: false })
    } else if t == "bottom"@ {
        Some(ResizeEdge { top: false, bottom: true, left: false, right: false })
    } else if t == "left"@ {
        Some(ResizeEdge { top: false, bottom: false, left: true, right: false })
    } else if t == "right"@ {
        Some(ResizeEdge { top: false, bottom: false, left: false, right: true })
    } else if t.len() == 0 {
        Some(ResizeEdge { top: false, bottom: false, left: false, right: false })
    } else {
        None
    }
}

/// Walks the raw characters, unioning each comma-separated token's edge set
/// into `acc`; `tok` holds the characters of the token read so far.
pub open spec fn edges_of_rec(s: Seq<char>, tok: Seq<char>, acc: ResizeEdge) -> Option<ResizeEdge>
    decreases s.len(),
{
    if s.len() == 0 {
        match edge_of_token(tok) {
            Some(e) => Some(acc.spec_union(e)),
            None => None,
        }
    } else if s[0] == ',' {
        match edge_of_token(tok) {
            Some(e) => edges_of_rec(s.drop_first(), Seq::empty(), acc.spec_union(e)),
            None => None,
        }
    } else {
        edges_of_rec(s.drop_first(), tok.push(s[0]), acc)
    }
}

/// The edge set a comma-separated list denotes: the union of its tokens'
/// sets, or nothing if any token is unrecognized.
pub open spec fn edges_of(s: Seq<char>) -> Option<ResizeEdge> {
    edges_of_rec(s, Seq::empty(), ResizeEdge { top: false, bottom: false, left: false, right: false })
}

/// Parses one edge token.
fn edge_token(tok: &str) -> (r: Option<ResizeEdge>)
    ensures
        r == edge_of_token(tok@),
{
    if str_eq(tok, "top") {
        Some(ResizeEdge { top: true, bottom: false, left: false, right: false })
    } else if str_eq(tok, "bottom") {
        Some(ResizeEdge { top: false, bottom: true, left: false, right: false })
    } else if str_eq(tok, "left") {
        Some(ResizeEdge { top: false, bottom: false, left: true, right: false })
    } else if str_eq(tok, "right") {
        Some(ResizeEdge { top: false, bottom: false, left: false, right: true })
    } else if tok.unicode_len() == 0 {
        Some(ResizeEdge { top: false, bottom: false, left: false, right: false })
    } else {
        None
    }
}

/// Parses a comma-separated edge list, unioning the tokens' edge sets; one
/// unrecognized token faults the whole call with the field's name.
pub fn parse_edge(field: &str, raw: &str) -> (r: Result<ResizeEdge, CommandError>)
    ensures
        match r {
            Ok(e) => edges_of(raw@) == Some(e),
            Err(err) => edges_of(raw@) is None && (err matches CommandError::InvalidArgument(f)
                && f@ == field@),
        },
{
    let n = raw.unicode_len();
    let mut start: usize = 0;
    let mut i: usize = 0;
    let mut acc = ResizeEdge::empty();
    proof {
        assert(raw@.skip(0) =~= raw@);
        assert(raw@.subrange(0, 0) =~= Seq::<char>::empty());
    }
    while i < n
        invariant
            start <= i <= n,
            n == raw@.len(),
            edges_of_rec(raw@.skip(i as int), raw@.subrange(start as int, i as int), acc)
                == edges_of(raw@),
        decreases n - i,
    {
        let c = raw.get_char(i);
        proof {
            assert(raw@.skip(i as int)[0] == raw@[i as int]);
            assert(raw@.skip(i as int).drop_first() =~= raw@.skip(i as int + 1));
        }
        if c == ',' {
            let tok = raw.substring_char(start, i);
            match edge_token(tok) {
                Some(e) => {
                    proof {
                        assert(raw@.subrange(i as int + 1, i as int + 1) =~= Seq::<char>::empty());
                    }
                    acc = acc.union(e);
                    start = i + 1;
                },
                None => {
                    return Err(CommandError::InvalidArgument(field.to_owned()));
                },
            }
        } else {
            proof {
                assert(raw@.subrange(start as int, i as int + 1) =~= raw@.subrange(
                    start as int,
                    i as int,
                ).push(raw@[i as int]));
            }
        }
        i = i + 1;
    }
    proof {
        assert(raw@.skip(n as int) =~= Seq::<char>::empty());
    }
    let tok = raw.substring_char(start, n);
    match edge_token(tok) {
        Some(e) => Ok(acc.union(e)),
        None => Err(CommandError::InvalidArgument(field.to_owned())),
    }
}

} // verus!
