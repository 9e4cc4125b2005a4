//! Points and ranges in source text.

use std::ops::Range;
use vstd::prelude::*;
use vstd::std_specs::convert::FromSpecImpl;

verus! {

/// A point in source text.
#[derive(Debug, Clone, Copy, PartialEq, Eq, Structural)]
pub struct Position {
    /// Line number, counted from one.
    pub line: usize,
    /// Column number, counted from one.
    pub column: usize,
    /// Index of the grapheme cluster, counted from zero.
    pub char_index: usize,
    /// Byte offset into the source, counted from zero.
    pub offset: usize,
}

impl Position {
    /// Builds a position from its four coordinates.
    pub fn new(line: usize, column: usize, char_index: usize, offset: usize) -> (position: Position)
        ensures
            position == (Position { line, column, char_index, offset }),
    {
        Position { line, column, char_index, offset }
    }

    /// The position of the first grapheme of any source.
    pub open spec fn origin() -> Position {
        Position { line: 1, column: 1, char_index: 0, offset: 0 }
    }
}

impl Default for Position {
    /// The first line, the first column, before any grapheme or byte.
    fn default() -> (position: Position)
        ensures
            position == Position::origin(),
    {
        Position { line: 1, column: 1, char_index: 0, offset: 0 }
    }
}

/// A range of source text, from `start` up to but not including `end`.
#[derive(Debug, Clone, Copy, PartialEq, Eq, Structural)]
pub struct Span {
    /// Where the range begins.
    pub start: Position,
    /// Where the range ends.
    pub end: Position,
}

impl Span {
    /// Builds a span from its two ends.
    pub fn new(start: Position, end: Position) -> (span: Span)
        ensures
            span == (Span { start, end }),
    {
        Span { start, end }
    }

    /// The span that covers nothing, at the origin.
    pub open spec fn empty_at_origin() -> Span {
        Span { start: Position::origin(), end: Position::origin() }
    }
}

impl Default for Span {
    /// The empty span at the origin.
    fn default() -> (span: Span)
        ensures
            span == Span::empty_at_origin(),
    {
        Span { start: Position::default(), end: Position::default() }
    }
}

impl From<Span> for Range<usize> {
    /// The bytes that the span covers.
    fn from(span: Span) -> (range: Range<usize>) {
        span.start.offset..span.end.offset
    }
}

impl FromSpecImpl<Span> for Range<usize> {
    open spec fn obeys_from_spec() -> bool {
        true
    }

    open spec fn from_spec(span: Span) -> Range<usize> {
        Range { start: span.start.offset, end: span.end.offset }
    }
}

/// Where a diagnostic points: at one position or at a span.
#[derive(Debug, Clone, Copy, PartialEq, Eq, Structural)]
pub enum Location {
    /// A single point.
    Position(Position),
    /// A range.
    Span(Span),
}

impl Location {
    /// The byte offset at which the location begins.
    pub open spec fn start_offset(self) -> usize {
        match self {
            Location::Position(position) => position.offset,
            Location::Span(span) => span.start.offset,
        }
    }

    /// The byte offset at which the location ends; a position ends where
    /// it begins.
    pub open spec fn end_offset(self) -> usize {
        match self {
            Location::Position(position) => position.offset,
            Location::Span(span) => span.end.offset,
        }
    }
}

impl From<Location> for Range<usize> {
    /// The bytes that the location covers; none for a position.
    fn from(location: Location) -> (range: Range<usize>) {
        match location {
            Location::Position(position) => position.offset..position.offset,
            Location::Span(span) => span.start.offset..span.end.offset,
        }
    }
}

impl FromSpecImpl<Location> for Range<usize> {
    open spec fn obeys_from_spec() -> bool {
        true
    }

    open spec fn from_spec(location: Location) -> Range<usize> {
        Range { start: location.start_offset(), end: location.end_offset() }
    }
}

} // verus!
