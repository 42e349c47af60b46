use vstd::prelude::*;

verus! {

/// The main axis along which a flex container places its items.
#[derive(Clone, Copy, Debug, PartialEq, Eq, Structural)]
pub enum FlexDirection {
    /// Items go left to right, wrapping into new rows as the wrap mode allows.
    Row,
    /// Items go top to bottom, one per line.
    Column,
}

/// Whether a row container starts a new line when an item would overflow.
#[derive(Clone, Copy, Debug, PartialEq, Eq, Structural)]
pub enum FlexWrap {
    /// Overflowing items move to a new row.
    Wrap,
    /// All items stay on one row.
    NoWrap,
}

impl Default for FlexDirection {
    /// A container lays out in rows unless told otherwise.
    fn default() -> (d: FlexDirection)
        ensures
            d == FlexDirection::Row,
    {
        FlexDirection::Row
    }
}

impl Default for FlexWrap {
    /// A container wraps unless told otherwise.
    fn default() -> (w: FlexWrap)
        ensures
            w == FlexWrap::Wrap,
    {
        FlexWrap::Wrap
    }
}

} // verus!
