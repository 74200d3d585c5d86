//! The `Absolute` widget: it takes a widget tree out of the flow of its
//! parent's layout and positions it relative to the screen instead.
use vstd::prelude::*;
use crate::geometry::{vec2_zero, Alignment, Dim2, Pivot};

verus! {

/// How a widget is positioned relative to its parent.
#[derive(Clone, Copy, Debug)]
pub enum Flow {
    /// Laid out by its parent.
    Inline,
    /// Placed at `anchor` of the parent, moved by `offset`.
    Relative { anchor: Alignment, offset: Dim2 },
    /// Placed at `anchor` of the screen, moved by `offset`.
    Absolute { anchor: Alignment, offset: Dim2 },
}

/// Changes the flow behavior a widget tree, allowing it to break out of any
/// layouts, and be positioned in relation to the screen instead.
#[derive(Clone, Copy, Debug)]
pub struct Absolute {
    /// The point of the screen the tree is placed at.
    pub anchor: Alignment,
    /// The point of the tree that is placed there.
    pub pivot: Pivot,
    /// How far the tree is moved from the anchor.
    pub offset: Dim2,
}

impl Absolute {
    /// The properties of an absolutely positioned tree.
    pub fn new(anchor: Alignment, pivot: Pivot, offset: Dim2) -> (r: Self)
        ensures
            r.anchor == anchor,
            r.pivot == pivot,
            r.offset == offset,
    {
        Self { anchor, pivot, offset }
    }
}

/// The widget behind [`Absolute`].
#[derive(Debug)]
pub struct AbsoluteWidget {
    props: Absolute,
}

impl AbsoluteWidget {
    /// The properties the widget was last given.
    pub closed spec fn spec_props(self) -> Absolute {
        self.props
    }

    /// A widget anchored by its top-left corner at the top-left of the screen,
    /// with no offset: anchor, pivot and both parts of the offset are the one
    /// zero vector.
    pub fn new() -> (r: Self)
        ensures
            r.spec_props().pivot.0 == r.spec_props().anchor.0,
            r.spec_props().offset.pixels == r.spec_props().anchor.0,
            r.spec_props().offset.percent == r.spec_props().anchor.0,
    {
        let zero = vec2_zero();
        Self {
            props: Absolute {
                anchor: Alignment(zero),
                pivot: Pivot(zero),
                offset: Dim2 { pixels: zero, percent: zero },
            },
        }
    }

    /// Gives the widget new properties.
    pub fn update(&mut self, props: Absolute)
        ensures
            final(self).spec_props() == props,
    {
        self.props = props;
    }

    /// The properties the widget was last given.
    pub fn props(&self) -> (r: &Absolute)
        ensures
            *r == self.spec_props(),
    {
        &self.props
    }

    /// The widget is placed at its anchor of the screen, moved by its offset.
    pub fn flow(&self) -> (r: Flow)
        ensures
            r == (Flow::Absolute { anchor: self.spec_props().anchor, offset: self.spec_props().offset }),
    {
        Flow::Absolute { anchor: self.props.anchor, offset: self.props.offset }
    }
}

} // verus!
