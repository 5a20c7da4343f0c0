//! What the renderer reads: the cells of the grid, their links, and the
//! labels of the bands around the grid.
//!
//! Each trait pairs its methods with `spec_` functions, the model that the
//! contracts of the renderer speak of: a method returns what its model
//! says. An implementation that Verus verifies states its model and is held
//! to it. The models have bodies, so that code outside Verus can implement
//! a trait by its methods alone: of such an implementation nothing is
//! proved, and the contracts of the renderer then speak of a model that
//! nothing ties to the methods.

use crate::color::Color;
use vstd::prelude::*;

verus! {

/// The target of a hyperlink round a cell.
pub trait ElementLink {
    /// The address that [`ElementLink::link`] returns.
    open spec fn spec_link(&self) -> Seq<char> {
        arbitrary()
    }

    /// The title that [`ElementLink::title`] returns.
    open spec fn spec_title(&self) -> Seq<char> {
        arbitrary()
    }

    /// The address the link leads to.
    fn link(&self) -> (url: String)
        ensures
            url@ == self.spec_link(),
    ;

    /// The title shown for the link.
    fn title(&self) -> (text: String)
        ensures
            text@ == self.spec_title(),
    ;
}

/// One cell of the grid.
pub trait Element {
    /// The links of the cells of this type.
    type Link: ElementLink;

    /// The colour that [`Element::get_color`] returns.
    open spec fn spec_get_color(&self) -> Color {
        arbitrary()
    }

    /// The colour that [`Element::get_border_color`] returns.
    open spec fn spec_get_border_color(&self) -> Color {
        arbitrary()
    }

    /// The link that [`Element::get_link`] returns.
    open spec fn spec_get_link(&self) -> Option<Self::Link> {
        arbitrary()
    }

    /// The colour the cell is filled with.
    fn get_color(&self) -> (color: Color)
        ensures
            color == self.spec_get_color(),
    ;

    /// The colour of the cell's border.
    fn get_border_color(&self) -> (color: Color)
        ensures
            color == self.spec_get_border_color(),
    ;

    /// The link round the cell, if it has one.
    fn get_link(&self) -> (link: Option<Self::Link>)
        ensures
            link == self.spec_get_link(),
    ;
}

/// One label of a band, and how many cells of the grid it stands for.
pub trait Info {
    /// The span that [`Info::block_count`] returns.
    open spec fn spec_block_count(&self) -> u32 {
        arbitrary()
    }

    /// The text that [`Info::label`] returns.
    open spec fn spec_label(&self) -> Seq<char> {
        arbitrary()
    }

    /// The number of cells that the label spans.
    fn block_count(&self) -> (count: u32)
        ensures
            count == self.spec_block_count(),
    ;

    /// The text of the label.
    fn label(&self) -> (text: &str)
        ensures
            text@ == self.spec_label(),
    ;
}

/// The bands of one rendering: up to four of them, and the room that the
/// grid leaves for the two that come before it.
pub trait Metadata<IF: Info> {
    /// The size that [`Metadata::left_size`] returns.
    open spec fn spec_left_size(&self) -> u32 {
        arbitrary()
    }

    /// The size that [`Metadata::top_size`] returns.
    open spec fn spec_top_size(&self) -> u32 {
        arbitrary()
    }

    /// The band that [`Metadata::left`] returns.
    open spec fn spec_left(&self) -> Option<Seq<LabelView>> {
        arbitrary()
    }

    /// The band that [`Metadata::top`] returns.
    open spec fn spec_top(&self) -> Option<Seq<LabelView>> {
        arbitrary()
    }

    /// The band that [`Metadata::right`] returns.
    open spec fn spec_right(&self) -> Option<Seq<LabelView>> {
        arbitrary()
    }

    /// The band that [`Metadata::bottom`] returns.
    open spec fn spec_bottom(&self) -> Option<Seq<LabelView>> {
        arbitrary()
    }

    /// By how many pixels the grid moves to the right, to leave room for a
    /// band on its left side.
    fn left_size(&self) -> (size: u32)
        ensures
            size == self.spec_left_size(),
    ;

    /// By how many pixels the grid moves down, to leave room for a band
    /// above it.
    fn top_size(&self) -> (size: u32)
        ensures
            size == self.spec_top_size(),
    ;

    /// The band along the first axis, before the grid.
    fn left(&self) -> (band: Option<Vec<IF>>)
        ensures
            band_view(band) == self.spec_left(),
    ;

    /// The band along the second axis, before the grid.
    fn top(&self) -> (band: Option<Vec<IF>>)
        ensures
            band_view(band) == self.spec_top(),
    ;

    /// The band along the first axis, after the grid.
    fn right(&self) -> (band: Option<Vec<IF>>)
        ensures
            band_view(band) == self.spec_right(),
    ;

    /// The band along the second axis, after the grid.
    fn bottom(&self) -> (band: Option<Vec<IF>>)
        ensures
            band_view(band) == self.spec_bottom(),
    ;
}

/// What the document shows of a band, if there is one.
pub open spec fn band_view<IF: Info>(band: Option<Vec<IF>>) -> Option<Seq<LabelView>> {
    match band {
        Some(entries) => Some(labels_view(entries@)),
        None => None,
    }
}

/// What the document shows of a link.
pub struct LinkView {
    pub link: Seq<char>,
    pub title: Seq<char>,
}

/// What the document shows of a cell.
pub struct CellView {
    pub color: Color,
    pub border_color: Color,
    pub link: Option<LinkView>,
}

/// What the document shows of a label.
pub struct LabelView {
    pub block_count: nat,
    pub label: Seq<char>,
}

/// What the document shows of `link`.
pub open spec fn link_view<L: ElementLink>(link: L) -> LinkView {
    LinkView { link: link.spec_link(), title: link.spec_title() }
}

/// What the document shows of `element`.
pub open spec fn cell_view<E: Element>(element: E) -> CellView {
    CellView {
        color: element.spec_get_color(),
        border_color: element.spec_get_border_color(),
        link: match element.spec_get_link() {
            Some(link) => Some(link_view(link)),
            None => None,
        },
    }
}

/// What the document shows of the cells of one group.
pub open spec fn group_view<E: Element>(group: Seq<E>) -> Seq<CellView> {
    Seq::new(group.len(), |j: int| cell_view(group[j]))
}

/// What the document shows of the cells of a grid.
pub open spec fn grid_view<E: Element>(grid: Seq<Vec<E>>) -> Seq<Seq<CellView>> {
    Seq::new(grid.len(), |i: int| group_view(grid[i]@))
}

/// What the document shows of `info`.
pub open spec fn label_view<IF: Info>(info: IF) -> LabelView {
    LabelView { block_count: info.spec_block_count() as nat, label: info.spec_label() }
}

/// What the document shows of the labels of a band.
pub open spec fn labels_view<IF: Info>(entries: Seq<IF>) -> Seq<LabelView> {
    Seq::new(entries.len(), |i: int| label_view(entries[i]))
}

impl ElementLink for (String, String) {
    open spec fn spec_link(&self) -> Seq<char> {
        self.1@
    }

    open spec fn spec_title(&self) -> Seq<char> {
        self.0@
    }

    fn link(&self) -> (url: String) {
        self.1.clone()
    }

    fn title(&self) -> (text: String) {
        self.0.clone()
    }
}

impl Element for (Color, Color, Option<(String, String)>) {
    type Link = (String, String);

    open spec fn spec_get_color(&self) -> Color {
        self.0
    }

    open spec fn spec_get_border_color(&self) -> Color {
        self.1
    }

    open spec fn spec_get_link(&self) -> Option<(String, String)> {
        self.2
    }

    fn get_color(&self) -> (color: Color) {
        self.0
    }

    fn get_border_color(&self) -> (color: Color) {
        self.1
    }

    fn get_link(&self) -> (link: Option<(String, String)>) {
        if let Some(s) = &self.2 {
            Some((s.0.clone(), s.1.clone()))
        } else {
            None
        }
    }
}

impl Info for (u32, String) {
    open spec fn spec_block_count(&self) -> u32 {
        self.0
    }

    open spec fn spec_label(&self) -> Seq<char> {
        self.1@
    }

    fn block_count(&self) -> (count: u32) {
        self.0
    }

    fn label(&self) -> (text: &str) {
        self.1.as_str()
    }
}

} // verus!
