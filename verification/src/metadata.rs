//! The bands of labels round the grid: where each label goes, and where
//! the grid and the bands after it start.

use crate::config::{Config, Mode};
use crate::data_traits::{grid_view, labels_view, CellView, Element, Info, LabelView, Metadata};
use crate::pieces::{base_doc, document_markup, text_markup, write_text};
use crate::tile::{extents, grid_fits, grid_markup, grid_shape, measure_tile, write_tile};
use vstd::prelude::*;

verus! {

/// The grid axis that a band runs along.
#[derive(Clone, Copy, Debug, PartialEq, Eq, Structural)]
pub enum Axis {
    /// Along the first axis, at index 0 of the second.
    First,
    /// Along the second axis, at index 0 of the first.
    Second,
}

/// Where the cursor of a band stands after `count` labels: at the sum of
/// their spans.
pub open spec fn cursor_at(labels: Seq<LabelView>, count: nat) -> nat
    decreases count,
{
    if count == 0 {
        0
    } else {
        cursor_at(labels, (count - 1) as nat) + labels[count - 1].block_count
    }
}

/// Whether a label of a band along `axis` can be placed at `cursor`.
pub open spec fn label_fits(config: Config, axis: Axis, cursor: int) -> bool {
    match axis {
        Axis::First => config.fits(cursor, 0),
        Axis::Second => config.fits(0, cursor),
    }
}

/// The label `text` of a band along `axis`, at `cursor`.
pub open spec fn label_markup(config: Config, axis: Axis, cursor: int, text: Seq<char>) -> Seq<u8> {
    match axis {
        Axis::First => text_markup(config, 0, cursor, text),
        Axis::Second => text_markup(config, cursor, 0, text),
    }
}

/// The first `count` labels of a band along `axis`, each where the cursor
/// stands after the labels before it.
pub open spec fn band_markup(
    config: Config,
    axis: Axis,
    labels: Seq<LabelView>,
    count: nat,
) -> Seq<u8>
    decreases count,
{
    if count == 0 {
        Seq::empty()
    } else {
        band_markup(config, axis, labels, (count - 1) as nat) + label_markup(
            config,
            axis,
            cursor_at(labels, (count - 1) as nat) as int,
            labels[count - 1].label,
        )
    }
}

/// Whether every label of the band can be placed, and the cursor held in
/// 32 bits to the end.
pub open spec fn band_fits(config: Config, axis: Axis, labels: Seq<LabelView>) -> bool {
    &&& cursor_at(labels, labels.len()) <= u32::MAX
    &&& forall|count: nat|
        count < labels.len() ==> label_fits(
            config,
            axis,
            #[trigger] cursor_at(labels, count) as int,
        )
}

/// The cursor never moves back.
pub proof fn lemma_cursor_monotonic(labels: Seq<LabelView>, low: nat, high: nat)
    requires
        low <= high,
    ensures
        cursor_at(labels, low) <= cursor_at(labels, high),
    decreases high,
{
    if low < high {
        lemma_cursor_monotonic(labels, low, (high - 1) as nat);
    }
}

/// Placing a band again moves the cursor as before: where it stands after
/// `count` labels is the sum of their spans and depends on nothing else, so
/// that two bands with the same spans move it alike, whatever their texts.
pub proof fn lemma_cursor_of_spans(labels: Seq<LabelView>, others: Seq<LabelView>, count: nat)
    requires
        count <= labels.len(),
        count <= others.len(),
        forall|i: int| 0 <= i < count ==> labels[i].block_count == others[i].block_count,
    ensures
        cursor_at(labels, count) == cursor_at(others, count),
    decreases count,
{
    if count > 0 {
        lemma_cursor_of_spans(labels, others, (count - 1) as nat);
    }
}

/// Writes the labels of a band along `axis`, each where the cursor stands
/// after the labels before it, and returns where the cursor stands at the
/// end.
pub fn write_band<IF: Info>(
    svg: &mut Vec<u8>,
    config: &Config,
    entries: &Vec<IF>,
    axis: Axis,
) -> (cursor: u32)
    requires
        band_fits(*config, axis, labels_view(entries@)),
    ensures
        final(svg)@ == old(svg)@ + band_markup(
            *config,
            axis,
            labels_view(entries@),
            entries@.len(),
        ),
        cursor == cursor_at(labels_view(entries@), entries@.len()),
{
    let ghost labels = labels_view(entries@);
    let mut cursor: u32 = 0;
    let mut i: usize = 0;
    while i < entries.len()
        invariant
            labels == labels_view(entries@),
            band_fits(*config, axis, labels),
            i <= entries.len(),
            cursor == cursor_at(labels, i as nat),
            svg@ == old(svg)@ + band_markup(*config, axis, labels, i as nat),
        decreases entries.len() - i,
    {
        let info = &entries[i];
        assert(label_fits(*config, axis, cursor_at(labels, i as nat) as int));
        proof {
            lemma_cursor_monotonic(labels, (i + 1) as nat, labels.len());
        }
        match axis {
            Axis::First => write_text(svg, config, 0, cursor, info.label()),
            Axis::Second => write_text(svg, config, cursor, 0, info.label()),
        }
        cursor += info.block_count();
        i += 1;
    }
    cursor
}

/// Whether [`write_band`] can write the band.
pub fn fits_band<IF: Info>(config: &Config, entries: &Vec<IF>, axis: Axis) -> (fits: bool)
    ensures
        fits == band_fits(*config, axis, labels_view(entries@)),
{
    let ghost labels = labels_view(entries@);
    let mut cursor: u32 = 0;
    let mut i: usize = 0;
    while i < entries.len()
        invariant
            labels == labels_view(entries@),
            i <= entries.len(),
            cursor == cursor_at(labels, i as nat),
            forall|count: nat|
                count < i ==> label_fits(*config, axis, #[trigger] cursor_at(labels, count) as int),
        decreases entries.len() - i,
    {
        let placed = match axis {
            Axis::First => config.can_place(cursor, 0),
            Axis::Second => config.can_place(0, cursor),
        };
        if !placed {
            assert(!label_fits(*config, axis, cursor_at(labels, i as nat) as int));
            return false;
        }
        match cursor.checked_add(entries[i].block_count()) {
            Some(next) => {
                cursor = next;
            },
            None => {
                proof {
                    lemma_cursor_monotonic(labels, (i + 1) as nat, labels.len());
                }
                return false;
            },
        }
        i += 1;
    }
    true
}

/// What the renderer reads of the bands of one rendering.
pub struct MetadataView {
    pub left_size: nat,
    pub top_size: nat,
    pub left: Option<Seq<LabelView>>,
    pub top: Option<Seq<LabelView>>,
    pub right: Option<Seq<LabelView>>,
    pub bottom: Option<Seq<LabelView>>,
}

/// What the renderer reads of `metadata`.
pub open spec fn metadata_view<IF: Info, M: Metadata<IF>>(metadata: M) -> MetadataView {
    MetadataView {
        left_size: metadata.spec_left_size() as nat,
        top_size: metadata.spec_top_size() as nat,
        left: metadata.spec_left(),
        top: metadata.spec_top(),
        right: metadata.spec_right(),
        bottom: metadata.spec_bottom(),
    }
}

/// By how much the grid moves along its first axis: by the top size where
/// that axis is vertical, by the left size where it is horizontal.
pub open spec fn first_size(config: Config, meta: MetadataView) -> nat {
    match config.mode {
        Mode::RowColumn => meta.top_size,
        Mode::ColumnRow => meta.left_size,
    }
}

/// By how much the grid moves along its second axis: by the left size
/// where that axis is horizontal, by the top size where it is vertical.
pub open spec fn second_size(config: Config, meta: MetadataView) -> nat {
    match config.mode {
        Mode::RowColumn => meta.left_size,
        Mode::ColumnRow => meta.top_size,
    }
}

/// The configuration of the band along the first axis before the grid: it
/// starts where the grid will along that axis.
pub open spec fn left_config(config: Config, meta: MetadataView) -> Config {
    config.with_first_offset(config.first_offset() + first_size(config, meta))
}

/// The configuration of the band along the second axis before the grid:
/// it starts where the grid will along that axis.
pub open spec fn top_config(config: Config, meta: MetadataView) -> Config {
    config.with_second_offset(config.second_offset() + second_size(config, meta))
}

/// The configuration of the grid: moved to the right by the left size and
/// down by the top size, whatever the orientation.
pub open spec fn body_config(config: Config, meta: MetadataView) -> Config {
    Config {
        offset_x: (config.offset_x + meta.left_size) as u32,
        offset_y: (config.offset_y + meta.top_size) as u32,
        ..config
    }
}

/// The configuration of the band along the first axis after the grid: it
/// stands where a further cell of the longest group would.
pub open spec fn right_config(body: Config, max_second: int) -> Config {
    body.with_second_offset(body.second_coordinate(max_second))
}

/// The configuration of the band along the second axis after the grid:
/// it stands where a further group would.
pub open spec fn bottom_config(body: Config, max_first: int) -> Config {
    body.with_first_offset(body.first_coordinate(max_first))
}

/// The markup of a band, nothing if there is none.
pub open spec fn optional_band_markup(
    config: Config,
    axis: Axis,
    band: Option<Seq<LabelView>>,
) -> Seq<u8> {
    match band {
        Some(labels) => band_markup(config, axis, labels, labels.len()),
        None => Seq::empty(),
    }
}

/// Whether the bands before the grid can be written.
pub open spec fn leading_fits(config: Config, meta: MetadataView) -> bool {
    &&& meta.left matches Some(labels) ==> config.first_offset() + first_size(config, meta)
        <= u32::MAX && band_fits(left_config(config, meta), Axis::First, labels)
    &&& meta.top matches Some(labels) ==> config.second_offset() + second_size(config, meta)
        <= u32::MAX && band_fits(top_config(config, meta), Axis::Second, labels)
}

/// The bands before the grid.
pub open spec fn leading_markup(config: Config, meta: MetadataView) -> Seq<u8> {
    optional_band_markup(left_config(config, meta), Axis::First, meta.left) + optional_band_markup(
        top_config(config, meta),
        Axis::Second,
        meta.top,
    )
}

/// Whether the bands after a grid of the given extents can be written.
pub open spec fn trailing_fits(
    body: Config,
    max_first: int,
    max_second: int,
    meta: MetadataView,
) -> bool {
    &&& meta.right matches Some(labels) ==> body.second_coordinate(max_second) <= u32::MAX
        && band_fits(right_config(body, max_second), Axis::First, labels)
    &&& meta.bottom matches Some(labels) ==> body.first_coordinate(max_first) <= u32::MAX
        && band_fits(bottom_config(body, max_first), Axis::Second, labels)
}

/// The bands after a grid of the given extents.
pub open spec fn trailing_markup(
    body: Config,
    max_first: int,
    max_second: int,
    meta: MetadataView,
) -> Seq<u8> {
    optional_band_markup(right_config(body, max_second), Axis::First, meta.right)
        + optional_band_markup(bottom_config(body, max_first), Axis::Second, meta.bottom)
}

/// Whether the origin of the grid can be held in 32 bits.
pub open spec fn body_fits(config: Config, meta: MetadataView) -> bool {
    &&& config.offset_x + meta.left_size <= u32::MAX
    &&& config.offset_y + meta.top_size <= u32::MAX
}

/// Whether a grid whose groups have the given lengths can be written with
/// its bands.
pub open spec fn metadata_fits(config: Config, meta: MetadataView, lengths: Seq<nat>) -> bool {
    &&& leading_fits(config, meta)
    &&& body_fits(config, meta)
    &&& grid_fits(body_config(config, meta), lengths)
    &&& trailing_fits(
        body_config(config, meta),
        extents(lengths).0 as int,
        extents(lengths).1 as int,
        meta,
    )
}

/// The lengths of the groups of what the document shows of a grid.
pub open spec fn shape_of(groups: Seq<Seq<CellView>>) -> Seq<nat> {
    Seq::new(groups.len(), |i: int| groups[i].len())
}

/// The bands before the grid, the grid, and the bands after it.
pub open spec fn metadata_markup(
    config: Config,
    meta: MetadataView,
    groups: Seq<Seq<CellView>>,
) -> Seq<u8> {
    leading_markup(config, meta) + grid_markup(body_config(config, meta), groups, groups.len())
        + trailing_markup(
        body_config(config, meta),
        extents(shape_of(groups)).0 as int,
        extents(shape_of(groups)).1 as int,
        meta,
    )
}

/// The grid starts at the origin moved to the right by the left size and
/// down by the top size, in either orientation and with nothing else
/// changed: along each of its axes, by the size that belongs to the
/// direction of that axis.
pub proof fn lemma_body_offset(config: Config, meta: MetadataView)
    requires
        body_fits(config, meta),
    ensures
        body_config(config, meta).offset_x == config.offset_x + meta.left_size,
        body_config(config, meta).offset_y == config.offset_y + meta.top_size,
        (Config {
            offset_x: config.offset_x,
            offset_y: config.offset_y,
            ..body_config(config, meta)
        }) == config,
        body_config(config, meta).first_offset() == config.first_offset() + first_size(
            config,
            meta,
        ),
        body_config(config, meta).second_offset() == config.second_offset() + second_size(
            config,
            meta,
        ),
        body_config(config, meta) == left_config(config, meta).with_second_offset(
            config.second_offset() + second_size(config, meta),
        ),
{
}

/// Where the grid starts does not depend on the bands: metadata of the
/// same two sizes put it at the same place, whatever the spans of their
/// labels come to.
pub proof fn lemma_body_ignores_bands(config: Config, meta: MetadataView, other: MetadataView)
    requires
        meta.top_size == other.top_size,
        meta.left_size == other.left_size,
    ensures
        body_config(config, meta) == body_config(config, other),
{
}

/// The two sizes of `metadata` by the axes of the grid: the one for the
/// first axis, then the one for the second. The top size is for the
/// vertical axis and the left size for the horizontal one, whichever of
/// them is the first.
pub fn sizes_by_axis<IF: Info, M: Metadata<IF>>(
    config: &Config,
    metadata: &M,
) -> (sizes: (u32, u32))
    ensures
        sizes.0 == first_size(*config, metadata_view::<IF, M>(*metadata)),
        sizes.1 == second_size(*config, metadata_view::<IF, M>(*metadata)),
{
    let top_size = metadata.top_size();
    let left_size = metadata.left_size();
    match config.mode {
        Mode::RowColumn => (top_size, left_size),
        Mode::ColumnRow => (left_size, top_size),
    }
}

/// Writes the bands that come before the grid: the one along the first
/// axis, then the one along the second.
pub fn write_metadata<IF: Info, M: Metadata<IF>>(svg: &mut Vec<u8>, config: &Config, metadata: &M)
    requires
        leading_fits(*config, metadata_view::<IF, M>(*metadata)),
    ensures
        final(svg)@ == old(svg)@ + leading_markup(*config, metadata_view::<IF, M>(*metadata)),
{
    let (first_size, second_size) = sizes_by_axis(config, metadata);
    if let Some(entries) = metadata.left() {
        let mut c = config.clone();
        c.set_metadata_first_offset(first_size);
        write_band(svg, &c, &entries, Axis::First);
    }
    if let Some(entries) = metadata.top() {
        let mut c = config.clone();
        c.set_metadata_second_offset(second_size);
        write_band(svg, &c, &entries, Axis::Second);
    }
}

/// Writes the bands that come after a grid of `max_first` groups, the
/// longest of `max_second` cells: the one along the first axis, then the
/// one along the second.
pub fn write_after_metadata<IF: Info, M: Metadata<IF>>(
    svg: &mut Vec<u8>,
    config: &Config,
    metadata: &M,
    max_first: u32,
    max_second: u32,
)
    requires
        trailing_fits(
            *config,
            max_first as int,
            max_second as int,
            metadata_view::<IF, M>(*metadata),
        ),
    ensures
        final(svg)@ == old(svg)@ + trailing_markup(
            *config,
            max_first as int,
            max_second as int,
            metadata_view::<IF, M>(*metadata),
        ),
{
    if let Some(entries) = metadata.right() {
        let mut c = config.clone();
        c.set_metadata_after_second_offset(max_second);
        write_band(svg, &c, &entries, Axis::First);
    }
    if let Some(entries) = metadata.bottom() {
        let mut c = config.clone();
        c.set_metadata_after_first_offset(max_first);
        write_band(svg, &c, &entries, Axis::Second);
    }
}

/// Renders the grid `data_source` with the bands of `metadata` as a
/// document.
pub fn metadata_tile<E: Element, IF: Info, M: Metadata<IF>>(
    config: Config,
    metadata: M,
    data_source: Vec<Vec<E>>,
) -> (document: Vec<u8>)
    requires
        metadata_fits(config, metadata_view::<IF, M>(metadata), grid_shape(data_source@)),
    ensures
        document@ == document_markup(
            metadata_markup(config, metadata_view::<IF, M>(metadata), grid_view(data_source@)),
        ),
{
    assert(shape_of(grid_view(data_source@)) =~= grid_shape(data_source@));
    let mut config = config;
    let mut svg = Vec::new();
    let (first_size, second_size) = sizes_by_axis(&config, &metadata);
    write_metadata(&mut svg, &config, &metadata);
    config.set_metadata_first_offset(first_size);
    config.set_metadata_second_offset(second_size);
    let (max_first, max_second) = write_tile(&mut svg, &data_source, &config);
    write_after_metadata(&mut svg, &config, &metadata, max_first, max_second);
    base_doc(svg)
}

/// Whether [`write_band`] can write `band` under `config`: always where
/// there is no band, never where there is one and no configuration.
fn fits_optional_band<IF: Info>(
    config: Option<Config>,
    band: &Option<Vec<IF>>,
    axis: Axis,
) -> (fits: bool)
    ensures
        fits == match *band {
            Some(entries) => config.is_some() && band_fits(
                config.unwrap(),
                axis,
                labels_view(entries@),
            ),
            None => true,
        },
{
    match band {
        Some(entries) => match config {
            Some(c) => fits_band(&c, entries, axis),
            None => false,
        },
        None => true,
    }
}

/// Whether [`metadata_tile`] can render the grid with its bands.
pub fn fits_metadata<E: Element, IF: Info, M: Metadata<IF>>(
    config: &Config,
    metadata: &M,
    data_source: &Vec<Vec<E>>,
) -> (fits: bool)
    ensures
        fits == metadata_fits(
            *config,
            metadata_view::<IF, M>(*metadata),
            grid_shape(data_source@),
        ),
{
    let (first_size, second_size) = sizes_by_axis(config, metadata);
    let left = metadata.left();
    if !fits_optional_band(config.checked_first_offset(first_size), &left, Axis::First) {
        return false;
    }
    let top = metadata.top();
    if !fits_optional_band(config.checked_second_offset(second_size), &top, Axis::Second) {
        return false;
    }
    let body = match config.checked_first_offset(first_size) {
        Some(moved) => match moved.checked_second_offset(second_size) {
            Some(body) => body,
            None => {
                return false;
            },
        },
        None => {
            return false;
        },
    };
    let (max_first, max_second) = match measure_tile(data_source, &body) {
        Some(extent) => extent,
        None => {
            return false;
        },
    };
    let right = metadata.right();
    if !fits_optional_band(body.checked_after_second_offset(max_second), &right, Axis::First) {
        return false;
    }
    let bottom = metadata.bottom();
    fits_optional_band(body.checked_after_first_offset(max_first), &bottom, Axis::Second)
}

} // verus!
