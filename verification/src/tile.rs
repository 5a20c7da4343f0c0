//! The grid renderer: one rectangle for each cell, in the order of the
//! cell source, and the extents that the grid came to.

use crate::config::{lemma_position_monotonic, Config};
use crate::data_traits::{
    cell_view, grid_view, group_view, CellView, Element, ElementLink, LinkView,
};
use crate::pieces::{
    attribute_views, base_doc, document_markup, end_tag_markup, rect_attributes, rect_markup,
    start_tag_markup, write_event, write_rect, Piece,
};
use vstd::prelude::*;

verus! {

/// The attributes of the hyperlink round a cell.
pub open spec fn link_attributes(link: LinkView) -> Seq<(Seq<char>, Seq<char>)> {
    seq![("xlink:href"@, link.link), ("xlink:title"@, link.title)]
}

/// The markup of the cell at `(first, second)`: its rectangle, inside a
/// hyperlink if the cell has a link.
pub open spec fn cell_markup(config: Config, first: int, second: int, cell: CellView) -> Seq<u8> {
    match cell.link {
        Some(link) => start_tag_markup("a"@, link_attributes(link)) + rect_markup(
            config,
            first,
            second,
            cell,
        ) + end_tag_markup("a"@),
        None => rect_markup(config, first, second, cell),
    }
}

/// The markup of the first `count` cells of the group with index `first`.
pub open spec fn group_markup(
    config: Config,
    first: int,
    cells: Seq<CellView>,
    count: nat,
) -> Seq<u8>
    decreases count,
{
    if count == 0 {
        Seq::empty()
    } else {
        group_markup(config, first, cells, (count - 1) as nat) + cell_markup(
            config,
            first,
            count - 1,
            cells[count - 1],
        )
    }
}

/// The markup of the first `count` groups of a grid.
pub open spec fn grid_markup(config: Config, groups: Seq<Seq<CellView>>, count: nat) -> Seq<u8>
    decreases count,
{
    if count == 0 {
        Seq::empty()
    } else {
        grid_markup(config, groups, (count - 1) as nat) + group_markup(
            config,
            count - 1,
            groups[count - 1],
            groups[count - 1].len(),
        )
    }
}

/// The lengths of the groups of a grid, in their order.
pub open spec fn grid_shape<E>(grid: Seq<Vec<E>>) -> Seq<nat> {
    Seq::new(grid.len(), |i: int| grid[i]@.len())
}

/// The greatest of the first `count` lengths, 0 if there is none.
pub open spec fn longest(lengths: Seq<nat>, count: nat) -> nat
    decreases count,
{
    if count == 0 {
        0
    } else if lengths[count - 1] > longest(lengths, (count - 1) as nat) {
        lengths[count - 1]
    } else {
        longest(lengths, (count - 1) as nat)
    }
}

/// The extents of a grid whose groups have the given lengths: the number
/// of groups and the length of the longest.
pub open spec fn extents(lengths: Seq<nat>) -> (nat, nat) {
    (lengths.len(), longest(lengths, lengths.len()))
}

/// Whether every cell of a grid whose groups have the given lengths can be
/// placed, and every count of the renderer held in 32 bits.
pub open spec fn grid_fits(config: Config, lengths: Seq<nat>) -> bool {
    &&& lengths.len() <= u32::MAX
    &&& forall|i: int| 0 <= i < lengths.len() ==> #[trigger] lengths[i] <= u32::MAX
    &&& forall|i: int, j: int|
        0 <= i < lengths.len() && 0 <= j < lengths[i] ==> #[trigger] config.fits(i, j)
}

/// None of the first `count` lengths is greater than `longest` says, and
/// unless that is 0, one of them is as great.
pub proof fn lemma_longest(lengths: Seq<nat>, count: nat)
    requires
        count <= lengths.len(),
    ensures
        forall|i: int| 0 <= i < count ==> #[trigger] lengths[i] <= longest(lengths, count),
        longest(lengths, count) > 0 ==> exists|i: int|
            0 <= i < count && #[trigger] lengths[i] == longest(lengths, count),
    decreases count,
{
    if count > 0 {
        lemma_longest(lengths, (count - 1) as nat);
        if longest(lengths, count) > 0 {
            if lengths[count - 1] > longest(lengths, (count - 1) as nat) {
                assert(lengths[count - 1] == longest(lengths, count));
            } else {
                let i = choose|i: int|
                    0 <= i < count - 1 && #[trigger] lengths[i] == longest(
                        lengths,
                        (count - 1) as nat,
                    );
                assert(lengths[i] == longest(lengths, count));
            }
        }
    }
}

/// Changing the orientation changes nothing of a cell but its place: the
/// cell at `(first, second)` is written as the cell at `(second, first)`
/// was, byte for byte.
pub proof fn lemma_mode_swap_keeps_cells(config: Config, first: int, second: int, cell: CellView)
    ensures
        cell_markup(config.with_mode(config.mode.swapped()), first, second, cell) == cell_markup(
            config,
            second,
            first,
            cell,
        ),
{
    let swapped = config.with_mode(config.mode.swapped());
    assert(rect_attributes(swapped, first, second, cell) =~= rect_attributes(
        config,
        second,
        first,
        cell,
    ));
}

/// Writes the cell `ele` at `(first, second)`: its rectangle, inside a
/// hyperlink if the cell has a link.
pub fn write_cell<E: Element>(svg: &mut Vec<u8>, config: &Config, first: u32, second: u32, ele: &E)
    requires
        config.fits(first as int, second as int),
    ensures
        final(svg)@ == old(svg)@ + cell_markup(
            *config,
            first as int,
            second as int,
            cell_view(*ele),
        ),
{
    if let Some(l) = ele.get_link() {
        let href = l.link();
        let title = l.title();
        let attributes = vec![("xlink:href", href.as_str()), ("xlink:title", title.as_str())];
        assert(attribute_views(attributes@) =~= link_attributes(cell_view(*ele).link.unwrap()));
        let mut open = write_event(Piece::Start { name: "a", attributes: &attributes });
        svg.append(&mut open);
        write_rect(svg, config, first, second, ele);
        let mut close = write_event(Piece::End { name: "a" });
        svg.append(&mut close);
    } else {
        write_rect(svg, config, first, second, ele);
    }
}

/// Writes the cells of `data_source`, group by group and each group in its
/// order, and returns the number of groups and the length of the longest.
pub fn write_tile<E: Element>(
    svg: &mut Vec<u8>,
    data_source: &Vec<Vec<E>>,
    config: &Config,
) -> (extent: (u32, u32))
    requires
        grid_fits(*config, grid_shape(data_source@)),
    ensures
        final(svg)@ == old(svg)@ + grid_markup(
            *config,
            grid_view(data_source@),
            data_source@.len(),
        ),
        extent.0 == extents(grid_shape(data_source@)).0,
        extent.1 == extents(grid_shape(data_source@)).1,
{
    let ghost groups = grid_view(data_source@);
    let ghost lengths = grid_shape(data_source@);
    let mut max_second: u32 = 0;
    let mut first: u32 = 0;
    let mut i: usize = 0;
    while i < data_source.len()
        invariant
            groups == grid_view(data_source@),
            lengths == grid_shape(data_source@),
            grid_fits(*config, lengths),
            i <= data_source.len(),
            first == i,
            max_second == longest(lengths, i as nat),
            svg@ == old(svg)@ + grid_markup(*config, groups, i as nat),
        decreases data_source.len() - i,
    {
        let yval = &data_source[i];
        let ghost cells = groups[i as int];
        assert(cells == group_view(yval@));
        assert(lengths[i as int] == yval@.len());
        let mut second: u32 = 0;
        let mut j: usize = 0;
        while j < yval.len()
            invariant
                cells == group_view(yval@),
                cells == groups[i as int],
                grid_fits(*config, lengths),
                i < data_source.len(),
                lengths.len() == data_source.len(),
                lengths[i as int] == yval@.len(),
                first == i,
                j <= yval.len(),
                second == j,
                max_second == if j as nat > longest(lengths, i as nat) {
                    j as nat
                } else {
                    longest(lengths, i as nat)
                },
                svg@ == old(svg)@ + grid_markup(*config, groups, i as nat) + group_markup(
                    *config,
                    i as int,
                    cells,
                    j as nat,
                ),
            decreases yval.len() - j,
        {
            assert(config.fits(i as int, j as int));
            assert(cells[j as int] == cell_view(yval@[j as int]));
            write_cell(svg, config, first, second, &yval[j]);
            second += 1;
            if second > max_second {
                max_second = second;
            }
            j += 1;
        }
        first += 1;
        i += 1;
    }
    (first, max_second)
}

/// The extents that [`write_tile`] would return, where it can write the
/// grid; `None` where it cannot.
pub fn measure_tile<E: Element>(
    data_source: &Vec<Vec<E>>,
    config: &Config,
) -> (extent: Option<(u32, u32)>)
    ensures
        extent.is_some() == grid_fits(*config, grid_shape(data_source@)),
        extent matches Some(found) ==> found.0 == extents(grid_shape(data_source@)).0 && found.1
            == extents(grid_shape(data_source@)).1,
{
    let ghost lengths = grid_shape(data_source@);
    if data_source.len() > u32::MAX as usize {
        return None;
    }
    let mut max_second: u32 = 0;
    let mut first: u32 = 0;
    let mut i: usize = 0;
    while i < data_source.len()
        invariant
            lengths == grid_shape(data_source@),
            data_source.len() <= u32::MAX,
            i <= data_source.len(),
            first == i,
            max_second == longest(lengths, i as nat),
            forall|k: int| 0 <= k < i ==> #[trigger] lengths[k] <= u32::MAX,
            forall|k: int, j: int|
                0 <= k < i && 0 <= j < lengths[k] ==> #[trigger] config.fits(k, j),
        decreases data_source.len() - i,
    {
        let yval = &data_source[i];
        assert(lengths[i as int] == yval@.len());
        if yval.len() > u32::MAX as usize {
            return None;
        }
        if yval.len() > 0 {
            let last = (yval.len() - 1) as u32;
            if !config.can_place(first, last) {
                assert(!config.fits(i as int, last as int));
                return None;
            }
            assert forall|j: int| 0 <= j < lengths[i as int] implies #[trigger] config.fits(
                i as int,
                j,
            ) by {
                lemma_position_monotonic(*config, i as int, j, i as int, last as int);
            }
            if yval.len() as u32 > max_second {
                max_second = yval.len() as u32;
            }
        }
        first += 1;
        i += 1;
    }
    Some((first, max_second))
}

/// Renders the grid `data_source` as a document.
pub fn tile<E: Element>(config: Config, data_source: Vec<Vec<E>>) -> (document: Vec<u8>)
    requires
        grid_fits(config, grid_shape(data_source@)),
    ensures
        document@ == document_markup(
            grid_markup(config, grid_view(data_source@), data_source@.len()),
        ),
{
    let mut svg = Vec::new();
    write_tile(&mut svg, &data_source, &config);
    base_doc(svg)
}

} // verus!
