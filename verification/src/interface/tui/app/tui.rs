//! The layout arithmetic of the terminal interface: how many rows a printed
//! message takes, and where the input line's cursor goes.

use vstd::prelude::*;

verus! {

/// The display widths of the lines `ratatui::text::Text::from` splits a
/// message into, as `Line::width` measures them.
pub uninterp spec fn text_line_widths(message: Seq<char>) -> Seq<usize>;

/// Splits `message` into lines with `ratatui::text::Text::from` and measures
/// each with `Line::width`.  The source gives the empty message one empty
/// line.
#[verifier::external_body]
fn line_widths(message: &str) -> (r: Vec<usize>)
    ensures
        r@ == text_line_widths(message@),
        message@.len() == 0 ==> r@ == seq![0usize],
{
    ratatui::text::Text::from(message).lines.iter().map(|line| line.width()).collect()
}

/// The rows a line of the given width takes on a terminal `width` columns
/// wide.  The width is taken as a `u16`, cut to its low sixteen bits; an
/// empty line still takes a row.
pub open spec fn line_rows(line_width: usize, width: u16) -> int {
    let w = (line_width as u16) as int;
    if w == 0 {
        1
    } else {
        (w + width - 1) / (width as int)
    }
}

/// The rows the lines take, in total.
pub open spec fn total_rows(widths: Seq<usize>, width: u16) -> int
    decreases widths.len(),
{
    if widths.len() == 0 {
        0
    } else {
        total_rows(widths.drop_last(), width) + line_rows(widths.last(), width)
    }
}

/// Whether a line's rows can be computed in `u16` arithmetic: an empty
/// line takes a row without any; for another, the terminal has a column
/// and the line's width plus the terminal's does not overflow.
pub open spec fn line_fits(line_width: usize, width: u16) -> bool {
    let w = (line_width as u16) as int;
    w == 0 || (width > 0 && w + width <= u16::MAX)
}

/// Whether the row count can be computed in `u16` arithmetic: every line's
/// rows can, and no running total overflows.
pub open spec fn rows_fit(widths: Seq<usize>, width: u16) -> bool {
    &&& forall|i: int| 0 <= i < widths.len() ==> line_fits(#[trigger] widths[i], width)
    &&& forall|i: int| 0 <= i <= widths.len() ==> #[trigger] total_rows(widths.take(i), width) <= u16::MAX
}

/// Whether the rows of the lines can be counted without overflow.
pub fn rows_fit_check(widths: &Vec<usize>, width: u16) -> (r: bool)
    ensures
        r == rows_fit(widths@, width),
{
    let n = widths.len();
    let mut total: u16 = 0;
    let mut i: usize = 0;
    assert(widths@.take(0) =~= Seq::<usize>::empty());
    while i < n
        invariant
            n == widths@.len(),
            0 <= i <= n,
            total as int == total_rows(widths@.take(i as int), width),
            forall|j: int| 0 <= j < i ==> line_fits(#[trigger] widths@[j], width),
            forall|j: int| 0 <= j <= i ==> #[trigger] total_rows(widths@.take(j), width) <= u16::MAX,
        decreases n - i,
    {
        let w = #[verifier::truncate] (widths[i] as u16);
        assert(widths@.take(i + 1).drop_last() =~= widths@.take(i as int));
        if w != 0 && (width == 0 || w as u32 + width as u32 > u16::MAX as u32) {
            assert(!line_fits(widths@[i as int], width));
            return false;
        }
        let rows: u16 = if w == 0 {
            1
        } else {
            (w + width - 1) / width
        };
        if total as u32 + rows as u32 > u16::MAX as u32 {
            assert(total_rows(widths@.take(i + 1), width) > u16::MAX);
            return false;
        }
        total = total + rows;
        i = i + 1;
    }
    assert(widths@.take(n as int) =~= widths@);
    true
}

/// The rows the lines take, as the interface adds them up in `u16`.
pub fn lines_height(widths: &Vec<usize>, width: u16) -> (r: u16)
    requires
        rows_fit(widths@, width),
    ensures
        r as int == total_rows(widths@, width),
{
    let n = widths.len();
    let mut total: u16 = 0;
    let mut i: usize = 0;
    assert(widths@.take(0) =~= Seq::<usize>::empty());
    while i < n
        invariant
            n == widths@.len(),
            0 <= i <= n,
            rows_fit(widths@, width),
            total as int == total_rows(widths@.take(i as int), width),
        decreases n - i,
    {
        let w = #[verifier::truncate] (widths[i] as u16);
        assert(widths@.take(i + 1).drop_last() =~= widths@.take(i as int));
        assert(total_rows(widths@.take(i + 1), width) <= u16::MAX);
        assert(line_fits(widths@[i as int], width));
        let rows: u16 = if w == 0 {
            1
        } else {
            (w + width - 1) / width
        };
        total = total + rows;
        i = i + 1;
    }
    assert(widths@.take(n as int) =~= widths@);
    total
}

/// The rows a message takes when printed above the input line on a
/// terminal `width` columns wide, or `None` where the count overflows or a
/// line that is not empty meets a terminal with no column (where the count
/// panics in a debug build).
pub fn message_height(message: &str, width: u16) -> (r: Option<u16>)
    ensures
        rows_fit(text_line_widths(message@), width) ==> r == Some(
            total_rows(text_line_widths(message@), width) as u16,
        ),
        !rows_fit(text_line_widths(message@), width) ==> r is None,
{
    let widths = line_widths(message);
    if rows_fit_check(&widths, width) {
        Some(lines_height(&widths, width))
    } else {
        None
    }
}

/// The columns the input line's text gets: the area's width less the
/// border and the margin, at least nothing.
pub fn input_inner_width(area_width: u16) -> (r: u16)
    ensures
        r == if area_width >= 3 {
            area_width - 3
        } else {
            0
        },
{
    let w = if area_width > 3 {
        area_width
    } else {
        3
    };
    w - 3
}

/// Whether the cursor's screen position can be computed: the column and
/// the row stay within `u16`.
pub open spec fn cursor_fits(area_x: u16, area_y: u16, visual_cursor: usize, scroll: usize) -> bool {
    let x = (if visual_cursor >= scroll {
        visual_cursor
    } else {
        scroll
    }) - scroll + 1;
    &&& x <= usize::MAX
    &&& area_x + ((x as usize) as u16) <= u16::MAX
    &&& area_y + 1 <= u16::MAX
}

/// The cursor's screen position in the input box: past the border, at the
/// cursor's column less the scroll.
pub fn input_cursor_position(area_x: u16, area_y: u16, visual_cursor: usize, scroll: usize) -> (r: (
    u16,
    u16,
))
    requires
        cursor_fits(area_x, area_y, visual_cursor, scroll),
    ensures
        r.0 == area_x + ((((if visual_cursor >= scroll {
            visual_cursor
        } else {
            scroll
        }) - scroll + 1) as usize) as u16),
        r.1 == area_y + 1,
{
    let m = if visual_cursor > scroll {
        visual_cursor
    } else {
        scroll
    };
    let x = m - scroll + 1;
    (area_x + x as u16, area_y + 1)
}

} // verus!
