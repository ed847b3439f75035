//! The arithmetic that keeps the end of a wrapped text in view.
//!
//! A text of `len` bytes is wrapped at `width` columns and shown through a
//! viewport of `height` lines whose first line is line `offset` of the text.
//! The cursor stands behind the last byte.

use vstd::prelude::*;

verus! {

/// The number of lines that a text of `len` bytes takes at `width` columns:
/// `len / width`, rounded up, and one line for the empty text.
pub open spec fn text_lines(len: int, width: int) -> int
    recommends
        len >= 0,
        width > 0,
{
    if len <= 0 {
        1
    } else {
        (len + width - 1) / width
    }
}

/// The largest scroll offset that still shows text: the lines that do not fit
/// the viewport, and `0` for a viewport without width or height.
pub open spec fn max_scroll(len: int, width: int, height: int) -> int {
    if width <= 0 || height <= 0 {
        0
    } else if text_lines(len, width) > height {
        text_lines(len, width) - height
    } else {
        0
    }
}

/// The line on which the cursor stands: `len / width`, rounded down.
pub open spec fn cursor_line(len: int, width: int) -> int
    recommends
        len >= 0,
        width > 0,
{
    len / width
}

/// The scroll offset after the viewport has followed the cursor: moved down
/// until the cursor's line is its last line, or up until it is its first, where
/// the cursor was out of view, and then held to `max_scroll`. A viewport
/// without width or height stays where it is.
pub open spec fn scrolled_to_cursor(len: int, width: int, height: int, offset: int) -> int {
    if width <= 0 || height <= 0 {
        offset
    } else {
        let line = cursor_line(len, width);
        let in_view = if line >= offset + height {
            line - (height - 1)
        } else if line < offset {
            line
        } else {
            offset
        };
        if in_view <= max_scroll(len, width, height) {
            in_view
        } else {
            max_scroll(len, width, height)
        }
    }
}

/// A number of lines as a scroll offset can hold it: held to `u16::MAX`.
pub open spec fn as_offset(lines: int) -> u16 {
    if lines <= 0 {
        0
    } else if lines >= u16::MAX {
        u16::MAX
    } else {
        lines as u16
    }
}

/// The cursor can be brought into view: it does not stand at the start of a
/// line of its own below a text that fills the viewport, and its line is not
/// further down than a scroll offset can reach.
pub open spec fn cursor_can_show(len: int, width: int, height: int) -> bool {
    &&& !(len > 0 && len % width == 0 && len / width >= height)
    &&& len / width < u16::MAX + height
}

/// Rounding up and rounding down differ by one where `width` does not divide
/// `len`.
pub proof fn lemma_text_lines(len: int, width: int)
    requires
        len >= 0,
        width > 0,
    ensures
        0 <= len / width <= len,
        0 <= len % width < width,
        text_lines(len, width) == if len == 0 {
            1
        } else if len % width == 0 {
            len / width
        } else {
            len / width + 1
        },
        1 <= text_lines(len, width),
        len > 0 ==> text_lines(len, width) <= len,
{
    let q = len / width;
    let r = len % width;
    assert(len == width * q + r && 0 <= r < width && 0 <= q <= len) by (nonlinear_arith)
        requires
            len >= 0,
            width > 0,
            q == len / width,
            r == len % width,
    ;
    assert(width * q >= q && (q == 0 ==> width * q == 0)) by (nonlinear_arith)
        requires
            width > 0,
            q >= 0,
    ;
    if len > 0 {
        let up = (len + width - 1) / width;
        assert(up == if r == 0 {
            q
        } else {
            q + 1
        }) by (nonlinear_arith)
            requires
                len == width * q + r,
                0 <= r < width,
                width > 0,
                up == (len + width - 1) / width,
        ;
    }
}

/// After the viewport has followed the cursor, the offset is within
/// `0 ..= max_scroll`, whatever it was before.
pub proof fn lemma_scroll_within_bounds(len: int, width: int, height: int, offset: int)
    requires
        len >= 0,
        width > 0,
        height > 0,
        offset >= 0,
    ensures
        0 <= scrolled_to_cursor(len, width, height, offset) <= max_scroll(len, width, height),
        as_offset(scrolled_to_cursor(len, width, height, offset)) <= max_scroll(len, width, height),
{
    lemma_text_lines(len, width);
}

/// After the viewport has followed the cursor, the cursor's line is one of the
/// lines in view, on every input on which it can be.
pub proof fn lemma_cursor_in_view(len: int, width: int, height: int, offset: int)
    requires
        len >= 0,
        width > 0,
        height > 0,
        offset >= 0,
        cursor_can_show(len, width, height),
    ensures
        ({
            let after = as_offset(scrolled_to_cursor(len, width, height, offset));
            after <= cursor_line(len, width) < after + height
        }),
        as_offset(scrolled_to_cursor(len, width, height, offset)) <= max_scroll(len, width, height),
{
    lemma_text_lines(len, width);
}

/// Where the cursor cannot be brought into view, the viewport ends up as far
/// down as it goes, and the cursor's line is below it.
pub proof fn lemma_cursor_out_of_view(len: int, width: int, height: int, offset: int)
    requires
        len >= 0,
        width > 0,
        height > 0,
        0 <= offset <= u16::MAX,
        !cursor_can_show(len, width, height),
    ensures
        ({
            let after = as_offset(scrolled_to_cursor(len, width, height, offset));
            after + height <= cursor_line(len, width)
        }),
        scrolled_to_cursor(len, width, height, offset) == max_scroll(len, width, height),
{
    lemma_text_lines(len, width);
}

/// Following the cursor twice is following it once.
pub proof fn lemma_scroll_idempotent(len: int, width: int, height: int, offset: int)
    requires
        len >= 0,
        0 <= offset <= u16::MAX,
    ensures
        ({
            let once = as_offset(scrolled_to_cursor(len, width, height, offset));
            as_offset(scrolled_to_cursor(len, width, height, once as int)) == once
        }),
{
    if width > 0 && height > 0 {
        lemma_text_lines(len, width);
    }
}

} // verus!
