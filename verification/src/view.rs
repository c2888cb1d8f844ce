//! The viewport controller: cursor movement, scrolling, edit dispatch, and
//! the rows to paint.

use vstd::prelude::*;
use vstd::view::View as _;
use crate::buffer::Buffer;
use crate::command::{Edit, Move};
use crate::documentstatus::DocumentStatus;
use crate::fileinfo::basename;
use crate::line::{frag_pos, fragments_of, render_range, text_of, FragModel, Line};
use crate::position::Position;
use crate::size::Size;
use crate::strutil::spaces;

verus! {

/// The logical cursor: a grapheme index within a line of the buffer. The
/// grapheme index may equal the line's length (cursor after the last
/// cluster) and the line index may equal the buffer's height (a virtual
/// line past the end).
#[derive(Debug, Clone, Copy, PartialEq, Eq, Structural)]
pub struct Location {
    pub grapheme_index: usize,
    pub line_index: usize,
}

impl Default for Location {
    /// The start of the document.
    fn default() -> (l: Location)
        ensures
            l.grapheme_index == 0 && l.line_index == 0,
    {
        Location { grapheme_index: 0, line_index: 0 }
    }
}

/// The cluster count of the line at `li`, or zero past the document's end.
pub open spec fn line_len_at(lines: Seq<Seq<FragModel>>, li: int) -> int {
    if 0 <= li < lines.len() {
        lines[li].len() as int
    } else {
        0
    }
}

/// A grapheme index clamped to the length of the line at `li`.
pub open spec fn clamp_grapheme(lines: Seq<Seq<FragModel>>, li: int, g: int) -> int {
    if g <= line_len_at(lines, li) {
        g
    } else {
        line_len_at(lines, li)
    }
}

/// An index sum capped at the largest machine word.
pub open spec fn sat_add_idx(a: int, b: int) -> int {
    if a + b > usize::MAX as int {
        usize::MAX as int
    } else {
        a + b
    }
}

/// Where the cursor lands moving up `step` lines: the line index saturates
/// at zero and the grapheme index is clamped to the destination line.
pub open spec fn loc_up(lines: Seq<Seq<FragModel>>, li: int, g: int, step: int) -> (int, int) {
    let li2 = if li >= step {
        li - step
    } else {
        0
    };
    (li2, clamp_grapheme(lines, li2, g))
}

/// Where the cursor lands moving down `step` lines: the grapheme index is
/// clamped to the destination line (zero past the end), then the line index
/// itself is clamped to the document height.
pub open spec fn loc_down(lines: Seq<Seq<FragModel>>, li: int, g: int, step: int) -> (int, int) {
    let lix = sat_add_idx(li, step);
    let g2 = clamp_grapheme(lines, lix, g);
    let li2 = if lix <= lines.len() {
        lix
    } else {
        lines.len() as int
    };
    (li2, g2)
}

/// Where the cursor lands moving left one cluster: within a line one step
/// back, at a line's start the end of the previous line, at the document's
/// start nowhere.
pub open spec fn loc_left(lines: Seq<Seq<FragModel>>, li: int, g: int) -> (int, int) {
    if g > 0 {
        (li, g - 1)
    } else if li > 0 {
        (li - 1, line_len_at(lines, li - 1))
    } else {
        (li, g)
    }
}

/// Where the cursor lands moving right one cluster: within a line one step
/// forward, at a line's end the start of the next line.
pub open spec fn loc_right(lines: Seq<Seq<FragModel>>, li: int, g: int) -> (int, int) {
    if g < line_len_at(lines, li) {
        (li, g + 1)
    } else {
        loc_down(lines, li, 0, 1)
    }
}

/// The page step for a viewport: one less than its height.
pub open spec fn page_step(size: Size) -> int {
    if size.height > 0 {
        size.height - 1
    } else {
        0
    }
}

/// Where the cursor lands after a move command.
pub open spec fn loc_move(lines: Seq<Seq<FragModel>>, size: Size, mv: Move, li: int, g: int) -> (
    int,
    int,
) {
    match mv {
        Move::Up => loc_up(lines, li, g, 1),
        Move::Down => loc_down(lines, li, g, 1),
        Move::Left => loc_left(lines, li, g),
        Move::Right => loc_right(lines, li, g),
        Move::PageUp => loc_up(lines, li, g, page_step(size)),
        Move::PageDown => loc_down(lines, li, g, page_step(size)),
        Move::Home => (li, 0),
        Move::End => (li, line_len_at(lines, li)),
    }
}

/// The screen column of a cursor: the summed widths of the clusters before
/// it on its line, or zero past the document's end.
pub open spec fn col_of(lines: Seq<Seq<FragModel>>, li: int, g: int) -> nat {
    if 0 <= li < lines.len() {
        frag_pos(lines[li], clamp_grapheme(lines, li, g))
    } else {
        0
    }
}

/// Whether one axis of scroll-into-view adjusts its offset: the target
/// lies before the window or at or past its end. The viewport repaints
/// whenever this holds, even if the adjusted offset keeps its old value.
pub open spec fn scroll_changed(offset: int, extent: int, target: int) -> bool {
    target < offset || target >= sat_add_idx(offset, extent)
}

/// One axis of scroll-into-view: an offset moved back to the target when
/// the target lies before the window, forward so the target becomes the
/// window's last cell when it lies at or past its end, and kept otherwise.
pub open spec fn scroll_to(offset: int, extent: int, target: int) -> int {
    if target < offset {
        target
    } else if target >= sat_add_idx(offset, extent) {
        if target - extent + 1 > usize::MAX as int {
            usize::MAX as int
        } else {
            target - extent + 1
        }
    } else {
        offset
    }
}

/// After scroll-into-view with a positive extent, the target is visible:
/// at or after the offset and before the window's end.
pub proof fn lemma_scroll_to_visible(offset: int, extent: int, target: int)
    requires
        0 <= offset <= usize::MAX as int,
        1 <= extent,
        0 <= target <= usize::MAX as int,
    ensures
        scroll_to(offset, extent, target) <= target,
        target < scroll_to(offset, extent, target) + extent,
{
}

/// The viewport: a buffer, the visible size, the redraw flag, the logical
/// cursor, and the scroll offset.
#[derive(Debug)]
pub struct View {
    pub buf: Buffer,
    pub size: Size,
    pub need_redraw: bool,
    pub text_location: Location,
    pub scroll_offset: Position,
}

impl Default for View {
    /// An empty viewport of size zero that wants an initial paint.
    fn default() -> (v: View)
        ensures
            v.lines() == Seq::<Seq<FragModel>>::empty(),
            v.buf.file_info.path is None,
            !v.buf.is_modify,
            v.size.width == 0 && v.size.height == 0,
            v.need_redraw,
            v.text_location.grapheme_index == 0 && v.text_location.line_index == 0,
            v.scroll_offset.col == 0 && v.scroll_offset.row == 0,
    {
        View {
            buf: Buffer::default(),
            size: Size { width: 0, height: 0 },
            need_redraw: true,
            text_location: Location { grapheme_index: 0, line_index: 0 },
            scroll_offset: Position { col: 0, row: 0 },
        }
    }
}

impl View {
    /// The document's lines.
    pub open spec fn lines(&self) -> Seq<Seq<FragModel>> {
        self.buf.lines.deep_view()
    }

    /// Whether a file identity is bound.
    pub fn is_file_loaded(&self) -> (r: bool)
        ensures
            r == (self.buf.file_info.path is Some),
    {
        self.buf.is_file_loaded()
    }

    /// Replaces the document with one loaded from `content`, bound to
    /// `filename`, and asks for a repaint. Cursor and scroll are kept.
    pub fn load(&mut self, filename: &str, content: &str)
        ensures
            final(self).lines() == crate::buffer::lines_of(content@).map_values(
                |t: Seq<char>| fragments_of(t),
            ),
            final(self).buf.file_info.path is Some && final(self).buf.file_info.path->0@
                == filename@,
            !final(self).buf.is_modify,
            final(self).need_redraw,
            final(self).size == old(self).size,
            final(self).text_location == old(self).text_location,
            final(self).scroll_offset == old(self).scroll_offset,
    {
        let buf = Buffer::from_text(filename, content);
        self.buf = buf;
        self.mark_redraw(true);
    }

    /// Sets or clears the redraw flag.
    pub fn mark_redraw(&mut self, redraw: bool)
        ensures
            (*final(self) == View { need_redraw: redraw, ..*old(self) }),
    {
        self.need_redraw = redraw;
    }

    /// Whether the viewport's visible content is stale.
    pub fn needs_redraw(&self) -> (r: bool)
        ensures
            r == self.need_redraw,
    {
        self.need_redraw
    }

    /// The screen position of the cursor: its line as the row, and the sum
    /// of cluster widths before it as the column.
    pub fn text_location_to_postion(&self) -> (p: Position)
        ensures
            p.row == self.text_location.line_index,
            p.col as nat == col_of(
                self.lines(),
                self.text_location.line_index as int,
                self.text_location.grapheme_index as int,
            ),
    {
        let li = self.text_location.line_index;
        let col = if li < self.buf.lines.len() {
            self.buf.lines[li].width_until(self.text_location.grapheme_index)
        } else {
            0
        };
        Position { row: li, col }
    }

    /// Scrolls one axis so the cursor's row becomes visible; a change asks
    /// for a repaint.
    fn scroll_vertically(&mut self, to: usize)
        ensures
            final(self).scroll_offset.row == scroll_to(
                old(self).scroll_offset.row as int,
                old(self).size.height as int,
                to as int,
            ),
            final(self).scroll_offset.col == old(self).scroll_offset.col,
            final(self).need_redraw == (old(self).need_redraw || scroll_changed(
                old(self).scroll_offset.row as int,
                old(self).size.height as int,
                to as int,
            )),
            final(self).buf == old(self).buf,
            final(self).size == old(self).size,
            final(self).text_location == old(self).text_location,
    {
        let height = self.size.height;
        let changed: bool = if to < self.scroll_offset.row {
            self.scroll_offset.row = to;
            true
        } else if to >= self.scroll_offset.row.saturating_add(height) {
            self.scroll_offset.row = to.saturating_sub(height).saturating_add(1);
            true
        } else {
            false
        };
        if changed {
            self.mark_redraw(true);
        }
    }

    /// Scrolls one axis so the cursor's column becomes visible; a change
    /// asks for a repaint.
    fn scroll_heriztion(&mut self, to: usize)
        ensures
            final(self).scroll_offset.col == scroll_to(
                old(self).scroll_offset.col as int,
                old(self).size.width as int,
                to as int,
            ),
            final(self).scroll_offset.row == old(self).scroll_offset.row,
            final(self).need_redraw == (old(self).need_redraw || scroll_changed(
                old(self).scroll_offset.col as int,
                old(self).size.width as int,
                to as int,
            )),
            final(self).buf == old(self).buf,
            final(self).size == old(self).size,
            final(self).text_location == old(self).text_location,
    {
        let width = self.size.width;
        let changed: bool = if to < self.scroll_offset.col {
            self.scroll_offset.col = to;
            true
        } else if to >= self.scroll_offset.col.saturating_add(width) {
            self.scroll_offset.col = to.saturating_sub(width).saturating_add(1);
            true
        } else {
            false
        };
        if changed {
            self.mark_redraw(true);
        }
    }

    /// Scrolls both axes so the cursor's screen position is inside the
    /// viewport window.
    pub fn scroll_text_location_into_view(&mut self)
        ensures
            ({
                let p_col = col_of(
                    old(self).lines(),
                    old(self).text_location.line_index as int,
                    old(self).text_location.grapheme_index as int,
                );
                let p_row = old(self).text_location.line_index as int;
                final(self).scroll_offset.col == scroll_to(
                    old(self).scroll_offset.col as int,
                    old(self).size.width as int,
                    p_col as int,
                ) && final(self).scroll_offset.row == scroll_to(
                    old(self).scroll_offset.row as int,
                    old(self).size.height as int,
                    p_row,
                ) && final(self).need_redraw == (old(self).need_redraw || scroll_changed(
                    old(self).scroll_offset.col as int,
                    old(self).size.width as int,
                    p_col as int,
                ) || scroll_changed(
                    old(self).scroll_offset.row as int,
                    old(self).size.height as int,
                    p_row,
                ))
            }),
            final(self).buf == old(self).buf,
            final(self).size == old(self).size,
            final(self).text_location == old(self).text_location,
    {
        let pos = self.text_location_to_postion();
        self.scroll_heriztion(pos.col);
        self.scroll_vertically(pos.row);
    }

    /// Moves the cursor to the start of its line.
    fn move_start_of_line(&mut self)
        ensures
            (*final(self) == View {
                text_location: Location { grapheme_index: 0, ..old(self).text_location },
                ..*old(self)
            }),
    {
        self.text_location.grapheme_index = 0;
    }

    /// Moves the cursor past the last cluster of its line.
    fn move_end_of_line(&mut self)
        ensures
            (*final(self) == View {
                text_location: Location {
                    grapheme_index: final(self).text_location.grapheme_index,
                    ..old(self).text_location
                },
                ..*old(self)
            }),
            final(self).text_location.grapheme_index as int == line_len_at(
                old(self).lines(),
                old(self).text_location.line_index as int,
            ),
    {
        let li = self.text_location.line_index;
        self.text_location.grapheme_index = if li < self.buf.lines.len() {
            self.buf.lines[li].len()
        } else {
            0
        };
    }

    /// Clamps the cursor's grapheme index to its line's length.
    fn snap_to_valid_grapheme(&mut self)
        ensures
            (*final(self) == View {
                text_location: Location {
                    grapheme_index: final(self).text_location.grapheme_index,
                    ..old(self).text_location
                },
                ..*old(self)
            }),
            final(self).text_location.grapheme_index as int == clamp_grapheme(
                old(self).lines(),
                old(self).text_location.line_index as int,
                old(self).text_location.grapheme_index as int,
            ),
    {
        let li = self.text_location.line_index;
        let g = self.text_location.grapheme_index;
        self.text_location.grapheme_index = if li < self.buf.lines.len() {
            let len = self.buf.lines[li].len();
            if g < len {
                g
            } else {
                len
            }
        } else {
            0
        };
    }

    /// Clamps the cursor's line index to the document height.
    fn snap_to_valid_line(&mut self)
        ensures
            (*final(self) == View {
                text_location: Location {
                    line_index: final(self).text_location.line_index,
                    ..old(self).text_location
                },
                ..*old(self)
            }),
            final(self).text_location.line_index as int == if old(self).text_location.line_index as int <= old(self).lines().len() {
                old(self).text_location.line_index as int
            } else {
                old(self).lines().len() as int
            },
    {
        let h = self.buf.lines.len();
        if self.text_location.line_index > h {
            self.text_location.line_index = h;
        }
    }

    /// Moves the cursor up `step` lines, saturating at the first.
    fn move_up(&mut self, step: usize)
        ensures
            (*final(self) == View {
                text_location: final(self).text_location,
                ..*old(self)
            }),
            ({
                let (li2, g2) = loc_up(
                    old(self).lines(),
                    old(self).text_location.line_index as int,
                    old(self).text_location.grapheme_index as int,
                    step as int,
                );
                final(self).text_location.line_index == li2
                    && final(self).text_location.grapheme_index == g2
            }),
    {
        self.text_location.line_index = self.text_location.line_index.saturating_sub(step);
        self.snap_to_valid_grapheme();
    }

    /// Moves the cursor down `step` lines, saturating at the virtual line
    /// past the end.
    fn move_down(&mut self, step: usize)
        ensures
            (*final(self) == View {
                text_location: final(self).text_location,
                ..*old(self)
            }),
            ({
                let (li2, g2) = loc_down(
                    old(self).lines(),
                    old(self).text_location.line_index as int,
                    old(self).text_location.grapheme_index as int,
                    step as int,
                );
                final(self).text_location.line_index == li2
                    && final(self).text_location.grapheme_index == g2
            }),
    {
        self.text_location.line_index = self.text_location.line_index.saturating_add(step);
        self.snap_to_valid_grapheme();
        self.snap_to_valid_line();
    }

    /// Moves the cursor left one cluster, unwrapping to the end of the
    /// previous line at a line's start.
    fn move_left(&mut self)
        ensures
            (*final(self) == View {
                text_location: final(self).text_location,
                ..*old(self)
            }),
            ({
                let (li2, g2) = loc_left(
                    old(self).lines(),
                    old(self).text_location.line_index as int,
                    old(self).text_location.grapheme_index as int,
                );
                final(self).text_location.line_index == li2
                    && final(self).text_location.grapheme_index == g2
            }),
    {
        if self.text_location.grapheme_index > 0 {
            self.text_location.grapheme_index -= 1;
        } else if self.text_location.line_index > 0 {
            self.move_up(1);
            self.move_end_of_line();
        }
    }

    /// Moves the cursor right one cluster, wrapping to the start of the
    /// next line at a line's end.
    fn move_right(&mut self)
        ensures
            (*final(self) == View {
                text_location: final(self).text_location,
                ..*old(self)
            }),
            ({
                let (li2, g2) = loc_right(
                    old(self).lines(),
                    old(self).text_location.line_index as int,
                    old(self).text_location.grapheme_index as int,
                );
                final(self).text_location.line_index == li2
                    && final(self).text_location.grapheme_index == g2
            }),
    {
        let li = self.text_location.line_index;
        let width = if li < self.buf.lines.len() {
            self.buf.lines[li].len()
        } else {
            0
        };
        if self.text_location.grapheme_index < width {
            self.text_location.grapheme_index += 1;
        } else {
            self.move_start_of_line();
            self.move_down(1);
        }
    }

    /// Executes one move command, then scrolls the cursor into view.
    /// Moving down from the virtual end line leaves the cursor there, with
    /// its grapheme index clamped to that line's length.
    pub fn move_text_location(&mut self, mv: Move)
        ensures
            view_moved(*old(self), *final(self), mv),
    {
        let height = self.size.height;
        match mv {
            Move::Up => self.move_up(1),
            Move::Down => self.move_down(1),
            Move::Left => self.move_left(),
            Move::Right => self.move_right(),
            Move::PageDown => self.move_down(height.saturating_sub(1)),
            Move::PageUp => self.move_up(height.saturating_sub(1)),
            Move::Home => self.move_start_of_line(),
            Move::End => self.move_end_of_line(),
        }
        self.scroll_text_location_into_view();
    }
}

/// The full effect of one move command on the viewport: the cursor lands
/// where the move sends it, both scroll axes follow it into view, and the
/// viewport wants a repaint exactly when either axis adjusted (or it
/// already did).
pub open spec fn view_moved(pre: View, post: View, mv: Move) -> bool {
    let (li2, g2) = loc_move(
        pre.lines(),
        pre.size,
        mv,
        pre.text_location.line_index as int,
        pre.text_location.grapheme_index as int,
    );
    let p_col = col_of(post.lines(), li2, g2);
    &&& post.text_location.line_index == li2
    &&& post.text_location.grapheme_index == g2
    &&& post.buf == pre.buf
    &&& post.size == pre.size
    &&& post.scroll_offset.col == scroll_to(
        pre.scroll_offset.col as int,
        pre.size.width as int,
        p_col as int,
    )
    &&& post.scroll_offset.row == scroll_to(
        pre.scroll_offset.row as int,
        pre.size.height as int,
        li2,
    )
    &&& post.need_redraw == (pre.need_redraw || scroll_changed(
        pre.scroll_offset.col as int,
        pre.size.width as int,
        p_col as int,
    ) || scroll_changed(pre.scroll_offset.row as int, pre.size.height as int, li2))
}

/// The full effect of a resize: the new size is taken, the cursor is
/// scrolled back into view against it, and the viewport wants a repaint.
pub open spec fn view_resized(pre: View, post: View, size: Size) -> bool {
    let p_col = col_of(
        pre.lines(),
        pre.text_location.line_index as int,
        pre.text_location.grapheme_index as int,
    );
    let p_row = pre.text_location.line_index as int;
    &&& post.size == size
    &&& post.buf == pre.buf
    &&& post.text_location == pre.text_location
    &&& post.need_redraw
    &&& post.scroll_offset.col == scroll_to(
        pre.scroll_offset.col as int,
        size.width as int,
        p_col as int,
    )
    &&& post.scroll_offset.row == scroll_to(pre.scroll_offset.row as int, size.height as int, p_row)
}

/// The cursor as a pair of line and grapheme index.
pub open spec fn loc_pair(l: Location) -> (int, int) {
    (l.line_index as int, l.grapheme_index as int)
}

/// The full effect of inserting one character at the cursor: the buffer
/// mutates as the document insert does, the cursor steps right exactly when
/// the line gained a cluster, and the viewport wants a repaint.
pub open spec fn inserted_char(pre: View, post: View, c: char) -> bool {
    let lines0 = pre.lines();
    let li = pre.text_location.line_index as int;
    let g = pre.text_location.grapheme_index as int;
    let lines1 = crate::buffer::lines_after_insert_char(lines0, c, li, g);
    &&& post.lines() == lines1
    &&& post.buf.is_modify == (pre.buf.is_modify || li <= lines0.len())
    &&& post.buf.file_info == pre.buf.file_info
    &&& (if line_len_at(lines1, li) > line_len_at(lines0, li) {
        loc_pair(post.text_location) == loc_right(lines1, li, g)
    } else {
        post.text_location == pre.text_location
    })
    &&& post.need_redraw
    &&& post.size == pre.size
    &&& post.scroll_offset == pre.scroll_offset
}

/// The full effect of deleting forward at the cursor: a no-op at the very
/// start of the document; otherwise the buffer mutates as the document
/// delete does and the viewport wants a repaint.
pub open spec fn deleted_backward(pre: View, post: View) -> bool {
    let li = pre.text_location.line_index as int;
    let g = pre.text_location.grapheme_index as int;
    if li == 0 && g == 0 {
        post == pre
    } else {
        &&& post.lines() == crate::buffer::lines_after_delete(pre.lines(), li, g)
        &&& post.buf.is_modify == (pre.buf.is_modify || crate::buffer::delete_modifies(
            pre.lines(),
            li,
            g,
        ))
        &&& post.buf.file_info == pre.buf.file_info
        &&& post.text_location == pre.text_location
        &&& post.need_redraw
        &&& post.size == pre.size
        &&& post.scroll_offset == pre.scroll_offset
    }
}

/// The full effect of a backspace: the cursor moves left one cluster (to
/// the end of the previous line at a line's start), then a forward delete
/// happens there.
pub open spec fn backspaced(pre: View, post: View) -> bool {
    let (li1, g1) = loc_left(
        pre.lines(),
        pre.text_location.line_index as int,
        pre.text_location.grapheme_index as int,
    );
    let mid = View {
        text_location: Location { grapheme_index: g1 as usize, line_index: li1 as usize },
        ..pre
    };
    deleted_backward(mid, post)
}

/// The full effect of inserting a line break at the cursor: the buffer
/// mutates as the document break insert does, the cursor moves right in the
/// new document (to the start of the created line), the viewport scrolls
/// the cursor into view and wants a repaint.
pub open spec fn inserted_newline(pre: View, post: View) -> bool {
    let lines0 = pre.lines();
    let li = pre.text_location.line_index as int;
    let g = pre.text_location.grapheme_index as int;
    let lines1 = crate::buffer::lines_after_insert_new_line(lines0, li, g);
    let (li2, g2) = loc_move(lines1, pre.size, Move::Right, li, g);
    let p_col = col_of(lines1, li2, g2);
    &&& post.lines() == lines1
    &&& post.buf.is_modify == (pre.buf.is_modify || li <= lines0.len())
    &&& post.buf.file_info == pre.buf.file_info
    &&& loc_pair(post.text_location) == (li2, g2)
    &&& post.size == pre.size
    &&& post.scroll_offset.col == scroll_to(
        pre.scroll_offset.col as int,
        pre.size.width as int,
        p_col as int,
    )
    &&& post.scroll_offset.row == scroll_to(
        pre.scroll_offset.row as int,
        pre.size.height as int,
        li2,
    )
    &&& post.need_redraw
}

/// The full effect of one edit command on the viewport.
pub open spec fn edit_applied(pre: View, post: View, edit: Edit) -> bool {
    match edit {
        Edit::Delete => deleted_backward(pre, post),
        Edit::Insert(c) => inserted_char(pre, post, c),
        Edit::InsertNewline => inserted_newline(pre, post),
        Edit::DeleteBackward => backspaced(pre, post),
    }
}

impl View {
    /// Inserts one character at the cursor, advancing the cursor by one
    /// cluster exactly when the line gained one.
    pub fn insert_char(&mut self, s: char)
        ensures
            inserted_char(*old(self), *final(self), s),
    {
        let li = self.text_location.line_index;
        let old_width = if li < self.buf.lines.len() {
            self.buf.lines[li].len()
        } else {
            0
        };
        self.buf.insert_char(s, self.text_location);
        let new_width = if li < self.buf.lines.len() {
            self.buf.lines[li].len()
        } else {
            0
        };
        let grapheme_delta = new_width.saturating_sub(old_width);
        if grapheme_delta > 0 {
            self.move_right();
        }
        self.mark_redraw(true);
    }

    /// Deletes forward at the cursor; at the very start of the document
    /// nothing happens, not even a repaint request.
    pub fn delete_backward(&mut self)
        ensures
            deleted_backward(*old(self), *final(self)),
    {
        if self.text_location.line_index == 0 && self.text_location.grapheme_index == 0 {
            return ;
        }
        self.buf.delete(self.text_location);
        self.mark_redraw(true);
    }

    /// Deletes backward: moves the cursor left one cluster, then deletes
    /// forward there. At a line's start this joins the line with the
    /// previous one; that two-step shape is deliberate, since the document
    /// delete itself refuses the document start.
    pub fn backspace(&mut self)
        ensures
            backspaced(*old(self), *final(self)),
    {
        self.move_left();
        self.delete_backward();
    }

    /// Inserts a line break at the cursor and moves the cursor to the start
    /// of the newly created line.
    pub fn insert_new_line(&mut self)
        ensures
            inserted_newline(*old(self), *final(self)),
    {
        self.buf.insert_new_line(self.text_location);
        self.move_text_location(Move::Right);
        self.mark_redraw(true);
    }

    /// Dispatches one edit command.
    pub fn handler_edit(&mut self, edit: Edit)
        ensures
            edit_applied(*old(self), *final(self), edit),
    {
        match edit {
            Edit::Delete => self.delete_backward(),
            Edit::Insert(c) => self.insert_char(c),
            Edit::InsertNewline => self.insert_new_line(),
            Edit::DeleteBackward => self.backspace(),
        }
    }

    /// A read-only snapshot of the document's state for the status bar.
    pub fn get_status(&self) -> (status: DocumentStatus)
        ensures
            status.current_line == self.text_location.line_index,
            status.total_line == self.lines().len(),
            self.buf.file_info.path is Some ==> status.filename@ == basename(
                self.buf.file_info.path->0@,
            ),
            self.buf.file_info.path is None ==> status.filename@ == "[No Name]"@,
            status.is_modified == self.buf.is_modify,
    {
        DocumentStatus {
            current_line: self.text_location.line_index,
            total_line: self.buf.height(),
            filename: self.buf.file_info.display_name(),
            is_modified: self.buf.is_modify,
        }
    }

    /// Records the outcome of writing the document to its bound path.
    pub fn save(&mut self, wrote: bool)
        ensures
            final(self).lines() == old(self).lines(),
            final(self).buf.file_info == old(self).buf.file_info,
            final(self).buf.is_modify == (old(self).buf.is_modify && !wrote),
            final(self).size == old(self).size,
            final(self).text_location == old(self).text_location,
            final(self).scroll_offset == old(self).scroll_offset,
            final(self).need_redraw == old(self).need_redraw,
    {
        self.buf.save(wrote);
    }

    /// Records the outcome of writing the document to `filename`.
    pub fn save_as(&mut self, filename: &str, wrote: bool)
        ensures
            final(self).lines() == old(self).lines(),
            wrote ==> final(self).buf.file_info.path is Some && final(self).buf.file_info.path->0@ == filename@ && !final(self).buf.is_modify,
            !wrote ==> final(self).buf.file_info == old(self).buf.file_info && final(self).buf.is_modify == old(self).buf.is_modify,
            final(self).size == old(self).size,
            final(self).text_location == old(self).text_location,
            final(self).scroll_offset == old(self).scroll_offset,
            final(self).need_redraw == old(self).need_redraw,
    {
        self.buf.save_as(filename, wrote);
    }

    /// Replaces the viewport size and scrolls the cursor back into view.
    pub fn set_size(&mut self, size: Size)
        ensures
            final(self).size == size,
            final(self).buf == old(self).buf,
            final(self).text_location == old(self).text_location,
            ({
                let p_col = col_of(
                    old(self).lines(),
                    old(self).text_location.line_index as int,
                    old(self).text_location.grapheme_index as int,
                );
                let p_row = old(self).text_location.line_index as int;
                final(self).scroll_offset.col == scroll_to(
                    old(self).scroll_offset.col as int,
                    size.width as int,
                    p_col as int,
                ) && final(self).scroll_offset.row == scroll_to(
                    old(self).scroll_offset.row as int,
                    size.height as int,
                    p_row,
                ) && final(self).need_redraw == (old(self).need_redraw || scroll_changed(
                    old(self).scroll_offset.col as int,
                    size.width as int,
                    p_col as int,
                ) || scroll_changed(
                    old(self).scroll_offset.row as int,
                    size.height as int,
                    p_row,
                ))
            }),
    {
        self.size = size;
        self.scroll_text_location_into_view();
    }

    /// Replaces the viewport size, scrolls the cursor back into view, and
    /// forces a full repaint.
    pub fn resize(&mut self, size: Size)
        ensures
            view_resized(*old(self), *final(self), size),
    {
        self.mark_redraw(true);
        self.set_size(size);
    }
}

/// The banner shown on an empty document, sized to the viewport width: a
/// tilde, then the welcome text centered in the remaining columns; a single
/// tilde when the text does not fit, nothing at width zero.
pub open spec fn welcome_message_spec(width: int) -> Seq<char> {
    let msg = "hecto editor -- version 0.1.0"@;
    if width == 0 {
        Seq::empty()
    } else if width < msg.len() {
        seq!['~']
    } else {
        let rem = width - 1;
        if rem <= msg.len() {
            seq!['~'] + msg
        } else {
            let pad = rem - msg.len();
            seq!['~'] + spaces(pad / 2) + msg + spaces(pad - pad / 2)
        }
    }
}

/// What one visible row shows: the line scrolled under it drawn through the
/// horizontal window; on an empty document the welcome banner a third of
/// the way down; a tilde on any other row past the document's end.
pub open spec fn row_text_spec(
    lines: Seq<Seq<FragModel>>,
    scroll: Position,
    size: Size,
    r: int,
) -> Seq<char> {
    let line_idx = sat_add_idx(scroll.row as int, r);
    if 0 <= line_idx < lines.len() {
        render_range(
            lines[line_idx],
            0,
            scroll.col as nat,
            sat_add_idx(scroll.col as int, size.width as int) as nat,
        )
    } else if lines.len() == 0 && r == size.height as int / 3 {
        welcome_message_spec(size.width as int)
    } else {
        seq!['~']
    }
}

impl View {
    /// Builds the empty-document banner for the given width.
    pub fn buid_welcome_message(width: usize) -> (s: String)
        ensures
            s@ == welcome_message_spec(width as int),
    {
        proof {
            reveal_strlit("hecto editor -- version 0.1.0");
            reveal_strlit("~");
        }
        if width == 0 {
            return String::new();
        }
        let msg = "hecto editor -- version 0.1.0";
        let len = msg.unicode_len();
        if width < len {
            let t = String::from_str("~");
            proof {
                assert(t@ =~= seq!['~']);
            }
            return t;
        }
        let mut s = String::from_str("~");
        proof {
            assert(s@ =~= seq!['~']);
        }
        let rem = width - 1;
        if rem <= len {
            s.append(msg);
            return s;
        }
        let pad = rem - len;
        let left = pad / 2;
        crate::strutil::push_spaces(&mut s, left);
        s.append(msg);
        let right = pad - left;
        crate::strutil::push_spaces(&mut s, right);
        proof {
            assert(s@ =~= welcome_message_spec(width as int));
        }
        s
    }

    /// The rows to paint, top to bottom: one per visible viewport row.
    pub fn draw(&self) -> (rows: Vec<String>)
        ensures
            rows@.len() == self.size.height,
            forall|r: int|
                0 <= r < rows@.len() ==> rows@[r]@ == row_text_spec(
                    self.lines(),
                    self.scroll_offset,
                    self.size,
                    r,
                ),
    {
        let width = self.size.width;
        let height = self.size.height;
        let top_third = height / 3;
        let scroll_top = self.scroll_offset.row;
        let mut rows: Vec<String> = Vec::new();
        proof {
            reveal_strlit("~");
        }
        for r in 0..height
            invariant
                width == self.size.width,
                height == self.size.height,
                top_third == self.size.height / 3,
                scroll_top == self.scroll_offset.row,
                rows@.len() == r,
                forall|k: int|
                    0 <= k < r ==> rows@[k]@ == row_text_spec(
                        self.lines(),
                        self.scroll_offset,
                        self.size,
                        k,
                    ),
        {
            let line_idx = scroll_top.saturating_add(r);
            let row: String = if line_idx < self.buf.lines.len() {
                let left = self.scroll_offset.col;
                let right = self.scroll_offset.col.saturating_add(width);
                self.buf.lines[line_idx].get(left..right)
            } else if r == top_third && self.buf.is_empty() {
                Self::buid_welcome_message(width)
            } else {
                let t = String::from_str("~");
                proof {
                    reveal_strlit("~");
                    assert(t@ =~= seq!['~']);
                }
                t
            };
            rows.push(row);
        }
        rows
    }

    /// Repaints when the viewport is stale: hands back the rows to paint
    /// and clears the redraw flag; otherwise nothing.
    pub fn render(&mut self) -> (rows: Option<Vec<String>>)
        ensures
            !old(self).need_redraw ==> rows is None && *final(self) == *old(self),
            old(self).need_redraw ==> {
                &&& rows is Some
                &&& rows->0@.len() == old(self).size.height
                &&& (forall|r: int|
                    0 <= r < rows->0@.len() ==> rows->0@[r]@ == row_text_spec(
                        old(self).lines(),
                        old(self).scroll_offset,
                        old(self).size,
                        r,
                    ))
                &&& (*final(self) == View { need_redraw: false, ..*old(self) })
            },
    {
        if !self.needs_redraw() {
            return None;
        }
        let rows = self.draw();
        self.mark_redraw(false);
        Some(rows)
    }
}

/// Moving down from the virtual line past the document's end leaves the
/// line index there (the move saturates) and clamps the grapheme index to
/// that line's length, zero.
pub proof fn lemma_down_from_end_saturates(
    lines: Seq<Seq<FragModel>>,
    size: Size,
    g: int,
)
    requires
        0 <= g,
        lines.len() <= usize::MAX as nat,
    ensures
        loc_move(lines, size, Move::Down, lines.len() as int, g) == (lines.len() as int, 0int),
{
}

/// After any move, a viewport with positive extent shows the cursor: its
/// screen position lies inside the scrolled window on both axes.
pub proof fn lemma_cursor_visible_after_move(pre: View, post: View, mv: Move)
    requires
        view_moved(pre, post, mv),
        post.size.width >= 1,
        post.size.height >= 1,
    ensures
        post.scroll_offset.col <= col_of(
            post.lines(),
            post.text_location.line_index as int,
            post.text_location.grapheme_index as int,
        ) < post.scroll_offset.col + post.size.width,
        post.scroll_offset.row <= post.text_location.line_index < post.scroll_offset.row
            + post.size.height,
{
    let (li2, g2) = loc_move(
        pre.lines(),
        pre.size,
        mv,
        pre.text_location.line_index as int,
        pre.text_location.grapheme_index as int,
    );
    let p_col = col_of(post.lines(), li2, g2);
    lemma_frag_pos_bounded(post.lines(), li2, g2);
    lemma_scroll_to_visible(pre.scroll_offset.col as int, pre.size.width as int, p_col as int);
    lemma_scroll_to_visible(pre.scroll_offset.row as int, pre.size.height as int, li2);
}

/// After a resize to a positive extent, the viewport shows the cursor.
pub proof fn lemma_cursor_visible_after_resize(pre: View, post: View, size: Size)
    requires
        view_resized(pre, post, size),
        size.width >= 1,
        size.height >= 1,
    ensures
        post.scroll_offset.col <= col_of(
            post.lines(),
            post.text_location.line_index as int,
            post.text_location.grapheme_index as int,
        ) < post.scroll_offset.col + size.width,
        post.scroll_offset.row <= post.text_location.line_index < post.scroll_offset.row
            + size.height,
{
    let li = pre.text_location.line_index as int;
    let g = pre.text_location.grapheme_index as int;
    let p_col = col_of(pre.lines(), li, g);
    lemma_frag_pos_bounded(pre.lines(), li, g);
    lemma_scroll_to_visible(pre.scroll_offset.col as int, size.width as int, p_col as int);
    lemma_scroll_to_visible(pre.scroll_offset.row as int, size.height as int, li);
}

/// A cursor's screen column never exceeds the largest machine word: the
/// column sums saturate there.
proof fn lemma_frag_pos_bounded(lines: Seq<Seq<crate::line::FragModel>>, li: int, g: int)
    ensures
        col_of(lines, li, g) <= usize::MAX as nat,
{
    if 0 <= li < lines.len() {
        lemma_frag_pos_le_max(lines[li], clamp_grapheme(lines, li, g));
    }
}

proof fn lemma_frag_pos_le_max(frags: Seq<crate::line::FragModel>, i: int)
    ensures
        frag_pos(frags, i) <= usize::MAX as nat,
    decreases i,
{
    if i > 0 {
        lemma_frag_pos_le_max(frags, i - 1);
    }
}

impl crate::uicomponent::UIComponent for View {
    fn set_size(&mut self, size: Size) {
        View::set_size(self, size);
    }

    fn mark_redraw(&mut self, redraw: bool) {
        View::mark_redraw(self, redraw);
    }

    fn needs_redraw(&self) -> bool {
        View::needs_redraw(self)
    }

    fn resize(&mut self, size: Size) {
        View::resize(self, size);
    }

    fn draw(&mut self) -> (rows: Vec<String>) {
        View::draw(self)
    }
}

} // verus!
