//! A one-row bar showing the document's name, line count, modified marker,
//! and cursor position.

use vstd::prelude::*;
use vstd::string::StringExecFns;
use vstd::string::StrSliceExecFns;
use crate::documentstatus::DocumentStatus;
use crate::size::Size;
use crate::strutil::{dec_digits, push_spaces, spaces, usize_to_string};
use crate::uicomponent::UIComponent;

verus! {

/// `t` padded on the left with spaces up to width `w`; unpadded when it is
/// already that wide.
pub open spec fn pad_left(t: Seq<char>, w: int) -> Seq<char> {
    if t.len() >= w {
        t
    } else {
        spaces(w - t.len()) + t
    }
}

/// The row a status bar shows for `status` at `width`: the file name, the
/// modified marker and the line count on the left, the cursor position
/// right-aligned; an empty row when all of it does not fit.
pub open spec fn statusbar_row(status: DocumentStatus, width: int) -> Seq<char> {
    let beginning = status.filename@ + seq![' '] + (if status.is_modified {
        "(modified)"@
    } else {
        Seq::<char>::empty()
    }) + seq![' '] + dec_digits(status.total_line as nat) + " lines"@;
    let indicator = dec_digits(
        if status.current_line as nat + 1 <= usize::MAX as nat {
            status.current_line as nat + 1
        } else {
            usize::MAX as nat
        },
    ) + "/"@ + dec_digits(status.total_line as nat);
    let remainder = if width >= beginning.len() {
        width - beginning.len()
    } else {
        0
    };
    let row = beginning + pad_left(indicator, remainder);
    if row.len() <= width {
        row
    } else {
        Seq::empty()
    }
}

pub struct Statusbar {
    pub current_status: DocumentStatus,
    pub need_redraw: bool,
    pub margin_bottom: usize,
    pub size: Size,
    pub is_visible: bool,
}

impl Default for Statusbar {
    /// A bar for an empty document, not yet placed.
    fn default() -> (b: Statusbar)
        ensures
            b.current_status.current_line == 0,
            b.current_status.total_line == 0,
            b.current_status.filename@ == Seq::<char>::empty(),
            !b.current_status.is_modified,
            !b.need_redraw,
            b.margin_bottom == 0,
            b.size.width == 0 && b.size.height == 0,
            !b.is_visible,
    {
        Statusbar {
            current_status: DocumentStatus::default(),
            need_redraw: false,
            margin_bottom: 0,
            size: Size { width: 0, height: 0 },
            is_visible: false,
        }
    }
}

impl Statusbar {
    /// Takes a fresh snapshot; a snapshot equal to the current one changes
    /// nothing.
    pub fn update_status(&mut self, status: DocumentStatus)
        ensures
            ({
                let same = old(self).current_status.current_line == status.current_line && old(self).current_status.total_line == status.total_line && old(self).current_status.filename@ == status.filename@ && old(self).current_status.is_modified == status.is_modified;
                if same {
                    *final(self) == *old(self)
                } else {
                    final(self).current_status == status && final(self).need_redraw && final(self).margin_bottom == old(self).margin_bottom && final(self).size == old(self).size && final(self).is_visible == old(self).is_visible
                }
            }),
    {
        if !(self.current_status == status) {
            self.current_status = status;
            self.need_redraw = true;
        }
    }

    /// The single row the bar shows for its current snapshot.
    pub fn draw_row(&self) -> (row: String)
        ensures
            row@ == statusbar_row(self.current_status, self.size.width as int),
    {
        let mut beginning = self.current_status.filename.clone();
        beginning.append(" ");
        let modified_indicator = self.current_status.modified_indicator_to_string();
        beginning.append(modified_indicator.as_str());
        beginning.append(" ");
        let line_count = self.current_status.line_count_to_string();
        beginning.append(line_count.as_str());
        let indicator = self.current_status.position_indicator_to_string();
        let beginning_len = beginning.as_str().unicode_len();
        let remainder = self.size.width.saturating_sub(beginning_len);
        let indicator_len = indicator.as_str().unicode_len();
        let mut row = beginning;
        if indicator_len < remainder {
            push_spaces(&mut row, remainder - indicator_len);
        }
        row.append(indicator.as_str());
        proof {
            reveal_strlit(" ");
            assert(" "@ =~= seq![' ']);
        }
        if row.as_str().unicode_len() <= self.size.width {
            proof {
                assert(row@ =~= statusbar_row(self.current_status, self.size.width as int));
            }
            row
        } else {
            String::new()
        }
    }
}

/// The effect of placing the bar inside a screen of `size`: it keeps the
/// screen's width, its own height becomes the row it sits on (above the
/// reserved bottom margin), and it is visible only when a row is left.
pub open spec fn statusbar_placed(pre: Statusbar, post: Statusbar, size: Size) -> bool {
    &&& post.current_status == pre.current_status
    &&& post.margin_bottom == pre.margin_bottom
    &&& post.size.width == size.width
    &&& (if size.height > pre.margin_bottom {
        post.size.height == size.height - pre.margin_bottom - 1 && post.is_visible
    } else {
        post.size.height == 0 && !post.is_visible
    })
}

impl Statusbar {
    /// Sets or clears the dirty flag.
    pub fn mark_redraw(&mut self, redraw: bool)
        ensures
            (*final(self) == Statusbar { need_redraw: redraw, ..*old(self) }),
    {
        self.need_redraw = redraw;
    }

    /// Places the bar inside a screen of the given size.
    pub fn set_size(&mut self, size: Size)
        ensures
            statusbar_placed(*old(self), *final(self), size),
            final(self).need_redraw == old(self).need_redraw,
    {
        self.size.width = size.width;
        let mut position_y: usize = 0;
        let mut is_visible = false;
        if size.height > self.margin_bottom {
            position_y = size.height - self.margin_bottom - 1;
            is_visible = true;
        }
        self.size.height = position_y;
        self.is_visible = is_visible;
    }

    /// Places the bar and forces a repaint.
    pub fn resize(&mut self, size: Size)
        ensures
            statusbar_placed(*old(self), *final(self), size),
            final(self).need_redraw,
    {
        self.mark_redraw(true);
        self.set_size(size);
    }
}

impl UIComponent for Statusbar {
    fn mark_redraw(&mut self, redraw: bool) {
        self.need_redraw = redraw;
    }

    fn needs_redraw(&self) -> bool {
        self.need_redraw
    }

    fn set_size(&mut self, size: Size) {
        Statusbar::set_size(self, size);
    }

    fn resize(&mut self, size: Size) {
        Statusbar::resize(self, size);
    }

    fn draw(&mut self) -> (rows: Vec<String>) {
        let row = self.draw_row();
        let mut rows: Vec<String> = Vec::new();
        rows.push(row);
        rows
    }
}

} // verus!
