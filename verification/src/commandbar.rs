//! A one-row prompt that collects a value, used to ask for a file name.

use vstd::prelude::*;
use vstd::string::StringExecFns;
use vstd::string::StrSliceExecFns;
use crate::command::Edit;
use crate::line::{frag_pos, fragments_of, render_range, text_of, FragModel, Line};
use crate::size::Size;
use crate::uicomponent::UIComponent;

verus! {

/// The row a command bar shows: the prompt, then the value drawn through a
/// window holding its rightmost columns; an empty row when even that does
/// not fit the bar's width.
pub open spec fn commandbar_row(prompt: Seq<char>, value: Seq<FragModel>, size: Size) -> Seq<
    char,
> {
    let val_width = if size.width as int >= prompt.len() {
        size.width as int - prompt.len()
    } else {
        0
    };
    let val_end = frag_pos(value, value.len() as int) as int;
    let val_start = if val_end >= val_width {
        val_end - val_width
    } else {
        0
    };
    let message = prompt + render_range(value, 0, val_start as nat, val_end as nat);
    if message.len() <= size.width {
        message
    } else {
        Seq::empty()
    }
}

pub struct CommandBar {
    pub size: Size,
    pub prompt: String,
    pub need_redraw: bool,
    pub value: Line,
}

impl Default for CommandBar {
    /// An empty bar with no prompt.
    fn default() -> (c: CommandBar)
        ensures
            c.size.width == 0 && c.size.height == 0,
            c.prompt@ == Seq::<char>::empty(),
            !c.need_redraw,
            c.value@ == Seq::<FragModel>::empty(),
    {
        CommandBar {
            size: Size { width: 0, height: 0 },
            prompt: String::new(),
            need_redraw: false,
            value: Line::default(),
        }
    }
}

/// The full effect of one edit on the bar's collected value: a character
/// is appended, a backspace removes the last cluster, anything else is
/// ignored; nothing but the value changes.
pub open spec fn command_edit_rel(pre: CommandBar, post: CommandBar, edit: Edit) -> bool {
    &&& (edit matches Edit::Insert(c) ==> post.value@ == fragments_of(
        text_of(pre.value@) + seq![c],
    ))
    &&& (edit is DeleteBackward && pre.value@.len() > 0 ==> post.value@ == fragments_of(
        Line::text_without(pre.value@, pre.value@.len() - 1),
    ))
    &&& (edit is DeleteBackward && pre.value@.len() == 0 ==> post.value@ == pre.value@)
    &&& (edit is Delete || edit is InsertNewline ==> post == pre)
    &&& post.size == pre.size
    &&& post.prompt == pre.prompt
    &&& post.need_redraw == pre.need_redraw
}

impl CommandBar {
    /// Applies one edit to the collected value.
    pub fn handle_command_edit(&mut self, edit: Edit)
        ensures
            command_edit_rel(*old(self), *final(self), edit),
    {
        match edit {
            Edit::Insert(c) => self.value.append_char(c),
            Edit::Delete | Edit::InsertNewline => {},
            Edit::DeleteBackward => self.value.delete_last(),
        }
    }

    /// The collected value's text.
    pub fn value(&self) -> (s: String)
        ensures
            s@ == text_of(self.value@),
    {
        self.value.to_string()
    }

    /// Replaces the prompt.
    pub fn set_prompt(&mut self, prompt: String)
        ensures
            final(self).prompt == prompt,
            final(self).size == old(self).size,
            final(self).need_redraw == old(self).need_redraw,
            final(self).value == old(self).value,
    {
        self.prompt = prompt;
    }

    /// The single row the bar shows: the prompt, then the tail of the
    /// collected value that fits the remaining width.
    pub fn draw_row(&self) -> (row: String)
        ensures
            row@ == commandbar_row(self.prompt@, self.value@, self.size),
    {
        let val_width = self.size.width.saturating_sub(self.prompt.as_str().unicode_len());
        let val_end = self.value.width();
        let val_start = val_end.saturating_sub(val_width);
        let mut message = String::new();
        message.append(self.prompt.as_str());
        let tail = self.value.get(val_start..val_end);
        message.append(tail.as_str());
        if message.as_str().unicode_len() <= self.size.width {
            message
        } else {
            String::new()
        }
    }

    /// The column the caret sits in: after the prompt and the collected
    /// value, capped at the bar's width.
    pub fn caret_position_col(&self) -> (col: usize)
        ensures
            col as int == {
                let max_width = if self.prompt@.len() + self.value@.len() > usize::MAX as nat {
                    usize::MAX as int
                } else {
                    self.prompt@.len() + self.value@.len() as int
                };
                if max_width <= self.size.width as int {
                    max_width
                } else {
                    self.size.width as int
                }
            },
    {
        let max_width = self.prompt.as_str().unicode_len().saturating_add(self.value.len());
        if max_width < self.size.width {
            max_width
        } else {
            self.size.width
        }
    }
}

impl CommandBar {
    /// Sets or clears the dirty flag.
    pub fn mark_redraw(&mut self, redraw: bool)
        ensures
            (*final(self) == CommandBar { need_redraw: redraw, ..*old(self) }),
    {
        self.need_redraw = redraw;
    }

    /// Replaces the bar's size and forces a repaint.
    pub fn resize(&mut self, size: Size)
        ensures
            (*final(self) == CommandBar { need_redraw: true, size: size, ..*old(self) }),
    {
        self.need_redraw = true;
        self.size = size;
    }
}

impl UIComponent for CommandBar {
    fn mark_redraw(&mut self, redraw: bool) {
        self.need_redraw = redraw;
    }

    fn set_size(&mut self, size: Size) {
        self.size = size;
    }

    fn needs_redraw(&self) -> bool {
        self.need_redraw
    }

    fn resize(&mut self, size: Size) {
        self.need_redraw = true;
        self.size = size;
    }

    fn draw(&mut self) -> (rows: Vec<String>) {
        let row = self.draw_row();
        let mut rows: Vec<String> = Vec::new();
        rows.push(row);
        rows
    }
}

} // verus!
