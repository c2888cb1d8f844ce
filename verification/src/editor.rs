//! The editor's command state machine: it owns the viewport and the bars,
//! executes one abstract command at a time, and hands any file write back
//! to the caller as an action. The clock and all I/O are injected: callers
//! pass the time in milliseconds and report each write's outcome.

use vstd::prelude::*;
use vstd::view::View as _;
use vstd::string::StringExecFns;
use crate::command::{Command, Edit, System};
use crate::commandbar::{command_edit_rel, CommandBar};
use crate::fileinfo::basename;
use crate::messagebar::MessageBar;
use crate::size::Size;
use crate::statusbar::{statusbar_placed, Statusbar};
use crate::strutil::dec_digits;
use crate::view::{edit_applied, view_moved, view_resized, View};

verus! {

/// How many consecutive quit commands an unsaved document demands.
pub const QUIT_TIMES: u8 = 3;

/// What the caller must do after a command: nothing, or write the document
/// out (to the given name, or to its bound path when none is given) and
/// report the outcome through `save`.
pub enum EditorAction {
    Nothing,
    Save(Option<String>),
}

pub struct Editor {
    pub quit: bool,
    pub view: View,
    pub message_bar: MessageBar,
    pub command_bar: Option<CommandBar>,
    pub terminal_size: Size,
    pub status_bar: Statusbar,
    pub title: String,
    pub quit_times: u8,
}

impl Default for Editor {
    /// A fresh editor around an empty document.
    fn default() -> (e: Editor)
        ensures
            !e.quit,
            e.view.lines() == Seq::<Seq<crate::line::FragModel>>::empty(),
            e.view.buf.file_info.path is None,
            !e.view.buf.is_modify,
            e.view.need_redraw,
            e.command_bar is None,
            e.terminal_size.width == 0 && e.terminal_size.height == 0,
            e.title@ == Seq::<char>::empty(),
            e.quit_times == 0,
            e.message_bar.message.content@ == Seq::<char>::empty(),
    {
        Editor {
            quit: false,
            view: View::default(),
            message_bar: MessageBar::default(),
            command_bar: None,
            terminal_size: Size { width: 0, height: 0 },
            status_bar: Statusbar::default(),
            title: String::new(),
            quit_times: 0,
        }
    }
}

/// A message bar holding `text`, freshly posted at `now_ms`.
pub open spec fn msg_posted(bar: MessageBar, text: Seq<char>, now_ms: u64) -> bool {
    &&& bar.message.content@ == text
    &&& bar.message.time == now_ms
    &&& bar.need_redraw
    &&& !bar.cleared_after_expiry
}

/// The warning shown while unsaved changes stand between the user and
/// quitting, naming how many more quit commands it takes.
pub open spec fn quit_warning_text(quit_times: u8) -> Seq<char> {
    "WARNING! File has unsaved changes. Press Ctrl-Q "@ + dec_digits(
        if QUIT_TIMES as int - quit_times as int - 1 >= 0 {
            (QUIT_TIMES - quit_times - 1) as nat
        } else {
            0
        },
    ) + " more times to quit."@
}

/// The effect of a quit command: an unmodified document, or the last
/// demanded repetition, quits; otherwise the warning is posted and the
/// repetition counted.
pub open spec fn quit_handled(pre: Editor, post: Editor, now_ms: u64) -> bool {
    if !pre.view.buf.is_modify || pre.quit_times as int + 1 == QUIT_TIMES as int {
        post == Editor { quit: true, ..pre }
    } else {
        &&& post.quit == pre.quit
        &&& post.view == pre.view
        &&& post.command_bar == pre.command_bar
        &&& post.terminal_size == pre.terminal_size
        &&& post.status_bar == pre.status_bar
        &&& post.title == pre.title
        &&& post.quit_times as int == (if pre.quit_times as int + 1 <= u8::MAX as int {
            pre.quit_times as int + 1
        } else {
            u8::MAX as int
        })
        &&& msg_posted(post.message_bar, quit_warning_text(pre.quit_times), now_ms)
    }
}

/// The effect every command other than quit and resize starts with: an
/// interrupted quit sequence is forgotten and its warning cleared.
pub open spec fn quit_times_reset(pre: Editor, post_quit_times: u8, post_bar: MessageBar, now_ms: u64) -> bool {
    if pre.quit_times > 0 {
        post_quit_times == 0 && msg_posted(post_bar, Seq::<char>::empty(), now_ms)
    } else {
        post_quit_times == pre.quit_times && post_bar == pre.message_bar
    }
}

/// Everything a command bar opened by a save prompt holds: the prompt text,
/// one row of the screen's width, an empty value, and a pending repaint.
pub open spec fn prompt_shown(bar: CommandBar, width: usize) -> bool {
    &&& bar.prompt@ == "Save as: "@
    &&& bar.size.width == width && bar.size.height == 1
    &&& bar.need_redraw
    &&& bar.value@ == Seq::<crate::line::FragModel>::empty()
}

impl Editor {
    /// Closes the prompt and asks the message bar to repaint over it.
    pub fn dimiss_prompt(&mut self)
        ensures
            final(self).command_bar is None,
            (final(self).message_bar == MessageBar {
                need_redraw: true,
                ..old(self).message_bar
            }),
            final(self).quit == old(self).quit,
            final(self).view == old(self).view,
            final(self).terminal_size == old(self).terminal_size,
            final(self).status_bar == old(self).status_bar,
            final(self).title == old(self).title,
            final(self).quit_times == old(self).quit_times,
    {
        self.command_bar = None;
        self.message_bar.mark_redraw(true);
    }

    /// Opens the save prompt, sized to one screen-wide row.
    pub fn show_prompt(&mut self)
        ensures
            final(self).command_bar is Some && prompt_shown(
                final(self).command_bar->0,
                old(self).terminal_size.width,
            ),
            final(self).quit == old(self).quit,
            final(self).view == old(self).view,
            final(self).message_bar == old(self).message_bar,
            final(self).terminal_size == old(self).terminal_size,
            final(self).status_bar == old(self).status_bar,
            final(self).title == old(self).title,
            final(self).quit_times == old(self).quit_times,
    {
        let mut command_bar = CommandBar::default();
        command_bar.set_prompt(String::from_str("Save as: "));
        command_bar.resize(Size { width: self.terminal_size.width, height: 1 });
        command_bar.mark_redraw(true);
        self.command_bar = Some(command_bar);
    }

    /// Handles a quit command.
    pub fn handler_quit(&mut self, now_ms: u64)
        ensures
            quit_handled(*old(self), *final(self), now_ms),
    {
        let status = self.view.get_status();
        let is_modified = status.is_modified;
        if !is_modified || self.quit_times.saturating_add(1) == QUIT_TIMES {
            self.quit = true;
        } else {
            let mut msg = String::from_str("WARNING! File has unsaved changes. Press Ctrl-Q ");
            let remaining = QUIT_TIMES.saturating_sub(self.quit_times).saturating_sub(1);
            let digits = crate::strutil::usize_to_string(remaining as usize);
            msg.append(digits.as_str());
            msg.append(" more times to quit.");
            self.message_bar.update_message(msg.as_str(), now_ms);
            self.quit_times = self.quit_times.saturating_add(1);
            proof {
                assert(msg@ =~= quit_warning_text(old(self).quit_times));
            }
        }
    }

    /// Forgets an interrupted quit sequence and clears its warning.
    fn reset_quit_times(&mut self, now_ms: u64)
        ensures
            quit_times_reset(*old(self), final(self).quit_times, final(self).message_bar, now_ms),
            final(self).quit == old(self).quit,
            final(self).view == old(self).view,
            final(self).command_bar == old(self).command_bar,
            final(self).terminal_size == old(self).terminal_size,
            final(self).status_bar == old(self).status_bar,
            final(self).title == old(self).title,
    {
        if self.quit_times > 0 {
            self.quit_times = 0;
            self.message_bar.update_message("", now_ms);
            proof {
                reveal_strlit("");
                assert(""@ =~= Seq::<char>::empty());
            }
        }
    }

    /// Takes a new terminal size: the viewport gets all rows above the two
    /// bar rows, and both bars are placed one row high.
    pub fn resize(&mut self, size: Size)
        ensures
            final(self).terminal_size == size,
            view_resized(
                old(self).view,
                final(self).view,
                Size {
                    width: size.width,
                    height: if size.height >= 2 {
                        (size.height - 2) as usize
                    } else {
                        0
                    },
                },
            ),
            (final(self).message_bar == MessageBar {
                need_redraw: true,
                ..old(self).message_bar
            }),
            statusbar_placed(
                old(self).status_bar,
                final(self).status_bar,
                Size { width: size.width, height: 1 },
            ) && final(self).status_bar.need_redraw,
            final(self).quit == old(self).quit,
            final(self).command_bar == old(self).command_bar,
            final(self).title == old(self).title,
            final(self).quit_times == old(self).quit_times,
    {
        self.terminal_size = size;
        self.view.resize(Size { height: size.height.saturating_sub(2), width: size.width });
        self.message_bar.mark_redraw(true);
        self.status_bar.resize(Size { height: 1, width: size.width });
    }

    /// Handles a save command: with a bound file the caller is told to
    /// write now; without one the save prompt opens instead.
    pub fn handler_save(&mut self) -> (save_now: bool)
        ensures
            save_now == (old(self).view.buf.file_info.path is Some),
            save_now ==> *final(self) == *old(self),
            !save_now ==> final(self).command_bar is Some && prompt_shown(
                final(self).command_bar->0,
                old(self).terminal_size.width,
            ) && final(self).quit == old(self).quit && final(self).view == old(self).view
                && final(self).message_bar == old(self).message_bar && final(self).terminal_size
                == old(self).terminal_size && final(self).status_bar == old(self).status_bar
                && final(self).title == old(self).title && final(self).quit_times == old(self).quit_times,
    {
        if self.view.is_file_loaded() {
            true
        } else {
            self.show_prompt();
            false
        }
    }

    /// Records the outcome of the write the caller performed: the document
    /// is marked saved (and rebound, when a name was given) on success, and
    /// the message bar reports it either way.
    pub fn save(&mut self, filename: Option<String>, wrote: bool, now_ms: u64)
        ensures
            final(self).view.lines() == old(self).view.lines(),
            filename is Some && wrote ==> final(self).view.buf.file_info.path is Some && final(self).view.buf.file_info.path->0@ == filename->0@ && !final(self).view.buf.is_modify,
            filename is None ==> final(self).view.buf.file_info == old(self).view.buf.file_info
                && final(self).view.buf.is_modify == (old(self).view.buf.is_modify && !wrote),
            filename is Some && !wrote ==> final(self).view.buf.file_info == old(self).view.buf.file_info && final(self).view.buf.is_modify == old(self).view.buf.is_modify,
            final(self).view.size == old(self).view.size,
            final(self).view.text_location == old(self).view.text_location,
            final(self).view.scroll_offset == old(self).view.scroll_offset,
            final(self).view.need_redraw == old(self).view.need_redraw,
            wrote ==> msg_posted(final(self).message_bar, "File saved successfully."@, now_ms),
            !wrote ==> msg_posted(final(self).message_bar, "Error writing file!"@, now_ms),
            final(self).quit == old(self).quit,
            final(self).command_bar == old(self).command_bar,
            final(self).terminal_size == old(self).terminal_size,
            final(self).status_bar == old(self).status_bar,
            final(self).title == old(self).title,
            final(self).quit_times == old(self).quit_times,
    {
        match filename {
            Option::Some(name) => self.view.save_as(name.as_str(), wrote),
            Option::None => self.view.save(wrote),
        }
        if wrote {
            self.message_bar.update_message("File saved successfully.", now_ms);
        } else {
            self.message_bar.update_message("Error writing file!", now_ms);
        }
    }

    /// Refreshes the status bar from the document and recomputes the window
    /// title; a changed title is handed back for the caller to set.
    pub fn refresh_status(&mut self) -> (new_title: Option<String>)
        ensures
            ({
                let status_filename = if old(self).view.buf.file_info.path is Some {
                    basename(old(self).view.buf.file_info.path->0@)
                } else {
                    "[No Name]"@
                };
                let title = status_filename + " - hecto"@;
                &&& final(self).title@ == title
                &&& (new_title is Some <==> title != old(self).title@)
                &&& (new_title is Some ==> new_title->0@ == title)
                &&& final(self).status_bar.current_status.current_line == old(self).view.text_location.line_index
                &&& final(self).status_bar.current_status.total_line == old(self).view.lines().len()
                &&& final(self).status_bar.current_status.filename@ == status_filename
                &&& final(self).status_bar.current_status.is_modified == old(self).view.buf.is_modify
            }),
            final(self).quit == old(self).quit,
            final(self).view == old(self).view,
            final(self).message_bar == old(self).message_bar,
            final(self).command_bar == old(self).command_bar,
            final(self).terminal_size == old(self).terminal_size,
            final(self).quit_times == old(self).quit_times,
    {
        let status = self.view.get_status();
        let mut title = status.filename.clone();
        title.append(" - hecto");
        self.status_bar.update_status(status);
        if !(title == self.title) {
            self.title = title.clone();
            Some(title)
        } else {
            self.title = title;
            None
        }
    }

    /// Executes one command. A quit command quits or counts toward it; a
    /// resize lays the screen out again; any other command first forgets an
    /// interrupted quit sequence, then moves the cursor, edits the document
    /// or the prompt's value, dismisses the prompt, or asks for a save.
    /// The returned action is the write the caller must perform, if any.
    pub fn process_command(&mut self, command: Command, now_ms: u64) -> (act: EditorAction)
        ensures
            (command is Move || command is Edit || (command matches Command::System(
                System::Save,
            )) || (command matches Command::System(System::Dismiss))) ==> final(self).quit_times
                == (if old(self).quit_times > 0 {
                0u8
            } else {
                old(self).quit_times
            }),
            (command is Move || command matches Command::System(System::Save) || (command
                matches Command::System(System::Dismiss) && old(self).command_bar is None) || (
            command matches Command::Edit(e) && !(old(self).command_bar is Some
                && e is InsertNewline))) ==> quit_times_reset(
                *old(self),
                final(self).quit_times,
                final(self).message_bar,
                now_ms,
            ),
            (command matches Command::System(System::Quit) ==> act is Nothing && (if old(self).command_bar is Some {
                *final(self) == *old(self)
            } else {
                quit_handled(*old(self), *final(self), now_ms)
            })),
            (command matches Command::System(System::Resize(size)) ==> act is Nothing && final(self).terminal_size == size && view_resized(
                old(self).view,
                final(self).view,
                Size {
                    width: size.width,
                    height: if size.height >= 2 {
                        (size.height - 2) as usize
                    } else {
                        0
                    },
                },
            ) && final(self).quit == old(self).quit && final(self).command_bar == old(self).command_bar && final(self).quit_times == old(self).quit_times),
            (command matches Command::System(System::Dismiss) ==> act is Nothing && final(self).view == old(self).view && (if old(self).command_bar is Some {
                final(self).command_bar is None && msg_posted(
                    final(self).message_bar,
                    "File save abort!"@,
                    now_ms,
                )
            } else {
                final(self).command_bar == old(self).command_bar
            })),
            (command matches Command::System(System::Save) ==> final(self).view == old(self).view
                && (if old(self).command_bar is Some {
                act is Nothing && final(self).command_bar == old(self).command_bar
            } else if old(self).view.buf.file_info.path is Some {
                (act matches EditorAction::Save(f) && f is None) && final(self).command_bar == old(self).command_bar
            } else {
                act is Nothing && final(self).command_bar is Some && prompt_shown(
                    final(self).command_bar->0,
                    old(self).terminal_size.width,
                )
            })),
            (command matches Command::Move(dir) ==> act is Nothing && final(self).command_bar
                == old(self).command_bar && (if old(self).command_bar is None {
                view_moved(old(self).view, final(self).view, dir)
            } else {
                final(self).view == old(self).view
            })),
            (command matches Command::Edit(edit) ==> (if old(self).command_bar is None {
                act is Nothing && edit_applied(old(self).view, final(self).view, edit) && final(self).command_bar is None
            } else if edit is InsertNewline {
                (act matches EditorAction::Save(f) && f is Some && f->0@ == crate::line::text_of(
                    old(self).command_bar->0.value@,
                )) && final(self).command_bar is None && final(self).view == old(self).view && (
                if old(self).quit_times > 0 {
                    msg_posted(final(self).message_bar, Seq::<char>::empty(), now_ms)
                } else {
                    final(self).message_bar == MessageBar {
                        need_redraw: true,
                        ..old(self).message_bar
                    }
                })
            } else {
                act is Nothing && final(self).command_bar is Some && command_edit_rel(
                    old(self).command_bar->0,
                    final(self).command_bar->0,
                    edit,
                ) && final(self).view == old(self).view
            })),
            (command is Move || command is Edit || (command matches Command::System(
                System::Save,
            )) || (command matches Command::System(System::Dismiss))) ==> final(self).quit == old(self).quit && final(self).terminal_size == old(self).terminal_size && final(self).status_bar == old(self).status_bar && final(self).title == old(self).title,
    {
        match command {
            Command::System(System::Quit) => {
                if self.command_bar.is_none() {
                    self.handler_quit(now_ms);
                }
                EditorAction::Nothing
            },
            Command::System(System::Resize(size)) => {
                self.resize(size);
                EditorAction::Nothing
            },
            Command::System(System::Dismiss) => {
                self.reset_quit_times(now_ms);
                if self.command_bar.is_some() {
                    self.dimiss_prompt();
                    self.message_bar.update_message("File save abort!", now_ms);
                }
                EditorAction::Nothing
            },
            Command::System(System::Save) => {
                self.reset_quit_times(now_ms);
                if self.command_bar.is_none() {
                    if self.handler_save() {
                        EditorAction::Save(None)
                    } else {
                        EditorAction::Nothing
                    }
                } else {
                    EditorAction::Nothing
                }
            },
            Command::Move(direction) => {
                self.reset_quit_times(now_ms);
                if self.command_bar.is_none() {
                    self.view.move_text_location(direction);
                }
                EditorAction::Nothing
            },
            Command::Edit(edit) => {
                self.reset_quit_times(now_ms);
                if self.command_bar.is_some() {
                    if matches!(edit, Edit::InsertNewline) {
                        let filename = match &self.command_bar {
                            Option::Some(command_bar) => command_bar.value(),
                            Option::None => String::new(),
                        };
                        self.dimiss_prompt();
                        EditorAction::Save(Some(filename))
                    } else {
                        let mut command_bar = self.command_bar.take().unwrap();
                        command_bar.handle_command_edit(edit);
                        self.command_bar = Some(command_bar);
                        EditorAction::Nothing
                    }
                } else {
                    self.view.handler_edit(edit);
                    EditorAction::Nothing
                }
            },
        }
    }
}

} // verus!
