use vstd::prelude::*;
use vstd::view::View as _;

use crate::buffer::serialized;
use crate::command::{Command, Edit, System};
use crate::geometry::Size;
use crate::line::Line;
use crate::view::{edit_transition, move_transition, SaveRequest, View};

verus! {

/// How many consecutive quit requests discard unsaved changes.
pub const QUIT_TIMES: u8 = 3;

/// Which prompt, if any, the session is awaiting input for.
#[derive(Clone, Copy, PartialEq, Eq, Structural, Debug)]
pub enum PromptType {
    Search,
    Save,
    Inactive,
}

impl PromptType {
    /// Whether no prompt is being shown.
    pub fn is_inactive(&self) -> (r: bool)
        ensures
            r == (*self == PromptType::Inactive),
    {
        match self {
            PromptType::Inactive => true,
            _ => false,
        }
    }
}

/// How one `Edit` command relates the prompt's input line after (`l1`) to
/// the line before (`l0`): the caret sits at the line's end, so characters
/// are appended, backward delete removes the last grapheme, and forward
/// delete finds nothing to remove. A newline never reaches the line: it
/// submits the prompt instead.
pub open spec fn bar_edit_transition(l0: Line, l1: Line, command: Edit) -> bool {
    &&& (command matches Edit::Insert(c) ==> l1.wf() && l1.text() == l0.insert_text(
        c,
        l0.count() as int,
    ))
    &&& (command == Edit::Delete ==> l1 == l0)
    &&& (command == Edit::DeleteBackward ==> if l0.count() > 0 {
        l1.wf() && l1.text() == l0.remove_text(l0.count() - 1)
    } else {
        l1 == l0
    })
    &&& (command == Edit::InsertNewline ==> l1 == l0)
}

/// The session controller: one view over one buffer, the prompt state
/// machine of the bottom bar, the message shown there, and the quit guard
/// that demands repeated quit requests while changes are unsaved.
pub struct Editor {
    pub view: View,
    pub prompt_type: PromptType,
    pub command_bar: Line,
    pub message: String,
    pub terminal_size: Size,
    pub title: String,
    pub quit_times: u8,
    pub should_quit: bool,
}

impl Editor {
    /// The view's buffer and the prompt line are well-formed, and the quit
    /// guard has not run past its limit.
    pub open spec fn wf(&self) -> bool {
        &&& self.view.wf()
        &&& self.command_bar.wf()
        &&& self.quit_times < QUIT_TIMES
    }

    /// A fresh session: empty view, no prompt, the help line as message.
    pub fn new() -> (r: Editor)
        ensures
            r.wf(),
            r.prompt_type == PromptType::Inactive,
            r.view.view_buffer.height_spec() == 0,
            !r.view.view_buffer.dirty,
            r.message@ == "HELP: Ctrl-F = search | Ctrl-S = save | Ctrl-Q = quit"@,
            r.quit_times == 0,
            !r.should_quit,
    {
        Editor {
            view: View::new(),
            prompt_type: PromptType::Inactive,
            command_bar: Line::default(),
            message: String::from_str("HELP: Ctrl-F = search | Ctrl-S = save | Ctrl-Q = quit"),
            terminal_size: Size { height: 0, width: 0 },
            title: String::new(),
            quit_times: 0,
            should_quit: false,
        }
    }

    /// Take a new terminal size: the view gets the window above the two
    /// bottom bar rows, and the cursor is scrolled back into sight.
    pub fn resize(&mut self, size: Size)
        requires
            old(self).wf(),
        ensures
            final(self).wf(),
            final(self).terminal_size == size,
            final(self).view.size == (Size {
                height: if size.height >= 2 {
                    (size.height - 2) as usize
                } else {
                    0
                },
                width: size.width,
            }),
            final(self).view.view_buffer == old(self).view.view_buffer,
            final(self).view.location == old(self).view.location,
            final(self).view.cursor_in_view(),
            final(self).prompt_type == old(self).prompt_type,
            final(self).should_quit == old(self).should_quit,
            final(self).quit_times == old(self).quit_times,
            final(self).message == old(self).message,
            final(self).command_bar == old(self).command_bar,
            final(self).title == old(self).title,
    {
        self.terminal_size = size;
        self.view.set_size(Size { height: size.height.saturating_sub(2), width: size.width });
    }

    /// The window title the current document asks for.
    pub open spec fn title_of(file_name: Seq<char>) -> Seq<char> {
        file_name + " - edit_core"@
    }

    /// Recompute the window title from the document's status; when it
    /// changed, adopt it and hand it out so the caller can apply it to the
    /// terminal.
    pub fn refresh_status(&mut self) -> (r: Option<String>)
        requires
            old(self).wf(),
        ensures
            final(self).wf(),
            final(self).view == old(self).view,
            final(self).prompt_type == old(self).prompt_type,
            final(self).should_quit == old(self).should_quit,
            final(self).quit_times == old(self).quit_times,
            final(self).message == old(self).message,
            final(self).command_bar == old(self).command_bar,
            final(self).terminal_size == old(self).terminal_size,
            old(self).view.view_buffer.file_info.path matches Some(p) ==> final(self).title@
                == Self::title_of(p@),
            old(self).view.view_buffer.file_info.path is None ==> final(self).title@
                == Self::title_of("No Name"@),
            r matches Some(t) ==> t@ == final(self).title@ && final(self).title@ != old(
                self,
            ).title@,
            r is None ==> final(self).title == old(self).title,
    {
        let status = self.view.get_status();
        let mut title = status.file_name;
        title.append(" - edit_core");
        if !(title == self.title) {
            self.title = title.clone();
            Some(title)
        } else {
            None
        }
    }

    /// The warning shown when a quit request would discard unsaved
    /// changes: it names how many further requests will quit anyway.
    pub open spec fn quit_warning(times: u8) -> Seq<char> {
        if times == 0 {
            "WARNING! File has unsaved changes. Press Ctrl-Q 2 more times to quit."@
        } else {
            "WARNING! File has unsaved changes. Press Ctrl-Q 1 more times to quit."@
        }
    }

    /// The message after the quit guard is reset: cleared when a quit
    /// warning was pending, untouched otherwise.
    pub open spec fn reset_message(self) -> Seq<char> {
        if self.quit_times > 0 {
            Seq::<char>::empty()
        } else {
            self.message@
        }
    }

    /// Quit, or warn: with no unsaved changes, or once enough quit requests
    /// have piled up, the session ends; otherwise the guard counts the
    /// request and warns.
    fn handle_quit(&mut self)
        requires
            old(self).wf(),
        ensures
            final(self).wf(),
            final(self).view == old(self).view,
            final(self).prompt_type == old(self).prompt_type,
            final(self).command_bar == old(self).command_bar,
            final(self).terminal_size == old(self).terminal_size,
            final(self).title == old(self).title,
            (!old(self).view.view_buffer.dirty || old(self).quit_times + 1 == QUIT_TIMES) ==> {
                &&& final(self).should_quit
                &&& final(self).quit_times == old(self).quit_times
                &&& final(self).message == old(self).message
            },
            (old(self).view.view_buffer.dirty && old(self).quit_times + 1 != QUIT_TIMES) ==> {
                &&& final(self).should_quit == old(self).should_quit
                &&& final(self).quit_times == old(self).quit_times + 1
                &&& final(self).message@ == Self::quit_warning(old(self).quit_times)
            },
    {
        if !self.view.view_buffer.dirty || self.quit_times + 1 == QUIT_TIMES {
            self.should_quit = true;
        } else {
            self.message = if self.quit_times == 0 {
                String::from_str(
                    "WARNING! File has unsaved changes. Press Ctrl-Q 2 more times to quit.",
                )
            } else {
                String::from_str(
                    "WARNING! File has unsaved changes. Press Ctrl-Q 1 more times to quit.",
                )
            };
            self.quit_times = self.quit_times + 1;
        }
    }

    /// Any command other than a quit request resets the quit guard and
    /// clears a pending warning.
    fn reset_quit_times(&mut self)
        requires
            old(self).wf(),
        ensures
            final(self).wf(),
            final(self).view == old(self).view,
            final(self).prompt_type == old(self).prompt_type,
            final(self).command_bar == old(self).command_bar,
            final(self).terminal_size == old(self).terminal_size,
            final(self).title == old(self).title,
            final(self).should_quit == old(self).should_quit,
            final(self).quit_times == 0,
            final(self).message@ == old(self).reset_message(),
    {
        if self.quit_times > 0 {
            self.quit_times = 0;
            self.message = String::new();
        }
    }

    /// Apply one editing command to the prompt's input line, whose caret
    /// sits at its end.
    fn handle_bar_edit(&mut self, command: Edit)
        requires
            old(self).wf(),
        ensures
            final(self).wf(),
            final(self).view == old(self).view,
            final(self).prompt_type == old(self).prompt_type,
            final(self).terminal_size == old(self).terminal_size,
            final(self).title == old(self).title,
            final(self).should_quit == old(self).should_quit,
            final(self).quit_times == old(self).quit_times,
            final(self).message == old(self).message,
            bar_edit_transition(old(self).command_bar, final(self).command_bar, command),
    {
        match command {
            Edit::Insert(character) => {
                let count = self.command_bar.grapheme_count();
                self.command_bar.insert_char(character, count);
            },
            Edit::DeleteBackward => {
                let count = self.command_bar.grapheme_count();
                if count > 0 {
                    self.command_bar.delete(count - 1);
                }
            },
            Edit::Delete => {},
            Edit::InsertNewline => {},
        }
    }

    /// Route one decoded command through the session's state machine.
    ///
    /// A quit request is counted (and, with unsaved changes, warned about)
    /// only outside a prompt; any other command resets the quit guard. A
    /// resize reshapes the view. Search and save requests open their prompt
    /// unless a save can go straight to the known path, in which case the
    /// pending write is returned for the caller to perform. While a prompt
    /// is open, editing commands feed its input line, a newline submits it,
    /// and a dismissal abandons it; otherwise editing and movement commands
    /// go to the view, which keeps the cursor visible.
    pub fn process_command(&mut self, command: Command) -> (r: Option<SaveRequest>)
        requires
            old(self).wf(),
        ensures
            final(self).wf(),
            final(self).title == old(self).title,
            // the terminal size changes only on a resize
            final(self).terminal_size == (match command {
                Command::System(System::Resize(size)) => size,
                _ => old(self).terminal_size,
            }),
            // the session ends exactly when an unguarded quit request comes
            final(self).should_quit == (old(self).should_quit || (command == Command::System(
                System::Quit,
            ) && old(self).prompt_type == PromptType::Inactive && (!old(self).view.view_buffer.dirty
                || old(self).quit_times + 1 == QUIT_TIMES))),
            // the quit guard counts only consecutive quit requests
            final(self).quit_times == (match command {
                Command::System(System::Quit) => {
                    if old(self).prompt_type == PromptType::Inactive && old(
                        self,
                    ).view.view_buffer.dirty && old(self).quit_times + 1 != QUIT_TIMES {
                        (old(self).quit_times + 1) as int
                    } else {
                        old(self).quit_times as int
                    }
                },
                Command::System(System::Resize(_)) => old(self).quit_times as int,
                _ => 0,
            }),
            // the prompt state machine
            final(self).prompt_type == (match command {
                Command::System(System::Search) => {
                    if old(self).prompt_type == PromptType::Inactive {
                        PromptType::Search
                    } else {
                        old(self).prompt_type
                    }
                },
                Command::System(System::Save) => {
                    if old(self).prompt_type == PromptType::Inactive && old(
                        self,
                    ).view.view_buffer.file_info.path is None {
                        PromptType::Save
                    } else if old(self).prompt_type == PromptType::Inactive {
                        PromptType::Inactive
                    } else {
                        old(self).prompt_type
                    }
                },
                Command::System(System::Dismiss) => PromptType::Inactive,
                Command::Edit(Edit::InsertNewline) => PromptType::Inactive,
                _ => old(self).prompt_type,
            }),
            // a pending write comes out of exactly two paths: a save
            // straight to the known path, and a submitted save-as prompt
            r is Some <==> ((command == Command::System(System::Save) && old(self).prompt_type
                == PromptType::Inactive && old(self).view.view_buffer.file_info.path is Some) || (
            command == Command::Edit(Edit::InsertNewline) && old(self).prompt_type
                == PromptType::Save)),
            (command == Command::System(System::Save) && old(self).prompt_type
                == PromptType::Inactive) ==> (old(
                self,
            ).view.view_buffer.file_info.path matches Some(p) ==> (r matches Some(req) ==> (
            req.path@ == p@ && req.contents@ == serialized(old(self).view.view_buffer.texts())))),
            (command == Command::Edit(Edit::InsertNewline) && old(self).prompt_type
                == PromptType::Save) ==> {
                &&& (r matches Some(req) ==> req.path@ == old(self).command_bar.text()
                    && req.contents@ == serialized(old(self).view.view_buffer.texts()))
                &&& final(self).view.view_buffer.file_info.path matches Some(p2) && p2@ == old(
                    self,
                ).command_bar.text()
                &&& final(self).view.view_buffer.lines == old(self).view.view_buffer.lines
                &&& final(self).view.view_buffer.dirty == old(self).view.view_buffer.dirty
            },
            // the view moves only for a resize, an unprompted edit or move,
            // or a submitted save-as; everything else leaves it alone
            (match command {
                Command::System(System::Resize(size)) => final(self).view.view_buffer == old(
                    self,
                ).view.view_buffer && final(self).view.location == old(self).view.location && final(self).view.size == (Size {
                    height: if size.height >= 2 {
                        (size.height - 2) as usize
                    } else {
                        0
                    },
                    width: size.width,
                }) && final(self).view.cursor_in_view(),
                Command::Edit(e) => {
                    if old(self).prompt_type == PromptType::Inactive {
                        edit_transition(old(self).view, final(self).view, e)
                    } else if e == Edit::InsertNewline && old(self).prompt_type
                        == PromptType::Save {
                        true  // related above: only the file identity changes
                    } else {
                        final(self).view == old(self).view
                    }
                },
                Command::Move(m) => {
                    if old(self).prompt_type == PromptType::Inactive {
                        move_transition(old(self).view, final(self).view, m)
                    } else {
                        final(self).view == old(self).view
                    }
                },
                _ => final(self).view == old(self).view,
            }),
            // the prompt's input line: cleared when a prompt opens or
            // closes, edited while one is open, untouched otherwise
            (match command {
                Command::System(System::Search) => {
                    if old(self).prompt_type == PromptType::Inactive {
                        final(self).command_bar.count() == 0
                    } else {
                        final(self).command_bar == old(self).command_bar
                    }
                },
                Command::System(System::Save) => {
                    if old(self).prompt_type == PromptType::Inactive && old(
                        self,
                    ).view.view_buffer.file_info.path is None {
                        final(self).command_bar.count() == 0
                    } else {
                        final(self).command_bar == old(self).command_bar
                    }
                },
                Command::Edit(e) => {
                    if old(self).prompt_type == PromptType::Inactive {
                        final(self).command_bar == old(self).command_bar
                    } else if e == Edit::InsertNewline {
                        final(self).command_bar.count() == 0
                    } else {
                        bar_edit_transition(old(self).command_bar, final(self).command_bar, e)
                    }
                },
                _ => final(self).command_bar == old(self).command_bar,
            }),
            // the message bar
            (match command {
                Command::System(System::Quit) => {
                    if old(self).prompt_type == PromptType::Inactive && old(
                        self,
                    ).view.view_buffer.dirty && old(self).quit_times + 1 != QUIT_TIMES {
                        final(self).message@ == Self::quit_warning(old(self).quit_times)
                    } else {
                        final(self).message == old(self).message
                    }
                },
                Command::System(System::Resize(_)) => final(self).message == old(self).message,
                Command::System(System::Dismiss) => {
                    if old(self).prompt_type == PromptType::Save {
                        final(self).message@ == "Save aborted."@
                    } else if old(self).prompt_type == PromptType::Search {
                        final(self).message@ == "Search aborted."@
                    } else {
                        final(self).message@ == old(self).reset_message()
                    }
                },
                Command::Edit(Edit::InsertNewline) => {
                    if old(self).prompt_type == PromptType::Search {
                        final(self).message@ == "Search "@ + old(self).command_bar.text()
                            + " successfully."@
                    } else {
                        final(self).message@ == old(self).reset_message()
                    }
                },
                _ => final(self).message@ == old(self).reset_message(),
            }),
    {
        match command {
            Command::System(System::Quit) => {
                if self.prompt_type.is_inactive() {
                    self.handle_quit();
                }
            },
            Command::System(System::Resize(size)) => {
                self.resize(size);
            },
            _ => {
                // any other command interrupts a pending quit sequence
                self.reset_quit_times();
            },
        }
        match command {
            Command::System(System::Quit) | Command::System(System::Resize(_)) => None,
            Command::System(System::Search) => {
                if self.prompt_type.is_inactive() {
                    self.prompt_type = PromptType::Search;
                    self.command_bar = Line::default();
                }
                None
            },
            Command::System(System::Save) => {
                if self.prompt_type.is_inactive() {
                    if self.view.is_file_loaded() {
                        self.view.save()
                    } else {
                        self.prompt_type = PromptType::Save;
                        self.command_bar = Line::default();
                        None
                    }
                } else {
                    None
                }
            },
            Command::System(System::Dismiss) => {
                match self.prompt_type {
                    PromptType::Save => {
                        self.message = String::from_str("Save aborted.");
                        self.prompt_type = PromptType::Inactive;
                    },
                    PromptType::Search => {
                        self.message = String::from_str("Search aborted.");
                        self.prompt_type = PromptType::Inactive;
                    },
                    PromptType::Inactive => {},
                }
                None
            },
            Command::Edit(edit_command) => {
                match self.prompt_type {
                    PromptType::Search => {
                        if matches!(edit_command, Edit::InsertNewline) {
                            let search_value = self.command_bar.to_string();
                            let mut msg = String::from_str("Search ");
                            msg.append(search_value.as_str());
                            msg.append(" successfully.");
                            self.message = msg;
                            self.prompt_type = PromptType::Inactive;
                            self.command_bar = Line::default();
                            None
                        } else {
                            self.handle_bar_edit(edit_command);
                            None
                        }
                    },
                    PromptType::Save => {
                        if matches!(edit_command, Edit::InsertNewline) {
                            let file_name = self.command_bar.to_string();
                            let req = self.view.save_as(file_name.as_str());
                            self.prompt_type = PromptType::Inactive;
                            self.command_bar = Line::default();
                            Some(req)
                        } else {
                            self.handle_bar_edit(edit_command);
                            None
                        }
                    },
                    PromptType::Inactive => {
                        self.view.handle_edit_command(edit_command);
                        None
                    },
                }
            },
            Command::Move(move_command) => {
                if self.prompt_type.is_inactive() {
                    self.view.handle_move_command(move_command);
                }
                None
            },
        }
    }

    /// Record the outcome of a save that was requested earlier: success
    /// clears the dirty flag, failure leaves it set; either way the message
    /// bar says which it was.
    pub fn report_save_result(&mut self, ok: bool)
        requires
            old(self).wf(),
        ensures
            final(self).wf(),
            final(self).view.view_buffer.lines == old(self).view.view_buffer.lines,
            final(self).view.view_buffer.file_info == old(self).view.view_buffer.file_info,
            final(self).view.location == old(self).view.location,
            final(self).view.offset == old(self).view.offset,
            final(self).view.size == old(self).view.size,
            ok ==> !final(self).view.view_buffer.dirty && final(self).message@
                == "File saved successfully."@,
            !ok ==> final(self).view.view_buffer.dirty == old(self).view.view_buffer.dirty
                && final(self).message@ == "Error writing file!"@,
            final(self).prompt_type == old(self).prompt_type,
            final(self).should_quit == old(self).should_quit,
            final(self).quit_times == old(self).quit_times,
    {
        if ok {
            self.view.confirm_saved();
            self.message = String::from_str("File saved successfully.");
        } else {
            self.message = String::from_str("Error writing file!");
        }
    }
}

} // verus!
