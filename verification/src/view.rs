use vstd::prelude::*;
use vstd::view::View as _;

use crate::buffer::{
    delete_transition, insert_char_transition, insert_newline_transition, lines_of, serialized,
    Buffer,
};
use crate::command::{Edit, Move};
use crate::geometry::{Position, Size};
use crate::grapheme::push_char;
use crate::line::sat_cap;

verus! {

/// The viewport over one buffer: its size, the cursor's text location
/// (grapheme index `x`, row `y`), the scroll offset (column `x`, row `y`),
/// and whether the screen content is stale.
pub struct View {
    pub view_buffer: Buffer,
    pub needs_redraw: bool,
    pub size: Size,
    pub location: Position,
    pub offset: Position,
}

/// Where one minimal-motion scroll step leaves an offset: pulled back onto
/// `pos` when `pos` lies before the window, pushed forward just enough to
/// make `pos` the window's last slot when `pos` lies at or past its end,
/// and untouched otherwise.
pub open spec fn scrolled_offset(offset: int, pos: int, extent: int) -> int {
    if pos < offset {
        pos
    } else if pos >= sat_cap(offset + extent) {
        sat_cap((if pos >= extent {
            pos - extent
        } else {
            0
        }) + 1)
    } else {
        offset
    }
}

/// The cursor step one `Move::Right` takes from `loc` in `buf`: one
/// grapheme right within the row, or on to the start of the next line (the
/// row just past the last one included) when the cursor sits at the row's
/// end.
pub open spec fn right_of(buf: Buffer, loc: Position) -> (int, int) {
    if (loc.x as int) < buffer_row_count(buf, loc.y as int) {
        (loc.x + 1, loc.y as int)
    } else {
        (0, if loc.y + 1 <= buf.height_spec() {
            loc.y + 1
        } else {
            buf.height_spec() as int
        })
    }
}

/// Grapheme count of row `y` of `buf`, or 0 where no such row exists.
pub open spec fn buffer_row_count(buf: Buffer, y: int) -> int {
    if 0 <= y < buf.lines@.len() {
        buf.lines@[y].count() as int
    } else {
        0
    }
}

/// How one `Move` command relates the view after (`v1`) to the view before
/// (`v0`): the buffer and viewport are untouched, the cursor lands where
/// the command's transition rule says, and it is back inside the viewport.
pub open spec fn move_transition(v0: View, v1: View, command: Move) -> bool {
    &&& v1.view_buffer == v0.view_buffer
    &&& v1.size == v0.size
    &&& v1.location.x == v0.moved_loc(command).0
    &&& v1.location.y == v0.moved_loc(command).1
    &&& v1.cursor_in_view()
    &&& (v0.needs_redraw ==> v1.needs_redraw)
}

/// How one `Edit` command relates the view after (`v1`) to the view before
/// (`v0`): the buffer changes as the matching `Buffer` operation at the
/// cursor dictates, the cursor moves as the edit integration dictates, and
/// it is back inside the viewport.
pub open spec fn edit_transition(v0: View, v1: View, command: Edit) -> bool {
    &&& v1.size == v0.size
    &&& v1.cursor_in_view()
    &&& (command matches Edit::Insert(c) ==> insert_char_transition(
        v0.view_buffer,
        v1.view_buffer,
        c,
        v0.location,
    ) && v1.needs_redraw && ({
        let c0 = buffer_row_count(v0.view_buffer, v0.location.y as int);
        let c1 = buffer_row_count(v1.view_buffer, v0.location.y as int);
        if c1 > c0 {
            v1.location.x == right_of(v1.view_buffer, v0.location).0 && v1.location.y == right_of(
                v1.view_buffer,
                v0.location,
            ).1
        } else {
            v1.location == v0.location
        }
    }))
    &&& (command == Edit::Delete ==> delete_transition(v0.view_buffer, v1.view_buffer, v0.location)
        && v1.location == v0.location && v1.needs_redraw)
    &&& ((command == Edit::DeleteBackward && v0.location.x == 0 && v0.location.y == 0)
        ==> v1.view_buffer == v0.view_buffer && v1.location == v0.location)
    &&& ((command == Edit::DeleteBackward && !(v0.location.x == 0 && v0.location.y == 0))
        ==> delete_transition(
        v0.view_buffer,
        v1.view_buffer,
        (Position { x: v0.left_loc().0 as usize, y: v0.left_loc().1 as usize }),
    ) && v1.location.x == v0.left_loc().0 && v1.location.y == v0.left_loc().1 && v1.needs_redraw)
    &&& (command == Edit::InsertNewline ==> insert_newline_transition(
        v0.view_buffer,
        v1.view_buffer,
        v0.location,
    ) && v1.location.x == right_of(v1.view_buffer, v0.location).0 && v1.location.y == right_of(
        v1.view_buffer,
        v0.location,
    ).1 && v1.needs_redraw)
}

impl View {
    /// The buffer's rows are well-formed cluster decompositions.
    pub open spec fn wf(&self) -> bool {
        self.view_buffer.wf()
    }

    /// Grapheme count of the row at `y`, or 0 where no such row exists.
    pub open spec fn row_count(&self, y: int) -> int {
        buffer_row_count(self.view_buffer, y)
    }

    /// The cursor's rendered column: the summed widths of the clusters
    /// before it in its row, or 0 where the cursor sits past the last row.
    pub open spec fn cursor_col(&self) -> int {
        if (self.location.y as int) < self.view_buffer.lines@.len() {
            sat_cap(
                self.view_buffer.lines@[self.location.y as int].width_until_spec(
                    self.location.x as int,
                ) as int,
            )
        } else {
            0
        }
    }

    /// The scrolling invariant: on each axis with a nonzero extent, the
    /// cursor's screen position lies inside the viewport.
    pub open spec fn cursor_in_view(&self) -> bool {
        &&& self.size.height > 0 ==> self.offset.y <= self.location.y < self.offset.y
            + self.size.height
        &&& self.size.width > 0 ==> self.offset.x <= self.cursor_col() < self.offset.x
            + self.size.width
    }

    /// A fresh view: empty buffer, zero size, cursor and offset at the
    /// origin, nothing drawn yet.
    pub fn new() -> (r: Self)
        ensures
            r.wf(),
            r.view_buffer.height_spec() == 0,
            r.view_buffer.file_info.path is None,
            !r.view_buffer.dirty,
            r.size == (Size { height: 0, width: 0 }),
            r.location == (Position { x: 0, y: 0 }),
            r.offset == (Position { x: 0, y: 0 }),
            r.needs_redraw,
            r.cursor_in_view(),
    {
        View {
            view_buffer: Buffer::new(),
            needs_redraw: true,
            size: Size { height: 0, width: 0 },
            location: Position { x: 0, y: 0 },
            offset: Position { x: 0, y: 0 },
        }
    }

    /// The cursor's screen position within the row: rendered column and row
    /// index, before the scroll offset is applied.
    fn text_location_to_position(&self) -> (r: Position)
        requires
            self.wf(),
        ensures
            r.y == self.location.y,
            r.x == self.cursor_col(),
    {
        let row = self.location.y;
        let col = if row < self.view_buffer.lines.len() {
            self.view_buffer.lines[row].width_until(self.location.x)
        } else {
            0
        };
        Position { x: col, y: row }
    }

    /// The cursor's position on screen: its rendered position less the
    /// scroll offset, clamped at zero on each axis.
    pub fn caret_position(&self) -> (r: Position)
        requires
            self.wf(),
        ensures
            r.x == if self.cursor_col() >= self.offset.x {
                self.cursor_col() - self.offset.x
            } else {
                0
            },
            r.y == if self.location.y >= self.offset.y {
                self.location.y - self.offset.y
            } else {
                0
            },
    {
        self.text_location_to_position().subtract(&self.offset)
    }

    /// Scroll the vertical offset the minimal amount that brings row `to`
    /// into the viewport; an offset change requests a redraw.
    fn scroll_vertically(&mut self, to: usize)
        ensures
            final(self).view_buffer == old(self).view_buffer,
            final(self).size == old(self).size,
            final(self).location == old(self).location,
            final(self).offset.x == old(self).offset.x,
            final(self).offset.y == scrolled_offset(
                old(self).offset.y as int,
                to as int,
                old(self).size.height as int,
            ),
            old(self).size.height > 0 ==> final(self).offset.y <= to < final(self).offset.y + old(
                self,
            ).size.height,
            final(self).needs_redraw == (old(self).needs_redraw || to < old(self).offset.y || to
                >= sat_cap(old(self).offset.y + old(self).size.height)),
    {
        let height = self.size.height;
        let mut offset_changed = false;
        if to < self.offset.y {
            self.offset.y = to;
            offset_changed = true;
        } else if to >= self.offset.y.saturating_add(height) {
            self.offset.y = to.saturating_sub(height).saturating_add(1);
            offset_changed = true;
        }
        self.needs_redraw = self.needs_redraw || offset_changed;
    }

    /// Scroll the horizontal offset the minimal amount that brings column
    /// `to` into the viewport; an offset change requests a redraw.
    fn scroll_horizontally(&mut self, to: usize)
        ensures
            final(self).view_buffer == old(self).view_buffer,
            final(self).size == old(self).size,
            final(self).location == old(self).location,
            final(self).offset.y == old(self).offset.y,
            final(self).offset.x == scrolled_offset(
                old(self).offset.x as int,
                to as int,
                old(self).size.width as int,
            ),
            old(self).size.width > 0 ==> final(self).offset.x <= to < final(self).offset.x + old(
                self,
            ).size.width,
            final(self).needs_redraw == (old(self).needs_redraw || to < old(self).offset.x || to
                >= sat_cap(old(self).offset.x + old(self).size.width)),
    {
        let width = self.size.width;
        let mut offset_changed = false;
        if to < self.offset.x {
            self.offset.x = to;
            offset_changed = true;
        } else if to >= self.offset.x.saturating_add(width) {
            self.offset.x = to.saturating_sub(width).saturating_add(1);
            offset_changed = true;
        }
        self.needs_redraw = self.needs_redraw || offset_changed;
    }

    /// Clamp the cursor's grapheme index onto its row: snapping to the
    /// row's last valid position when the index points past it. Does not
    /// scroll.
    fn snap_to_valid_grapheme(&mut self)
        ensures
            final(self).view_buffer == old(self).view_buffer,
            final(self).size == old(self).size,
            final(self).offset == old(self).offset,
            final(self).needs_redraw == old(self).needs_redraw,
            final(self).location.y == old(self).location.y,
            final(self).location.x == if old(self).location.x <= old(self).row_count(
                old(self).location.y as int,
            ) {
                old(self).location.x as int
            } else {
                old(self).row_count(old(self).location.y as int)
            },
    {
        let limit = if self.location.y < self.view_buffer.lines.len() {
            self.view_buffer.lines[self.location.y].grapheme_count()
        } else {
            0
        };
        if self.location.x > limit {
            self.location.x = limit;
        }
    }

    /// Clamp the cursor's row index onto the buffer: at most one row past
    /// the last. Does not scroll.
    fn snap_to_valid_line(&mut self)
        ensures
            final(self).view_buffer == old(self).view_buffer,
            final(self).size == old(self).size,
            final(self).offset == old(self).offset,
            final(self).needs_redraw == old(self).needs_redraw,
            final(self).location.x == old(self).location.x,
            final(self).location.y == if old(self).location.y <= old(
                self,
            ).view_buffer.height_spec() {
                old(self).location.y as int
            } else {
                old(self).view_buffer.height_spec() as int
            },
    {
        let height = self.view_buffer.height();
        if self.location.y > height {
            self.location.y = height;
        }
    }

    /// Where `step` rows up leaves the cursor: the row saturates at the
    /// top, and the grapheme index snaps onto the target row.
    pub open spec fn up_loc(self, step: int) -> (int, int) {
        let y2 = if self.location.y >= step {
            self.location.y - step
        } else {
            0
        };
        (
            if self.location.x <= self.row_count(y2) {
                self.location.x as int
            } else {
                self.row_count(y2)
            },
            y2,
        )
    }

    /// Where `step` rows down leaves the cursor: the row saturates at one
    /// past the last, and the grapheme index snaps onto the target row.
    pub open spec fn down_loc(self, step: int) -> (int, int) {
        let y2 = if sat_cap(self.location.y + step) <= self.view_buffer.height_spec() {
            sat_cap(self.location.y + step)
        } else {
            self.view_buffer.height_spec() as int
        };
        (
            if self.location.x <= self.row_count(y2) {
                self.location.x as int
            } else {
                self.row_count(y2)
            },
            y2,
        )
    }

    /// Where one step left leaves the cursor: one grapheme left, or, from
    /// the start of a row that has one above, the end of the row above; at
    /// the document start it stays put.
    pub open spec fn left_loc(self) -> (int, int) {
        if self.location.x > 0 {
            (self.location.x - 1, self.location.y as int)
        } else if self.location.y > 0 {
            (self.row_count(self.location.y - 1), self.location.y - 1)
        } else {
            (0, 0)
        }
    }

    /// Where one step right leaves the cursor.
    pub open spec fn right_loc(self) -> (int, int) {
        right_of(self.view_buffer, self.location)
    }

    fn move_up(&mut self, step: usize)
        requires
            old(self).wf(),
        ensures
            final(self).wf(),
            final(self).view_buffer == old(self).view_buffer,
            final(self).size == old(self).size,
            final(self).offset == old(self).offset,
            final(self).needs_redraw == old(self).needs_redraw,
            final(self).location.x == old(self).up_loc(step as int).0,
            final(self).location.y == old(self).up_loc(step as int).1,
    {
        self.location.y = self.location.y.saturating_sub(step);
        self.snap_to_valid_grapheme();
    }

    fn move_down(&mut self, step: usize)
        requires
            old(self).wf(),
        ensures
            final(self).wf(),
            final(self).view_buffer == old(self).view_buffer,
            final(self).size == old(self).size,
            final(self).offset == old(self).offset,
            final(self).needs_redraw == old(self).needs_redraw,
            final(self).location.x == old(self).down_loc(step as int).0,
            final(self).location.y == old(self).down_loc(step as int).1,
    {
        self.location.y = self.location.y.saturating_add(step);
        self.snap_to_valid_grapheme();
        self.snap_to_valid_line();
    }

    fn move_left(&mut self)
        requires
            old(self).wf(),
        ensures
            final(self).wf(),
            final(self).view_buffer == old(self).view_buffer,
            final(self).size == old(self).size,
            final(self).offset == old(self).offset,
            final(self).needs_redraw == old(self).needs_redraw,
            final(self).location.x == old(self).left_loc().0,
            final(self).location.y == old(self).left_loc().1,
    {
        if self.location.x > 0 {
            self.location.x = self.location.x - 1;
        } else if self.location.y > 0 {
            self.move_up(1);
            self.move_to_end_of_line();
        }
    }

    fn move_right(&mut self)
        requires
            old(self).wf(),
        ensures
            final(self).wf(),
            final(self).view_buffer == old(self).view_buffer,
            final(self).size == old(self).size,
            final(self).offset == old(self).offset,
            final(self).needs_redraw == old(self).needs_redraw,
            final(self).location.x == old(self).right_loc().0,
            final(self).location.y == old(self).right_loc().1,
    {
        let line_width = if self.location.y < self.view_buffer.lines.len() {
            self.view_buffer.lines[self.location.y].grapheme_count()
        } else {
            0
        };
        if self.location.x < line_width {
            self.location.x = self.location.x + 1;
        } else {
            self.move_to_start_of_line();
            self.move_down(1);
        }
    }

    fn move_to_start_of_line(&mut self)
        ensures
            final(self).view_buffer == old(self).view_buffer,
            final(self).size == old(self).size,
            final(self).offset == old(self).offset,
            final(self).needs_redraw == old(self).needs_redraw,
            final(self).location.x == 0,
            final(self).location.y == old(self).location.y,
    {
        self.location.x = 0;
    }

    fn move_to_end_of_line(&mut self)
        ensures
            final(self).view_buffer == old(self).view_buffer,
            final(self).size == old(self).size,
            final(self).offset == old(self).offset,
            final(self).needs_redraw == old(self).needs_redraw,
            final(self).location.x == old(self).row_count(old(self).location.y as int),
            final(self).location.y == old(self).location.y,
    {
        self.location.x = if self.location.y < self.view_buffer.lines.len() {
            self.view_buffer.lines[self.location.y].grapheme_count()
        } else {
            0
        };
    }

    /// The cursor location every `Move` command leads to from this state.
    pub open spec fn moved_loc(self, command: Move) -> (int, int) {
        match command {
            Move::Up => self.up_loc(1),
            Move::Down => self.down_loc(1),
            Move::Left => self.left_loc(),
            Move::Right => self.right_loc(),
            Move::PageUp => self.up_loc(
                if self.size.height > 0 {
                    self.size.height - 1
                } else {
                    0
                },
            ),
            Move::PageDown => self.down_loc(
                if self.size.height > 0 {
                    self.size.height - 1
                } else {
                    0
                },
            ),
            Move::StartOfLine => (0, self.location.y as int),
            Move::EndOfLine => (self.row_count(self.location.y as int), self.location.y as int),
        }
    }

    /// Apply one cursor-movement command, then scroll so the cursor stays
    /// inside the viewport.
    pub fn handle_move_command(&mut self, command: Move)
        requires
            old(self).wf(),
        ensures
            final(self).wf(),
            move_transition(*old(self), *final(self), command),
    {
        let height = self.size.height;
        match command {
            Move::Up => self.move_up(1),
            Move::Down => self.move_down(1),
            Move::Left => self.move_left(),
            Move::Right => self.move_right(),
            Move::PageUp => self.move_up(height.saturating_sub(1)),
            Move::PageDown => self.move_down(height.saturating_sub(1)),
            Move::StartOfLine => self.move_to_start_of_line(),
            Move::EndOfLine => self.move_to_end_of_line(),
        }
        self.scroll_text_location_into_view();
    }

    /// Insert `character` at the cursor. When the row's cluster count grew,
    /// the caret steps right, past the new character (wrapping to the next
    /// line when the insertion was at the row's end); a merge into an
    /// existing cluster leaves the caret in place. The cursor is kept
    /// visible and a redraw is requested.
    pub fn insert_char(&mut self, character: char)
        requires
            old(self).wf(),
        ensures
            final(self).wf(),
            final(self).size == old(self).size,
            insert_char_transition(
                old(self).view_buffer,
                final(self).view_buffer,
                character,
                old(self).location,
            ),
            ({
                let c0 = buffer_row_count(old(self).view_buffer, old(self).location.y as int);
                let c1 = buffer_row_count(final(self).view_buffer, old(self).location.y as int);
                if c1 > c0 {
                    final(self).location.x == right_of(final(self).view_buffer, old(self).location).0
                        && final(self).location.y == right_of(
                        final(self).view_buffer,
                        old(self).location,
                    ).1
                } else {
                    final(self).location == old(self).location
                }
            }),
            final(self).cursor_in_view(),
            final(self).needs_redraw,
    {
        let old_len = if self.location.y < self.view_buffer.lines.len() {
            self.view_buffer.lines[self.location.y].grapheme_count()
        } else {
            0
        };
        self.view_buffer.insert_char(character, self.location);
        let new_len = if self.location.y < self.view_buffer.lines.len() {
            self.view_buffer.lines[self.location.y].grapheme_count()
        } else {
            0
        };
        if new_len > old_len {
            // move right for the added grapheme (the regular case)
            self.handle_move_command(Move::Right);
        } else {
            self.scroll_text_location_into_view();
        }
        self.mark_redraw(true);
    }

    /// Forward-delete at the cursor (removing a grapheme in the row, or
    /// joining the following row at the row's end). The cursor stays where
    /// it is, is kept visible, and a redraw is requested.
    pub fn delete(&mut self)
        requires
            old(self).wf(),
        ensures
            final(self).wf(),
            final(self).size == old(self).size,
            final(self).location == old(self).location,
            delete_transition(old(self).view_buffer, final(self).view_buffer, old(self).location),
            final(self).cursor_in_view(),
            final(self).needs_redraw,
    {
        self.view_buffer.delete(self.location);
        self.scroll_text_location_into_view();
        self.mark_redraw(true);
    }

    /// Backward-delete: a no-op on the buffer at the document start,
    /// otherwise one step left followed by a forward delete there.
    fn backspace(&mut self)
        requires
            old(self).wf(),
        ensures
            final(self).wf(),
            final(self).size == old(self).size,
            final(self).cursor_in_view(),
            (old(self).location.x == 0 && old(self).location.y == 0) ==> {
                &&& final(self).view_buffer == old(self).view_buffer
                &&& final(self).location == old(self).location
            },
            !(old(self).location.x == 0 && old(self).location.y == 0) ==> {
                &&& final(self).location.x == old(self).left_loc().0
                &&& final(self).location.y == old(self).left_loc().1
                &&& delete_transition(
                    old(self).view_buffer,
                    final(self).view_buffer,
                    (Position {
                        x: old(self).left_loc().0 as usize,
                        y: old(self).left_loc().1 as usize,
                    }),
                )
                &&& final(self).needs_redraw
            },
    {
        if self.location.x == 0 && self.location.y == 0 {
            self.scroll_text_location_into_view();
            return ;
        }
        self.handle_move_command(Move::Left);
        self.delete();
    }

    /// Break the current row at the cursor; the caret lands at column 0 of
    /// the newly created row. The cursor is kept visible and a redraw is
    /// requested.
    pub fn insert_newline(&mut self)
        requires
            old(self).wf(),
        ensures
            final(self).wf(),
            final(self).size == old(self).size,
            insert_newline_transition(
                old(self).view_buffer,
                final(self).view_buffer,
                old(self).location,
            ),
            final(self).location.x == right_of(final(self).view_buffer, old(self).location).0,
            final(self).location.y == right_of(final(self).view_buffer, old(self).location).1,
            final(self).cursor_in_view(),
            final(self).needs_redraw,
    {
        self.view_buffer.insert_newline(self.location);
        self.handle_move_command(Move::Right);
        self.mark_redraw(true);
    }

    /// Apply one text-editing command at the cursor. After any of them the
    /// cursor is back inside the viewport.
    pub fn handle_edit_command(&mut self, command: Edit)
        requires
            old(self).wf(),
        ensures
            final(self).wf(),
            edit_transition(*old(self), *final(self), command),
    {
        match command {
            Edit::Insert(character) => self.insert_char(character),
            Edit::Delete => self.delete(),
            Edit::DeleteBackward => self.backspace(),
            Edit::InsertNewline => self.insert_newline(),
        }
    }

    /// Scroll both axes so the cursor's screen position lies inside the
    /// viewport, each axis by its own minimal amount.
    fn scroll_text_location_into_view(&mut self)
        requires
            old(self).wf(),
        ensures
            final(self).wf(),
            final(self).view_buffer == old(self).view_buffer,
            final(self).size == old(self).size,
            final(self).location == old(self).location,
            final(self).cursor_in_view(),
            old(self).needs_redraw ==> final(self).needs_redraw,
    {
        let pos = self.text_location_to_position();
        self.scroll_vertically(pos.y);
        self.scroll_horizontally(pos.x);
    }

    /// Record whether the screen content is stale.
    pub fn mark_redraw(&mut self, value: bool)
        ensures
            final(self).view_buffer == old(self).view_buffer,
            final(self).size == old(self).size,
            final(self).location == old(self).location,
            final(self).offset == old(self).offset,
            final(self).needs_redraw == value,
    {
        self.needs_redraw = value;
    }

    /// Whether the screen content is stale.
    pub fn needs_redraw(&self) -> (r: bool)
        ensures
            r == self.needs_redraw,
    {
        self.needs_redraw
    }

    /// Take a new viewport size and scroll the cursor back into view.
    pub fn set_size(&mut self, size: Size)
        requires
            old(self).wf(),
        ensures
            final(self).wf(),
            final(self).view_buffer == old(self).view_buffer,
            final(self).size == size,
            final(self).location == old(self).location,
            final(self).cursor_in_view(),
            old(self).needs_redraw ==> final(self).needs_redraw,
    {
        self.size = size;
        self.scroll_text_location_into_view();
    }

    /// The document's current standing, for a status display.
    pub fn get_status(&self) -> (r: DocumentStatus)
        ensures
            r.total_lines == self.view_buffer.height_spec(),
            r.current_line_index == self.location.y,
            r.is_modified == self.view_buffer.dirty,
            self.view_buffer.file_info.path matches Some(p) ==> r.file_name@ == p@,
            self.view_buffer.file_info.path is None ==> r.file_name@ == "No Name"@,
    {
        let file_name = match &self.view_buffer.file_info.path {
            Some(p) => p.clone(),
            None => String::from_str("No Name"),
        };
        DocumentStatus {
            total_lines: self.view_buffer.height(),
            current_line_index: self.location.y,
            file_name,
            is_modified: self.view_buffer.dirty,
        }
    }

    /// Replace the buffer with one loaded from a file's text and request a
    /// redraw.
    pub fn load(&mut self, contents: &str, file_name: &str)
        ensures
            final(self).wf(),
            final(self).view_buffer.texts() == lines_of(contents@),
            final(self).view_buffer.file_info.path matches Some(p) && p@ == file_name@,
            !final(self).view_buffer.dirty,
            final(self).size == old(self).size,
            final(self).location == old(self).location,
            final(self).offset == old(self).offset,
            final(self).needs_redraw,
    {
        self.view_buffer = Buffer::load(contents, file_name);
        self.mark_redraw(true);
    }

    /// Whether a file identity is attached to the buffer.
    pub fn is_file_loaded(&self) -> (r: bool)
        ensures
            r == (self.view_buffer.file_info.path is Some),
    {
        match &self.view_buffer.file_info.path {
            Some(_) => true,
            None => false,
        }
    }

    /// What a save must write and where: the buffer serialized with a
    /// newline after every row, bound for the known path; `None` when no
    /// path is known (a save-as must supply one first).
    pub fn save(&self) -> (r: Option<SaveRequest>)
        ensures
            r is Some <==> self.view_buffer.file_info.path is Some,
            r matches Some(req) ==> {
                &&& self.view_buffer.file_info.path matches Some(p) && req.path@ == p@
                &&& req.contents@ == serialized(self.view_buffer.texts())
            },
    {
        match &self.view_buffer.file_info.path {
            Some(p) => Some(
                SaveRequest { path: p.clone(), contents: self.view_buffer.render_contents() },
            ),
            None => None,
        }
    }

    /// Adopt `file_name` as the buffer's path and return what a save must
    /// write there.
    pub fn save_as(&mut self, file_name: &str) -> (r: SaveRequest)
        ensures
            final(self).view_buffer.lines == old(self).view_buffer.lines,
            final(self).view_buffer.dirty == old(self).view_buffer.dirty,
            final(self).view_buffer.file_info.path matches Some(p) && p@ == file_name@,
            final(self).size == old(self).size,
            final(self).location == old(self).location,
            final(self).offset == old(self).offset,
            final(self).needs_redraw == old(self).needs_redraw,
            r.path@ == file_name@,
            r.contents@ == serialized(old(self).view_buffer.texts()),
    {
        self.view_buffer.set_path(file_name);
        SaveRequest {
            path: String::from_str(file_name),
            contents: self.view_buffer.render_contents(),
        }
    }

    /// The row shown on an empty buffer's placeholder line: a `'~'` with
    /// the greeting centered after it, or the bare `'~'` when it does not
    /// fit, or nothing at zero width.
    fn build_welcome_message(width: usize) -> (r: String)
        ensures
            r@ == centered_welcome(welcome_text(), width as int),
    {
        let mut result = String::new();
        if width == 0 {
            return result;
        }
        let message = "edit_core editor -- version 0.1.0";
        let len = message.unicode_len();
        let remaining_width = width - 1;
        if remaining_width <= len {
            push_char(&mut result, '~');
            proof {
                assert(result@ =~= seq!['~']);
            }
            return result;
        }
        let pad = remaining_width - len;
        push_char(&mut result, '~');
        let mut i: usize = 0;
        while i < pad / 2
            invariant
                result@ == seq!['~'] + spaces(i as int),
                i <= pad / 2,
            decreases pad / 2 - i,
        {
            push_char(&mut result, ' ');
            i = i + 1;
        }
        result.append(message);
        let right_pad = pad - pad / 2;
        let mut j: usize = 0;
        while j < right_pad
            invariant
                result@ == seq!['~'] + spaces(pad as int / 2) + welcome_text() + spaces(j as int),
                j <= right_pad,
            decreases right_pad - j,
        {
            push_char(&mut result, ' ');
            j = j + 1;
        }
        proof {
            assert(result@ =~= seq!['~'] + spaces(pad as int / 2) + welcome_text() + spaces(
                pad as int - pad as int / 2,
            ));
        }
        result
    }

    /// The text of the screen row `k` rows below the window's origin: the
    /// matching buffer row's visible slice through the scroll offsets, or,
    /// on an empty buffer, the greeting one third of the way down the
    /// viewport, or a `'~'` placeholder.
    pub open spec fn rendered_row(self, origin: int, k: int) -> Seq<char> {
        let idx = sat_cap(k + self.offset.y);
        if idx < self.view_buffer.lines@.len() {
            self.view_buffer.lines@[idx].visible_spec(
                self.offset.x as int,
                sat_cap(self.offset.x + self.size.width),
            )
        } else if sat_cap(origin + k) == self.size.height / 3
            && self.view_buffer.lines@.len() == 0 {
            centered_welcome(welcome_text(), self.size.width as int)
        } else {
            seq!['~']
        }
    }

    /// One full draw pass over the window that starts `origin_y` screen
    /// rows down: the text for each of the viewport's rows, in order.
    pub fn render_rows(&self, origin_y: usize) -> (r: Vec<String>)
        requires
            self.wf(),
        ensures
            r@.len() == sat_cap(origin_y + self.size.height) - origin_y,
            forall|k: int| 0 <= k < r@.len() ==> r@[k]@ == self.rendered_row(origin_y as int, k),
    {
        let end_y = origin_y.saturating_add(self.size.height);
        let n = end_y - origin_y;
        let mut rows: Vec<String> = Vec::new();
        let mut k: usize = 0;
        while k < n
            invariant
                self.wf(),
                k <= n,
                n == sat_cap(origin_y + self.size.height) - origin_y,
                rows@.len() == k,
                forall|j: int| 0 <= j < k ==> rows@[j]@ == self.rendered_row(origin_y as int, j),
            decreases n - k,
        {
            let idx = k.saturating_add(self.offset.y);
            let text = if idx < self.view_buffer.lines.len() {
                let right = self.offset.x.saturating_add(self.size.width);
                self.view_buffer.lines[idx].get_visible_graphemes(self.offset.x..right)
            } else if origin_y.saturating_add(k) == self.size.height / 3
                && self.view_buffer.lines.len() == 0 {
                Self::build_welcome_message(self.size.width)
            } else {
                let mut t = String::new();
                push_char(&mut t, '~');
                proof {
                    assert(t@ =~= seq!['~']);
                }
                t
            };
            rows.push(text);
            k = k + 1;
        }
        rows
    }

    /// Record that a save request completed successfully: the buffer's
    /// contents have reached the disk.
    pub fn confirm_saved(&mut self)
        ensures
            final(self).view_buffer.lines == old(self).view_buffer.lines,
            final(self).view_buffer.file_info == old(self).view_buffer.file_info,
            !final(self).view_buffer.dirty,
            final(self).size == old(self).size,
            final(self).location == old(self).location,
            final(self).offset == old(self).offset,
            final(self).needs_redraw == old(self).needs_redraw,
    {
        self.view_buffer.mark_saved();
    }
}

/// `n` spaces of padding.
pub open spec fn spaces(n: int) -> Seq<char>
    decreases n,
{
    if n <= 0 {
        Seq::<char>::empty()
    } else {
        spaces(n - 1).push(' ')
    }
}

/// The greeting shown on an empty buffer.
pub open spec fn welcome_text() -> Seq<char> {
    "edit_core editor -- version 0.1.0"@
}

/// `msg` centered after a `'~'` in a row of `width` columns: nothing for a
/// zero-width row, the bare `'~'` when the message does not fit, and
/// otherwise the message between two pads whose lengths differ by at most
/// one (the wider pad on the right).
pub open spec fn centered_welcome(msg: Seq<char>, width: int) -> Seq<char> {
    if width == 0 {
        Seq::<char>::empty()
    } else if width - 1 <= msg.len() {
        seq!['~']
    } else {
        let pad = width - 1 - msg.len();
        seq!['~'] + spaces(pad / 2) + msg + spaces(pad - pad / 2)
    }
}

/// A snapshot of the document's standing for a status display.
pub struct DocumentStatus {
    pub total_lines: usize,
    pub current_line_index: usize,
    pub file_name: String,
    pub is_modified: bool,
}

/// One pending write to disk: the full serialized contents and the path
/// they are bound for.
pub struct SaveRequest {
    pub path: String,
    pub contents: String,
}

} // verus!
