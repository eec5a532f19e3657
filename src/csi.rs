use vstd::prelude::*;

use crate::event::{emit, views, Event, EventView};
use crate::report::{attributes_reply, attributes_report, position_reply, position_report};
use crate::state::{at_least, at_most, fit, fit_pos, State};

verus! {

/// Parameter `i` of a control sequence, or `d` when it is absent.
pub open spec fn param(ps: Seq<i64>, i: int, d: int) -> int {
    if 0 <= i < ps.len() {
        ps[i] as int
    } else {
        d
    }
}

/// A repeat count: a parameter below one counts as one.
pub open spec fn count(p: int) -> int {
    if p < 1 {
        1
    } else {
        p
    }
}

/// Does the sequence carry the `?` marker of the DEC private modes?
pub open spec fn is_private(is: Seq<u8>) -> bool {
    is.len() > 0 && is[0] == 0x3f
}

/// The final bytes of the cursor movement commands.
pub open spec fn is_cursor_command(c: char) -> bool {
    c == 'A' || c == 'B' || c == 'C' || c == 'D' || c == 'E' || c == 'F' || c == 'G' || c == 'H'
        || c == 'f' || c == 'd' || c == 's' || c == 'u'
}

impl State {
    /// The state after the saved cursor position is restored (clamped into
    /// the screen, which may have shrunk since).
    pub open spec fn restored(self) -> State {
        State {
            x: fit(self.save_x as int, self.w as int) as usize,
            y: fit(self.save_y as int, self.h as int) as usize,
            ..self
        }
    }

    /// The state with the cursor position saved in the single save slot.
    pub open spec fn saved(self) -> State {
        State { save_x: self.x, save_y: self.y, ..self }
    }

    /// Is the cursor on a row of the scroll region?
    pub open spec fn in_region(self) -> bool {
        self.top_margin <= self.y <= self.bottom_margin
    }

    /// Vertical cursor movement: up and down stop at the scroll margins when
    /// the cursor starts inside the region, else at the screen edges; next and
    /// previous line also return to the first column; `d` moves to a 1-based
    /// row.
    pub open spec fn vertical_state(self, c: char, ps: Seq<i64>) -> State {
        let n = count(param(ps, 0, 1));
        if c == 'A' {
            let lo: int = if self.in_region() {
                self.top_margin as int
            } else {
                0
            };
            State { y: at_least(self.y - n, lo) as usize, ..self }
        } else if c == 'B' {
            let end: int = if self.in_region() {
                self.bottom_margin + 1
            } else {
                self.h as int
            };
            State { y: fit(self.y + n, end) as usize, ..self }
        } else if c == 'E' {
            State { x: 0, y: fit(self.y + n, self.h as int) as usize, ..self }
        } else if c == 'F' {
            State { x: 0, y: at_least(self.y - n, 0) as usize, ..self }
        } else {
            State { y: fit(param(ps, 0, 1) - 1, self.h as int) as usize, ..self }
        }
    }

    /// Horizontal cursor movement, stopping at the screen edges; `G` moves
    /// to a 1-based column.
    pub open spec fn horizontal_state(self, c: char, ps: Seq<i64>) -> State {
        let n = count(param(ps, 0, 1));
        if c == 'C' {
            State { x: fit(self.x + n, self.w as int) as usize, ..self }
        } else if c == 'D' {
            State { x: at_least(self.x - n, 0) as usize, ..self }
        } else {
            State { x: fit(n - 1, self.w as int) as usize, ..self }
        }
    }

    /// Absolute cursor position, 1-based, clamped into the screen; the row is
    /// relative to the scroll region in origin mode.
    pub open spec fn position_state(self, ps: Seq<i64>) -> State {
        let n = count(param(ps, 0, 1));
        let row: int = if self.origin {
            fit(n - 1 + self.top_margin, self.bottom_margin + 1)
        } else {
            fit(n - 1, self.h as int)
        };
        State { x: fit(count(param(ps, 1, 1)) - 1, self.w as int) as usize, y: row as usize, ..self }
    }

    /// The cursor movement commands, and saving and restoring the cursor.
    pub open spec fn cursor_state(self, c: char, ps: Seq<i64>) -> State {
        if c == 'A' || c == 'B' || c == 'E' || c == 'F' || c == 'd' {
            self.vertical_state(c, ps)
        } else if c == 'C' || c == 'D' || c == 'G' {
            self.horizontal_state(c, ps)
        } else if c == 'H' || c == 'f' {
            self.position_state(ps)
        } else if c == 's' {
            self.saved()
        } else {
            self.restored()
        }
    }

    /// Moves the cursor up or down.
    fn move_vertical(&self, c: char, params: &[i64]) -> (r: State)
        requires
            self.wf(),
        ensures
            r == self.vertical_state(c, params@),
            r.wf(),
    {
        let s = *self;
        let n = count_of(param_at(params, 0, 1));
        let inside = s.top_margin <= s.y && s.y <= s.bottom_margin;
        if c == 'A' {
            let lo = if inside {
                s.top_margin
            } else {
                0
            };
            let v = s.y as i128 - n;
            State {
                y: if v < lo as i128 {
                    lo
                } else {
                    v as usize
                },
                ..s
            }
        } else if c == 'B' {
            let end = if inside {
                s.bottom_margin + 1
            } else {
                s.h
            };
            State { y: fit_pos(s.y as i128 + n, end), ..s }
        } else if c == 'E' {
            State { x: 0, y: fit_pos(s.y as i128 + n, s.h), ..s }
        } else if c == 'F' {
            let v = s.y as i128 - n;
            State {
                x: 0,
                y: if v < 0 {
                    0
                } else {
                    v as usize
                },
                ..s
            }
        } else {
            State { y: fit_pos(param_at(params, 0, 1) - 1, s.h), ..s }
        }
    }

    /// Moves the cursor left or right.
    fn move_horizontal(&self, c: char, params: &[i64]) -> (r: State)
        requires
            self.wf(),
        ensures
            r == self.horizontal_state(c, params@),
            r.wf(),
    {
        let s = *self;
        let n = count_of(param_at(params, 0, 1));
        if c == 'C' {
            State { x: fit_pos(s.x as i128 + n, s.w), ..s }
        } else if c == 'D' {
            let v = s.x as i128 - n;
            State {
                x: if v < 0 {
                    0
                } else {
                    v as usize
                },
                ..s
            }
        } else {
            State { x: fit_pos(n - 1, s.w), ..s }
        }
    }

    /// Moves the cursor to an absolute position.
    fn move_to(&self, params: &[i64]) -> (r: State)
        requires
            self.wf(),
        ensures
            r == self.position_state(params@),
            r.wf(),
    {
        let s = *self;
        let n = count_of(param_at(params, 0, 1));
        let row = if s.origin {
            fit_pos(n - 1 + s.top_margin as i128, s.bottom_margin + 1)
        } else {
            fit_pos(n - 1, s.h)
        };
        State { x: fit_pos(count_of(param_at(params, 1, 1)) - 1, s.w), y: row, ..s }
    }

    /// Handles the cursor movement commands.
    fn move_cursor(&self, c: char, params: &[i64]) -> (r: State)
        requires
            self.wf(),
        ensures
            r == self.cursor_state(c, params@),
            r.wf(),
    {
        if c == 'A' || c == 'B' || c == 'E' || c == 'F' || c == 'd' {
            self.move_vertical(c, params)
        } else if c == 'C' || c == 'D' || c == 'G' {
            self.move_horizontal(c, params)
        } else if c == 'H' || c == 'f' {
            self.move_to(params)
        } else if c == 's' {
            State { save_x: self.x, save_y: self.y, ..*self }
        } else {
            self.restore()
        }
    }

    /// Painting a rectangle of cells with the background color.
    pub open spec fn fill(self, x: int, y: int, w: int, h: int) -> EventView {
        EventView::Rect {
            x: x as usize,
            y: y as usize,
            w: w as usize,
            h: h as usize,
            color: self.background,
        }
    }

    /// Erase in display: `0` from the cursor to the end of the screen, `1`
    /// from the start of the screen up to the cursor, `2` the whole screen.
    pub open spec fn erase_display_events(self, p: int) -> Seq<EventView> {
        if p == 0 {
            seq![
                self.fill(self.x as int, self.y as int, self.w - self.x, 1),
                self.fill(0, self.y + 1, self.w as int, at_least(self.h - self.y - 1, 0)),
            ]
        } else if p == 1 {
            seq![
                self.fill(0, 0, self.w as int, self.y as int),
                self.fill(0, self.y as int, self.x as int, 1),
            ]
        } else if p == 2 {
            seq![self.fill(0, 0, self.w as int, self.h as int)]
        } else {
            seq![]
        }
    }

    /// Erase in line: `0` from the cursor to the end of the row, `1` from
    /// the start of the row up to the cursor, `2` the whole row.
    pub open spec fn erase_line_events(self, p: int) -> Seq<EventView> {
        if p == 0 {
            seq![self.fill(self.x as int, self.y as int, self.w - self.x, 1)]
        } else if p == 1 {
            seq![self.fill(0, self.y as int, self.x as int, 1)]
        } else if p == 2 {
            seq![self.fill(0, self.y as int, self.w as int, 1)]
        } else {
            seq![]
        }
    }

    /// How many cells a delete or insert of `p` characters shifts: at most
    /// the cells right of the cursor but one, and none for `p` below one.
    pub open spec fn shift_cols(self, p: int) -> int {
        at_least(at_most(self.w - self.x - 1, p), 0)
    }

    /// Deleting characters: the rest of the row moves left, and the cells
    /// freed at its end are painted with the background color.
    pub open spec fn delete_events(self, p: int) -> Seq<EventView> {
        let k = self.shift_cols(p);
        seq![
            EventView::Move {
                from_x: (self.x + k) as usize,
                from_y: self.y,
                to_x: self.x,
                to_y: self.y,
                w: (self.w - (self.x + k)) as usize,
                h: 1,
            },
            self.fill(self.w - k, self.y as int, k, 1),
        ]
    }

    /// Inserting blank characters: the rest of the row moves right, and the
    /// cells freed at the cursor are painted with the background color.
    pub open spec fn insert_events(self, p: int) -> Seq<EventView> {
        let k = self.shift_cols(p);
        seq![
            EventView::Move {
                from_x: self.x,
                from_y: self.y,
                to_x: (self.x + k) as usize,
                to_y: self.y,
                w: (self.w - (self.x + k)) as usize,
                h: 1,
            },
            self.fill(self.x as int, self.y as int, k, 1),
        ]
    }

    /// The final bytes of the commands that erase, shift or scroll cells.
    pub open spec fn is_edit_command(c: char) -> bool {
        c == 'J' || c == 'K' || c == 'P' || c == '@' || c == 'S' || c == 'T'
    }

    /// The state after an erase, shift or scroll command: the erase commands
    /// first bring the cursor onto the screen, and erasing the whole screen
    /// homes it.
    pub open spec fn edit_state(self, c: char, ps: Seq<i64>) -> State {
        if c == 'J' {
            if param(ps, 0, 0) == 2 {
                State { x: 0, y: 0, ..self.fix_state() }
            } else {
                self.fix_state()
            }
        } else if c == 'K' {
            self.fix_state()
        } else {
            self
        }
    }

    /// The events of an erase, shift or scroll command.
    pub open spec fn edit_events(self, c: char, ps: Seq<i64>) -> Seq<EventView> {
        if c == 'J' {
            self.fix_events() + self.fix_state().erase_display_events(param(ps, 0, 0))
        } else if c == 'K' {
            self.fix_events() + self.fix_state().erase_line_events(param(ps, 0, 0))
        } else if c == 'P' {
            self.delete_events(param(ps, 0, 1))
        } else if c == '@' {
            self.insert_events(param(ps, 0, 1))
        } else if c == 'S' {
            self.scroll_events(at_least(param(ps, 0, 1), 0))
        } else {
            self.reverse_scroll_events(at_least(param(ps, 0, 1), 0))
        }
    }

    /// Paints a rectangle with the background color.
    fn paint(&self, x: usize, y: usize, w: usize, h: usize, events: &mut Vec<Event>)
        ensures
            views(final(events)@) == views(old(events)@).push(
                self.fill(x as int, y as int, w as int, h as int),
            ),
    {
        emit(events, Event::Rect { x, y, w, h, color: self.background });
    }

    /// Erases part of the screen (the cursor is on the screen).
    fn erase_display(&self, p: i128, events: &mut Vec<Event>)
        requires
            self.wf(),
        ensures
            views(final(events)@) == views(old(events)@) + self.erase_display_events(p as int),
    {
        let s = *self;
        if p == 0 {
            s.paint(s.x, s.y, s.w - s.x, 1, events);
            s.paint(0, s.y + 1, s.w, s.h.saturating_sub(s.y + 1), events);
        } else if p == 1 {
            s.paint(0, 0, s.w, s.y, events);
            s.paint(0, s.y, s.x, 1, events);
        } else if p == 2 {
            s.paint(0, 0, s.w, s.h, events);
        }
        assert(views(events@) =~= views(old(events)@) + self.erase_display_events(p as int));
    }

    /// Erases part of the cursor's row (the cursor is on the screen).
    fn erase_line(&self, p: i128, events: &mut Vec<Event>)
        requires
            self.wf(),
        ensures
            views(final(events)@) == views(old(events)@) + self.erase_line_events(p as int),
    {
        let s = *self;
        if p == 0 {
            s.paint(s.x, s.y, s.w - s.x, 1, events);
        } else if p == 1 {
            s.paint(0, s.y, s.x, 1, events);
        } else if p == 2 {
            s.paint(0, s.y, s.w, 1, events);
        }
        assert(views(events@) =~= views(old(events)@) + self.erase_line_events(p as int));
    }

    /// The number of cells that a delete or insert of `p` characters shifts.
    fn shift(&self, p: i128) -> (k: usize)
        requires
            self.wf(),
        ensures
            k == self.shift_cols(p as int),
            self.x + k <= self.w || self.w == 0 && k == 0,
    {
        let room = self.w as i128 - self.x as i128 - 1;
        let k = if p < room {
            p
        } else {
            room
        };
        if k < 0 {
            0
        } else {
            k as usize
        }
    }

    /// Deletes characters at the cursor.
    fn delete_chars(&self, p: i128, events: &mut Vec<Event>)
        requires
            self.wf(),
        ensures
            views(final(events)@) == views(old(events)@) + self.delete_events(p as int),
    {
        let k = self.shift(p);
        emit(
            events,
            Event::Move {
                from_x: self.x + k,
                from_y: self.y,
                to_x: self.x,
                to_y: self.y,
                w: self.w - (self.x + k),
                h: 1,
            },
        );
        self.paint(self.w - k, self.y, k, 1, events);
        assert(views(events@) =~= views(old(events)@) + self.delete_events(p as int));
    }

    /// Inserts blank characters at the cursor.
    fn insert_chars(&self, p: i128, events: &mut Vec<Event>)
        requires
            self.wf(),
        ensures
            views(final(events)@) == views(old(events)@) + self.insert_events(p as int),
    {
        let k = self.shift(p);
        emit(
            events,
            Event::Move {
                from_x: self.x,
                from_y: self.y,
                to_x: self.x + k,
                to_y: self.y,
                w: self.w - (self.x + k),
                h: 1,
            },
        );
        self.paint(self.x, self.y, k, 1, events);
        assert(views(events@) =~= views(old(events)@) + self.insert_events(p as int));
    }

    /// Handles the erase, shift and scroll commands.
    fn edit(&self, c: char, params: &[i64], events: &mut Vec<Event>) -> (r: State)
        requires
            self.wf(),
            State::is_edit_command(c),
        ensures
            r == self.edit_state(c, params@),
            views(final(events)@) == views(old(events)@) + self.edit_events(c, params@),
            r.wf(),
    {
        if c == 'J' || c == 'K' {
            let ghost e0 = views(events@);
            let f = self.fix_cursor(events);
            let p = param_at(params, 0, 0);
            if c == 'J' {
                f.erase_display(p, events);
                proof {
                    vstd::seq_lib::lemma_concat_associative(
                        e0,
                        self.fix_events(),
                        f.erase_display_events(p as int),
                    );
                }
                if p == 2 {
                    State { x: 0, y: 0, ..f }
                } else {
                    f
                }
            } else {
                f.erase_line(p, events);
                proof {
                    vstd::seq_lib::lemma_concat_associative(
                        e0,
                        self.fix_events(),
                        f.erase_line_events(p as int),
                    );
                }
                f
            }
        } else {
            let p = param_at(params, 0, 1);
            if c == 'P' {
                self.delete_chars(p, events);
            } else if c == '@' {
                self.insert_chars(p, events);
            } else {
                let rows = if p < 0 {
                    0
                } else if p > usize::MAX as i128 {
                    usize::MAX
                } else {
                    p as usize
                };
                assert(self.region_shift(rows as int) == self.region_shift(at_least(p as int, 0)));
                if c == 'S' {
                    self.scroll(rows, events);
                } else {
                    self.reverse_scroll(rows, events);
                }
            }
            *self
        }
    }

    /// Setting (`set`) or resetting a DEC private mode; sequences without
    /// the `?` marker and unknown modes change nothing.
    pub open spec fn mode_state(self, set: bool, ps: Seq<i64>, is: Seq<u8>) -> State {
        if is_private(is) {
            self.mode_applied(set, param(ps, 0, 0))
        } else {
            self
        }
    }

    /// Setting or resetting DEC private mode `p`.
    pub open spec fn mode_applied(self, set: bool, p: int) -> State {
        if p == 3 {
            State {
                x: 0,
                y: 0,
                top_margin: 0,
                bottom_margin: fit(self.h - 1, self.h as int) as usize,
                w: if set {
                    132
                } else {
                    80
                },
                ..self
            }
        } else if p == 6 {
            State {
                origin: set,
                x: 0,
                y: if set {
                    self.top_margin
                } else {
                    0
                },
                ..self
            }
        } else if p == 7 || p == 25 || p == 1000 || p == 1002 || p == 1006 || p == 1015 {
            self.flag_applied(set, p)
        } else if p == 1048 || p == 1049 {
            if set {
                self.saved()
            } else {
                self.restored()
            }
        } else {
            self
        }
    }

    /// Setting or resetting one of the mode flags: autowrap, cursor
    /// visibility, and the four mouse reporting modes.
    pub open spec fn flag_applied(self, set: bool, p: int) -> State {
        if p == 7 {
            State { autowrap: set, ..self }
        } else if p == 25 {
            State { cursor: set, ..self }
        } else if p == 1000 {
            State { mouse_vt200: set, ..self }
        } else if p == 1002 {
            State { mouse_btn: set, ..self }
        } else if p == 1006 {
            State { mouse_sgr: set, ..self }
        } else if p == 1015 {
            State { mouse_rxvt: set, ..self }
        } else {
            self
        }
    }

    /// The events of setting or resetting a DEC private mode: the column
    /// switch resizes and clears the screen; the alternate screen modes
    /// switch buffers.
    pub open spec fn mode_events(self, set: bool, ps: Seq<i64>, is: Seq<u8>) -> Seq<EventView> {
        if is_private(is) {
            self.mode_switch_events(set, param(ps, 0, 0))
        } else {
            seq![]
        }
    }

    /// The events of setting or resetting DEC private mode `p`.
    pub open spec fn mode_switch_events(self, set: bool, p: int) -> Seq<EventView> {
        if p == 3 {
            let w: usize = if set {
                132
            } else {
                80
            };
            seq![EventView::Resize { w, h: self.h }, self.fill(0, 0, w as int, self.h as int)]
        } else if p == 47 {
            seq![EventView::ScreenBuffer { alternate: set, clear: false }]
        } else if p == 1047 {
            seq![EventView::ScreenBuffer { alternate: set, clear: !set }]
        } else if p == 1049 {
            seq![EventView::ScreenBuffer { alternate: set, clear: set }]
        } else {
            seq![]
        }
    }

    /// Setting the scroll region to the 1-based rows `top..=bottom`, clamped
    /// into the screen, with `bottom` no higher than `top`.
    pub open spec fn margins_state(self, ps: Seq<i64>) -> State {
        let top = fit(param(ps, 0, 1) - 1, self.h as int);
        State {
            top_margin: top as usize,
            bottom_margin: at_least(at_most(param(ps, 1, self.h as int) - 1, self.h - 1), top) as usize,
            ..self
        }
    }

    /// Sets or resets a DEC private mode.
    fn set_mode(&self, set: bool, params: &[i64], intermediates: &[u8], events: &mut Vec<Event>) -> (r: State)
        requires
            self.wf(),
        ensures
            r == self.mode_state(set, params@, intermediates@),
            views(final(events)@) == views(old(events)@) + self.mode_events(set, params@, intermediates@),
            r.wf(),
    {
        if intermediates.len() == 0 || intermediates[0] != 0x3f {
            assert(views(events@) =~= views(old(events)@) + seq![]);
            *self
        } else {
            let p = param_at(params, 0, 0);
            self.switch_events(set, p, events);
            self.apply_mode(set, p)
        }
    }

    /// Emits the events of setting or resetting mode `p`.
    fn switch_events(&self, set: bool, p: i128, events: &mut Vec<Event>)
        ensures
            views(final(events)@) == views(old(events)@) + self.mode_switch_events(set, p as int),
    {
        if p == 3 {
            let w = if set {
                132
            } else {
                80
            };
            emit(events, Event::Resize { w, h: self.h });
            self.paint(0, 0, w, self.h, events);
        } else if p == 47 || p == 1047 || p == 1049 {
            let clear = if p == 47 {
                false
            } else if p == 1047 {
                !set
            } else {
                set
            };
            emit(events, Event::ScreenBuffer { alternate: set, clear });
        }
        assert(views(events@) =~= views(old(events)@) + self.mode_switch_events(set, p as int));
    }

    /// The state after setting or resetting mode `p`.
    fn apply_mode(&self, set: bool, p: i128) -> (r: State)
        requires
            self.wf(),
        ensures
            r == self.mode_applied(set, p as int),
            r.wf(),
    {
        let s = *self;
        if p == 3 {
            s.switch_columns(set)
        } else if p == 6 {
            State {
                origin: set,
                x: 0,
                y: if set {
                    s.top_margin
                } else {
                    0
                },
                ..s
            }
        } else if p == 7 || p == 25 || p == 1000 || p == 1002 || p == 1006 || p == 1015 {
            s.apply_flag(set, p)
        } else if p == 1048 || p == 1049 {
            if set {
                State { save_x: s.x, save_y: s.y, ..s }
            } else {
                s.restore()
            }
        } else {
            s
        }
    }

    /// Switches between 132 (`set`) and 80 columns.
    fn switch_columns(&self, set: bool) -> (r: State)
        requires
            self.wf(),
        ensures
            r == self.mode_applied(set, 3),
            r.wf(),
    {
        let w = if set {
            132
        } else {
            80
        };
        State { x: 0, y: 0, top_margin: 0, bottom_margin: self.h.saturating_sub(1), w, ..*self }
    }

    /// Sets or resets one of the mode flags.
    fn apply_flag(&self, set: bool, p: i128) -> (r: State)
        requires
            self.wf(),
        ensures
            r == self.flag_applied(set, p as int),
            r.wf(),
    {
        let s = *self;
        if p == 7 {
            State { autowrap: set, ..s }
        } else if p == 25 {
            State { cursor: set, ..s }
        } else if p == 1000 {
            State { mouse_vt200: set, ..s }
        } else if p == 1002 {
            State { mouse_btn: set, ..s }
        } else if p == 1006 {
            State { mouse_sgr: set, ..s }
        } else if p == 1015 {
            State { mouse_rxvt: set, ..s }
        } else {
            s
        }
    }

    /// Sets the scroll region.
    fn set_margins(&self, params: &[i64]) -> (r: State)
        requires
            self.wf(),
        ensures
            r == self.margins_state(params@),
            r.wf(),
    {
        let s = *self;
        let top = fit_pos(param_at(params, 0, 1) - 1, s.h);
        let bottom = param_at(params, 1, s.h as i128) - 1;
        let bottom = if bottom > s.h as i128 - 1 {
            s.h as i128 - 1
        } else {
            bottom
        };
        let bottom = if bottom < top as i128 {
            top
        } else {
            bottom as usize
        };
        State { top_margin: top, bottom_margin: bottom, ..s }
    }

    /// The state after the control sequence with final byte `c`,
    /// parameters `ps` and intermediate bytes `is`. Unknown sequences change
    /// nothing.
    pub open spec fn csi_state(self, c: char, ps: Seq<i64>, is: Seq<u8>) -> State {
        if is_cursor_command(c) {
            self.cursor_state(c, ps)
        } else if State::is_edit_command(c) {
            self.edit_state(c, ps)
        } else if c == 'h' || c == 'l' {
            self.mode_state(c == 'h', ps, is)
        } else if c == 'm' {
            self.sgr_state(ps)
        } else if c == 'r' {
            self.margins_state(ps)
        } else {
            self
        }
    }

    /// The events of the control sequence with final byte `c`: erasing,
    /// shifting, scrolling, mode switches, and the replies to device
    /// attribute (`c`) and cursor position (`6n`) requests.
    pub open spec fn csi_events(self, c: char, ps: Seq<i64>, is: Seq<u8>) -> Seq<EventView> {
        if State::is_edit_command(c) {
            self.edit_events(c, ps)
        } else if c == 'h' || c == 'l' {
            self.mode_events(c == 'h', ps, is)
        } else if c == 'c' {
            seq![EventView::Input { data: attributes_report() }]
        } else if c == 'n' && param(ps, 0, 0) == 6 {
            seq![EventView::Input { data: position_report(self.x as nat, self.y as nat) }]
        } else {
            seq![]
        }
    }

    /// Handles a control sequence (`ESC [` ...) with final byte `c`.
    pub fn csi(&mut self, c: char, params: &[i64], intermediates: &[u8], events: &mut Vec<Event>)
        requires
            old(self).wf(),
        ensures
            final(self).wf(),
            *final(self) == old(self).csi_state(c, params@, intermediates@),
            views(final(events)@) == views(old(events)@) + old(self).csi_events(
                c,
                params@,
                intermediates@,
            ),
    {
        let s = *self;
        if c == 'J' || c == 'K' || c == 'P' || c == '@' || c == 'S' || c == 'T' {
            *self = s.edit(c, params, events);
        } else if c == 'h' || c == 'l' {
            *self = s.set_mode(c == 'h', params, intermediates, events);
        } else {
            *self = s.quiet_csi(c, params);
            if c == 'c' {
                emit(events, Event::Input { data: attributes_reply() });
            } else if c == 'n' && param_at(params, 0, 0) == 6 {
                emit(events, Event::Input { data: position_reply(s.x, s.y) });
            } else {
                assert(views(events@) =~= views(old(events)@) + seq![]);
            }
        }
    }

    /// The control sequences that change the state without emitting events.
    fn quiet_csi(&self, c: char, params: &[i64]) -> (r: State)
        requires
            self.wf(),
            !State::is_edit_command(c),
            c != 'h' && c != 'l',
        ensures
            r == self.csi_state(c, params@, seq![]),
            r.wf(),
    {
        if c == 'A' || c == 'B' || c == 'C' || c == 'D' || c == 'E' || c == 'F' || c == 'G' || c
            == 'H' || c == 'f' || c == 'd' || c == 's' || c == 'u' {
            self.move_cursor(c, params)
        } else if c == 'm' {
            let r = self.sgr(params);
            proof {
                self.lemma_sgr_keeps_wf(params@);
            }
            r
        } else if c == 'r' {
            self.set_margins(params)
        } else {
            *self
        }
    }

    /// Restores the saved cursor position.
    pub(crate) fn restore(&self) -> (r: State)
        requires
            self.wf(),
        ensures
            r == self.restored(),
            r.wf(),
    {
        State { x: fit_pos(self.save_x as i128, self.w), y: fit_pos(self.save_y as i128, self.h), ..*self }
    }
}

/// Parameter `i`, or `d` when it is absent.
fn param_at(params: &[i64], i: usize, d: i128) -> (r: i128)
    ensures
        r == param(params@, i as int, d as int),
{
    if i < params.len() {
        params[i] as i128
    } else {
        d
    }
}

/// The repeat count of parameter value `p`.
fn count_of(p: i128) -> (r: i128)
    ensures
        r == count(p as int),
{
    if p < 1 {
        1
    } else {
        p
    }
}

} // verus!
