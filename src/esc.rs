use vstd::prelude::*;

use crate::event::{emit, views, Event, EventView};
use crate::state::{fit, State};

verus! {

/// `k` copies of `es`, one after the other.
pub open spec fn repeat(es: Seq<EventView>, k: nat) -> Seq<EventView>
    decreases k,
{
    if k == 0 {
        seq![]
    } else {
        repeat(es, (k - 1) as nat) + es
    }
}

impl State {
    /// The first column of the alignment pattern's frame.
    pub open spec fn frame_left(self) -> int {
        if self.w / 2 >= 30 {
            self.w / 2 - 30
        } else {
            10
        }
    }

    /// The last column of the alignment pattern's frame.
    pub open spec fn frame_right(self) -> int {
        self.w / 2 + 29
    }

    /// The top and bottom edges of the alignment pattern, the first `n`
    /// columns from `frame_left`: an `E` in rows 8 and 15 of each.
    pub open spec fn frame_rows(self, n: nat) -> Seq<EventView>
        decreases n,
    {
        if n == 0 {
            seq![]
        } else {
            let x = self.frame_left() + n - 1;
            self.frame_rows((n - 1) as nat) + self.cell_events(x, 8, 'E') + self.cell_events(x, 15, 'E')
        }
    }

    /// The left and right edges of the alignment pattern, the first `n` rows
    /// from row 9.
    pub open spec fn frame_sides(self, n: nat) -> Seq<EventView>
        decreases n,
    {
        if n == 0 {
            seq![]
        } else {
            let y = 9 + n - 1;
            self.frame_sides((n - 1) as nat) + self.cell_events(self.frame_left(), y, 'E')
                + self.cell_events(self.frame_right(), y, 'E')
        }
    }

    /// The DEC screen alignment test: a frame of `E` glyphs around the
    /// middle of the screen, rows 8 to 15.
    pub open spec fn alignment_events(self) -> Seq<EventView> {
        self.frame_rows((self.frame_right() + 1 - self.frame_left()) as nat) + self.frame_sides(6)
    }

    /// The cursor one row down (before it is brought back onto the screen).
    pub open spec fn index_down(self) -> State {
        State { y: (self.y + 1) as usize, ..self }
    }

    /// The state after a full reset: cursor home, nothing saved, the whole
    /// screen as scroll region, default attributes and colors, cursor shown,
    /// default character sets, a redraw requested.
    pub open spec fn reset_state(self) -> State {
        State {
            x: 0,
            y: 0,
            save_x: 0,
            save_y: 0,
            top_margin: 0,
            bottom_margin: fit(self.h - 1, self.h as int) as usize,
            cursor: true,
            g0: 'B',
            g1: '0',
            foreground: self.foreground_default,
            background: self.background_default,
            bold: false,
            inverted: false,
            italic: false,
            underlined: false,
            strikethrough: false,
            redraw: true,
            ..self
        }
    }

    /// The state after the escape sequence with final byte `c` and
    /// intermediate bytes `is`: index, next line, reverse index, save and
    /// restore the cursor, the alignment test, full reset. Others change
    /// nothing.
    pub open spec fn esc_state(self, c: char, is: Seq<u8>) -> State {
        if c == 'D' {
            self.index_down().fix_state()
        } else if c == 'E' {
            self.line_feed().fix_state()
        } else if c == 'M' {
            if self.y <= self.top_margin {
                State { y: self.top_margin, ..self }
            } else {
                State { y: (self.y - 1) as usize, ..self }
            }
        } else if c == '7' {
            self.saved()
        } else if c == '8' {
            if is.len() == 0 {
                self.restored()
            } else if is[0] == 0x23 {
                State { x: 0, y: 0, ..self }
            } else {
                self
            }
        } else if c == 'c' {
            self.reset_state()
        } else {
            self
        }
    }

    /// The events of the escape sequence with final byte `c`: index and next
    /// line scroll below the region; a reverse index at or above the top
    /// margin scrolls the region down one row for each row from the cursor
    /// to the margin; the alignment test draws its frame; a full reset
    /// clears the screen.
    pub open spec fn esc_events(self, c: char, is: Seq<u8>) -> Seq<EventView> {
        if c == 'D' {
            self.index_down().fix_events()
        } else if c == 'E' {
            self.line_feed().fix_events()
        } else if c == 'M' {
            if self.y <= self.top_margin {
                repeat(self.reverse_scroll_events(1), (self.top_margin - self.y + 1) as nat)
            } else {
                seq![]
            }
        } else if c == '8' && is.len() > 0 && is[0] == 0x23 {
            self.alignment_events()
        } else if c == 'c' {
            seq![
                EventView::Rect {
                    x: 0,
                    y: 0,
                    w: self.w,
                    h: self.h,
                    color: self.background_default,
                },
            ]
        } else {
            seq![]
        }
    }

    /// Handles an escape sequence (`ESC` followed by intermediates and a
    /// final byte `c`).
    pub fn esc(&mut self, c: char, intermediates: &[u8], events: &mut Vec<Event>)
        requires
            old(self).wf(),
        ensures
            final(self).wf(),
            *final(self) == old(self).esc_state(c, intermediates@),
            views(final(events)@) == views(old(events)@) + old(self).esc_events(c, intermediates@),
    {
        let s = *self;
        if c == 'D' {
            *self = State { y: s.y + 1, ..s }.fix_cursor(events);
        } else if c == 'E' {
            *self = State { x: 0, y: s.y + 1, ..s }.fix_cursor(events);
        } else if c == 'M' {
            *self = s.reverse_index(events);
        } else if c == '8' && intermediates.len() > 0 && intermediates[0] == 0x23 {
            s.alignment_test(events);
            *self = State { x: 0, y: 0, ..s };
        } else if c == 'c' {
            emit(
                events,
                Event::Rect { x: 0, y: 0, w: s.w, h: s.h, color: s.background_default },
            );
            assert(views(events@) =~= views(old(events)@) + s.esc_events(c, intermediates@));
            *self = s.reset();
        } else {
            assert(views(events@) =~= views(old(events)@) + seq![]);
            if c == '7' {
                *self = State { save_x: s.x, save_y: s.y, ..s };
            } else if c == '8' && intermediates.len() == 0 {
                *self = s.restore();
            }
        }
    }

    /// The state after a full reset.
    fn reset(&self) -> (r: State)
        requires
            self.wf(),
        ensures
            r == self.reset_state(),
            r.wf(),
    {
        State {
            x: 0,
            y: 0,
            save_x: 0,
            save_y: 0,
            top_margin: 0,
            bottom_margin: self.h.saturating_sub(1),
            cursor: true,
            g0: 'B',
            g1: '0',
            foreground: self.foreground_default,
            background: self.background_default,
            bold: false,
            inverted: false,
            italic: false,
            underlined: false,
            strikethrough: false,
            redraw: true,
            ..*self
        }
    }

    /// Moves the cursor up one row, scrolling the region down at its top.
    fn reverse_index(&self, events: &mut Vec<Event>) -> (r: State)
        requires
            self.wf(),
        ensures
            r == self.esc_state('M', seq![]),
            views(final(events)@) == views(old(events)@) + self.esc_events('M', seq![]),
            r.wf(),
    {
        if self.y > self.top_margin {
            assert(views(events@) =~= views(old(events)@) + seq![]);
            return State { y: self.y - 1, ..*self };
        }
        let ghost e0 = views(events@);
        let ghost pair = self.reverse_scroll_events(1);
        let mut y = self.y;
        while y <= self.top_margin
            invariant
                self.wf(),
                pair == self.reverse_scroll_events(1),
                self.y <= y <= self.top_margin + 1,
                views(events@) == e0 + repeat(pair, (y - self.y) as nat),
            decreases self.top_margin + 1 - y,
        {
            self.reverse_scroll(1, events);
            proof {
                let k = (y - self.y) as nat;
                assert(repeat(pair, k + 1) == repeat(pair, k) + pair);
                vstd::seq_lib::lemma_concat_associative(e0, repeat(pair, k), pair);
            }
            y = y + 1;
        }
        State { y: y - 1, ..*self }
    }

    /// Draws the screen alignment pattern.
    fn alignment_test(&self, events: &mut Vec<Event>)
        ensures
            views(final(events)@) == views(old(events)@) + self.alignment_events(),
    {
        let ghost e0 = views(events@);
        let half = self.w / 2;
        let left = if half >= 30 {
            half - 30
        } else {
            10
        };
        let end = half + 30;
        let mut x = left;
        while x < end
            invariant
                left == self.frame_left(),
                end == self.frame_right() + 1,
                left <= x <= end,
                views(events@) == e0 + self.frame_rows((x - left) as nat),
            decreases end - x,
        {
            let ghost before = views(events@);
            self.block(x, 8, 'E', events);
            self.block(x, 15, 'E', events);
            proof {
                let n = (x - left) as nat;
                assert(self.frame_rows(n + 1) == self.frame_rows(n) + self.cell_events(x as int, 8, 'E')
                    + self.cell_events(x as int, 15, 'E'));
                vstd::seq_lib::lemma_concat_associative(
                    e0,
                    self.frame_rows(n) + self.cell_events(x as int, 8, 'E'),
                    self.cell_events(x as int, 15, 'E'),
                );
                vstd::seq_lib::lemma_concat_associative(
                    e0,
                    self.frame_rows(n),
                    self.cell_events(x as int, 8, 'E'),
                );
            }
            x = x + 1;
        }
        let ghost e1 = views(events@);
        let right = half + 29;
        let mut y: usize = 9;
        while y < 15
            invariant
                left == self.frame_left(),
                right == self.frame_right(),
                9 <= y <= 15,
                views(events@) == e1 + self.frame_sides((y - 9) as nat),
            decreases 15 - y,
        {
            self.block(left, y, 'E', events);
            self.block(right, y, 'E', events);
            proof {
                let n = (y - 9) as nat;
                assert(self.frame_sides(n + 1) == self.frame_sides(n) + self.cell_events(left as int, y as int, 'E')
                    + self.cell_events(right as int, y as int, 'E'));
                vstd::seq_lib::lemma_concat_associative(
                    e1,
                    self.frame_sides(n) + self.cell_events(left as int, y as int, 'E'),
                    self.cell_events(right as int, y as int, 'E'),
                );
                vstd::seq_lib::lemma_concat_associative(
                    e1,
                    self.frame_sides(n),
                    self.cell_events(left as int, y as int, 'E'),
                );
            }
            y = y + 1;
        }
        proof {
            vstd::seq_lib::lemma_concat_associative(
                e0,
                self.frame_rows((end - left) as nat),
                self.frame_sides(6),
            );
        }
    }
}

} // verus!
