use vstd::prelude::*;

use crate::color::Color;
use crate::event::{emit, views, Event, EventView};

verus! {

/// The number of positions along an axis of `n` cells; a degenerate axis of
/// zero cells still has the one position `0`.
pub open spec fn extent(n: usize) -> int {
    if n == 0 {
        1
    } else {
        n as int
    }
}

/// `v` clamped into the positions `0..n` (to `0` when `n` is zero).
pub open spec fn fit(v: int, n: int) -> int {
    if v < 0 {
        0
    } else if v < n {
        v
    } else if n > 0 {
        n - 1
    } else {
        0
    }
}

/// `v`, raised to `lo` when below it.
pub open spec fn at_least(v: int, lo: int) -> int {
    if v < lo {
        lo
    } else {
        v
    }
}

/// `v`, lowered to `hi` when above it.
pub open spec fn at_most(v: int, hi: int) -> int {
    if v > hi {
        hi
    } else {
        v
    }
}

/// The interpreter state: cursor, saved cursor, screen size, scroll region,
/// text attributes and mode flags.
#[derive(Clone, Copy, Debug)]
pub struct State {
    pub x: usize,
    pub y: usize,
    pub save_x: usize,
    pub save_y: usize,
    pub w: usize,
    pub h: usize,
    pub top_margin: usize,
    pub bottom_margin: usize,
    pub g0: char,
    pub g1: char,
    pub foreground: Color,
    pub background: Color,
    pub foreground_default: Color,
    pub background_default: Color,
    pub bold: bool,
    pub inverted: bool,
    pub italic: bool,
    pub underlined: bool,
    pub strikethrough: bool,
    pub cursor: bool,
    pub redraw: bool,
    pub origin: bool,
    pub autowrap: bool,
    pub mouse_vt200: bool,
    pub mouse_btn: bool,
    pub mouse_sgr: bool,
    pub mouse_rxvt: bool,
}

impl State {
    /// The scroll region is a non-empty band of rows of the screen.
    pub open spec fn margins_ok(self) -> bool {
        &&& self.top_margin <= self.bottom_margin
        &&& self.bottom_margin < extent(self.h)
    }

    /// The state invariant: the cursor is on the screen and the scroll
    /// region is a band of rows of the screen.
    pub open spec fn wf(self) -> bool {
        &&& self.x < extent(self.w)
        &&& self.y < extent(self.h)
        &&& self.margins_ok()
    }

    /// The state of a fresh interpreter on a `w` by `h` screen.
    pub open spec fn initial(w: usize, h: usize) -> State {
        State {
            x: 0,
            y: 0,
            save_x: 0,
            save_y: 0,
            w,
            h,
            top_margin: 0,
            bottom_margin: fit(h - 1, h as int) as usize,
            g0: 'B',
            g1: '0',
            foreground: Color::Ansi(7),
            background: Color::Ansi(0),
            foreground_default: Color::Ansi(7),
            background_default: Color::Ansi(0),
            bold: false,
            inverted: false,
            italic: false,
            underlined: false,
            strikethrough: false,
            cursor: true,
            redraw: true,
            origin: false,
            autowrap: true,
            mouse_vt200: false,
            mouse_btn: false,
            mouse_sgr: false,
            mouse_rxvt: false,
        }
    }

    /// Creates the interpreter state for a `w` by `h` screen: cursor at the
    /// origin, the whole screen as scroll region, white on black.
    pub fn new(w: usize, h: usize) -> (s: State)
        ensures
            s == State::initial(w, h),
            s.wf(),
    {
        State {
            x: 0,
            y: 0,
            save_x: 0,
            save_y: 0,
            w,
            h,
            top_margin: 0,
            bottom_margin: last_index(h),
            g0: 'B',
            g1: '0',
            foreground: Color::Ansi(7),
            background: Color::Ansi(0),
            foreground_default: Color::Ansi(7),
            background_default: Color::Ansi(0),
            bold: false,
            inverted: false,
            italic: false,
            underlined: false,
            strikethrough: false,
            cursor: true,
            redraw: true,
            origin: false,
            autowrap: true,
            mouse_vt200: false,
            mouse_btn: false,
            mouse_sgr: false,
            mouse_rxvt: false,
        }
    }

    /// Is the state invariant met? For callers that set fields directly.
    pub fn is_valid(&self) -> (r: bool)
        ensures
            r == self.wf(),
    {
        (self.x < self.w || self.x == 0) && (self.y < self.h || self.y == 0) && self.top_margin
            <= self.bottom_margin && (self.bottom_margin < self.h || self.bottom_margin == 0)
    }

    /// The two events that draw glyph `c` at cell `(x, y)` with the current
    /// attributes: the cell is cleared, then the glyph drawn (the colors
    /// swap under inversion).
    pub open spec fn cell_events(self, x: int, y: int, c: char) -> Seq<EventView> {
        seq![
            EventView::Rect {
                x: x as usize,
                y: y as usize,
                w: 1,
                h: 1,
                color: if self.inverted {
                    self.foreground
                } else {
                    self.background
                },
            },
            EventView::Char {
                x: x as usize,
                y: y as usize,
                c,
                bold: self.bold,
                italic: self.italic,
                underlined: self.underlined,
                strikethrough: self.strikethrough,
                color: if self.inverted {
                    self.background
                } else {
                    self.foreground
                },
            },
        ]
    }

    /// The number of rows of the scroll region.
    pub open spec fn region_rows(self) -> int {
        self.bottom_margin + 1 - self.top_margin
    }

    /// `rows` limited to what the scroll region holds.
    pub open spec fn region_shift(self, rows: int) -> int {
        if rows < 0 {
            0
        } else if rows < self.region_rows() {
            rows
        } else {
            self.region_rows()
        }
    }

    /// Scrolling the region up by `rows`: its rows move up, and the rows
    /// freed at its bottom are painted with the background color.
    pub open spec fn scroll_events(self, rows: int) -> Seq<EventView> {
        let r = self.region_shift(rows);
        seq![
            EventView::Move {
                from_x: 0,
                from_y: (self.top_margin + r) as usize,
                to_x: 0,
                to_y: self.top_margin,
                w: self.w,
                h: (self.region_rows() - r) as usize,
            },
            EventView::Rect {
                x: 0,
                y: (self.bottom_margin + 1 - r) as usize,
                w: self.w,
                h: r as usize,
                color: self.background,
            },
        ]
    }

    /// Scrolling the region down by `rows`: its rows move down, and the rows
    /// freed at its top are painted with the background color.
    pub open spec fn reverse_scroll_events(self, rows: int) -> Seq<EventView> {
        let r = self.region_shift(rows);
        seq![
            EventView::Move {
                from_x: 0,
                from_y: self.top_margin,
                to_x: 0,
                to_y: (self.top_margin + r) as usize,
                w: self.w,
                h: (self.region_rows() - r) as usize,
            },
            EventView::Rect {
                x: 0,
                y: self.top_margin,
                w: self.w,
                h: r as usize,
                color: self.background,
            },
        ]
    }

    /// Does the cursor sit past the right edge with autowrap on?
    pub open spec fn wraps(self) -> bool {
        self.x >= self.w && self.autowrap
    }

    /// The row just below the part of the scroll region that is on the
    /// screen.
    pub open spec fn region_end(self) -> int {
        if self.h < self.bottom_margin + 1 {
            self.h as int
        } else {
            self.bottom_margin + 1
        }
    }

    /// How many rows the cursor stands below the scroll region once a
    /// pending wrap is taken (zero or less when it is inside).
    pub open spec fn overflow_rows(self) -> int {
        self.y + (if self.wraps() {
            1int
        } else {
            0int
        }) + 1 - self.region_end()
    }

    /// The column of the cursor once it is brought onto the screen.
    pub open spec fn fixed_x(self) -> usize {
        if self.x < self.w {
            self.x
        } else if self.autowrap || self.w == 0 {
            0
        } else {
            (self.w - 1) as usize
        }
    }

    /// The row of the cursor once it is brought onto the screen.
    pub open spec fn fixed_y(self) -> usize {
        if self.overflow_rows() > 0 {
            if self.region_end() > 0 {
                (self.region_end() - 1) as usize
            } else {
                0
            }
        } else if self.wraps() {
            (self.y + 1) as usize
        } else {
            self.y
        }
    }

    /// The state once the cursor is brought back onto the screen: a cursor
    /// past the right edge wraps to the next row (or stays in the last
    /// column without autowrap); a cursor below the scroll region comes back
    /// to its bottom row.
    #[verifier::opaque]
    pub open spec fn fix_state(self) -> State {
        State { x: self.fixed_x(), y: self.fixed_y(), ..self }
    }

    /// The events of bringing the cursor back onto the screen: a cursor
    /// below the scroll region scrolls the region up by the overflow.
    #[verifier::opaque]
    pub open spec fn fix_events(self) -> Seq<EventView> {
        if self.overflow_rows() > 0 {
            self.scroll_events(self.overflow_rows())
        } else {
            seq![]
        }
    }

    /// The cursor just past the cell where a glyph was drawn.
    pub open spec fn advanced(self) -> State {
        State { x: (self.x + 1) as usize, ..self }
    }

    /// The state after printing a glyph: the cursor is brought onto the
    /// screen, the glyph drawn there, and the cursor advanced (wrapping at
    /// once at the right edge).
    #[verifier::opaque]
    pub open spec fn print_state(self) -> State {
        let s2 = self.fix_state().advanced();
        if s2.x >= s2.w {
            s2.fix_state()
        } else {
            s2
        }
    }

    /// The events of printing glyph `c`.
    #[verifier::opaque]
    pub open spec fn print_events(self, c: char) -> Seq<EventView> {
        let s1 = self.fix_state();
        let s2 = s1.advanced();
        let drawn = self.fix_events() + s1.cell_events(s1.x as int, s1.y as int, c);
        if s2.x >= s2.w {
            drawn + s2.fix_events()
        } else {
            drawn
        }
    }

    /// The cursor at the start of the next row (before it is brought back
    /// onto the screen).
    pub open spec fn line_feed(self) -> State {
        State { x: 0, y: (self.y + 1) as usize, ..self }
    }

    /// The state after control character `c`: backspace, tab, line feed and
    /// carriage return move the cursor; any other character changes nothing.
    pub open spec fn execute_state(self, c: char) -> State {
        if c == '\x08' {
            State { x: at_least(self.x - 1, 0) as usize, ..self }
        } else if c == '\x09' {
            State { x: fit((self.x / 8 + 1) * 8, self.w as int) as usize, ..self }
        } else if c == '\x0A' {
            self.line_feed().fix_state()
        } else if c == '\x0D' {
            State { x: 0, ..self }
        } else {
            self
        }
    }

    /// The events of control character `c`: a line feed below the scroll
    /// region scrolls it.
    pub open spec fn execute_events(self, c: char) -> Seq<EventView> {
        if c == '\x0A' {
            self.line_feed().fix_events()
        } else {
            seq![]
        }
    }

    /// The state after the screen is resized to `w` by `h`: the scroll
    /// margins and the cursor are clamped into the new screen, and the bottom
    /// margin keeps its distance from the bottom edge where it can.
    pub open spec fn resize_state(self, w: usize, h: usize) -> State {
        let top = fit(self.top_margin as int, h as int);
        State {
            x: fit(self.x as int, w as int) as usize,
            y: fit(self.y as int, h as int) as usize,
            w,
            h,
            top_margin: top as usize,
            bottom_margin: at_least(at_most(self.bottom_margin + h - self.h, h - 1), top) as usize,
            ..self
        }
    }

    /// Draws glyph `c` at cell `(x, y)` with the current attributes.
    pub(crate) fn block(&self, x: usize, y: usize, c: char, events: &mut Vec<Event>)
        ensures
            views(final(events)@) == views(old(events)@) + self.cell_events(x as int, y as int, c),
    {
        let (back, fore) = if self.inverted {
            (self.foreground, self.background)
        } else {
            (self.background, self.foreground)
        };
        emit(events, Event::Rect { x, y, w: 1, h: 1, color: back });
        emit(
            events,
            Event::Char {
                x,
                y,
                c,
                bold: self.bold,
                italic: self.italic,
                underlined: self.underlined,
                strikethrough: self.strikethrough,
                color: fore,
            },
        );
        assert(views(events@) =~= views(old(events)@) + self.cell_events(x as int, y as int, c));
    }

    /// Scrolls the scroll region up by `rows`.
    pub(crate) fn scroll(&self, rows: usize, events: &mut Vec<Event>)
        requires
            self.margins_ok(),
        ensures
            views(final(events)@) == views(old(events)@) + self.scroll_events(rows as int),
    {
        let n = self.bottom_margin + 1 - self.top_margin;
        let r = if rows < n {
            rows
        } else {
            n
        };
        emit(
            events,
            Event::Move {
                from_x: 0,
                from_y: self.top_margin + r,
                to_x: 0,
                to_y: self.top_margin,
                w: self.w,
                h: n - r,
            },
        );
        emit(
            events,
            Event::Rect {
                x: 0,
                y: self.bottom_margin + 1 - r,
                w: self.w,
                h: r,
                color: self.background,
            },
        );
        assert(views(events@) =~= views(old(events)@) + self.scroll_events(rows as int));
    }

    /// Scrolls the scroll region down by `rows`.
    pub(crate) fn reverse_scroll(&self, rows: usize, events: &mut Vec<Event>)
        requires
            self.margins_ok(),
        ensures
            views(final(events)@) == views(old(events)@) + self.reverse_scroll_events(rows as int),
    {
        let n = self.bottom_margin + 1 - self.top_margin;
        let r = if rows < n {
            rows
        } else {
            n
        };
        emit(
            events,
            Event::Move {
                from_x: 0,
                from_y: self.top_margin,
                to_x: 0,
                to_y: self.top_margin + r,
                w: self.w,
                h: n - r,
            },
        );
        emit(
            events,
            Event::Rect { x: 0, y: self.top_margin, w: self.w, h: r, color: self.background },
        );
        assert(views(events@) =~= views(old(events)@) + self.reverse_scroll_events(rows as int));
    }

    /// Brings the cursor back onto the screen, returning the new state.
    pub(crate) fn fix_cursor(&self, events: &mut Vec<Event>) -> (r: State)
        requires
            self.margins_ok(),
        ensures
            r == self.fix_state(),
            views(final(events)@) == views(old(events)@) + self.fix_events(),
            r.wf(),
    {
        reveal(State::fix_state);
        reveal(State::fix_events);
        let s = *self;
        let hh = if s.h < s.bottom_margin + 1 {
            s.h
        } else {
            s.bottom_margin + 1
        };
        let wrapped = s.x >= s.w && s.autowrap;
        let nx = if s.x < s.w {
            s.x
        } else if s.autowrap {
            0
        } else {
            s.w.saturating_sub(1)
        };
        let ny = if s.y >= hh || (wrapped && s.y + 1 >= hh) {
            let rows = if s.y < hh {
                1
            } else if wrapped {
                (s.y - hh).saturating_add(2)
            } else {
                (s.y - hh).saturating_add(1)
            };
            assert(s.region_shift(rows as int) == s.region_shift(s.overflow_rows()));
            s.scroll(rows, events);
            hh.saturating_sub(1)
        } else {
            assert(views(events@) =~= views(old(events)@) + seq![]);
            if wrapped {
                s.y + 1
            } else {
                s.y
            }
        };
        State { x: nx, y: ny, ..s }
    }

    /// Handles a control character: backspace, tab, line feed, carriage
    /// return. Others are ignored.
    pub fn execute(&mut self, c: char, events: &mut Vec<Event>)
        requires
            old(self).wf(),
        ensures
            final(self).wf(),
            *final(self) == old(self).execute_state(c),
            views(final(events)@) == views(old(events)@) + old(self).execute_events(c),
    {
        let s = *self;
        if c == '\x0A' {
            *self = State { x: 0, y: s.y + 1, ..s }.fix_cursor(events);
        } else {
            let x = if c == '\x08' {
                s.x.saturating_sub(1)
            } else if c == '\x09' {
                assert((s.x / 8 + 1) * 8 <= s.x + 8) by (nonlinear_arith);
                fit_pos((s.x as i128 / 8 + 1) * 8, s.w)
            } else if c == '\x0D' {
                0
            } else {
                s.x
            };
            *self = State { x, ..s };
            assert(views(events@) =~= views(old(events)@) + seq![]);
        }
    }

    /// Resizes the screen to `w` by `h`, clamping the scroll margins and the
    /// cursor into it. Attributes and modes are kept.
    pub fn resize(&mut self, w: usize, h: usize)
        requires
            old(self).wf(),
        ensures
            final(self).wf(),
            *final(self) == old(self).resize_state(w, h),
    {
        let s = *self;
        let top = fit_pos(s.top_margin as i128, h);
        let bottom = s.bottom_margin as i128 + h as i128 - s.h as i128;
        let bottom = if bottom > h as i128 - 1 {
            h as i128 - 1
        } else {
            bottom
        };
        let bottom = if bottom < top as i128 {
            top
        } else {
            bottom as usize
        };
        *self = State {
            x: fit_pos(s.x as i128, w),
            y: fit_pos(s.y as i128, h),
            w,
            h,
            top_margin: top,
            bottom_margin: bottom,
            ..s
        };
    }

    /// Prints glyph `c` at the cursor with the current attributes and
    /// advances the cursor.
    pub fn print(&mut self, c: char, events: &mut Vec<Event>)
        requires
            old(self).wf(),
        ensures
            final(self).wf(),
            *final(self) == old(self).print_state(),
            views(final(events)@) == views(old(events)@) + old(self).print_events(c),
    {
        reveal(State::print_state);
        reveal(State::print_events);
        let ghost e0 = views(events@);
        let s1 = self.fix_cursor(events);
        let ghost a = old(self).fix_events();
        let ghost b = s1.cell_events(s1.x as int, s1.y as int, c);
        s1.block(s1.x, s1.y, c, events);
        let s2 = State { x: s1.x + 1, ..s1 };
        if s2.x >= s2.w {
            let s3 = s2.fix_cursor(events);
            proof {
                vstd::seq_lib::lemma_concat_associative(e0, a, b);
                vstd::seq_lib::lemma_concat_associative(e0, a + b, s2.fix_events());
            }
            *self = s3;
        } else {
            proof {
                vstd::seq_lib::lemma_concat_associative(e0, a, b);
            }
            *self = s2;
        }
    }
}

/// The state after printing the glyphs of `cs` one by one.
pub open spec fn run_state(s: State, cs: Seq<char>) -> State
    decreases cs.len(),
{
    if cs.len() == 0 {
        s
    } else {
        run_state(s, cs.drop_last()).print_state()
    }
}

/// The events of printing the glyphs of `cs` one by one.
pub open spec fn run_events(s: State, cs: Seq<char>) -> Seq<EventView>
    decreases cs.len(),
{
    if cs.len() == 0 {
        seq![]
    } else {
        run_events(s, cs.drop_last()) + run_state(s, cs.drop_last()).print_events(cs.last())
    }
}

impl State {
    /// Prints the glyphs of `cs` one after the other.
    pub fn print_chars(&mut self, cs: &[char], events: &mut Vec<Event>)
        requires
            old(self).wf(),
        ensures
            final(self).wf(),
            *final(self) == run_state(*old(self), cs@),
            views(final(events)@) == views(old(events)@) + run_events(*old(self), cs@),
    {
        let ghost s0 = *self;
        let ghost e0 = views(events@);
        let mut i: usize = 0;
        while i < cs.len()
            invariant
                i <= cs@.len(),
                self.wf(),
                *self == run_state(s0, cs@.take(i as int)),
                views(events@) == e0 + run_events(s0, cs@.take(i as int)),
            decreases cs@.len() - i,
        {
            proof {
                assert(cs@.take(i + 1).drop_last() =~= cs@.take(i as int));
                assert(cs@.take(i + 1).last() == cs@[i as int]);
                vstd::seq_lib::lemma_concat_associative(
                    e0,
                    run_events(s0, cs@.take(i as int)),
                    self.print_events(cs@[i as int]),
                );
            }
            self.print(cs[i], events);
            i = i + 1;
        }
        assert(cs@.take(cs@.len() as int) =~= cs@);
    }
}

/// `v` clamped into the positions `0..n`.
pub(crate) fn fit_pos(v: i128, n: usize) -> (r: usize)
    ensures
        r == fit(v as int, n as int),
{
    if v < 0 {
        0
    } else if v < n as i128 {
        v as usize
    } else if n > 0 {
        n - 1
    } else {
        0
    }
}

/// The last position along an axis of `n` cells.
fn last_index(n: usize) -> (r: usize)
    ensures
        r == fit(n - 1, n as int),
{
    n.saturating_sub(1)
}

} // verus!
