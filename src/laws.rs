use vstd::prelude::*;

use crate::csi::is_cursor_command;
use crate::event::EventView;
use crate::report::position_report;
use crate::state::{run_events, run_state, State};

verus! {

/// The glyphs of `cs` drawn with the attributes of `s` in the cells from
/// column 0 on of the cursor's row.
pub open spec fn row_events(s: State, cs: Seq<char>) -> Seq<EventView>
    decreases cs.len(),
{
    if cs.len() == 0 {
        seq![]
    } else {
        row_events(s, cs.drop_last()) + s.cell_events(cs.len() - 1, s.y as int, cs.last())
    }
}

/// A reset followed by a reset of the foreground and background (SGR `0`,
/// then `39;49`) leaves the colors configured as defaults, whatever they
/// are.
pub proof fn lemma_reset_restores_default_colors(s: State, is1: Seq<u8>, is2: Seq<u8>)
    requires
        s.wf(),
    ensures
        s.csi_state('m', seq![0], is1).csi_state('m', seq![39, 49], is2).foreground
            == s.foreground_default,
        s.csi_state('m', seq![0], is1).csi_state('m', seq![39, 49], is2).background
            == s.background_default,
{
    let t = s.csi_state('m', seq![0], is1);
    assert(State::sgr_next(seq![0], 0) == 1);
    assert(t == s.sgr_code(0));
    let ps = seq![39i64, 49i64];
    assert(State::sgr_next(ps, 0) == 1);
    assert(State::sgr_next(ps, 1) == 2);
    assert(t.sgr_from(ps, 1) == t.sgr_code(39).sgr_code(49));
}

/// A cursor position request (`6n`) emits exactly one `Input` event holding
/// `ESC [ row ; column R` for the cursor's 1-based position, and changes
/// nothing.
pub proof fn lemma_position_report(s: State, is: Seq<u8>)
    requires
        s.wf(),
    ensures
        s.csi_events('n', seq![6], is) == seq![
            EventView::Input { data: position_report(s.x as nat, s.y as nat) },
        ],
        s.csi_state('n', seq![6], is) == s,
{
}

/// A cursor movement command: one that moves the cursor without saving or
/// restoring it.
pub open spec fn is_move(c: char) -> bool {
    is_cursor_command(c) && c != 's' && c != 'u'
}

/// The state after the control sequences `cmds` (final byte and
/// parameters), one after the other, each with intermediates `is`.
pub open spec fn run_csi(s: State, cmds: Seq<(char, Seq<i64>)>, is: Seq<u8>) -> State
    decreases cmds.len(),
{
    if cmds.len() == 0 {
        s
    } else {
        run_csi(s, cmds.drop_last(), is).csi_state(cmds.last().0, cmds.last().1, is)
    }
}

/// Cursor movements keep the saved position and the screen size.
proof fn lemma_moves_keep_slot(s: State, cmds: Seq<(char, Seq<i64>)>, is: Seq<u8>)
    requires
        forall|i: int| 0 <= i < cmds.len() ==> is_move(#[trigger] cmds[i].0),
    ensures
        run_csi(s, cmds, is).save_x == s.save_x,
        run_csi(s, cmds, is).save_y == s.save_y,
        run_csi(s, cmds, is).w == s.w,
        run_csi(s, cmds, is).h == s.h,
    decreases cmds.len(),
{
    if cmds.len() > 0 {
        let rest = cmds.drop_last();
        assert forall|i: int| 0 <= i < rest.len() implies is_move(#[trigger] rest[i].0) by {
            assert(rest[i] == cmds[i]);
        }
        lemma_moves_keep_slot(s, rest, is);
        assert(is_move(cmds[cmds.len() - 1].0));
    }
}

/// Saving the cursor (`s`), moving it any number of times, and restoring it
/// (`u`) brings it back to where it was saved; the save slot holds one
/// position, so a second save replaces the first.
pub proof fn lemma_save_restore(
    s: State,
    first: Seq<(char, Seq<i64>)>,
    second: Seq<(char, Seq<i64>)>,
    is: Seq<u8>,
)
    requires
        s.wf(),
        forall|i: int| 0 <= i < first.len() ==> is_move(#[trigger] first[i].0),
        forall|i: int| 0 <= i < second.len() ==> is_move(#[trigger] second[i].0),
    ensures
        run_csi(s.csi_state('s', seq![], is), first, is).csi_state('u', seq![], is).x == s.x,
        run_csi(s.csi_state('s', seq![], is), first, is).csi_state('u', seq![], is).y == s.y,
        ({
            let moved = run_csi(s.csi_state('s', seq![], is), first, is);
            let back = run_csi(moved.csi_state('s', seq![], is), second, is).csi_state(
                'u',
                seq![],
                is,
            );
            back.x == moved.x && back.y == moved.y
        }),
{
    let a = s.csi_state('s', seq![], is);
    lemma_moves_keep_slot(a, first, is);
    let moved = run_csi(a, first, is);
    lemma_moves_wf(a, first, is);
    let b = moved.csi_state('s', seq![], is);
    lemma_moves_keep_slot(b, second, is);
}

/// Cursor movements keep the state valid.
proof fn lemma_moves_wf(s: State, cmds: Seq<(char, Seq<i64>)>, is: Seq<u8>)
    requires
        s.wf(),
        forall|i: int| 0 <= i < cmds.len() ==> is_move(#[trigger] cmds[i].0),
    ensures
        run_csi(s, cmds, is).wf(),
    decreases cmds.len(),
{
    if cmds.len() > 0 {
        let rest = cmds.drop_last();
        assert forall|i: int| 0 <= i < rest.len() implies is_move(#[trigger] rest[i].0) by {
            assert(rest[i] == cmds[i]);
        }
        lemma_moves_wf(s, rest, is);
        assert(is_move(cmds[cmds.len() - 1].0));
        lemma_cursor_wf(run_csi(s, rest, is), cmds.last().0, cmds.last().1);
    }
}

/// Cursor movements keep the cursor on the screen.
proof fn lemma_cursor_wf(s: State, c: char, ps: Seq<i64>)
    requires
        s.wf(),
        is_cursor_command(c),
    ensures
        s.cursor_state(c, ps).wf(),
{
}

/// Printing as many glyphs as the screen is wide from the first column of a
/// row inside (or above) the scroll region, with autowrap on, draws them
/// along that row and leaves the cursor at the start of the next row; when
/// that row is past the bottom margin, the region scrolls up by exactly one
/// row instead, once.
#[verifier::spinoff_prover]
#[verifier::rlimit(40)]
pub proof fn lemma_full_row_wraps(s: State, cs: Seq<char>)
    requires
        s.wf(),
        s.autowrap,
        s.x == 0,
        s.w >= 1,
        s.h >= 1,
        s.y <= s.bottom_margin,
        cs.len() == s.w,
    ensures
        run_state(s, cs) == (State {
            x: 0,
            y: if s.y < s.bottom_margin {
                (s.y + 1) as usize
            } else {
                s.y
            },
            ..s
        }),
        run_events(s, cs) == row_events(s, cs) + if s.y < s.bottom_margin {
            seq![]
        } else {
            s.scroll_events(1)
        },
{
    let n = (s.w - 1) as nat;
    lemma_row_prefix(s, cs, n);
    let t = State { x: n as usize, ..s };
    assert(cs.drop_last() =~= cs.take(n as int));
    assert(run_state(s, cs.drop_last()) == t);
    assert(run_events(s, cs.drop_last()) == row_events(s, cs.drop_last()));
    lemma_print_at_edge(t, cs.last());
    assert(run_state(s, cs) == t.print_state());
    assert(run_events(s, cs) == row_events(s, cs.drop_last()) + t.print_events(cs.last()));
    let cell = s.cell_events(n as int, s.y as int, cs.last());
    assert(t.cell_events(n as int, s.y as int, cs.last()) == cell);
    assert(row_events(s, cs) == row_events(s, cs.drop_last()) + cell);
    assert(t.scroll_events(1) == s.scroll_events(1));
    let tail: Seq<EventView> = if s.y < s.bottom_margin {
        seq![]
    } else {
        s.scroll_events(1)
    };
    assert(t.print_events(cs.last()) == cell + tail);
    vstd::seq_lib::lemma_concat_associative(row_events(s, cs.drop_last()), cell, tail);
    assert(run_events(s, cs) == row_events(s, cs) + tail);
    let fin = State {
        x: 0,
        y: if s.y < s.bottom_margin {
            (s.y + 1) as usize
        } else {
            s.y
        },
        ..s
    };
    assert(run_state(s, cs) == fin);
}

/// A cursor on the screen and inside (or above) the scroll region needs no
/// fixing.
proof fn lemma_fix_noop(t: State)
    requires
        t.x < t.w,
        t.y + 1 <= t.region_end(),
    ensures
        t.fix_state() == t,
        t.fix_events() == Seq::<EventView>::empty(),
{
    reveal(State::fix_state);
    reveal(State::fix_events);
    assert(t.fix_events() =~= Seq::<EventView>::empty());
}

/// A cursor past the right edge with autowrap on wraps to the next row,
/// which scrolls the region up one row when the cursor was on its bottom
/// row.
proof fn lemma_fix_wrap(u: State)
    requires
        u.x >= u.w,
        u.autowrap,
        u.h >= 1,
        u.bottom_margin < u.h,
        u.y <= u.bottom_margin,
    ensures
        u.fix_state() == (State {
            x: 0,
            y: if u.y < u.bottom_margin {
                (u.y + 1) as usize
            } else {
                u.y
            },
            ..u
        }),
        u.fix_events() == if u.y < u.bottom_margin {
            Seq::<EventView>::empty()
        } else {
            u.scroll_events(1)
        },
{
    reveal(State::fix_state);
    reveal(State::fix_events);
    assert(u.region_end() == u.bottom_margin + 1);
    assert(u.overflow_rows() == u.y + 1 - u.bottom_margin);
    if u.y < u.bottom_margin {
        assert(u.fix_events() =~= Seq::<EventView>::empty());
    }
}

/// Printing a glyph short of the right edge, with the cursor inside (or
/// above) the scroll region, draws it at the cursor and moves one column on.
proof fn lemma_print_inside(t: State, c: char)
    requires
        t.wf(),
        t.x + 1 < t.w,
        t.h >= 1,
        t.y <= t.bottom_margin,
    ensures
        t.print_state() == t.advanced(),
        t.print_events(c) == t.cell_events(t.x as int, t.y as int, c),
{
    reveal(State::print_state);
    reveal(State::print_events);
    lemma_fix_noop(t);
    assert(t.print_events(c) =~= t.cell_events(t.x as int, t.y as int, c));
}

/// Printing a glyph in the last column with autowrap on, with the cursor
/// inside (or above) the scroll region, draws it and wraps to the next row,
/// scrolling the region up one row when the cursor was on its bottom row.
proof fn lemma_print_at_edge(t: State, c: char)
    requires
        t.wf(),
        t.autowrap,
        t.x + 1 == t.w,
        t.h >= 1,
        t.y <= t.bottom_margin,
    ensures
        t.print_state() == (State {
            x: 0,
            y: if t.y < t.bottom_margin {
                (t.y + 1) as usize
            } else {
                t.y
            },
            ..t
        }),
        t.print_events(c) == t.cell_events(t.x as int, t.y as int, c) + if t.y < t.bottom_margin {
            seq![]
        } else {
            t.scroll_events(1)
        },
{
    reveal(State::print_state);
    reveal(State::print_events);
    lemma_fix_noop(t);
    let u = t.advanced();
    lemma_fix_wrap(u);
    assert(u.scroll_events(1) == t.scroll_events(1));
    if t.y < t.bottom_margin {
        assert(t.print_events(c) =~= t.cell_events(t.x as int, t.y as int, c));
    } else {
        assert(t.print_events(c) =~= t.cell_events(t.x as int, t.y as int, c) + t.scroll_events(1));
    }
}

/// Printing the first `k` glyphs, short of the right edge, moves the cursor
/// `k` columns along the row and draws them there.
proof fn lemma_row_prefix(s: State, cs: Seq<char>, k: nat)
    requires
        s.wf(),
        s.x == 0,
        s.h >= 1,
        s.y <= s.bottom_margin,
        k < s.w,
        k <= cs.len(),
    ensures
        run_state(s, cs.take(k as int)) == (State { x: k as usize, ..s }),
        run_events(s, cs.take(k as int)) == row_events(s, cs.take(k as int)),
    decreases k,
{
    if k == 0 {
        assert(cs.take(0) =~= seq![]);
        assert(State { x: 0, ..s } == s);
    } else {
        let j = (k - 1) as nat;
        lemma_row_prefix(s, cs, j);
        let p = cs.take(k as int);
        assert(p.drop_last() =~= cs.take(j as int));
        let t = State { x: j as usize, ..s };
        lemma_print_inside(t, p.last());
        assert(t.cell_events(j as int, s.y as int, p.last()) == s.cell_events(
            j as int,
            s.y as int,
            p.last(),
        ));
    }
}

} // verus!
