use vstd::prelude::*;

use crate::color::Color;
use crate::state::State;

verus! {

/// Value `j` of an SGR parameter list; a value missing at the end reads as
/// zero.
pub open spec fn arg(ps: Seq<i64>, j: int) -> i64 {
    if 0 <= j < ps.len() {
        ps[j]
    } else {
        0
    }
}

/// The color that an extended color code (`38` or `48`) at index `i`
/// selects: `2;r;g;b` is a true color, `5;n` a palette index; another
/// selector selects nothing.
pub open spec fn extended_color(ps: Seq<i64>, i: int) -> Option<Color> {
    let sel = arg(ps, i + 1);
    if sel == 2 {
        Some(Color::TrueColor(arg(ps, i + 2) as u8, arg(ps, i + 3) as u8, arg(ps, i + 4) as u8))
    } else if sel == 5 {
        Some(Color::Ansi(arg(ps, i + 2) as u8))
    } else {
        None
    }
}

/// The index just past the arguments of the extended color code at `i`.
pub open spec fn extended_next(ps: Seq<i64>, i: int) -> int {
    let sel = arg(ps, i + 1);
    if sel == 2 {
        i + 5
    } else if sel == 5 {
        i + 3
    } else {
        i + 2
    }
}

impl State {
    /// The attributes after one single-valued SGR code: `0` resets every
    /// attribute and both colors to the defaults; `1 3 4 7 9` set bold,
    /// italic, underline, inverse, strikethrough and `21 23 24 27 29` clear
    /// them; `30..=37` and `40..=47` pick a palette color; `39` and `49`
    /// restore the default foreground and background. Others change nothing.
    pub open spec fn sgr_code(self, v: i64) -> State {
        if v == 0 {
            State {
                foreground: self.foreground_default,
                background: self.background_default,
                bold: false,
                italic: false,
                underlined: false,
                inverted: false,
                strikethrough: false,
                ..self
            }
        } else if v == 1 || v == 21 {
            State { bold: v == 1, ..self }
        } else if v == 3 || v == 23 {
            State { italic: v == 3, ..self }
        } else if v == 4 || v == 24 {
            State { underlined: v == 4, ..self }
        } else if v == 7 || v == 27 {
            State { inverted: v == 7, ..self }
        } else if v == 9 || v == 29 {
            State { strikethrough: v == 9, ..self }
        } else if 30 <= v <= 37 {
            State { foreground: Color::Ansi((v - 30) as u8), ..self }
        } else if v == 39 {
            State { foreground: self.foreground_default, ..self }
        } else if 40 <= v <= 47 {
            State { background: Color::Ansi((v - 40) as u8), ..self }
        } else if v == 49 {
            State { background: self.background_default, ..self }
        } else {
            self
        }
    }

    /// The attributes after the SGR code at index `i` of `ps`, an extended
    /// color code taking its arguments along.
    pub open spec fn sgr_one(self, ps: Seq<i64>, i: int) -> State {
        if ps[i] == 38 || ps[i] == 48 {
            match extended_color(ps, i) {
                Some(col) => if ps[i] == 38 {
                    State { foreground: col, ..self }
                } else {
                    State { background: col, ..self }
                },
                None => self,
            }
        } else {
            self.sgr_code(ps[i])
        }
    }

    /// The index of the SGR code after the one at index `i`.
    pub open spec fn sgr_next(ps: Seq<i64>, i: int) -> int {
        if ps[i] == 38 || ps[i] == 48 {
            extended_next(ps, i)
        } else {
            i + 1
        }
    }

    /// The attributes after the SGR codes of `ps` from index `i` on.
    pub open spec fn sgr_from(self, ps: Seq<i64>, i: int) -> State
        decreases ps.len() - i,
    {
        if i < 0 || i >= ps.len() {
            self
        } else if State::sgr_next(ps, i) < ps.len() {
            self.sgr_one(ps, i).sgr_from(ps, State::sgr_next(ps, i))
        } else {
            self.sgr_one(ps, i)
        }
    }

    /// The attributes after an SGR sequence; an empty one is a reset.
    pub open spec fn sgr_state(self, ps: Seq<i64>) -> State {
        if ps.len() == 0 {
            self.sgr_code(0)
        } else {
            self.sgr_from(ps, 0)
        }
    }

    /// SGR codes change only attributes and colors.
    pub proof fn lemma_sgr_keeps_wf(self, ps: Seq<i64>)
        requires
            self.wf(),
        ensures
            self.sgr_state(ps).wf(),
    {
        self.lemma_sgr_from_frame(ps, 0);
    }

    proof fn lemma_sgr_from_frame(self, ps: Seq<i64>, i: int)
        ensures
            self.sgr_from(ps, i).x == self.x,
            self.sgr_from(ps, i).y == self.y,
            self.sgr_from(ps, i).w == self.w,
            self.sgr_from(ps, i).h == self.h,
            self.sgr_from(ps, i).top_margin == self.top_margin,
            self.sgr_from(ps, i).bottom_margin == self.bottom_margin,
        decreases ps.len() - i,
    {
        if 0 <= i < ps.len() && State::sgr_next(ps, i) < ps.len() {
            self.sgr_one(ps, i).lemma_sgr_from_frame(ps, State::sgr_next(ps, i));
        }
    }

    /// Applies one single-valued SGR code.
    fn apply_sgr_code(&self, v: i64) -> (r: State)
        ensures
            r == self.sgr_code(v),
    {
        let s = *self;
        if v == 0 {
            State {
                foreground: s.foreground_default,
                background: s.background_default,
                bold: false,
                italic: false,
                underlined: false,
                inverted: false,
                strikethrough: false,
                ..s
            }
        } else if v == 1 || v == 21 {
            State { bold: v == 1, ..s }
        } else if v == 3 || v == 23 {
            State { italic: v == 3, ..s }
        } else if v == 4 || v == 24 {
            State { underlined: v == 4, ..s }
        } else if v == 7 || v == 27 {
            State { inverted: v == 7, ..s }
        } else if v == 9 || v == 29 {
            State { strikethrough: v == 9, ..s }
        } else if 30 <= v && v <= 37 {
            State { foreground: Color::Ansi((v - 30) as u8), ..s }
        } else if v == 39 {
            State { foreground: s.foreground_default, ..s }
        } else if 40 <= v && v <= 47 {
            State { background: Color::Ansi((v - 40) as u8), ..s }
        } else if v == 49 {
            State { background: s.background_default, ..s }
        } else {
            s
        }
    }

    /// Applies an SGR sequence to the text attributes.
    pub(crate) fn sgr(&self, params: &[i64]) -> (r: State)
        ensures
            r == self.sgr_state(params@),
    {
        if params.len() == 0 {
            return self.apply_sgr_code(0);
        }
        let len = params.len();
        let mut s = *self;
        let mut i: usize = 0;
        while i < len
            invariant
                len == params@.len(),
                i <= len,
                s.sgr_from(params@, i as int) == self.sgr_from(params@, 0),
            decreases len - i,
        {
            let (s1, next) = s.sgr_step(params, i);
            s = s1;
            i = next;
        }
        s
    }

    /// Applies the SGR code at index `i`; returns the attributes and the
    /// index of the next code.
    fn sgr_step(&self, params: &[i64], i: usize) -> (r: (State, usize))
        requires
            i < params@.len(),
        ensures
            r.0 == self.sgr_one(params@, i as int),
            r.1 == if State::sgr_next(params@, i as int) < params@.len() {
                State::sgr_next(params@, i as int)
            } else {
                params@.len() as int
            },
            i < r.1 <= params@.len(),
    {
        let v = params[i];
        if v == 38 || v == 48 {
            let (color, next) = extended_color_at(params, i);
            let s = match color {
                Some(col) => if v == 38 {
                    State { foreground: col, ..*self }
                } else {
                    State { background: col, ..*self }
                },
                None => *self,
            };
            (s, next)
        } else {
            (self.apply_sgr_code(v), i + 1)
        }
    }
}

/// Value `i + k` of the parameter list, zero past its end.
fn arg_at(params: &[i64], i: usize, k: usize) -> (r: i64)
    requires
        i <= params@.len(),
    ensures
        r == arg(params@, i + k),
{
    if k < params.len() - i {
        params[i + k]
    } else {
        0
    }
}

/// The extended color code at index `i`, with the index past its arguments
/// (capped at the end of the list).
fn extended_color_at(params: &[i64], i: usize) -> (r: (Option<Color>, usize))
    requires
        i < params@.len(),
    ensures
        r.0 == extended_color(params@, i as int),
        r.1 == if extended_next(params@, i as int) < params@.len() {
            extended_next(params@, i as int)
        } else {
            params@.len() as int
        },
        r.1 > i,
{
    let sel = arg_at(params, i, 1);
    let (color, step) = if sel == 2 {
        let r = #[verifier::truncate] (arg_at(params, i, 2) as u8);
        let g = #[verifier::truncate] (arg_at(params, i, 3) as u8);
        let b = #[verifier::truncate] (arg_at(params, i, 4) as u8);
        (Some(Color::TrueColor(r, g, b)), 5)
    } else if sel == 5 {
        (Some(Color::Ansi(#[verifier::truncate] (arg_at(params, i, 2) as u8))), 3)
    } else {
        (None, 2)
    };
    let next = if step < params.len() - i {
        i + step
    } else {
        params.len()
    };
    (color, next)
}

} // verus!
