use vstd::prelude::*;

use crate::color::Color;

verus! {

/// One screen mutation or side effect, handed to the caller in emission order.
#[derive(Clone, Debug, PartialEq, Eq)]
pub enum Event {
    /// Draw one glyph with the given attributes at a cell.
    Char {
        x: usize,
        y: usize,
        c: char,
        bold: bool,
        italic: bool,
        underlined: bool,
        strikethrough: bool,
        color: Color,
    },
    /// Bytes that the host should feed back as if they had been typed.
    Input { data: Vec<u8> },
    /// Fill a rectangle of cells with a color.
    Rect { x: usize, y: usize, w: usize, h: usize, color: Color },
    /// Switch between the primary and the alternate screen buffer.
    ScreenBuffer { alternate: bool, clear: bool },
    /// Copy a rectangle of cells from one place to another.
    Move { from_x: usize, from_y: usize, to_x: usize, to_y: usize, w: usize, h: usize },
    /// The screen dimensions changed.
    Resize { w: usize, h: usize },
    /// The window title changed.
    Title { title: String },
}

/// The mathematical content of an [`Event`]: byte and character payloads
/// as sequences.
pub enum EventView {
    Char {
        x: usize,
        y: usize,
        c: char,
        bold: bool,
        italic: bool,
        underlined: bool,
        strikethrough: bool,
        color: Color,
    },
    Input { data: Seq<u8> },
    Rect { x: usize, y: usize, w: usize, h: usize, color: Color },
    ScreenBuffer { alternate: bool, clear: bool },
    Move { from_x: usize, from_y: usize, to_x: usize, to_y: usize, w: usize, h: usize },
    Resize { w: usize, h: usize },
    Title { title: Seq<char> },
}

impl View for Event {
    type V = EventView;

    open spec fn view(&self) -> EventView {
        match self {
            Event::Char { x, y, c, bold, italic, underlined, strikethrough, color } => EventView::Char {
                x: *x,
                y: *y,
                c: *c,
                bold: *bold,
                italic: *italic,
                underlined: *underlined,
                strikethrough: *strikethrough,
                color: *color,
            },
            Event::Input { data } => EventView::Input { data: data@ },
            Event::Rect { x, y, w, h, color } => EventView::Rect {
                x: *x,
                y: *y,
                w: *w,
                h: *h,
                color: *color,
            },
            Event::ScreenBuffer { alternate, clear } => EventView::ScreenBuffer {
                alternate: *alternate,
                clear: *clear,
            },
            Event::Move { from_x, from_y, to_x, to_y, w, h } => EventView::Move {
                from_x: *from_x,
                from_y: *from_y,
                to_x: *to_x,
                to_y: *to_y,
                w: *w,
                h: *h,
            },
            Event::Resize { w, h } => EventView::Resize { w: *w, h: *h },
            Event::Title { title } => EventView::Title { title: title@ },
        }
    }
}

/// The views of a log of events.
#[verifier::opaque]
pub open spec fn views(log: Seq<Event>) -> Seq<EventView> {
    log.map_values(|e: Event| e@)
}

/// Appends one event to the log.
pub(crate) fn emit(events: &mut Vec<Event>, e: Event)
    ensures
        views(final(events)@) == views(old(events)@).push(e@),
{
    let ghost before = events@;
    events.push(e);
    proof {
        reveal(views);
        assert(views(events@) =~= views(before).push(e@));
    }
}

} // verus!
