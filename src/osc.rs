use vstd::prelude::*;

use crate::event::{emit, views, Event, EventView};
use crate::state::State;
use vstd::utf8::{decode_utf8, valid_utf8};

verus! {

/// Relies on `std::str::from_utf8`: it succeeds exactly on valid UTF-8 and
/// then returns the decoded text.
#[verifier::external_body]
fn utf8_to_string(b: &[u8]) -> (r: Option<String>)
    ensures
        r is Some <==> valid_utf8(b@),
        r matches Some(t) ==> t@ == decode_utf8(b@),
{
    match std::str::from_utf8(b) {
        Ok(t) => Some(t.to_string()),
        Err(_) => None,
    }
}

/// The views of the parameters of an operating system command.
pub open spec fn osc_args(params: Seq<&[u8]>) -> Seq<Seq<u8>> {
    params.map_values(|p: &[u8]| p@)
}

/// The title that an operating system command sets, as bytes: commands
/// `0`, `1` and `2` (window and icon title) set it to their second
/// parameter. `None` for any other command, or when the second parameter is
/// missing.
pub open spec fn title_arg(ps: Seq<Seq<u8>>) -> Option<Seq<u8>> {
    if ps.len() >= 2 && ps[0].len() > 0 && 0x30 <= ps[0][0] <= 0x32 {
        Some(ps[1])
    } else {
        None
    }
}

/// The events of an operating system command: one `Title` when it sets a
/// title that is valid UTF-8, none otherwise.
pub open spec fn osc_events(ps: Seq<Seq<u8>>) -> Seq<EventView> {
    match title_arg(ps) {
        Some(b) => if valid_utf8(b) {
            seq![EventView::Title { title: decode_utf8(b) }]
        } else {
            seq![]
        },
        None => seq![],
    }
}

/// The title bytes of an operating system command, when it sets a title.
pub fn title_payload<'a>(params: &[&'a [u8]]) -> (r: Option<&'a [u8]>)
    ensures
        match r {
            Some(b) => title_arg(osc_args(params@)) == Some(b@),
            None => title_arg(osc_args(params@)) is None,
        },
{
    if params.len() >= 2 && params[0].len() > 0 && 0x30 <= params[0][0] && params[0][0] <= 0x32 {
        Some(params[1])
    } else {
        None
    }
}

impl State {
    /// Handles an operating system command (`ESC ]` ...), given as its
    /// `;`-separated parameters. Only the title commands are understood;
    /// the state never changes.
    pub fn osc(&mut self, params: &[&[u8]], events: &mut Vec<Event>)
        requires
            old(self).wf(),
        ensures
            final(self).wf(),
            *final(self) == *old(self),
            views(final(events)@) == views(old(events)@) + osc_events(osc_args(params@)),
    {
        match title_payload(params) {
            Some(bytes) => match utf8_to_string(bytes) {
                Some(title) => emit(events, Event::Title { title }),
                None => {
                    assert(views(events@) =~= views(old(events)@) + seq![]);
                },
            },
            None => {
                assert(views(events@) =~= views(old(events)@) + seq![]);
            },
        }
    }
}

} // verus!
