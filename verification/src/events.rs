//! A cursor that walks over the events of a byte slice.

use vstd::prelude::*;
use crate::banks::{advanced, CursorSpec};
use crate::event::{
    event_error_matches, event_view, parse_event, uniform_layout, EventSpec, EventView,
    TryEventViewFromBytesError,
};
use crate::wire::{take, Endianness};

verus! {

/// The events that follow one another from `pos` on, up to the first offset
/// at which none can be decoded.
pub open spec fn events_from(bytes: Seq<u8>, pos: int, endian: Endianness) -> Seq<EventSpec>
    decreases bytes.len() - pos,
{
    match parse_event(bytes, pos, endian) {
        Ok(parsed) => if pos < parsed.next {
            seq![parsed.event] + events_from(bytes, parsed.next, endian)
        } else {
            Seq::empty()
        },
        Err(_) => Seq::empty(),
    }
}

/// The first offset from `pos` on at which no event can be decoded.
pub open spec fn events_end(bytes: Seq<u8>, pos: int, endian: Endianness) -> int
    decreases bytes.len() - pos,
{
    match parse_event(bytes, pos, endian) {
        Ok(parsed) => if pos < parsed.next {
            events_end(bytes, parsed.next, endian)
        } else {
            pos
        },
        Err(_) => pos,
    }
}

/// A decoded event lies inside the buffer and is at least as long as its
/// header; a failed one stops inside the buffer or at its end.
pub proof fn lemma_event_advances(bytes: Seq<u8>, pos: int, endian: Endianness)
    ensures
        parse_event(bytes, pos, endian) is Ok ==> {
            let parsed = parse_event(bytes, pos, endian)->Ok_0;
            &&& 0 <= pos
            &&& parsed.next == pos + 24 + parsed.event.all_banks.len()
            &&& parsed.next <= bytes.len()
        },
{
}

/// No event can be decoded where the sequence of events ends, and the
/// sequence ends inside the buffer.
pub proof fn lemma_events_end(bytes: Seq<u8>, pos: int, endian: Endianness)
    requires
        0 <= pos <= bytes.len(),
    ensures
        pos <= events_end(bytes, pos, endian) <= bytes.len(),
        parse_event(bytes, events_end(bytes, pos, endian), endian) is Err,
        events_from(bytes, pos, endian).len() <= events_end(bytes, pos, endian) - pos,
    decreases bytes.len() - pos,
{
    lemma_event_advances(bytes, pos, endian);
    match parse_event(bytes, pos, endian) {
        Ok(parsed) => {
            lemma_events_end(bytes, parsed.next, endian);
        },
        Err(_) => {},
    }
}

/// A cursor over the events of a byte slice.
#[derive(Clone, Copy, Debug)]
pub struct EventViews<'a> {
    curr: usize,
    slice: &'a [u8],
    endianness: Endianness,
}

impl<'a> View for EventViews<'a> {
    type V = CursorSpec;

    closed spec fn view(&self) -> CursorSpec {
        CursorSpec { bytes: self.slice@, position: self.curr as int, endian: self.endianness }
    }
}

/// The views of a vector of events.
pub open spec fn event_specs(events: Seq<EventView>) -> Seq<EventSpec> {
    Seq::new(events.len(), |i: int| events[i]@)
}

impl<'a> EventViews<'a> {
    #[verifier::type_invariant]
    closed spec fn well_formed(&self) -> bool {
        self.curr <= self.slice@.len()
    }

    /// A cursor at the start of a buffer in the given byte order.
    pub fn new(buffer: &'a [u8], endianness: Endianness) -> (r: Self)
        ensures
            r@ == (CursorSpec { bytes: buffer@, position: 0, endian: endianness }),
    {
        EventViews { curr: 0, slice: buffer, endianness }
    }

    /// A cursor at offset `pos` of a buffer in the given byte order.
    pub fn starting_at(buffer: &'a [u8], pos: usize, endianness: Endianness) -> (r: Self)
        requires
            pos <= buffer@.len(),
        ensures
            r@ == (CursorSpec { bytes: buffer@, position: pos as int, endian: endianness }),
    {
        EventViews { curr: pos, slice: buffer, endianness }
    }

    /// A cursor at the start of a little-endian buffer.
    pub fn from_le_bytes(buffer: &'a [u8]) -> (r: Self)
        ensures
            r@ == (CursorSpec {
                bytes: buffer@,
                position: 0,
                endian: Endianness::LittleEndian,
            }),
    {
        EventViews::new(buffer, Endianness::LittleEndian)
    }

    /// A cursor at the start of a big-endian buffer.
    pub fn from_be_bytes(buffer: &'a [u8]) -> (r: Self)
        ensures
            r@ == (CursorSpec { bytes: buffer@, position: 0, endian: Endianness::BigEndian }),
    {
        EventViews::new(buffer, Endianness::BigEndian)
    }

    /// The bytes that have not been decoded yet.
    pub fn remainder(&self) -> (r: &'a [u8])
        ensures
            0 <= self@.position <= self@.bytes.len(),
            r@ == self@.bytes.subrange(self@.position, self@.bytes.len() as int),
    {
        proof {
            use_type_invariant(self);
        }
        take(self.slice, self.curr, self.slice.len() - self.curr)
    }

    /// The offset of the next byte to decode.
    pub fn position(&self) -> (r: usize)
        ensures
            r as int == self@.position,
            r <= self@.bytes.len(),
    {
        proof {
            use_type_invariant(self);
        }
        self.curr
    }

    /// Decodes the event at the cursor and moves behind it. Where no event
    /// can be decoded the cursor stays and the result tells where and why
    /// decoding stopped.
    pub fn try_next(&mut self) -> (r: Result<EventView<'a>, TryEventViewFromBytesError>)
        ensures
            match parse_event(old(self)@.bytes, old(self)@.position, old(self)@.endian) {
                Ok(parsed) => r is Ok && r->Ok_0@ == parsed.event && uniform_layout(r->Ok_0)
                    && final(self)@ == advanced(old(self)@, parsed.next),
                Err(failure) => r is Err && event_error_matches(r->Err_0, failure) && final(self)@
                    == old(self)@,
            },
    {
        proof {
            use_type_invariant(&*self);
            lemma_event_advances(self.slice@, self.curr as int, self.endianness);
        }
        match event_view(self.slice, self.curr, self.endianness) {
            Ok((event, next)) => {
                self.curr = next;
                Ok(event)
            },
            Err(e) => Err(e),
        }
    }

    /// Decodes the event at the cursor and moves behind it. Where no event
    /// can be decoded the cursor stays and the result is `None`.
    pub fn next(&mut self) -> (r: Option<EventView<'a>>)
        ensures
            match parse_event(old(self)@.bytes, old(self)@.position, old(self)@.endian) {
                Ok(parsed) => r is Some && r->Some_0@ == parsed.event && uniform_layout(r->Some_0)
                    && final(self)@ == advanced(old(self)@, parsed.next),
                Err(_) => r is None && final(self)@ == old(self)@,
            },
    {
        match self.try_next() {
            Ok(event) => Some(event),
            Err(_) => None,
        }
    }

    /// The number of events that `next` would still give.
    pub fn count(self) -> (r: usize)
        ensures
            r == events_from(self@.bytes, self@.position, self@.endian).len(),
    {
        let (events, _, _) = self.collect();
        events.len()
    }

    /// Decodes every event that `next` would still give and tells where and
    /// why decoding then stops.
    pub fn collect(self) -> (r: (Vec<EventView<'a>>, usize, TryEventViewFromBytesError))
        ensures
            event_specs(r.0@) == events_from(self@.bytes, self@.position, self@.endian),
            forall|i: int| 0 <= i < r.0@.len() ==> uniform_layout(#[trigger] r.0@[i]),
            r.1 as int == events_end(self@.bytes, self@.position, self@.endian),
            self@.position <= r.1 <= self@.bytes.len(),
            parse_event(self@.bytes, r.1 as int, self@.endian) is Err,
            event_error_matches(r.2, parse_event(self@.bytes, r.1 as int, self@.endian)->Err_0),
    {
        let mut cursor = self;
        let mut events: Vec<EventView<'a>> = Vec::new();
        proof {
            use_type_invariant(&cursor);
            assert(cursor.slice.len() <= usize::MAX);
        }
        let ghost all = events_from(self@.bytes, self@.position, self@.endian);
        loop
            invariant
                cursor@.bytes == self@.bytes,
                cursor@.endian == self@.endian,
                self@.position <= cursor@.position <= cursor@.bytes.len() <= usize::MAX,
                all == events_from(self@.bytes, self@.position, self@.endian),
                all =~= event_specs(events@) + events_from(
                    cursor@.bytes,
                    cursor@.position,
                    cursor@.endian,
                ),
                forall|i: int| 0 <= i < events@.len() ==> uniform_layout(#[trigger] events@[i]),
                events_end(cursor@.bytes, cursor@.position, cursor@.endian) == events_end(
                    self@.bytes,
                    self@.position,
                    self@.endian,
                ),
            decreases cursor@.bytes.len() - cursor@.position,
        {
            proof {
                lemma_event_advances(cursor@.bytes, cursor@.position, cursor@.endian);
            }
            let ghost before = events@;
            match cursor.try_next() {
                Ok(event) => {
                    events.push(event);
                    assert(event_specs(events@) =~= event_specs(before) + seq![event@]);
                },
                Err(e) => {
                    proof {
                        use_type_invariant(&cursor);
                    }
                    assert(all =~= event_specs(events@));
                    return (events, cursor.curr, e);
                },
            }
        }
    }
}

} // verus!
