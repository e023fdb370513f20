//! The outbound body: payload octets, and trailing metadata that the
//! transport may consume exactly once, after the payload has been
//! streamed. The trailer slot moves one way: unset, then set, then
//! consumed; once consumed it yields nothing again.

use vstd::prelude::*;
use crate::headers::Headers;

verus! {

/// What the transport can observe of the trailer slot.
pub enum TrailerView {
    Unset,
    Filled(Map<Seq<char>, Seq<char>>),
    Consumed,
}

enum TrailerState {
    Unset,
    Filled(Headers),
    Consumed,
}

/// The observable state of an outbound body: its payload octets, if any
/// were installed, and the trailer slot.
pub struct BodyView {
    pub content: Option<Seq<u8>>,
    pub trailers: TrailerView,
}

/// An outbound body with deferred trailing metadata.
pub struct ProtoBody {
    content: Option<Vec<u8>>,
    trailers: TrailerState,
}

impl View for ProtoBody {
    type V = BodyView;

    closed spec fn view(&self) -> BodyView {
        BodyView {
            content: match self.content {
                Some(b) => Some(b@),
                None => None,
            },
            trailers: match self.trailers {
                TrailerState::Unset => TrailerView::Unset,
                TrailerState::Filled(h) => TrailerView::Filled(h@),
                TrailerState::Consumed => TrailerView::Consumed,
            },
        }
    }
}

/// What one consumption of the trailer slot hands out.
pub open spec fn taken_trailers(t: TrailerView) -> Option<Map<Seq<char>, Seq<char>>> {
    match t {
        TrailerView::Filled(m) => Some(m),
        _ => None,
    }
}

/// The trailer slot after one consumption.
pub open spec fn after_take(t: TrailerView) -> TrailerView {
    match t {
        TrailerView::Filled(_) => TrailerView::Consumed,
        other => other,
    }
}

/// Trailer one-shot law: whatever the slot held, after one consumption
/// a second consumption yields nothing — in particular a slot that was
/// set gives its metadata out only once.
pub proof fn lemma_trailer_one_shot(t: TrailerView)
    ensures
        taken_trailers(after_take(t)) is None,
{
}

fn create_default_header_map() -> (r: Headers)
    ensures
        r@ == Map::<Seq<char>, Seq<char>>::empty().insert("grpc-status"@, "0"@),
        r.wf(),
{
    let mut h = Headers::new();
    h.set("grpc-status", "0");
    h
}

impl ProtoBody {
    /// The headers held in the trailer slot, if it is set, carry
    /// distinct names.
    pub closed spec fn wf(&self) -> bool {
        match self.trailers {
            TrailerState::Filled(h) => h.wf(),
            _ => true,
        }
    }

    /// A body whose payload is `bytes`, trailers not yet set.
    pub fn from_bytes(bytes: Vec<u8>) -> (r: ProtoBody)
        ensures
            r@.content == Some(bytes@),
            r@.trailers == TrailerView::Unset,
            r.wf(),
    {
        ProtoBody { content: Some(bytes), trailers: TrailerState::Unset }
    }

    /// A body with no payload, trailers not yet set.
    pub fn empty() -> (r: ProtoBody)
        ensures
            r@.content is None,
            r@.trailers == TrailerView::Unset,
            r.wf(),
    {
        ProtoBody { content: None, trailers: TrailerState::Unset }
    }

    /// Replaces the payload wholesale; the trailer slot is untouched.
    pub fn set_body(&mut self, bytes: Vec<u8>)
        ensures
            final(self)@.content == Some(bytes@),
            final(self)@.trailers == old(self)@.trailers,
            old(self).wf() ==> final(self).wf(),
    {
        self.content = Some(bytes);
    }

    /// Fills the trailer slot with `headers`; the payload is untouched.
    pub fn set_headers(&mut self, headers: Headers)
        ensures
            final(self)@.trailers == TrailerView::Filled(headers@),
            final(self)@.content == old(self)@.content,
            headers.wf() ==> final(self).wf(),
    {
        self.trailers = TrailerState::Filled(headers);
    }

    /// One consumption of the trailer slot: hands out the metadata the
    /// first time after the slot was set, and nothing on any later ask.
    pub fn take_trailers(&mut self) -> (r: Option<Headers>)
        ensures
            final(self)@.content == old(self)@.content,
            final(self)@.trailers == after_take(old(self)@.trailers),
            (match r {
                Some(h) => taken_trailers(old(self)@.trailers) == Some(h@),
                None => taken_trailers(old(self)@.trailers) is None,
            }),
            old(self).wf() ==> final(self).wf(),
            old(self).wf() ==> (match r {
                Some(h) => h.wf(),
                None => true,
            }),
    {
        let mut prev = TrailerState::Consumed;
        core::mem::swap(&mut self.trailers, &mut prev);
        match prev {
            TrailerState::Filled(h) => Some(h),
            TrailerState::Unset => {
                self.trailers = TrailerState::Unset;
                None
            },
            TrailerState::Consumed => None,
        }
    }

    /// One consumption of the payload: hands the octets out the first
    /// time, and nothing on any later ask. The trailer slot is untouched.
    pub fn take_content(&mut self) -> (r: Option<Vec<u8>>)
        ensures
            final(self)@.content is None,
            final(self)@.trailers == old(self)@.trailers,
            (match r {
                Some(b) => old(self)@.content == Some(b@),
                None => old(self)@.content is None,
            }),
            old(self).wf() ==> final(self).wf(),
    {
        self.content.take()
    }
}

impl Default for ProtoBody {
    /// An empty body whose trailer slot already announces a zero
    /// protocol status.
    fn default() -> (r: ProtoBody)
        ensures
            r@.content is None,
            r@.trailers == TrailerView::Filled(
                Map::<Seq<char>, Seq<char>>::empty().insert("grpc-status"@, "0"@),
            ),
            r.wf(),
    {
        ProtoBody { content: None, trailers: TrailerState::Filled(create_default_header_map()) }
    }
}

} // verus!
