//! The stream consumer: the decisions taken for each item a re-framed
//! stream produces, from the start of a stream to the removal of its
//! registry entry. The caller performs the actions it returns.
use vstd::prelude::*;
use vstd::string::*;
use crate::registry::{StreamRegistry, without};

verus! {

/// A lowercase hexadecimal digit.
pub open spec fn is_lower_hex(c: char) -> bool {
    ('0' <= c && c <= '9') || ('a' <= c && c <= 'f')
}

/// The hyphenated text of a random (version 4, RFC 4122 variant) UUID:
/// 36 characters, hyphens after the 8th, 12th, 16th and 20th digit, the
/// version digit `4`, and a variant digit among `8`, `9`, `a`, `b`.
pub open spec fn is_uuid_v4_text(s: Seq<char>) -> bool {
    &&& s.len() == 36
    &&& forall|i: int|
        0 <= i < 36 ==> if i == 8 || i == 13 || i == 18 || i == 23 {
            s[i] == '-'
        } else {
            is_lower_hex(s[i])
        }
    &&& s[14] == '4'
    &&& (s[19] == '8' || s[19] == '9' || s[19] == 'a' || s[19] == 'b')
}

/// Relies on `uuid::Uuid::new_v4` and its text form: a random version 4
/// UUID, written in the lowercase hyphenated form that `Uuid`'s `Display`
/// gives.
#[verifier::external_body]
fn fresh_stream_id() -> (r: String)
    ensures
        is_uuid_v4_text(r@),
{
    uuid::Uuid::new_v4().to_string()
}

/// The id of a new stream: the caller's, or a fresh random one.
pub fn resolve_stream_id(given: Option<String>) -> (r: String)
    ensures
        given matches Some(g) ==> r@ == g@,
        given is None ==> is_uuid_v4_text(r@),
{
    match given {
        Some(g) => g,
        None => fresh_stream_id(),
    }
}

/// The event that carries the chunks of a stream.
pub open spec fn chunk_event(id: Seq<char>) -> Seq<char> {
    "stream-"@ + id
}

/// The event that carries the error that ends a stream.
pub open spec fn error_event(id: Seq<char>) -> Seq<char> {
    "stream-error-"@ + id
}

/// What the caller does next.
#[derive(Debug)]
pub enum ConsumerAction {
    /// Emit `payload` to the UI under `event`, then hand over the next item.
    Emit { event: String, payload: String },
    /// Emit the error `message` under `event`; the stream is over.
    EmitError { event: String, message: String },
    /// The stream is over.
    Stop,
}

/// One step of a consumer from `before` to `after`, on an item and the state
/// of its token, with the active streams before and after and the action
/// returned.
pub open spec fn stepped(
    before: StreamConsumer,
    after: StreamConsumer,
    cancelled: bool,
    item: Option<Result<String, String>>,
    active_before: Set<Seq<char>>,
    active_after: Set<Seq<char>>,
    r: ConsumerAction,
) -> bool {
    &&& after.id() == before.id()
    &&& before.is_done() ==> {
        &&& r is Stop
        &&& after.is_done()
        &&& after.transcript_text() == before.transcript_text()
        &&& active_after == active_before
    }
    &&& !before.is_done() && (cancelled || item is None) ==> {
        &&& r is Stop
        &&& after.is_done()
        &&& after.transcript_text() == before.transcript_text()
        &&& active_after == without(active_before, before.id())
    }
    &&& !before.is_done() && !cancelled && item is Some && item->Some_0 is Ok ==> {
        &&& r is Emit
        &&& r->Emit_event@ == chunk_event(before.id())
        &&& r->Emit_payload@ == item->Some_0->Ok_0@
        &&& !after.is_done()
        &&& after.transcript_text() == before.transcript_text() + item->Some_0->Ok_0@
        &&& active_after == active_before
    }
    &&& !before.is_done() && !cancelled && item is Some && item->Some_0 is Err ==> {
        &&& r is EmitError
        &&& r->EmitError_event@ == error_event(before.id())
        &&& r->EmitError_message@ == item->Some_0->Err_0@
        &&& after.is_done()
        &&& after.transcript_text() == before.transcript_text()
        &&& active_after == without(active_before, before.id())
    }
}

/// Consumes one stream: forwards its chunks, keeps its transcript, and
/// removes its registry entry exactly once, when it ends.
pub struct StreamConsumer {
    stream_id: String,
    transcript: String,
    done: bool,
}

impl StreamConsumer {
    pub closed spec fn id(&self) -> Seq<char> {
        self.stream_id@
    }

    /// The chunks forwarded so far, joined.
    pub closed spec fn transcript_text(&self) -> Seq<char> {
        self.transcript@
    }

    /// Whether the stream has ended.
    pub closed spec fn is_done(&self) -> bool {
        self.done
    }

    pub fn new(stream_id: String) -> (r: StreamConsumer)
        ensures
            r.id() == stream_id@,
            r.transcript_text() == Seq::<char>::empty(),
            !r.is_done(),
    {
        StreamConsumer { stream_id, transcript: String::new(), done: false }
    }

    pub fn stream_id(&self) -> (r: String)
        ensures
            r@ == self.id(),
    {
        self.stream_id.clone()
    }

    pub fn transcript(&self) -> (r: String)
        ensures
            r@ == self.transcript_text(),
    {
        self.transcript.clone()
    }

    pub fn is_finished(&self) -> (r: bool)
        ensures
            r == self.is_done(),
    {
        self.done
    }

    fn end(&mut self, registry: &mut StreamRegistry)
        requires
            old(registry).wf(),
            !old(self).is_done(),
        ensures
            final(registry).wf(),
            final(registry).active() == without(old(registry).active(), old(self).id()),
            final(self).is_done(),
            final(self).id() == old(self).id(),
            final(self).transcript_text() == old(self).transcript_text(),
    {
        let _ = registry.remove(self.stream_id.as_str());
        self.done = true;
    }

    /// Ends the stream before any item, as when the upstream call could not
    /// be started: its registry entry is removed, once.
    pub fn abandon(&mut self, registry: &mut StreamRegistry)
        requires
            old(registry).wf(),
        ensures
            final(registry).wf(),
            final(self).is_done(),
            final(self).id() == old(self).id(),
            final(self).transcript_text() == old(self).transcript_text(),
            old(self).is_done() ==> final(registry).active() == old(registry).active(),
            !old(self).is_done() ==> final(registry).active() == without(
                old(registry).active(),
                old(self).id(),
            ),
    {
        if !self.done {
            self.end(registry);
        }
    }

    /// Takes the next item of the stream (`None` once it is exhausted), with
    /// whether the stream's token was found cancelled when the item came.
    pub fn step(
        &mut self,
        cancelled: bool,
        item: Option<Result<String, String>>,
        registry: &mut StreamRegistry,
    ) -> (r: ConsumerAction)
        requires
            old(registry).wf(),
        ensures
            final(registry).wf(),
            stepped(
                *old(self),
                *final(self),
                cancelled,
                item,
                old(registry).active(),
                final(registry).active(),
                r,
            ),
    {
        if self.done {
            return ConsumerAction::Stop;
        }
        if cancelled {
            self.end(registry);
            return ConsumerAction::Stop;
        }
        match item {
            None => {
                self.end(registry);
                ConsumerAction::Stop
            },
            Some(Ok(chunk)) => {
                self.transcript.append(chunk.as_str());
                let event = String::from_str("stream-").concat(self.stream_id.as_str());
                ConsumerAction::Emit { event, payload: chunk }
            },
            Some(Err(message)) => {
                self.end(registry);
                let event = String::from_str("stream-error-").concat(self.stream_id.as_str());
                ConsumerAction::EmitError { event, message }
            },
        }
    }
}

} // verus!
