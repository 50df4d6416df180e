//! Server-Sent-Events re-framing: an incremental line decoder over the bytes
//! of a response body, and the classification of each decoded line.
use vstd::prelude::*;
use vstd::string::*;
use vstd::utf8::*;
use crate::text::{same_text, trim_text, trimmed};

verus! {

/// Line feed.
pub const LF: u8 = 10;

/// Carriage return.
pub const CR: u8 = 13;

/// Whether `s` holds a line feed.
pub open spec fn has_newline(s: Seq<u8>) -> bool {
    exists|i: int| 0 <= i < s.len() && s[i] == LF
}

/// `i` is the position of the first line feed of `s`.
pub open spec fn first_newline(s: Seq<u8>, i: int) -> bool {
    &&& 0 <= i < s.len()
    &&& s[i] == LF
    &&& forall|j: int| 0 <= j < i ==> s[j] != LF
}

/// `s` without one trailing carriage return.
pub open spec fn strip_cr(s: Seq<u8>) -> Seq<u8> {
    if s.len() > 0 && s.last() == CR {
        s.drop_last()
    } else {
        s
    }
}

/// Splits a byte stream, handed over in chunks of any size, into lines.
/// A line ends at a line feed, which is dropped together with one carriage
/// return before it. Only the bytes of the unfinished line are kept.
pub struct LineDecoder {
    pending: Vec<u8>,
}

impl View for LineDecoder {
    type V = Seq<u8>;

    /// The bytes received that do not yet form a complete line.
    closed spec fn view(&self) -> Seq<u8> {
        self.pending@
    }
}

impl LineDecoder {
    pub fn new() -> (r: LineDecoder)
        ensures
            r@ == Seq::<u8>::empty(),
    {
        LineDecoder { pending: Vec::new() }
    }

    /// Appends the next chunk of the body.
    pub fn push(&mut self, chunk: &[u8])
        ensures
            final(self)@ == old(self)@ + chunk@,
    {
        self.pending.extend_from_slice(chunk);
    }

    /// Takes out the first complete line, if the received bytes hold one.
    pub fn next_line(&mut self) -> (r: Option<Vec<u8>>)
        ensures
            r is None <==> !has_newline(old(self)@),
            r is None ==> final(self)@ == old(self)@,
            r matches Some(line) ==> exists|i: int|
                first_newline(old(self)@, i) && line@ == strip_cr(old(self)@.take(i))
                    && final(self)@ == old(self)@.skip(i + 1),
    {
        let ghost before = self.pending@;
        let n = self.pending.len();
        let mut i: usize = 0;
        while i < n && self.pending[i] != LF
            invariant
                self.pending@ == before,
                before == old(self)@,
                n == self.pending@.len(),
                0 <= i <= n,
                forall|j: int| 0 <= j < i ==> self.pending@[j] != LF,
            decreases n - i,
        {
            i = i + 1;
        }
        if i == n {
            return None;
        }
        let mut line = self.pending.split_off(i + 1);
        std::mem::swap(&mut line, &mut self.pending);
        line.pop();
        if line.len() > 0 && line[line.len() - 1] == CR {
            line.pop();
        }
        assert(first_newline(before, i as int));
        assert(self.pending@ =~= before.skip(i + 1));
        assert(line@ =~= strip_cr(before.take(i as int)));
        assert(first_newline(before, i as int) && line@ == strip_cr(before.take(i as int))
            && self@ == before.skip(i + 1));
        Some(line)
    }

    /// At the end of the body: takes out the unfinished line, if any.
    pub fn finish(&mut self) -> (r: Option<Vec<u8>>)
        ensures
            final(self)@ == Seq::<u8>::empty(),
            r is None <==> old(self)@.len() == 0,
            r matches Some(line) ==> line@ == old(self)@,
    {
        if self.pending.len() == 0 {
            return None;
        }
        let mut line = Vec::new();
        std::mem::swap(&mut line, &mut self.pending);
        Some(line)
    }
}

/// What an SSE line is, judged on its trimmed form.
#[derive(Clone, Copy, Debug, PartialEq, Eq, Structural)]
pub enum LineKind {
    /// Nothing but whitespace.
    Blank,
    /// Starts with a colon.
    Comment,
    /// The terminal sentinel `[DONE]`.
    Done,
    /// Anything else.
    Data,
}

/// The terminal sentinel.
pub open spec fn done_text() -> Seq<char> {
    "[DONE]"@
}

pub open spec fn kind_of(line: Seq<char>) -> LineKind {
    let t = trimmed(line);
    if t.len() == 0 {
        LineKind::Blank
    } else if t[0] == ':' {
        LineKind::Comment
    } else if t == done_text() {
        LineKind::Done
    } else {
        LineKind::Data
    }
}

/// The chunks emitted for one line.
pub open spec fn reframed(line: Seq<char>) -> Seq<Seq<char>> {
    match kind_of(line) {
        LineKind::Blank => seq!["\n"@],
        LineKind::Comment => seq![],
        LineKind::Done => seq!["data: [DONE]\n"@, "\n"@],
        LineKind::Data => seq![line + "\n"@, "\n"@],
    }
}

/// The characters of each string.
pub open spec fn texts(v: Seq<String>) -> Seq<Seq<char>> {
    v.map_values(|s: String| s@)
}

/// Classifies one decoded line.
pub fn classify_line(line: &str) -> (r: LineKind)
    ensures
        r == kind_of(line@),
{
    let t = trim_text(line);
    if t.unicode_len() == 0 {
        LineKind::Blank
    } else if t.get_char(0) == ':' {
        LineKind::Comment
    } else if same_text(t, "[DONE]") {
        LineKind::Done
    } else {
        LineKind::Data
    }
}

/// The chunks that re-frame one decoded line: a blank line becomes one
/// newline, a comment nothing, the sentinel a `data: [DONE]` event, and any
/// other line itself followed by the blank line that closes an event.
pub fn reframe_line(line: &str) -> (r: Vec<String>)
    ensures
        texts(r@) == reframed(line@),
{
    let kind = classify_line(line);
    let mut out: Vec<String> = Vec::new();
    match kind {
        LineKind::Blank => {
            out.push(String::from_str("\n"));
        },
        LineKind::Comment => {},
        LineKind::Done => {
            out.push(String::from_str("data: [DONE]\n"));
            out.push(String::from_str("\n"));
        },
        LineKind::Data => {
            out.push(String::from_str(line).concat("\n"));
            out.push(String::from_str("\n"));
        },
    }
    assert(texts(out@) =~= reframed(line@));
    out
}

/// Relies on `std::str::from_utf8`: it accepts exactly the well-formed UTF-8
/// byte sequences and yields the characters they encode.
#[verifier::external_body]
fn utf8_text(bytes: &[u8]) -> (r: Option<String>)
    ensures
        r is Some <==> valid_utf8(bytes@),
        r matches Some(s) ==> s@ == decode_utf8(bytes@),
{
    std::str::from_utf8(bytes).ok().map(|s| s.to_string())
}

/// The message of the item that ends a stream whose line is not UTF-8.
pub open spec fn bad_utf8_message() -> Seq<char> {
    "stream did not contain valid UTF-8"@
}

/// What one line of the body gives, as bytes: the re-framed chunks of the
/// decoded line, or an error where the bytes are not UTF-8.
pub open spec fn line_items(bytes: Seq<u8>, r: Result<Vec<String>, String>) -> bool {
    if valid_utf8(bytes) {
        &&& r is Ok
        &&& texts(r->Ok_0@) == reframed(decode_utf8(bytes))
    } else {
        &&& r is Err
        &&& r->Err_0@ == bad_utf8_message()
    }
}

/// Whether the stream ends with this line: the sentinel, or bytes that are
/// not UTF-8.
pub open spec fn ends_stream(bytes: Seq<u8>) -> bool {
    !valid_utf8(bytes) || kind_of(decode_utf8(bytes)) == LineKind::Done
}

/// Re-frames an SSE body as it arrives: the bytes go in chunk by chunk, and
/// each complete line comes out as the chunks of `reframe_line`. The stream
/// ends after the sentinel, after a line that is not UTF-8, or at the end of
/// the body.
pub struct SseReframer {
    decoder: LineDecoder,
    ended: bool,
}

impl SseReframer {
    /// The bytes of the unfinished line.
    pub closed spec fn pending(&self) -> Seq<u8> {
        self.decoder@
    }

    /// Whether the stream has ended.
    pub closed spec fn is_ended(&self) -> bool {
        self.ended
    }

    pub fn new() -> (r: SseReframer)
        ensures
            r.pending() == Seq::<u8>::empty(),
            !r.is_ended(),
    {
        SseReframer { decoder: LineDecoder::new(), ended: false }
    }

    /// Whether the stream has ended.
    pub fn ended(&self) -> (r: bool)
        ensures
            r == self.is_ended(),
    {
        self.ended
    }

    /// Hands over the next chunk of the body; an ended stream ignores it.
    pub fn push(&mut self, chunk: &[u8])
        ensures
            final(self).is_ended() == old(self).is_ended(),
            old(self).is_ended() ==> final(self).pending() == old(self).pending(),
            !old(self).is_ended() ==> final(self).pending() == old(self).pending() + chunk@,
    {
        if !self.ended {
            self.decoder.push(chunk);
        }
    }

    fn take_line(&mut self, bytes: Vec<u8>) -> (r: Result<Vec<String>, String>)
        ensures
            final(self).pending() == old(self).pending(),
            line_items(bytes@, r),
            final(self).is_ended() == ends_stream(bytes@),
    {
        match utf8_text(bytes.as_slice()) {
            Some(line) => {
                let chunks = reframe_line(line.as_str());
                if classify_line(line.as_str()) == LineKind::Done {
                    self.ended = true;
                } else {
                    self.ended = false;
                }
                Ok(chunks)
            },
            None => {
                self.ended = true;
                proof {
                    reveal_strlit("stream did not contain valid UTF-8");
                }
                Err(String::from_str("stream did not contain valid UTF-8"))
            },
        }
    }

    /// The items of the next complete line, if one has arrived and the
    /// stream has not ended.
    pub fn pull(&mut self) -> (r: Option<Result<Vec<String>, String>>)
        ensures
            old(self).is_ended() || !has_newline(old(self).pending()) ==> r is None
                && final(self).pending() == old(self).pending() && final(self).is_ended() == old(
                self,
            ).is_ended(),
            !old(self).is_ended() && has_newline(old(self).pending()) ==> exists|i: int|
                first_newline(old(self).pending(), i) && final(self).pending() == old(
                    self,
                ).pending().skip(i + 1) && r is Some && line_items(
                    strip_cr(old(self).pending().take(i)),
                    r->Some_0,
                ) && final(self).is_ended() == ends_stream(strip_cr(old(self).pending().take(i))),
    {
        if self.ended {
            return None;
        }
        match self.decoder.next_line() {
            None => None,
            Some(bytes) => Some(self.take_line(bytes)),
        }
    }

    /// On a failed read of the body: the error item that ends the stream,
    /// unless it has ended already. The unfinished line is dropped.
    pub fn fail(&mut self, message: String) -> (r: Option<String>)
        ensures
            final(self).is_ended(),
            final(self).pending() == Seq::<u8>::empty(),
            old(self).is_ended() ==> r is None,
            !old(self).is_ended() ==> r is Some && r->Some_0@ == message@,
    {
        let _dropped = self.decoder.finish();
        let out = if self.ended {
            None
        } else {
            Some(message)
        };
        self.ended = true;
        out
    }

    /// At the end of the body: the items of the unfinished last line, if
    /// there is one and the stream has not ended. The stream ends.
    pub fn finish(&mut self) -> (r: Option<Result<Vec<String>, String>>)
        ensures
            final(self).is_ended(),
            final(self).pending() == Seq::<u8>::empty(),
            old(self).is_ended() || old(self).pending().len() == 0 ==> r is None,
            !old(self).is_ended() && old(self).pending().len() > 0 ==> r is Some
                && line_items(old(self).pending(), r->Some_0),
    {
        let was_ended = self.ended;
        let rest = self.decoder.finish();
        let out = match rest {
            Some(bytes) => {
                if was_ended {
                    None
                } else {
                    let item = self.take_line(bytes);
                    Some(item)
                }
            },
            None => None,
        };
        self.ended = true;
        out
    }
}

} // verus!
