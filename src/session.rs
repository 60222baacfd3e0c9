use vstd::prelude::*;

verus! {

/// The text that a run of bytes encodes in UTF-8, or `None` where the bytes
/// are not valid UTF-8.
pub uninterp spec fn utf8_text(b: Seq<u8>) -> Option<Seq<char>>;

/// Relies on std::str::from_utf8: it accepts exactly the valid UTF-8 byte
/// sequences, viewing them in place as text.
#[verifier::external_body]
fn decode_utf8(b: &[u8]) -> (r: Option<&str>)
    ensures
        r is Some == utf8_text(b@) is Some,
        r is Some ==> r->Some_0@ == utf8_text(b@)->Some_0,
{
    std::str::from_utf8(b).ok()
}

/// Where a streaming session stands.
#[derive(Clone, Copy, Debug, PartialEq, Eq, Structural)]
pub enum SessionState {
    Created,
    Feeding,
    Finished,
    Destroyed,
}

/// The lifecycle of a streaming parse session.
///
/// A live session is `Created` or `Feeding`; `finish` and `destroy` consume
/// it, so no call can reach a session in a terminal state. `fed` records, in
/// order, the text of every chunk handed to the engine.
pub struct StreamSession {
    pub state: SessionState,
    pub fed: Ghost<Seq<Seq<char>>>,
}

/// Whether a chunk of `len` bytes, of which `text` is the decoded text, goes
/// to the engine: an empty chunk is ignored and one that is not valid UTF-8 is
/// dropped without error.
pub open spec fn chunk_accepted(len: nat, text: Option<Seq<char>>) -> bool {
    len > 0 && text is Some
}

/// The decision on one chunk, given whether it decoded as UTF-8.
pub fn accept_chunk(len: usize, decoded: bool) -> (r: bool)
    ensures
        r == (len > 0 && decoded),
{
    len > 0 && decoded
}

/// Whether a one-shot parse has work to do: a missing or empty input buffer
/// is a no-op.
pub fn one_shot_accepts(html: Option<&[u8]>) -> (r: bool)
    ensures
        r == (html is Some && html->Some_0@.len() > 0),
{
    match html {
        Some(b) => b.len() > 0,
        None => false,
    }
}

impl StreamSession {
    pub open spec fn live(&self) -> bool {
        self.state == SessionState::Created || self.state == SessionState::Feeding
    }

    /// A new session, before any chunk.
    pub fn create() -> (r: StreamSession)
        ensures
            r.state == SessionState::Created,
            r.fed@ == Seq::<Seq<char>>::empty(),
    {
        StreamSession { state: SessionState::Created, fed: Ghost(Seq::empty()) }
    }

    /// Takes one chunk: returns its text where the engine is to consume it,
    /// and `None` where the chunk is empty or not valid UTF-8, which is
    /// dropped without error.
    pub fn feed<'b>(&mut self, chunk: &'b [u8]) -> (r: Option<&'b str>)
        requires
            old(self).live(),
        ensures
            final(self).state == SessionState::Feeding,
            r is Some == chunk_accepted(chunk@.len(), utf8_text(chunk@)),
            r is Some ==> r->Some_0@ == utf8_text(chunk@)->Some_0,
            final(self).fed@ == if r is Some {
                old(self).fed@.push(utf8_text(chunk@)->Some_0)
            } else {
                old(self).fed@
            },
    {
        self.state = SessionState::Feeding;
        let text = decode_utf8(chunk);
        if accept_chunk(chunk.len(), text.is_some()) {
            let t = text.unwrap();
            self.fed = Ghost(self.fed@.push(t@));
            Some(t)
        } else {
            None
        }
    }

    /// Ends the session normally: the engine drains what it holds and the
    /// adapter's `finish` runs.
    pub fn finish(self) -> (r: SessionState)
        requires
            self.live(),
        ensures
            r == SessionState::Finished,
    {
        SessionState::Finished
    }

    /// Cancels the session: its resources are released and the adapter's
    /// `finish` never runs.
    pub fn destroy(self) -> (r: SessionState)
        requires
            self.live(),
        ensures
            r == SessionState::Destroyed,
    {
        SessionState::Destroyed
    }
}

} // verus!
