//! Where a chunk of input goes: local keystrokes pass or stop by the input
//! mode, remote input always passes.

use vstd::prelude::*;
use vstd::string::StrSliceExecFns;
use super::mode::{InputMode, Mode};

verus! {

/// The byte of Ctrl+\, which the local user presses to toggle the mode.
pub const TOGGLE_KEY: u8 = 0x1C;

/// How many chunks the input queue of a session holds.
pub const INPUT_CAPACITY: usize = 64;

/// Where a chunk of input comes from.
#[derive(Debug, Clone, Copy, PartialEq, Eq, Structural)]
pub enum Source {
    /// The keyboard of the local terminal.
    Local,
    /// A request or a socket of a remote client.
    Remote,
}

/// Whether input from a source reaches the PTY in a mode: remote input
/// always, local input in passthrough only.
pub open spec fn reaches_pty(source: Source, mode: Mode) -> bool {
    source == Source::Remote || mode == Mode::Passthrough
}

/// Whether input from a source is written to the PTY in a mode.
pub fn forwards(source: Source, mode: Mode) -> (forwarded: bool)
    ensures
        forwarded == reaches_pty(source, mode),
        source == Source::Remote ==> forwarded,
        source == Source::Local ==> (forwarded <==> mode == Mode::Passthrough),
{
    match source {
        Source::Remote => true,
        Source::Local => match mode {
            Mode::Passthrough => true,
            Mode::Capture => false,
        },
    }
}

/// A chunk without its toggle keys, the other bytes in order.
pub open spec fn without_key(bytes: Seq<u8>) -> Seq<u8>
    decreases bytes.len(),
{
    if bytes.len() == 0 {
        Seq::empty()
    } else if bytes.last() == TOGGLE_KEY {
        without_key(bytes.drop_last())
    } else {
        without_key(bytes.drop_last()).push(bytes.last())
    }
}

/// What is left after stripping holds no toggle key, and a chunk without
/// one is left as it was.
pub proof fn lemma_without_key(bytes: Seq<u8>)
    ensures
        !without_key(bytes).contains(TOGGLE_KEY),
        without_key(bytes).len() <= bytes.len(),
        !bytes.contains(TOGGLE_KEY) ==> without_key(bytes) == bytes,
    decreases bytes.len(),
{
    if bytes.len() > 0 {
        let init = bytes.drop_last();
        lemma_without_key(init);
        assert(bytes == init.push(bytes.last()));
        let out = without_key(bytes);
        if !bytes.contains(TOGGLE_KEY) {
            assert(bytes[bytes.len() - 1] != TOGGLE_KEY);
            assert forall|i: int| 0 <= i < init.len() implies init[i] != TOGGLE_KEY by {
                assert(bytes[i] == init[i]);
            }
            assert(!init.contains(TOGGLE_KEY));
        }
        if out.contains(TOGGLE_KEY) {
            let j = choose|j: int| 0 <= j < out.len() && out[j] == TOGGLE_KEY;
            if j < without_key(init).len() {
                assert(without_key(init)[j] == TOGGLE_KEY);
                assert(without_key(init).contains(TOGGLE_KEY));
            }
        }
    } else {
        assert(bytes == Seq::<u8>::empty());
    }
}

/// Stripping works byte by byte: stripping two chunks one after the other
/// gives what stripping their concatenation gives, so every other byte
/// stays, in its place among the others.
pub proof fn lemma_without_key_concat(a: Seq<u8>, b: Seq<u8>)
    ensures
        without_key(a + b) == without_key(a) + without_key(b),
    decreases b.len(),
{
    if b.len() == 0 {
        assert(a + b == a);
        assert(without_key(a) + without_key(b) == without_key(a));
    } else {
        lemma_without_key_concat(a, b.drop_last());
        assert((a + b).drop_last() == a + b.drop_last());
        assert((a + b).last() == b.last());
        if b.last() != TOGGLE_KEY {
            assert((without_key(a) + without_key(b.drop_last())).push(b.last()) == without_key(a)
                + without_key(b.drop_last()).push(b.last()));
        }
    }
}

/// Whether a chunk holds the toggle key.
pub fn has_toggle_key(chunk: &[u8]) -> (found: bool)
    ensures
        found == chunk@.contains(TOGGLE_KEY),
{
    let mut i: usize = 0;
    while i < chunk.len()
        invariant
            i <= chunk.len(),
            forall|j: int| 0 <= j < i ==> chunk@[j] != TOGGLE_KEY,
        decreases chunk.len() - i,
    {
        if chunk[i] == TOGGLE_KEY {
            return true;
        }
        i += 1;
    }
    false
}

/// The chunk without its toggle keys.
pub fn strip_toggle_key(chunk: &[u8]) -> (rest: Vec<u8>)
    ensures
        rest@ == without_key(chunk@),
{
    let mut rest: Vec<u8> = Vec::new();
    let mut i: usize = 0;
    while i < chunk.len()
        invariant
            i <= chunk.len(),
            rest@ == without_key(chunk@.take(i as int)),
        decreases chunk.len() - i,
    {
        proof {
            assert(chunk@.take(i + 1).drop_last() == chunk@.take(i as int));
        }
        if chunk[i] != TOGGLE_KEY {
            rest.push(chunk[i]);
        }
        i += 1;
    }
    proof {
        assert(chunk@.take(chunk@.len() as int) == chunk@);
    }
    rest
}

/// What becomes of one chunk of local keystrokes.
#[derive(Debug, Clone, PartialEq, Eq)]
pub struct LocalRoute {
    /// The mode after the chunk.
    pub mode: Mode,
    /// The chunk without its toggle keys.
    pub bytes: Vec<u8>,
    /// Whether these bytes are shown to the subscribers of the stdin
    /// mirror.
    pub to_mirror: bool,
    /// Whether these bytes are also written to the PTY.
    pub to_pty: bool,
}

/// The mode after a chunk of local keystrokes: flipped if the chunk holds
/// the toggle key, unchanged otherwise.
pub open spec fn mode_after(mode: Mode, chunk: Seq<u8>) -> Mode {
    if chunk.contains(TOGGLE_KEY) {
        mode.flipped()
    } else {
        mode
    }
}

/// Whether what is left of a chunk is shown to the mirror: whenever
/// anything is left.
pub open spec fn mirrored(chunk: Seq<u8>) -> bool {
    without_key(chunk).len() > 0
}

/// Whether what is left of a chunk is written to the PTY in a mode:
/// whenever anything is left and the mode lets local input pass.
pub open spec fn written(mode: Mode, chunk: Seq<u8>) -> bool {
    without_key(chunk).len() > 0 && reaches_pty(Source::Local, mode)
}

/// Routes one chunk of local keystrokes, given the mode that holds once
/// the chunk's toggle key, if any, has taken effect: the toggle keys are
/// stripped; what is left always goes to the mirror, and to the PTY if and
/// only if that mode is passthrough. Where nothing is left, nothing is
/// sent anywhere.
pub fn route_local(mode: Mode, chunk: &[u8]) -> (route: LocalRoute)
    ensures
        route.mode == mode,
        route.bytes@ == without_key(chunk@),
        route.to_mirror == mirrored(chunk@),
        route.to_pty == written(mode, chunk@),
        route.bytes@.len() > 0 ==> route.to_mirror && (route.to_pty <==> mode
            == Mode::Passthrough),
{
    let bytes = strip_toggle_key(chunk);
    let any = bytes.len() > 0;
    let to_pty = any && forwards(Source::Local, mode);
    LocalRoute { mode, bytes, to_mirror: any, to_pty }
}

/// Routes one chunk of local keystrokes from the mode before it: a toggle
/// key in the chunk flips the mode first.
pub fn route_keystrokes(mode: Mode, chunk: &[u8]) -> (route: LocalRoute)
    ensures
        route.mode == mode_after(mode, chunk@),
        route.bytes@ == without_key(chunk@),
        route.to_mirror == mirrored(chunk@),
        route.to_pty == written(mode_after(mode, chunk@), chunk@),
{
    let next = if has_toggle_key(chunk) {
        mode.toggled()
    } else {
        mode
    };
    route_local(next, chunk)
}

/// What becomes of one chunk of remote input.
#[derive(Debug, Clone, PartialEq, Eq)]
pub struct RemoteRoute {
    /// The chunks that are put on the input queue, in order.
    pub chunks: Vec<Vec<u8>>,
}

/// Routes the body of a request or the payload of a socket message: it is
/// put on the input queue as one chunk, with no byte added, dropped or
/// moved. The input mode is not asked: it holds back local keystrokes only.
pub fn route_remote(body: Vec<u8>) -> (route: RemoteRoute)
    ensures
        route.chunks@.len() == 1,
        route.chunks@[0]@ == body@,
{
    let mut chunks: Vec<Vec<u8>> = Vec::new();
    chunks.push(body);
    RemoteRoute { chunks }
}

impl InputMode {
    /// Routes one chunk of local keystrokes through the shared flag: a
    /// toggle key in the chunk flips the flag, and the chunk is routed by
    /// the mode that the flag holds then.
    pub fn route(&self, chunk: &[u8]) -> (route: LocalRoute)
        ensures
            route.bytes@ == without_key(chunk@),
            route.to_mirror == mirrored(chunk@),
            route.to_pty == written(route.mode, chunk@),
    {
        let mode = if has_toggle_key(chunk) {
            self.toggle()
        } else {
            self.get()
        };
        route_local(mode, chunk)
    }
}

/// A message on a client's socket, as far as input routing reads it.
#[derive(Debug, Clone, PartialEq, Eq)]
pub enum Frame {
    Binary(Vec<u8>),
    Text(String),
    Close,
    /// Any other message: a ping, a pong.
    Other,
}

/// What the reading half of a socket does with a message.
#[derive(Debug, Clone, PartialEq, Eq)]
pub enum FrameAction {
    /// Put these bytes on the input queue.
    Forward(Vec<u8>),
    /// Read the next message.
    Skip,
    /// Stop reading.
    Stop,
}

/// What the reading half of a socket does with a message: binary payloads
/// are forwarded as they are, text as its UTF-8 bytes, a close ends the
/// reading, and anything else is passed over.
pub fn frame_action(frame: Frame) -> (action: FrameAction)
    ensures
        match frame {
            Frame::Binary(data) => action == FrameAction::Forward(data),
            Frame::Text(text) => action is Forward && action->Forward_0@
                == vstd::utf8::encode_utf8(text@),
            Frame::Close => action == FrameAction::Stop,
            Frame::Other => action == FrameAction::Skip,
        },
{
    match frame {
        Frame::Binary(data) => FrameAction::Forward(data),
        Frame::Text(text) => FrameAction::Forward(text.as_str().as_bytes_vec()),
        Frame::Close => FrameAction::Stop,
        Frame::Other => FrameAction::Skip,
    }
}

/// The status of a request that posts input: 204 once the body is on the
/// input queue, 500 if the queue is closed.
pub fn input_status(enqueued: bool) -> (status: u16)
    ensures
        status == if enqueued {
            204u16
        } else {
            500u16
        },
{
    if enqueued {
        204
    } else {
        500
    }
}

} // verus!
