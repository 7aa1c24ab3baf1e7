//! The decoder session.
//!
//! The caller owns the native decoder and makes the native calls. The
//! session keeps what has to be kept between them: the emission cursor and
//! the payload that travels with a compressed unit. For a submission the
//! caller first asks the session what to hand to the codec, makes the call,
//! and then gives the session the status that came back.

use vstd::prelude::*;
use crate::codec::{Descr, Error};
use crate::common::{check_status, error_text, outcome, ErrorCode, VPXCodec, STATUS_OK};
use crate::cursor::{Cursor, START_SENTINEL};
use crate::frame::{Frame, Packet, TimeInfo};
use crate::image::{decoded, frame_from_img, Image};

verus! {

/// The handle that stands for "no payload".
pub const NO_PAYLOAD: usize = 0;

/// The handle issued after `issued`: the next number, and never the one that
/// stands for no payload.
pub open spec fn handle_after(issued: usize) -> usize {
    if issued == usize::MAX {
        1
    } else {
        (issued + 1) as usize
    }
}

/// What a decoder session is, as a value: its cursor, the payload that it
/// holds for the codec, and the handle that it issued for that payload.
pub struct DecoderState<T> {
    /// The emission cursor.
    pub cursor: Cursor,
    /// The payload handed in with a compressed unit and not yet given back.
    pub held: Option<T>,
    /// The handle issued last.
    pub issued: usize,
}

impl<T> DecoderState<T> {
    /// The state of a new session.
    pub open spec fn init() -> Self {
        DecoderState { cursor: Cursor::Start, held: None, issued: NO_PAYLOAD }
    }

    /// The handle under which a payload is outstanding, if one is.
    pub open spec fn outstanding(self) -> Option<usize> {
        if self.held is Some {
            Some(self.issued)
        } else {
            None
        }
    }

    /// The handle to pass to the codec with a unit that carries `private`.
    pub open spec fn handle_for(self, private: Option<T>) -> usize {
        if private is Some {
            handle_after(self.issued)
        } else {
            NO_PAYLOAD
        }
    }

    /// The state after a payload was taken in for a unit. A new payload gets
    /// a new handle and takes the place of one that was never given back.
    pub open spec fn attached(self, private: Option<T>) -> Self {
        match private {
            Some(p) => DecoderState {
                cursor: self.cursor,
                held: Some(p),
                issued: handle_after(self.issued),
            },
            None => self,
        }
    }

    /// The state after the codec answered a submission made under `handle`
    /// with `status`: the cursor is at the start, and the payload of a
    /// rejected submission is gone.
    pub open spec fn submitted(self, handle: usize, status: u32) -> Self {
        DecoderState {
            cursor: Cursor::Start,
            held: if status != STATUS_OK && handle != NO_PAYLOAD && handle == self.issued {
                None
            } else {
                self.held
            },
            issued: self.issued,
        }
    }

    /// The state after a request to put out what is pending.
    pub open spec fn flushed(self) -> Self {
        DecoderState { cursor: Cursor::Start, held: self.held, issued: self.issued }
    }

    /// Whether the handle found on a picture is that of the held payload.
    pub open spec fn claims(self, user_priv: usize) -> bool {
        self.held is Some && user_priv != NO_PAYLOAD && user_priv == self.issued
    }

    /// The payload that a retrieval hands out with its frame, given the
    /// iterator value and the handle of the picture that the codec emitted.
    pub open spec fn payload_out(self, emitted: Option<(usize, usize)>) -> Option<T> {
        match emitted {
            Some((_, user_priv)) => if self.cursor.yields(true) && self.claims(user_priv) {
                self.held
            } else {
                None
            },
            None => None,
        }
    }

    /// The state after a retrieval.
    pub open spec fn retrieved(self, emitted: Option<(usize, usize)>) -> Self {
        DecoderState {
            cursor: self.cursor.step(
                match emitted {
                    Some((at, _)) => Some(at),
                    None => None,
                },
            ),
            held: if self.payload_out(emitted) is Some {
                None
            } else {
                self.held
            },
            issued: self.issued,
        }
    }
}

/// What the codec is to be handed with one compressed unit.
#[derive(Clone, Copy, Debug, PartialEq, Eq, Structural)]
pub struct Submission {
    /// The length of the unit as the codec takes it: the low 32 bits.
    pub len: u32,
    /// The handle of the payload, or the one that stands for none.
    pub user_priv: usize,
}

/// What the codec emitted at one retrieval: the value that it left its
/// iterator at, and the picture.
#[derive(Clone, Debug)]
pub struct Emission<'a> {
    /// The native iterator after the call.
    pub iter: usize,
    /// The picture, in the codec's memory.
    pub img: Image<'a>,
}

/// The iterator value and the payload handle of an emission.
pub open spec fn emission_key(emitted: Option<Emission<'_>>) -> Option<(usize, usize)> {
    match emitted {
        Some(e) => Some((e.iter, e.img.user_priv)),
        None => None,
    }
}

/// The payload inside an optional box.
pub open spec fn unboxed<T>(b: Option<Box<T>>) -> Option<T> {
    match b {
        Some(p) => Some(*p),
        None => None,
    }
}

/// VP9 decoder session, with payloads of type `T`.
pub struct VP9Decoder<T> {
    cursor: Cursor,
    held: Option<Box<T>>,
    issued: usize,
}

impl<T> View for VP9Decoder<T> {
    type V = DecoderState<T>;

    closed spec fn view(&self) -> DecoderState<T> {
        DecoderState { cursor: self.cursor, held: unboxed(self.held), issued: self.issued }
    }
}

impl<T> VP9Decoder<T> {
    /// Creates the session for a native decoder whose initializer reported
    /// `status`. There is a session only if the initializer succeeded.
    pub fn new(status: u32) -> (r: Result<VP9Decoder<T>, ErrorCode>)
        ensures
            r is Ok <==> status == STATUS_OK,
            r matches Ok(d) ==> d@ == DecoderState::<T>::init(),
            r matches Err(e) ==> outcome(status) == Err::<(), ErrorCode>(e),
    {
        match check_status(status) {
            Ok(()) => Ok(VP9Decoder { cursor: Cursor::Start, held: None, issued: NO_PAYLOAD }),
            Err(e) => Err(e),
        }
    }

    /// Takes in the payload of a compressed unit and says what to hand to
    /// the codec with that unit. The payload stays with the session, on the
    /// heap, until the codec emits the picture that carries its handle.
    pub fn prepare(&mut self, data: &[u8], private: Option<T>) -> (r: Submission)
        ensures
            final(self)@ == old(self)@.attached(private),
            r.len == data@.len() as u32,
            r.user_priv == old(self)@.handle_for(private),
            private is Some ==> r.user_priv != NO_PAYLOAD && final(self)@.outstanding() == Some(
                r.user_priv,
            ),
    {
        let len: u32 = #[verifier::truncate] (data.len() as u32);
        match private {
            Some(p) => {
                let handle: usize = if self.issued == usize::MAX {
                    1
                } else {
                    self.issued + 1
                };
                self.held = Some(Box::new(p));
                self.issued = handle;
                Submission { len, user_priv: handle }
            },
            None => Submission { len, user_priv: NO_PAYLOAD },
        }
    }

    /// Takes the status that the codec gave for a submission. The cursor is
    /// set back to the start whatever the status. Where the codec rejected
    /// the unit, its payload is taken back and dropped.
    pub fn decode(&mut self, submission: Submission, status: u32) -> (r: Result<(), ErrorCode>)
        ensures
            r == outcome(status),
            final(self)@ == old(self)@.submitted(submission.user_priv, status),
            final(self)@.cursor == Cursor::Start,
    {
        self.cursor = Cursor::Start;
        match check_status(status) {
            Ok(()) => Ok(()),
            Err(e) => {
                if submission.user_priv != NO_PAYLOAD && submission.user_priv == self.issued {
                    self.held = None;
                }
                Err(e)
            },
        }
    }

    /// Takes the status that the codec gave for a request to put out what is
    /// pending. The cursor is set back to the start whatever the status.
    pub fn flush(&mut self, status: u32) -> (r: Result<(), ErrorCode>)
        ensures
            r == outcome(status),
            final(self)@ == old(self)@.flushed(),
    {
        self.cursor = Cursor::Start;
        check_status(status)
    }

    /// The emission cursor.
    pub fn cursor(&self) -> (r: Cursor)
        ensures
            r == self@.cursor,
    {
        self.cursor
    }

    /// The handle under which a payload is outstanding, if one is.
    pub fn outstanding(&self) -> (r: Option<usize>)
        ensures
            r == self@.outstanding(),
    {
        if self.held.is_some() {
            Some(self.issued)
        } else {
            None
        }
    }

    /// Takes what the codec emitted at one retrieval and hands out the frame
    /// with the payload of its unit. The picture is copied: its memory is
    /// not needed after the call. A session whose output is exhausted hands
    /// out nothing until the next submission.
    pub fn get_frame(&mut self, emitted: Option<Emission<'_>>) -> (r: Option<(Frame, Option<Box<T>>)>)
        requires
            old(self)@.cursor.yields(true) ==> (emitted matches Some(e) ==> e.img.decodable()),
        ensures
            final(self)@ == old(self)@.retrieved(emission_key(emitted)),
            r is Some <==> old(self)@.cursor.yields(emitted is Some),
            r matches Some((frame, payload)) ==> {
                &&& emitted matches Some(e)
                &&& decoded(e.img, frame)
                &&& unboxed(payload) == old(self)@.payload_out(emission_key(emitted))
            },
    {
        match emitted {
            Some(e) => {
                let mut cursor = self.cursor;
                if !cursor.advance(Some(e.iter)) {
                    return None;
                }
                self.cursor = cursor;
                let claimed = self.held.is_some() && e.img.user_priv != NO_PAYLOAD
                    && e.img.user_priv == self.issued;
                let payload = if claimed {
                    self.held.take()
                } else {
                    None
                };
                let frame = frame_from_img(&e.img);
                Some((frame, payload))
            },
            None => {
                self.cursor = Cursor::Exhausted;
                None
            },
        }
    }
}

/// A payload handed in with a unit that the codec accepts comes back once,
/// unchanged, with the picture that carries its handle, also after a flush;
/// after that no payload is outstanding and no later retrieval hands one
/// out. A picture that carries another handle, or none, hands out no payload
/// and leaves the held one where it is.
pub proof fn lemma_payload_round_trip<T>(s: DecoderState<T>, payload: T, iter: usize, other: usize)
    ensures
        ({
            let handle = s.handle_for(Some(payload));
            let accepted = s.attached(Some(payload)).submitted(handle, STATUS_OK);
            let emitted = Some((iter, handle));
            &&& handle != NO_PAYLOAD
            &&& accepted.outstanding() == Some(handle)
            &&& accepted.payload_out(emitted) == Some(payload)
            &&& accepted.flushed().payload_out(emitted) == Some(payload)
            &&& accepted.retrieved(emitted).outstanding() is None
            &&& forall|again: Option<(usize, usize)>| #[trigger]
                accepted.retrieved(emitted).payload_out(again) is None
            &&& other != handle ==> {
                &&& accepted.payload_out(Some((iter, other))) is None
                &&& accepted.retrieved(Some((iter, other))).held == Some(payload)
            }
        }),
{
}

/// A payload handed in with a unit that the codec rejects does not stay: no
/// payload is outstanding after the rejection, and no retrieval hands one
/// out, whatever the codec emits.
pub proof fn lemma_rejected_payload_is_dropped<T>(
    s: DecoderState<T>,
    payload: T,
    status: u32,
    emitted: Option<(usize, usize)>,
)
    requires
        status != STATUS_OK,
    ensures
        ({
            let handle = s.handle_for(Some(payload));
            let rejected = s.attached(Some(payload)).submitted(handle, status);
            &&& rejected.held is None
            &&& rejected.outstanding() is None
            &&& rejected.payload_out(emitted) is None
            &&& rejected.retrieved(emitted).held is None
        }),
{
}

/// Every submission and every flush sets the cursor back to the start,
/// whatever the codec answered, so that a retrieval never goes on in the
/// output of an earlier call.
pub proof fn lemma_submission_resets_cursor<T>(s: DecoderState<T>, handle: usize, status: u32)
    ensures
        s.submitted(handle, status).cursor == Cursor::Start,
        s.submitted(handle, status).cursor.token() == Some(START_SENTINEL),
        s.flushed().cursor == Cursor::Start,
        s.flushed().cursor.token() == Some(START_SENTINEL),
{
}

/// Once a retrieval handed out nothing, the session is drained: the next
/// retrieval hands out nothing and changes nothing, whatever the codec is
/// said to emit.
pub proof fn lemma_drained_session_stays_empty<T>(
    s: DecoderState<T>,
    first: Option<(usize, usize)>,
    second: Option<(usize, usize)>,
)
    requires
        !s.cursor.yields(first is Some),
    ensures
        s.retrieved(first).cursor == Cursor::Exhausted,
        s.retrieved(first).held == s.held,
        !s.retrieved(first).cursor.yields(second is Some),
        s.retrieved(first).payload_out(second) is None,
        s.retrieved(first).retrieved(second) == s.retrieved(first),
{
}

/// One step of a session as a host drives it.
pub enum DecoderStep<T> {
    /// A unit is handed in, with a payload or without, and the codec
    /// answers with a status.
    Submit { private: Option<T>, status: u32 },
    /// The codec is asked to put out what is pending.
    Flush,
    /// A retrieval, with the iterator value and the handle of the picture
    /// that the codec emitted, if it emitted one.
    Retrieve { emitted: Option<(usize, usize)> },
}

impl<T> DecoderState<T> {
    /// The state after one step.
    pub open spec fn after(self, step: DecoderStep<T>) -> Self {
        match step {
            DecoderStep::Submit { private, status } => self.attached(private).submitted(
                self.handle_for(private),
                status,
            ),
            DecoderStep::Flush => self.flushed(),
            DecoderStep::Retrieve { emitted } => self.retrieved(emitted),
        }
    }

    /// The payload that one step hands out.
    pub open spec fn hands_out(self, step: DecoderStep<T>) -> Option<T> {
        match step {
            DecoderStep::Retrieve { emitted } => self.payload_out(emitted),
            _ => None,
        }
    }

    /// The state after a run of steps.
    pub open spec fn after_all(self, steps: Seq<DecoderStep<T>>) -> Self
        decreases steps.len(),
    {
        if steps.len() == 0 {
            self
        } else {
            self.after_all(steps.drop_last()).after(steps.last())
        }
    }

    /// The payloads that a run of steps hands out, in their order.
    pub open spec fn handed_out(self, steps: Seq<DecoderStep<T>>) -> Seq<T>
        decreases steps.len(),
    {
        if steps.len() == 0 {
            Seq::empty()
        } else {
            let before = self.handed_out(steps.drop_last());
            match self.after_all(steps.drop_last()).hands_out(steps.last()) {
                Some(p) => before.push(p),
                None => before,
            }
        }
    }

    /// How many payloads the session holds: one or none.
    pub open spec fn holding(self) -> nat {
        if self.held is Some {
            1
        } else {
            0
        }
    }
}

/// The payloads that a run of steps hands in, in their order.
pub open spec fn handed_in<T>(steps: Seq<DecoderStep<T>>) -> Seq<T>
    decreases steps.len(),
{
    if steps.len() == 0 {
        Seq::empty()
    } else {
        let before = handed_in(steps.drop_last());
        match steps.last() {
            DecoderStep::Submit { private: Some(p), status } => before.push(p),
            _ => before,
        }
    }
}

/// The steps for a run of units that the codec accepts one after the other,
/// each with a payload, and each followed by the retrieval of its picture,
/// which the codec emits with the handle of the unit and its iterator at
/// `iter`.
pub open spec fn unit_steps<T>(s: DecoderState<T>, payloads: Seq<T>, iter: usize) -> Seq<
    DecoderStep<T>,
>
    decreases payloads.len(),
{
    if payloads.len() == 0 {
        Seq::empty()
    } else {
        let before = unit_steps(s, payloads.drop_last(), iter);
        let handle = s.after_all(before).handle_for(Some(payloads.last()));
        before.push(DecoderStep::Submit { private: Some(payloads.last()), status: STATUS_OK }).push(
            DecoderStep::Retrieve { emitted: Some((iter, handle)) },
        )
    }
}

/// Whatever a host and the codec do, in whatever order, a session hands out
/// no payload that it did not take in, and none twice: the payloads handed
/// out and the one still held are never more than those handed in and the
/// one held at the start. What a retrieval hands out is the payload that was
/// held, and it is no longer held afterwards.
pub proof fn lemma_no_payload_twice<T>(s: DecoderState<T>, steps: Seq<DecoderStep<T>>)
    ensures
        s.handed_out(steps).len() + s.after_all(steps).holding() <= handed_in(steps).len()
            + s.holding(),
        forall|step: DecoderStep<T>| #[trigger]
            s.hands_out(step) is Some ==> s.hands_out(step) == s.held && s.after(step).held
                is None,
    decreases steps.len(),
{
    if steps.len() > 0 {
        lemma_no_payload_twice(s, steps.drop_last());
    }
}

/// Units that the codec accepts one after the other, each retrieved before
/// the next is handed in, give back their payloads one for one and in their
/// order: none is lost, none comes twice, and none is held at the end.
pub proof fn lemma_sequential_units<T>(s: DecoderState<T>, payloads: Seq<T>, iter: usize)
    ensures
        handed_in(unit_steps(s, payloads, iter)) == payloads,
        s.handed_out(unit_steps(s, payloads, iter)) == payloads,
        payloads.len() > 0 ==> s.after_all(unit_steps(s, payloads, iter)).held is None,
    decreases payloads.len(),
{
    if payloads.len() > 0 {
        let rest = payloads.drop_last();
        let p = payloads.last();
        lemma_sequential_units(s, rest, iter);
        let before = unit_steps(s, rest, iter);
        let at = s.after_all(before);
        let handle = at.handle_for(Some(p));
        let submit = DecoderStep::Submit { private: Some(p), status: STATUS_OK };
        let retrieve = DecoderStep::<T>::Retrieve { emitted: Some((iter, handle)) };
        let mid = before.push(submit);
        let all = mid.push(retrieve);
        assert(all == unit_steps(s, payloads, iter));
        assert(mid.drop_last() == before);
        assert(all.drop_last() == mid);
        assert(mid.last() == submit);
        assert(all.last() == retrieve);
        assert(s.after_all(mid) == at.after(submit));
        assert(s.after_all(all) == at.after(submit).after(retrieve));
        assert(at.after(submit).cursor == Cursor::Start);
        assert(at.after(submit).hands_out(retrieve) == Some(p));
        assert(s.handed_out(mid) == s.handed_out(before));
        assert(s.handed_out(all) == s.handed_out(before).push(p));
        assert(handed_in(mid) == handed_in(before).push(p));
        assert(handed_in(all) == handed_in(mid));
        assert(rest.push(p) == payloads);
    }
}

impl<T> VPXCodec for VP9Decoder<T> {
    fn error_to_str(&self, message: &[u8]) -> (s: String) {
        error_text(message)
    }
}

/// The description of the decoder, for a registry of codecs.
pub struct Des {
    descr: Descr,
}

/// The description that the decoder goes by.
pub open spec fn decoder_descr(d: Descr) -> bool {
    &&& d.codec@ == "vp9"@
    &&& d.name@ == "vpx"@
    &&& d.desc@ == "libvpx VP9 decoder"@
    &&& d.mime@ == "video/VP9"@
}

impl Des {
    /// The description of the VP9 decoder.
    pub fn vp9() -> (r: Des)
        ensures
            decoder_descr(r.descr_spec()),
    {
        Des {
            descr: Descr {
                codec: "vp9",
                name: "vpx",
                desc: "libvpx VP9 decoder",
                mime: "video/VP9",
            },
        }
    }

    /// The description held.
    pub closed spec fn descr_spec(&self) -> Descr {
        self.descr
    }

    /// Creates the session for a native decoder whose initializer succeeded.
    pub fn create(&self, status: u32) -> (r: VP9Decoder<TimeInfo>)
        requires
            status == STATUS_OK,
        ensures
            r@ == DecoderState::<TimeInfo>::init(),
    {
        VP9Decoder::new(status).unwrap()
    }

    /// The description of the codec.
    pub fn describe(&self) -> (r: &Descr)
        ensures
            *r == self.descr_spec(),
    {
        &self.descr
    }
}

impl VP9Decoder<TimeInfo> {
    /// Takes data that the decoder needs before the first packet. This
    /// decoder needs none.
    pub fn set_extradata(&mut self, _extra: &[u8])
        ensures
            final(self)@ == old(self)@,
    {
    }

    /// Takes in the timestamps of a packet as its payload and says what to
    /// hand to the codec with the packet's data.
    pub fn send_packet(&mut self, pkt: &Packet) -> (r: Submission)
        ensures
            final(self)@ == old(self)@.attached(Some(pkt.t)),
            r.len == pkt.data@.len() as u32,
            r.user_priv == old(self)@.handle_for(Some(pkt.t)),
            r.user_priv != NO_PAYLOAD,
    {
        self.prepare(pkt.data.as_slice(), Some(pkt.t))
    }

    /// Takes what the codec emitted at one retrieval and hands out the frame
    /// with the timestamps that came in with its packet, or says that more
    /// data is needed where there is no frame.
    pub fn receive_frame(&mut self, emitted: Option<Emission<'_>>) -> (r: Result<Frame, Error>)
        requires
            old(self)@.cursor.yields(true) ==> (emitted matches Some(e) ==> e.img.decodable()),
            old(self)@.cursor.yields(emitted is Some) ==> old(self)@.payload_out(
                emission_key(emitted),
            ) is Some,
        ensures
            final(self)@ == old(self)@.retrieved(emission_key(emitted)),
            r is Ok <==> old(self)@.cursor.yields(emitted is Some),
            r matches Err(e) ==> e == Error::MoreDataNeeded,
            r matches Ok(frame) ==> {
                &&& emitted matches Some(e)
                &&& decoded(e.img, Frame { kind: frame.kind, buf: frame.buf, t: TimeInfo::unset() })
                &&& Some(frame.t) == old(self)@.payload_out(emission_key(emitted))
            },
    {
        match self.get_frame(emitted) {
            Some((frame, payload)) => {
                let t: TimeInfo = *payload.unwrap();
                Ok(Frame { kind: frame.kind, buf: frame.buf, t })
            },
            None => Err(Error::MoreDataNeeded),
        }
    }

    /// Makes the decoder ready. There is nothing to do.
    pub fn configure(&mut self) -> (r: Result<(), Error>)
        ensures
            r is Ok,
            final(self)@ == old(self)@,
    {
        Ok(())
    }
}

} // verus!
