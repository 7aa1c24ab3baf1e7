//! The encoder session and its configuration.
//!
//! The caller owns the native encoder and makes the native calls. The
//! session keeps the emission cursor and the configuration that the encoder
//! was made with. For a submission the caller first asks the session what
//! to hand to the codec, makes the call, and then gives the session the
//! status that came back.

use vstd::prelude::*;
use crate::codec::{Descr, Error};
use crate::common::{check_status, error_text, outcome, ErrorCode, VPXCodec, STATUS_OK};
use crate::cursor::Cursor;
use crate::frame::{Frame, Packet, PixelFormat};
use crate::image::{adapted, img_from_frame, Image};
pub use crate::packet::{CxPacket, VPXPacket, PSNR};
use crate::packet::classified;
use crate::params::{CodecParams, MediaKind, Value, VideoInfo};

verus! {

/// The duration handed to the codec with every frame, in units of the
/// timebase.
pub const FRAME_DURATION: u64 = 1;

/// Which pass of a multi-pass encoding a session runs.
#[derive(Clone, Copy, Debug, PartialEq, Eq, Structural)]
pub enum EncPass {
    /// The only pass.
    OnePass,
    /// The first pass of two, which gathers statistics.
    FirstPass,
    /// The last pass of two.
    LastPass,
}

/// How the encoder spends its bits.
#[derive(Clone, Copy, Debug, PartialEq, Eq, Structural)]
pub enum RcMode {
    /// Variable bit rate.
    VBR,
    /// Constant bit rate.
    CBR,
    /// Constrained quality.
    CQ,
    /// Constant quality.
    Q,
}

/// How long the encoder may work on a frame.
#[derive(Clone, Copy, Debug, PartialEq, Eq, Structural)]
pub enum Deadline {
    /// As fast as the frames come.
    Realtime,
    /// Good quality at a fair speed.
    GoodQuality,
    /// As long as it takes.
    BestQuality,
}

/// The unit of the timestamps handed to the encoder, in seconds.
#[derive(Clone, Copy, Debug, PartialEq, Eq, Structural)]
pub struct Timebase {
    /// Numerator.
    pub num: i32,
    /// Denominator.
    pub den: i32,
}

/// The parameters of the native encoder that a host sets.
#[derive(Clone, Copy, Debug, PartialEq, Eq, Structural)]
pub struct EncCfg {
    /// Most threads to use.
    pub g_threads: u32,
    /// Width of the frames.
    pub g_w: u32,
    /// Height of the frames.
    pub g_h: u32,
    /// Unit of the timestamps.
    pub g_timebase: Timebase,
    /// Which pass this is.
    pub g_pass: EncPass,
    /// Frames that the encoder may hold back to look ahead.
    pub g_lag_in_frames: u32,
    /// How the bits are spent.
    pub rc_end_usage: RcMode,
    /// Bit rate to aim for, in kilobits per second.
    pub rc_target_bitrate: u32,
    /// Best quantizer to use.
    pub rc_min_quantizer: u32,
    /// Worst quantizer to use.
    pub rc_max_quantizer: u32,
}

/// The runtime parameters of the encoder that the session can set.
#[derive(Clone, Copy, Debug, PartialEq, Eq, Structural)]
pub enum ControlId {
    /// Trade of speed against quality.
    CpuUsed,
    /// Whether the encoder may insert alternate reference frames.
    EnableAutoAltRef,
    /// Noise sensitivity.
    NoiseSensitivity,
    /// Sharpness of the loop filter.
    Sharpness,
    /// Threshold below which a block counts as static.
    StaticThreshold,
    /// Number of token partitions, of the sibling codec only.
    TokenPartitions,
    /// Most frames to filter for an alternate reference frame.
    ArnrMaxFrames,
    /// Strength of that filter.
    ArnrStrength,
    /// Kind of that filter.
    ArnrType,
    /// What the encoder tunes for.
    Tuning,
    /// Quality level of the constrained-quality mode.
    CqLevel,
}

/// VP9 encoder setup facility.
#[derive(Clone, Copy, Debug, PartialEq, Eq, Structural)]
pub struct VP9EncoderConfig {
    /// The parameters. They count when a session is made from them.
    pub cfg: EncCfg,
}

/// What an encoder session is, as a value: its cursor and the configuration
/// that it was made with.
#[derive(Clone, Copy, Debug, PartialEq, Eq, Structural)]
pub struct EncoderState {
    /// The emission cursor.
    pub cursor: Cursor,
    /// The parameters at the time the session was made.
    pub config: EncCfg,
}

impl EncoderState {
    /// The state of a session made from `config`.
    pub open spec fn init(config: EncCfg) -> Self {
        EncoderState { cursor: Cursor::Start, config }
    }

    /// The state after a frame or an end of stream was submitted.
    pub open spec fn submitted(self) -> Self {
        EncoderState { cursor: Cursor::Start, config: self.config }
    }

    /// The state after a retrieval, given the value that the codec left its
    /// iterator at if it emitted a record.
    pub open spec fn retrieved(self, emitted: Option<usize>) -> Self {
        EncoderState { cursor: self.cursor.step(emitted), config: self.config }
    }
}

/// What the codec is to be handed with one submission.
#[derive(Clone, Debug)]
pub struct EncodeCall<'a> {
    /// The picture, or none at the end of the stream.
    pub img: Option<Image<'a>>,
    /// Presentation timestamp.
    pub pts: i64,
    /// Duration of the frame.
    pub duration: u64,
    /// Flags for this frame.
    pub flags: i64,
    /// How long the encoder may work.
    pub deadline: Deadline,
}

/// What the codec emitted at one retrieval: the value that it left its
/// iterator at, and the record.
#[derive(Clone, Copy, Debug)]
pub struct CxEmission<'a> {
    /// The native iterator after the call.
    pub iter: usize,
    /// The record, in the codec's memory.
    pub pkt: CxPacket<'a>,
}

/// The iterator value of an emission.
pub open spec fn emission_iter(emitted: Option<CxEmission<'_>>) -> Option<usize> {
    match emitted {
        Some(e) => Some(e.iter),
        None => None,
    }
}

impl VP9EncoderConfig {
    /// Creates the configuration from the defaults that the native codec
    /// gave, if it reported success.
    pub fn new(status: u32, defaults: EncCfg) -> (r: Result<VP9EncoderConfig, ErrorCode>)
        ensures
            r is Ok <==> status == STATUS_OK,
            r matches Ok(c) ==> c.cfg == defaults,
            r matches Err(e) ==> outcome(status) == Err::<(), ErrorCode>(e),
    {
        match check_status(status) {
            Ok(()) => Ok(VP9EncoderConfig { cfg: defaults }),
            Err(e) => Err(e),
        }
    }

    /// Creates the session for a native encoder that was initialized with
    /// this configuration and reported `status`.
    pub fn get_encoder(&mut self, status: u32) -> (r: Result<VP9Encoder, ErrorCode>)
        ensures
            *final(self) == *old(self),
            r is Ok <==> status == STATUS_OK,
            r matches Ok(enc) ==> enc@ == EncoderState::init(old(self).cfg),
            r matches Err(e) ==> outcome(status) == Err::<(), ErrorCode>(e),
    {
        VP9Encoder::new(self, status)
    }
}

/// VP9 encoder session.
pub struct VP9Encoder {
    cursor: Cursor,
    config: EncCfg,
}

impl View for VP9Encoder {
    type V = EncoderState;

    closed spec fn view(&self) -> EncoderState {
        EncoderState { cursor: self.cursor, config: self.config }
    }
}

impl VP9Encoder {
    /// Creates the session for a native encoder that was initialized with
    /// `cfg` and reported `status`. There is a session only if the
    /// initializer succeeded. The session keeps the parameters as they are
    /// now: what is done to `cfg` later does not reach it.
    pub fn new(cfg: &mut VP9EncoderConfig, status: u32) -> (r: Result<VP9Encoder, ErrorCode>)
        ensures
            *final(cfg) == *old(cfg),
            r is Ok <==> status == STATUS_OK,
            r matches Ok(enc) ==> enc@ == EncoderState::init(old(cfg).cfg),
            r matches Err(e) ==> outcome(status) == Err::<(), ErrorCode>(e),
    {
        match check_status(status) {
            Ok(()) => Ok(VP9Encoder { cursor: Cursor::Start, config: cfg.cfg }),
            Err(e) => Err(e),
        }
    }

    /// The emission cursor.
    pub fn cursor(&self) -> (r: Cursor)
        ensures
            r == self@.cursor,
    {
        self.cursor
    }

    /// The parameters that the session was made with.
    pub fn config(&self) -> (r: EncCfg)
        ensures
            r == self@.config,
    {
        self.config
    }

    /// Takes the status that the codec gave for setting the parameter `id`
    /// to `val`. A parameter that the codec does not have is an error that
    /// the caller may probe for; the session is as before either way.
    pub fn control(&mut self, id: ControlId, val: i32, status: u32) -> (r: Result<(), ErrorCode>)
        ensures
            r == outcome(status),
            final(self)@ == old(self)@,
    {
        check_status(status)
    }

    /// Says what to hand to the codec to encode `frame`: the frame on loan
    /// as a native picture, its presentation time, the duration of one
    /// frame, no flags, and the deadline for good quality.
    pub fn prepare<'a>(&self, frame: &'a Frame) -> (call: EncodeCall<'a>)
        requires
            frame.adaptable(),
            frame.t.pts is Some,
        ensures
            call.img matches Some(img) && adapted(*frame, img),
            Some(call.pts) == frame.t.pts,
            call.duration == FRAME_DURATION,
            call.flags == 0,
            call.deadline == Deadline::GoodQuality,
    {
        let img = img_from_frame(frame);
        EncodeCall {
            img: Some(img),
            pts: frame.t.pts.unwrap(),
            duration: FRAME_DURATION,
            flags: 0,
            deadline: Deadline::GoodQuality,
        }
    }

    /// Takes the status that the codec gave for a frame. The cursor is set
    /// back to the start whatever the status.
    pub fn encode(&mut self, status: u32) -> (r: Result<(), ErrorCode>)
        ensures
            r == outcome(status),
            final(self)@ == old(self)@.submitted(),
    {
        self.cursor = Cursor::Start;
        check_status(status)
    }

    /// Says what to hand to the codec at the end of the stream: no picture,
    /// time zero, the duration of one frame, no flags, and the deadline for
    /// good quality.
    pub fn prepare_flush(&self) -> (call: EncodeCall<'static>)
        ensures
            call.img is None,
            call.pts == 0,
            call.duration == FRAME_DURATION,
            call.flags == 0,
            call.deadline == Deadline::GoodQuality,
    {
        EncodeCall {
            img: None,
            pts: 0,
            duration: FRAME_DURATION,
            flags: 0,
            deadline: Deadline::GoodQuality,
        }
    }

    /// Takes the status that the codec gave for the end of the stream. The
    /// cursor is set back to the start whatever the status.
    pub fn flush(&mut self, status: u32) -> (r: Result<(), ErrorCode>)
        ensures
            r == outcome(status),
            final(self)@ == old(self)@.submitted(),
    {
        self.cursor = Cursor::Start;
        check_status(status)
    }

    /// Takes what the codec emitted at one retrieval and hands it out as an
    /// owned value. A session whose output is exhausted hands out nothing
    /// until the next submission.
    pub fn get_packet(&mut self, emitted: Option<CxEmission<'_>>) -> (r: Option<VPXPacket>)
        ensures
            final(self)@ == old(self)@.retrieved(emission_iter(emitted)),
            r is Some <==> old(self)@.cursor.yields(emitted is Some),
            r matches Some(out) ==> emitted matches Some(e) && classified(e.pkt, out),
    {
        match emitted {
            Some(e) => {
                let mut cursor = self.cursor;
                if !cursor.advance(Some(e.iter)) {
                    return None;
                }
                self.cursor = cursor;
                Some(VPXPacket::new(e.pkt))
            },
            None => {
                self.cursor = Cursor::Exhausted;
                None
            },
        }
    }
}

/// No call on a session changes the configuration that it was made with,
/// and a session made from a configuration holds a copy of its own: setting
/// a parameter of the configuration afterwards leaves the session as it is.
pub proof fn lemma_configuration_isolated(
    before: EncCfg,
    later: EncCfg,
    emitted: Option<usize>,
)
    ensures
        EncoderState::init(before).config == before,
        EncoderState::init(before).submitted().config == before,
        EncoderState::init(before).retrieved(emitted).config == before,
        EncoderState::init(before).submitted().retrieved(emitted).submitted().config == before,
{
}

/// Once a retrieval handed out nothing, the session is drained: the next
/// retrieval hands out nothing and changes nothing, whatever the codec is
/// said to emit. A submission makes the output of the next call available.
pub proof fn lemma_drained_encoder_stays_empty(
    s: EncoderState,
    first: Option<usize>,
    second: Option<usize>,
)
    requires
        !s.cursor.yields(first is Some),
    ensures
        s.retrieved(first).cursor == Cursor::Exhausted,
        !s.retrieved(first).cursor.yields(second is Some),
        s.retrieved(first).retrieved(second) == s.retrieved(first),
        s.retrieved(first).submitted().cursor == Cursor::Start,
{
}

impl VPXCodec for VP9Encoder {
    fn error_to_str(&self, message: &[u8]) -> (s: String) {
        error_text(message)
    }
}

/// The description of the encoder, for a registry of codecs.
pub struct Des {
    descr: Descr,
}

/// The description that the encoder goes by.
pub open spec fn encoder_descr(d: Descr) -> bool {
    &&& d.codec@ == "vp9"@
    &&& d.name@ == "vpx"@
    &&& d.desc@ == "libvpx VP9 encoder"@
    &&& d.mime@ == "video/VP9"@
}

/// What an option of the encoder changes.
#[derive(Clone, Copy, Debug, PartialEq, Eq, Structural)]
pub enum OptionTarget {
    /// The width of the frames.
    Width(u32),
    /// The height of the frames.
    Height(u32),
    /// The best quantizer.
    QMin(u32),
    /// The worst quantizer.
    QMax(u32),
    /// The unit of the timestamps.
    Timebase(i32, i32),
    /// The frames that the encoder may hold back.
    LagInFrames(u32),
    /// A runtime parameter of the running encoder.
    Control(ControlId, i32),
}

/// What is left to do for an option.
#[derive(Debug, PartialEq, Eq)]
pub enum OptionStep {
    /// Nothing: this is the result.
    Done(Result<(), Error>),
    /// The codec is to set this runtime parameter.
    Control(ControlId, i32),
}

/// The runtime parameter that an option name stands for.
pub open spec fn control_option(key: Seq<char>) -> Option<ControlId> {
    if key == "cpu-used"@ {
        Some(ControlId::CpuUsed)
    } else if key == "auto-alt-ref"@ {
        Some(ControlId::EnableAutoAltRef)
    } else if key == "arnr-maxframes"@ {
        Some(ControlId::ArnrMaxFrames)
    } else if key == "arnr-strength"@ {
        Some(ControlId::ArnrStrength)
    } else if key == "arnr-type"@ {
        Some(ControlId::ArnrType)
    } else {
        None
    }
}

/// What the option `key` with the value `val` changes, or `None` where the
/// encoder has no such option or the value is of the wrong kind. Numbers are
/// cut to the width of the parameter.
pub open spec fn option_target(key: Seq<char>, val: Value<'_>) -> Option<OptionTarget> {
    match val {
        Value::U64(v) => if key == "w"@ {
            Some(OptionTarget::Width(v as u32))
        } else if key == "h"@ {
            Some(OptionTarget::Height(v as u32))
        } else if key == "qmin"@ {
            Some(OptionTarget::QMin(v as u32))
        } else if key == "qmax"@ {
            Some(OptionTarget::QMax(v as u32))
        } else if key == "lag-in-frames"@ {
            Some(OptionTarget::LagInFrames(v as u32))
        } else {
            match control_option(key) {
                Some(id) => Some(OptionTarget::Control(id, v as i32)),
                None => None,
            }
        },
        Value::Pair(num, den) => if key == "timebase"@ {
            Some(OptionTarget::Timebase(num as i32, den as i32))
        } else {
            None
        },
        _ => None,
    }
}

/// The configuration after an option was set in it. A runtime parameter
/// does not change the configuration.
pub open spec fn with_option(cfg: EncCfg, target: OptionTarget) -> EncCfg {
    match target {
        OptionTarget::Width(v) => EncCfg { g_w: v, ..cfg },
        OptionTarget::Height(v) => EncCfg { g_h: v, ..cfg },
        OptionTarget::QMin(v) => EncCfg { rc_min_quantizer: v, ..cfg },
        OptionTarget::QMax(v) => EncCfg { rc_max_quantizer: v, ..cfg },
        OptionTarget::Timebase(num, den) => EncCfg { g_timebase: Timebase { num, den }, ..cfg },
        OptionTarget::LagInFrames(v) => EncCfg { g_lag_in_frames: v, ..cfg },
        OptionTarget::Control(_, _) => cfg,
    }
}

/// Calls `==` of std on two texts. The contract says that the result is
/// whether the two hold the same characters.
#[verifier::external_body]
fn same_text(a: &str, b: &str) -> (r: bool)
    ensures
        r == (a@ == b@),
{
    a == b
}

/// Finds the runtime parameter that an option name stands for.
pub fn find_control(key: &str) -> (r: Option<ControlId>)
    ensures
        r == control_option(key@),
{
    if same_text(key, "cpu-used") {
        Some(ControlId::CpuUsed)
    } else if same_text(key, "auto-alt-ref") {
        Some(ControlId::EnableAutoAltRef)
    } else if same_text(key, "arnr-maxframes") {
        Some(ControlId::ArnrMaxFrames)
    } else if same_text(key, "arnr-strength") {
        Some(ControlId::ArnrStrength)
    } else if same_text(key, "arnr-type") {
        Some(ControlId::ArnrType)
    } else {
        None
    }
}

/// Finds what the option `key` with the value `val` changes.
pub fn find_option(key: &str, val: Value<'_>) -> (r: Option<OptionTarget>)
    ensures
        r == option_target(key@, val),
{
    match val {
        Value::U64(v) => {
            if same_text(key, "w") {
                Some(OptionTarget::Width(#[verifier::truncate] (v as u32)))
            } else if same_text(key, "h") {
                Some(OptionTarget::Height(#[verifier::truncate] (v as u32)))
            } else if same_text(key, "qmin") {
                Some(OptionTarget::QMin(#[verifier::truncate] (v as u32)))
            } else if same_text(key, "qmax") {
                Some(OptionTarget::QMax(#[verifier::truncate] (v as u32)))
            } else if same_text(key, "lag-in-frames") {
                Some(OptionTarget::LagInFrames(#[verifier::truncate] (v as u32)))
            } else {
                match find_control(key) {
                    Some(id) => Some(OptionTarget::Control(id, #[verifier::truncate] (v as i32))),
                    None => None,
                }
            }
        },
        Value::Pair(num, den) => {
            if same_text(key, "timebase") {
                Some(
                    OptionTarget::Timebase(
                        #[verifier::truncate] (num as i32),
                        #[verifier::truncate] (den as i32),
                    ),
                )
            } else {
                None
            }
        },
        _ => None,
    }
}

/// What an encoder behind a registry is, as a value: its configuration and
/// the session, once it is configured.
pub struct EncState {
    /// The configuration.
    pub cfg: EncCfg,
    /// The session.
    pub enc: Option<EncoderState>,
}

/// The encoder as a registry of codecs drives it: a configuration that
/// options are set in, and the session that is made from it.
pub struct Enc {
    cfg: VP9EncoderConfig,
    enc: Option<VP9Encoder>,
}

impl View for Enc {
    type V = EncState;

    closed spec fn view(&self) -> EncState {
        EncState {
            cfg: self.cfg.cfg,
            enc: match self.enc {
                Some(e) => Some(e@),
                None => None,
            },
        }
    }
}

impl Des {
    /// The description of the VP9 encoder.
    pub fn vp9() -> (r: Des)
        ensures
            encoder_descr(r.descr_spec()),
    {
        Des {
            descr: Descr {
                codec: "vp9",
                name: "vpx",
                desc: "libvpx VP9 encoder",
                mime: "video/VP9",
            },
        }
    }

    /// The description held.
    pub closed spec fn descr_spec(&self) -> Descr {
        self.descr
    }

    /// Creates an encoder that is not configured yet, from the defaults
    /// that the native codec gave with success.
    pub fn create(&self, status: u32, defaults: EncCfg) -> (r: Enc)
        requires
            status == STATUS_OK,
        ensures
            r@ == (EncState { cfg: defaults, enc: None }),
    {
        Enc { cfg: VP9EncoderConfig::new(status, defaults).unwrap(), enc: None }
    }

    /// The description of the codec.
    pub fn describe(&self) -> (r: &Descr)
        ensures
            *r == self.descr_spec(),
    {
        &self.descr
    }
}

impl Enc {
    /// The configuration as it stands.
    pub fn config(&self) -> (r: EncCfg)
        ensures
            r == self@.cfg,
    {
        self.cfg.cfg
    }

    /// The emission cursor of the session.
    pub fn cursor(&self) -> (r: Cursor)
        requires
            self@.enc is Some,
        ensures
            r == self@.enc->0.cursor,
    {
        self.enc.as_ref().unwrap().cursor()
    }

    /// The session, once it is made.
    pub fn encoder(&self) -> (r: Option<&VP9Encoder>)
        ensures
            r is Some <==> self@.enc is Some,
            r matches Some(e) ==> Some(e@) == self@.enc,
    {
        self.enc.as_ref()
    }

    /// Whether the session was made.
    pub fn is_configured(&self) -> (r: bool)
        ensures
            r == (self@.enc is Some),
    {
        self.enc.is_some()
    }

    /// Makes the session, for a native encoder that was initialized with
    /// the configuration and reported `status`. A failure of the native
    /// initializer leaves the encoder without a session.
    pub fn configure(&mut self, status: u32) -> (r: Result<(), Error>)
        requires
            old(self)@.enc is None,
        ensures
            final(self)@.cfg == old(self)@.cfg,
            r is Ok <==> status == STATUS_OK,
            r is Ok ==> final(self)@.enc == Some(EncoderState::init(old(self)@.cfg)),
            r matches Err(e) ==> e == Error::ConfigurationIncomplete && final(self)@.enc is None,
    {
        match self.cfg.get_encoder(status) {
            Ok(enc) => {
                self.enc = Some(enc);
                Ok(())
            },
            Err(_) => Err(Error::ConfigurationIncomplete),
        }
    }

    /// The data that a decoder needs before the first packet. This encoder
    /// makes none.
    pub fn get_extradata(&self) -> (r: Option<Vec<u8>>)
        ensures
            r is None,
    {
        None
    }

    /// Says what to hand to the codec to encode `frame`.
    pub fn send_frame<'a>(&self, frame: &'a Frame) -> (call: EncodeCall<'a>)
        requires
            self@.enc is Some,
            frame.adaptable(),
            frame.t.pts is Some,
        ensures
            call.img matches Some(img) && adapted(*frame, img),
            Some(call.pts) == frame.t.pts,
            call.duration == FRAME_DURATION,
            call.flags == 0,
            call.deadline == Deadline::GoodQuality,
    {
        self.enc.as_ref().unwrap().prepare(frame)
    }

    /// Takes what the codec emitted at one retrieval and hands out the
    /// compressed frame, or says that more data is needed where there is
    /// no output. Only compressed frames are taken.
    pub fn receive_packet(&mut self, emitted: Option<CxEmission<'_>>) -> (r: Result<Packet, Error>)
        requires
            old(self)@.enc is Some,
            emitted matches Some(e) ==> e.pkt is Frame,
        ensures
            final(self)@.cfg == old(self)@.cfg,
            final(self)@.enc == Some(old(self)@.enc->0.retrieved(emission_iter(emitted))),
            r is Ok <==> old(self)@.enc->0.cursor.yields(emitted is Some),
            r matches Err(e) ==> e == Error::MoreDataNeeded,
            r matches Ok(p) ==> emitted matches Some(e) && classified(e.pkt, VPXPacket::Packet(p)),
    {
        match self.enc.as_mut().unwrap().get_packet(emitted) {
            Some(VPXPacket::Packet(p)) => Ok(p),
            _ => Err(Error::MoreDataNeeded),
        }
    }

    /// Takes the status that the codec gave for a frame or for the end of
    /// the stream, and sets the cursor back to the start.
    pub fn flush(&mut self, status: u32) -> (r: Result<(), ErrorCode>)
        requires
            old(self)@.enc is Some,
        ensures
            r == outcome(status),
            final(self)@.cfg == old(self)@.cfg,
            final(self)@.enc == Some(old(self)@.enc->0.submitted()),
    {
        self.enc.as_mut().unwrap().flush(status)
    }

    /// Tests whether the encoder has the option `key` for a value of the
    /// kind of `val`.
    pub fn has_option(key: &str, val: Value<'_>) -> (r: bool)
        ensures
            r == (option_target(key@, val) is Some),
    {
        find_option(key, val).is_some()
    }

    /// Sets an option. An option of the configuration is set at once. A
    /// runtime parameter is left for the codec to set, which takes a
    /// session: without one the data is refused.
    pub fn set_option(&mut self, key: &str, val: Value<'_>) -> (r: OptionStep)
        requires
            option_target(key@, val) is Some,
        ensures
            final(self)@.enc == old(self)@.enc,
            final(self)@.cfg == with_option(old(self)@.cfg, option_target(key@, val)->0),
            r == match option_target(key@, val)->0 {
                OptionTarget::Control(id, v) => if old(self)@.enc is Some {
                    OptionStep::Control(id, v)
                } else {
                    OptionStep::Done(Err(Error::InvalidData))
                },
                _ => OptionStep::Done(Ok(())),
            },
    {
        match find_option(key, val) {
            Some(OptionTarget::Width(v)) => {
                self.cfg.cfg.g_w = v;
                OptionStep::Done(Ok(()))
            },
            Some(OptionTarget::Height(v)) => {
                self.cfg.cfg.g_h = v;
                OptionStep::Done(Ok(()))
            },
            Some(OptionTarget::QMin(v)) => {
                self.cfg.cfg.rc_min_quantizer = v;
                OptionStep::Done(Ok(()))
            },
            Some(OptionTarget::QMax(v)) => {
                self.cfg.cfg.rc_max_quantizer = v;
                OptionStep::Done(Ok(()))
            },
            Some(OptionTarget::Timebase(num, den)) => {
                self.cfg.cfg.g_timebase.num = num;
                self.cfg.cfg.g_timebase.den = den;
                OptionStep::Done(Ok(()))
            },
            Some(OptionTarget::LagInFrames(v)) => {
                self.cfg.cfg.g_lag_in_frames = v;
                OptionStep::Done(Ok(()))
            },
            Some(OptionTarget::Control(id, v)) => {
                if self.enc.is_some() {
                    OptionStep::Control(id, v)
                } else {
                    OptionStep::Done(Err(Error::InvalidData))
                }
            },
            None => OptionStep::Done(Err(Error::InvalidData)),
        }
    }

    /// Takes the status that the codec gave for a runtime parameter that an
    /// option stood for. A parameter that the codec refused makes the
    /// configuration invalid.
    pub fn option_set(&mut self, id: ControlId, val: i32, status: u32) -> (r: Result<(), Error>)
        requires
            old(self)@.enc is Some,
        ensures
            final(self)@ == old(self)@,
            r is Ok <==> status == STATUS_OK,
            r matches Err(e) ==> e == Error::ConfigurationInvalid,
    {
        match check_status(status) {
            Ok(()) => Ok(()),
            Err(_) => Err(Error::ConfigurationInvalid),
        }
    }

    /// The parameters of the stream that the encoder makes: video of the
    /// configured size in the 4:2:0 layout, coded as "vp9".
    pub fn get_params(&self) -> (r: Result<CodecParams, Error>)
        ensures
            r matches Ok(p) && {
                &&& p.kind == Some(
                    MediaKind::Video(
                        VideoInfo {
                            width: self@.cfg.g_w as usize,
                            height: self@.cfg.g_h as usize,
                            format: Some(PixelFormat::YUV420),
                        },
                    ),
                )
                &&& p.codec_id matches Some(id) && id@ == "vp9"@
                &&& p.extradata is None
                &&& p.bit_rate == 0
                &&& p.convergence_window == 0
                &&& p.delay == 0
            },
    {
        Ok(
            CodecParams {
                kind: Some(
                    MediaKind::Video(
                        VideoInfo {
                            height: self.cfg.cfg.g_h as usize,
                            width: self.cfg.cfg.g_w as usize,
                            format: Some(PixelFormat::YUV420),
                        },
                    ),
                ),
                codec_id: Some("vp9".to_owned()),
                extradata: None,
                bit_rate: 0,
                convergence_window: 0,
                delay: 0,
            },
        )
    }

    /// Takes the size of the frames from the parameters of a video stream.
    /// Other parameters change nothing.
    pub fn set_params(&mut self, params: &CodecParams) -> (r: Result<(), Error>)
        ensures
            r is Ok,
            final(self)@.enc == old(self)@.enc,
            final(self)@.cfg == match params.kind {
                Some(MediaKind::Video(info)) => EncCfg {
                    g_w: info.width as u32,
                    g_h: info.height as u32,
                    ..old(self)@.cfg
                },
                _ => old(self)@.cfg,
            },
    {
        match params.kind {
            Some(MediaKind::Video(info)) => {
                self.cfg.cfg.g_w = #[verifier::truncate] (info.width as u32);
                self.cfg.cfg.g_h = #[verifier::truncate] (info.height as u32);
            },
            _ => {},
        }
        Ok(())
    }
}

} // verus!
