//! Decision rules of the callback adapter.
//!
//! The core ABI hands the foreign core five fixed-signature callbacks that
//! carry no per-call context parameter. The embedding's entry points marshal
//! each invocation into a [`CoreCallback`] value — copying out of foreign
//! memory before returning control, since the core may invalidate it the
//! instant the callback returns — and resolve which instance is calling
//! through an [`AdapterContext`] marker that brackets every foreign call.
//! What the host answers, decided here, is verified.

use vstd::prelude::*;
use crate::pixel::PixelFormat;

verus! {

/// Environment-query command: hand the host's log sink to the core.
pub const RETRO_ENVIRONMENT_GET_LOG_INTERFACE: u32 = 27;

/// Environment-query command: may the core deliver duplicate frames?
pub const RETRO_ENVIRONMENT_GET_CAN_DUPE: u32 = 3;

/// Environment-query command: the core declares its pixel format.
pub const RETRO_ENVIRONMENT_SET_PIXEL_FORMAT: u32 = 10;

/// Environment-query command: extended game info, which the host declines.
pub const RETRO_ENVIRONMENT_GET_GAME_INFO_EXT: u32 = 66;

/// One invocation of a foreign callback, as marshaled by the embedding:
/// every pointer has been read into an owned plain value inside the entry
/// point, before the foreign core could reuse the memory.
#[derive(Clone, Debug)]
pub enum CoreCallback {
    /// environment-query: the command code and, for commands whose argument
    /// is a 4-byte code, the value read from the argument slot.
    EnvironmentQuery { command: u32, word: Option<u32> },
    /// video-refresh: the frame bytes copied out of the foreign buffer (none
    /// when the data pointer was null), with the reported geometry.
    VideoRefresh { data: Option<Vec<u8>>, width: u32, height: u32, pitch: usize },
    /// input-poll.
    InputPoll,
    /// input-state for one port, device, index and id.
    InputState { port: u32, device: u32, index: u32, id: u32 },
    /// audio-sample: one left/right sample pair.
    AudioSample { left: i16, right: i16 },
    /// audio-sample-batch: the number of frames offered.
    AudioSampleBatch { frames: usize },
}

/// Mathematical value of a callback invocation.
pub enum CallbackView {
    EnvironmentQuery { command: u32, word: Option<u32> },
    VideoRefresh { data: Option<Seq<u8>>, width: u32, height: u32, pitch: usize },
    InputPoll,
    InputState { port: u32, device: u32, index: u32, id: u32 },
    AudioSample { left: i16, right: i16 },
    AudioSampleBatch { frames: usize },
}

impl View for CoreCallback {
    type V = CallbackView;

    open spec fn view(&self) -> CallbackView {
        match self {
            CoreCallback::EnvironmentQuery { command, word } => CallbackView::EnvironmentQuery {
                command: *command,
                word: *word,
            },
            CoreCallback::VideoRefresh { data, width, height, pitch } => CallbackView::VideoRefresh {
                data: match data {
                    Some(d) => Some(d@),
                    None => None,
                },
                width: *width,
                height: *height,
                pitch: *pitch,
            },
            CoreCallback::InputPoll => CallbackView::InputPoll,
            CoreCallback::InputState { port, device, index, id } => CallbackView::InputState {
                port: *port,
                device: *device,
                index: *index,
                id: *id,
            },
            CoreCallback::AudioSample { left, right } => CallbackView::AudioSample {
                left: *left,
                right: *right,
            },
            CoreCallback::AudioSampleBatch { frames } => CallbackView::AudioSampleBatch {
                frames: *frames,
            },
        }
    }
}

/// The host's answer to one environment query.
#[derive(Clone, Copy, Debug, PartialEq, Eq, Structural)]
pub enum EnvironmentQueryReply {
    /// get-log-interface is acknowledged; the embedding writes the address
    /// of its formatting log sink into the argument slot.
    InstallLogInterface,
    /// get-can-dupe is acknowledged; the flag — always true, duplicate
    /// frames are tolerated — is written into the argument slot.
    WriteCanDupe(bool),
    /// set-pixel-format is acknowledged, even when the code was unrecognized
    /// and the declared format is therefore the unknown one.
    PixelFormatSet(PixelFormat),
    /// The query is answered false. `recognized` distinguishes a command the
    /// host knows and declines from an unknown command, which the embedding
    /// logs; neither is an error.
    Declined { recognized: bool },
}

/// How the host answers an environment query. A set-pixel-format whose
/// argument slot could not be read is a protocol anomaly, answered with a
/// decline rather than a host failure.
pub open spec fn spec_classify_query(command: u32, word: Option<u32>) -> EnvironmentQueryReply {
    if command == RETRO_ENVIRONMENT_GET_LOG_INTERFACE {
        EnvironmentQueryReply::InstallLogInterface
    } else if command == RETRO_ENVIRONMENT_GET_CAN_DUPE {
        EnvironmentQueryReply::WriteCanDupe(true)
    } else if command == RETRO_ENVIRONMENT_SET_PIXEL_FORMAT {
        match word {
            Some(code) => EnvironmentQueryReply::PixelFormatSet(PixelFormat::spec_from_code(code)),
            None => EnvironmentQueryReply::Declined { recognized: true },
        }
    } else if command == RETRO_ENVIRONMENT_GET_GAME_INFO_EXT {
        EnvironmentQueryReply::Declined { recognized: true }
    } else {
        EnvironmentQueryReply::Declined { recognized: false }
    }
}

/// Executable twin of [`spec_classify_query`].
pub fn classify_query(command: u32, word: Option<u32>) -> (r: EnvironmentQueryReply)
    ensures
        r == spec_classify_query(command, word),
{
    if command == RETRO_ENVIRONMENT_GET_LOG_INTERFACE {
        EnvironmentQueryReply::InstallLogInterface
    } else if command == RETRO_ENVIRONMENT_GET_CAN_DUPE {
        EnvironmentQueryReply::WriteCanDupe(true)
    } else if command == RETRO_ENVIRONMENT_SET_PIXEL_FORMAT {
        match word {
            Some(code) => EnvironmentQueryReply::PixelFormatSet(PixelFormat::from(code)),
            None => EnvironmentQueryReply::Declined { recognized: true },
        }
    } else if command == RETRO_ENVIRONMENT_GET_GAME_INFO_EXT {
        EnvironmentQueryReply::Declined { recognized: true }
    } else {
        EnvironmentQueryReply::Declined { recognized: false }
    }
}

/// Whether a reply reports success to the core.
pub open spec fn spec_acknowledged(r: EnvironmentQueryReply) -> bool {
    !(r is Declined)
}

/// Executable twin of [`spec_acknowledged`]: the boolean the entry point
/// returns to the core for an environment query.
pub fn acknowledged(r: &EnvironmentQueryReply) -> (b: bool)
    ensures
        b == spec_acknowledged(*r),
{
    !matches!(r, EnvironmentQueryReply::Declined { .. })
}

/// The host's reply to one callback invocation.
#[derive(Clone, Copy, Debug, PartialEq, Eq, Structural)]
pub enum CallbackReply {
    /// Answer to an environment query.
    Environment(EnvironmentQueryReply),
    /// video-refresh returns nothing to the core; the reply records whether
    /// a new frame was stored or the prior frame was left untouched.
    FrameStored { replaced: bool },
    /// input-poll is a no-op.
    Polled,
    /// input-state: the reported state.
    InputState(i16),
    /// audio-sample: accepted and discarded.
    AudioDiscarded,
    /// audio-sample-batch: accepted, discarded, and the consumed count
    /// echoed back as the ABI requires.
    AudioFramesConsumed(usize),
}

/// input-state handler: deliberately reports "not pressed" for every port,
/// device, index and id. Live input is an outside collaborator's concern.
#[allow(unused_variables)]
pub fn input_state_reply(port: u32, device: u32, index: u32, id: u32) -> (r: i16)
    ensures
        r == 0,
{
    0
}

/// audio-sample-batch handler: the samples are discarded, and the number of
/// frames consumed — all of them — is echoed back as the ABI requires.
pub fn audio_batch_reply(frames: usize) -> (r: usize)
    ensures
        r == frames,
{
    frames
}

/// Log level code: debug.
pub const RETRO_LOG_DEBUG: u32 = 0;

/// Log level code: informational.
pub const RETRO_LOG_INFO: u32 = 1;

/// Log level code: warning.
pub const RETRO_LOG_WARN: u32 = 2;

/// Log level code: error.
pub const RETRO_LOG_ERROR: u32 = 3;

/// Log level code: the ABI's sentinel level, which carries no message class.
pub const RETRO_LOG_DUMMY: u32 = 0x7fffffff;

/// Label of a log level the core hands to the host's log sink; a level the
/// ABI does not define is labeled unknown, and the message is still printed.
pub open spec fn spec_log_level_name(level: u32) -> Seq<char> {
    if level == RETRO_LOG_DUMMY {
        "DUMMY"@
    } else if level == RETRO_LOG_DEBUG {
        "DEBUG"@
    } else if level == RETRO_LOG_INFO {
        "INFO"@
    } else if level == RETRO_LOG_WARN {
        "WARN"@
    } else if level == RETRO_LOG_ERROR {
        "ERROR"@
    } else {
        "UNKNOWN"@
    }
}

/// Executable twin of [`spec_log_level_name`].
pub fn log_level_name(level: u32) -> (s: &'static str)
    ensures
        s@ == spec_log_level_name(level),
{
    if level == RETRO_LOG_DUMMY {
        "DUMMY"
    } else if level == RETRO_LOG_DEBUG {
        "DEBUG"
    } else if level == RETRO_LOG_INFO {
        "INFO"
    } else if level == RETRO_LOG_WARN {
        "WARN"
    } else if level == RETRO_LOG_ERROR {
        "ERROR"
    } else {
        "UNKNOWN"
    }
}

/// The inert answer to a callback that fired with no active instance, or
/// against an instance that no longer exists: declined for an environment
/// query, nothing stored for a video refresh, "not pressed" for input, and
/// audio discarded with its count echoed. A misbehaving core is logged and
/// answered inertly — it must never fail the host process.
pub open spec fn spec_inert_reply(cb: CallbackView) -> CallbackReply {
    match cb {
        CallbackView::EnvironmentQuery { .. } => CallbackReply::Environment(
            EnvironmentQueryReply::Declined { recognized: false },
        ),
        CallbackView::VideoRefresh { .. } => CallbackReply::FrameStored { replaced: false },
        CallbackView::InputPoll => CallbackReply::Polled,
        CallbackView::InputState { .. } => CallbackReply::InputState(0),
        CallbackView::AudioSample { .. } => CallbackReply::AudioDiscarded,
        CallbackView::AudioSampleBatch { frames } => CallbackReply::AudioFramesConsumed(frames),
    }
}

/// Executable twin of [`spec_inert_reply`].
pub fn inert_reply(cb: &CoreCallback) -> (r: CallbackReply)
    ensures
        r == spec_inert_reply(cb@),
{
    match cb {
        CoreCallback::EnvironmentQuery { .. } => CallbackReply::Environment(
            EnvironmentQueryReply::Declined { recognized: false },
        ),
        CoreCallback::VideoRefresh { .. } => CallbackReply::FrameStored { replaced: false },
        CoreCallback::InputPoll => CallbackReply::Polled,
        CoreCallback::InputState { .. } => CallbackReply::InputState(0),
        CoreCallback::AudioSample { .. } => CallbackReply::AudioDiscarded,
        CoreCallback::AudioSampleBatch { frames } => CallbackReply::AudioFramesConsumed(*frames),
    }
}

/// The "currently active instance" marker that resolves context-free
/// callbacks. The embedding brackets every foreign call that can trigger
/// callbacks — initialise, load-game, run — by marking the instance before
/// the call and clearing the marker after it returns. One context serializes
/// all foreign calls routed through it; an embedding that steps instances in
/// parallel must generate one context and one set of entry points per
/// instance.
#[derive(Clone, Debug)]
pub struct AdapterContext {
    active: Option<String>,
}

impl AdapterContext {
    /// Id of the instance a foreign call is in flight for, if any.
    pub closed spec fn spec_active(&self) -> Option<Seq<char>> {
        match self.active {
            Some(id) => Some(id@),
            None => None,
        }
    }

    /// Fresh context with no call in flight.
    pub fn new() -> (r: AdapterContext)
        ensures
            r.spec_active() is None,
    {
        AdapterContext { active: None }
    }

    /// Mark `id` active for the duration of one foreign call. No call may
    /// already be in flight: foreign calls through one context never nest.
    pub fn begin_call(&mut self, id: String)
        requires
            old(self).spec_active() is None,
        ensures
            final(self).spec_active() == Some(id@),
    {
        self.active = Some(id);
    }

    /// Clear the marker after the foreign call returned.
    pub fn end_call(&mut self)
        ensures
            final(self).spec_active() is None,
    {
        self.active = None;
    }

    /// Instance a callback arriving now belongs to. None marks the callback
    /// as a protocol anomaly, to be answered with [`inert_reply`].
    pub fn active_instance(&self) -> (r: Option<&String>)
        ensures
            match r {
                Some(id) => self.spec_active() == Some(id@),
                None => self.spec_active() is None,
            },
    {
        self.active.as_ref()
    }
}

} // verus!
