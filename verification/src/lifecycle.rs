//! The lifecycle state machine of one hosted environment.
//!
//! An environment is in exactly one of four stages — unloaded, loaded,
//! initialised, running — and every operation is a total function over
//! state and operation: an operation applied in the wrong stage returns a
//! [`StateError`] naming the stage it needed, and never corrupts state.
//! The foreign calls themselves (initialise, load-game, run) are made by
//! the embedding; their observable outcomes — whether the ROM loaded, and
//! the callbacks the core made during the call — are handed in as values,
//! so every decision the host takes from them is verified for every
//! possible outcome.

use vstd::prelude::*;
use crate::adapter::CallbackReply;
use crate::adapter::CallbackView;
use crate::adapter::CoreCallback;
use crate::adapter::EnvironmentQueryReply;
use crate::adapter::classify_query;
use crate::adapter::spec_classify_query;
use crate::errors::ConfigurationError;
use crate::errors::EnvironmentError;
use crate::errors::FrameError;
use crate::errors::RomError;
use crate::errors::StateError;
use crate::frame::FrameBuffer;
use crate::frame::FrameView;
use crate::frame::frame_wf;
use crate::loader::CoreHandle;
use crate::loader::CoreProbe;
use crate::loader::HandleView;
use crate::loader::RETRO_API_VERSION;
use crate::pixel::PixelFormat;

verus! {

/// The four lifecycle stages an environment can be in. Errors name these to
/// say which stage an operation needed and which it found.
#[derive(Clone, Copy, Debug, PartialEq, Eq, Structural)]
pub enum StateKind {
    Unloaded,
    Loaded,
    Initialised,
    Running,
}

impl StateKind {
    /// Human-readable name of the stage.
    pub open spec fn spec_name(self) -> Seq<char> {
        match self {
            StateKind::Unloaded => "unloaded"@,
            StateKind::Loaded => "loaded"@,
            StateKind::Initialised => "initialised"@,
            StateKind::Running => "running"@,
        }
    }

    /// Executable twin of [`StateKind::spec_name`].
    pub fn name(&self) -> (s: &'static str)
        ensures
            s@ == self.spec_name(),
    {
        match self {
            StateKind::Unloaded => "unloaded",
            StateKind::Loaded => "loaded",
            StateKind::Initialised => "initialised",
            StateKind::Running => "running",
        }
    }
}

/// Lifecycle state of one hosted environment. Exactly one variant is live
/// at a time, so no combination of flags can represent an impossible state.
#[derive(Debug)]
pub enum EnvironmentState {
    /// No core is bound.
    Unloaded,
    /// A validated core is bound; no foreign call has been made yet.
    Loaded(CoreHandle),
    /// Callbacks are registered and the core is initialised. The core may
    /// declare a pixel format at any time from here on; until it does, the
    /// format is the unknown one.
    Initialised(CoreHandle, PixelFormat),
    /// A ROM is loaded: the environment can step. Holds the resolved ROM
    /// path and, once a video refresh delivered one, the last captured
    /// frame.
    Running(CoreHandle, PixelFormat, String, Option<FrameBuffer>),
}

/// Mathematical value of a lifecycle state.
pub enum StateView {
    Unloaded,
    Loaded(HandleView),
    Initialised(HandleView, PixelFormat),
    Running(HandleView, PixelFormat, Seq<char>, Option<FrameView>),
}

impl View for EnvironmentState {
    type V = StateView;

    open spec fn view(&self) -> StateView {
        match self {
            EnvironmentState::Unloaded => StateView::Unloaded,
            EnvironmentState::Loaded(h) => StateView::Loaded(h@),
            EnvironmentState::Initialised(h, f) => StateView::Initialised(h@, *f),
            EnvironmentState::Running(h, f, rom, frame) => StateView::Running(
                h@,
                *f,
                rom@,
                match frame {
                    Some(fb) => Some(fb@),
                    None => None,
                },
            ),
        }
    }
}

impl StateView {
    /// Stage of the lifecycle this state is in.
    pub open spec fn kind(self) -> StateKind {
        match self {
            StateView::Unloaded => StateKind::Unloaded,
            StateView::Loaded(_) => StateKind::Loaded,
            StateView::Initialised(_, _) => StateKind::Initialised,
            StateView::Running(_, _, _, _) => StateKind::Running,
        }
    }

    /// A state is well formed when its handle passed validation and a held
    /// frame is well formed for the current declared format.
    pub open spec fn wf(self) -> bool {
        match self {
            StateView::Unloaded => true,
            StateView::Loaded(h) => h.wf(),
            StateView::Initialised(h, _) => h.wf(),
            StateView::Running(h, _, _, None) => h.wf(),
            StateView::Running(h, f, _, Some(fv)) => h.wf() && frame_wf(f, fv),
        }
    }
}

/// The frame a running environment holds after the core declared a new
/// format: a held frame is kept when it is still well formed for the new
/// format (the two 16-bit formats share a pixel size), and discarded
/// otherwise — its bytes cannot be interpreted under the new format.
pub open spec fn spec_refit_frame(format: PixelFormat, frame: Option<FrameView>) -> Option<
    FrameView,
> {
    match frame {
        Some(f) => if frame_wf(format, f) {
            Some(f)
        } else {
            None
        },
        None => None,
    }
}

/// Whether a video refresh stores a new frame: the declared format must be
/// known, the delivered byte count must be exactly `width * height` times
/// the format's pixel size, and the canonical sizes must fit the machine.
/// An empty delivery is the duplicate-frame signal, and anything malformed
/// is answered inertly — the core's behavior is not trusted to be well
/// formed; both leave the prior frame untouched.
pub open spec fn spec_refresh_stores(format: PixelFormat, d: Seq<u8>, width: u32, height: u32) -> bool {
    match format.spec_bytes_per_pixel() {
        Some(b) => {
            &&& d.len() > 0
            &&& d.len() == width * height * b
            &&& width * height * 4 <= usize::MAX
            &&& width * 4 <= usize::MAX
        },
        None => false,
    }
}

/// State and reply after one callback invocation. A set-pixel-format query
/// updates the declared format of an initialised or running environment; a
/// video refresh replaces the frame of a running environment wholesale or
/// leaves the prior frame untouched; every other callback leaves the state
/// unchanged.
pub open spec fn spec_step_callback(s: StateView, cb: CallbackView) -> (StateView, CallbackReply) {
    match cb {
        CallbackView::EnvironmentQuery { command, word } => {
            let reply = spec_classify_query(command, word);
            let s2 = match reply {
                EnvironmentQueryReply::PixelFormatSet(f) => match s {
                    StateView::Initialised(h, _) => StateView::Initialised(h, f),
                    StateView::Running(h, _, rom, frame) => StateView::Running(
                        h,
                        f,
                        rom,
                        spec_refit_frame(f, frame),
                    ),
                    _ => s,
                },
                _ => s,
            };
            (s2, CallbackReply::Environment(reply))
        },
        CallbackView::VideoRefresh { data, width, height, pitch } => match s {
            StateView::Running(h, f, rom, prev) => match data {
                Some(d) => if spec_refresh_stores(f, d, width, height) {
                    (
                        StateView::Running(
                            h,
                            f,
                            rom,
                            Some(FrameView { bytes: d, width, height, pitch }),
                        ),
                        CallbackReply::FrameStored { replaced: true },
                    )
                } else {
                    (
                        StateView::Running(h, f, rom, prev),
                        CallbackReply::FrameStored { replaced: false },
                    )
                },
                None => (
                    StateView::Running(h, f, rom, prev),
                    CallbackReply::FrameStored { replaced: false },
                ),
            },
            _ => (s, CallbackReply::FrameStored { replaced: false }),
        },
        CallbackView::InputPoll => (s, CallbackReply::Polled),
        CallbackView::InputState { .. } => (s, CallbackReply::InputState(0)),
        CallbackView::AudioSample { .. } => (s, CallbackReply::AudioDiscarded),
        CallbackView::AudioSampleBatch { frames } => (s, CallbackReply::AudioFramesConsumed(frames)),
    }
}

/// Views of a sequence of marshaled callbacks.
pub open spec fn spec_views(cbs: Seq<CoreCallback>) -> Seq<CallbackView> {
    cbs.map_values(|c: CoreCallback| c@)
}

/// State after a whole foreign call whose callbacks were `cbs`, in order.
pub open spec fn spec_run_callbacks(s: StateView, cbs: Seq<CallbackView>) -> StateView
    decreases cbs.len(),
{
    if cbs.len() == 0 {
        s
    } else {
        spec_run_callbacks(spec_step_callback(s, cbs[0]).0, cbs.drop_first())
    }
}

/// No callback can change the lifecycle stage, and every callback preserves
/// well-formedness: whatever a core does during a call, the host's state
/// stays consistent.
pub proof fn lemma_step_callback_preserves(s: StateView, cb: CallbackView)
    requires
        s.wf(),
    ensures
        spec_step_callback(s, cb).0.wf(),
        spec_step_callback(s, cb).0.kind() == s.kind(),
{
}

/// [`lemma_step_callback_preserves`], folded over a whole foreign call.
pub proof fn lemma_run_callbacks_preserves(s: StateView, cbs: Seq<CallbackView>)
    requires
        s.wf(),
    ensures
        spec_run_callbacks(s, cbs).wf(),
        spec_run_callbacks(s, cbs).kind() == s.kind(),
    decreases cbs.len(),
{
    if cbs.len() > 0 {
        lemma_step_callback_preserves(s, cbs[0]);
        lemma_run_callbacks_preserves(spec_step_callback(s, cbs[0]).0, cbs.drop_first());
    }
}

/// The product of two 32-bit dimensions and a pixel size of at most four
/// always fits 128-bit arithmetic.
proof fn lemma_u32_product_fits(w: int, h: int, b: int)
    requires
        0 <= w <= u32::MAX,
        0 <= h <= u32::MAX,
        0 <= b <= 4,
    ensures
        w * h * b <= u128::MAX,
        w * h <= u128::MAX,
{
    vstd::arithmetic::mul::lemma_mul_upper_bound(w, u32::MAX as int, h, u32::MAX as int);
    vstd::arithmetic::mul::lemma_mul_upper_bound(
        w * h,
        (u32::MAX as int) * (u32::MAX as int),
        b,
        4,
    );
}

impl EnvironmentState {
    /// Executable twin of [`StateView::kind`].
    pub fn kind(&self) -> (k: StateKind)
        ensures
            k == self@.kind(),
    {
        match self {
            EnvironmentState::Unloaded => StateKind::Unloaded,
            EnvironmentState::Loaded(_) => StateKind::Loaded,
            EnvironmentState::Initialised(_, _) => StateKind::Initialised,
            EnvironmentState::Running(_, _, _, _) => StateKind::Running,
        }
    }

    /// Bind a validated core: unloaded to loaded.
    ///
    /// `probe` is what the embedding found when it opened the binary at
    /// `core_path` and resolved the ABI symbols, before any foreign call. A
    /// version mismatch (or any other failed probe) fails the load with zero
    /// side effects: the state is unchanged, and since callback registration
    /// and initialisation only happen in the later transitions, nothing
    /// foreign has been touched.
    pub fn load_core(&mut self, core_path: String, probe: CoreProbe) -> (r: Result<
        (),
        EnvironmentError,
    >)
        requires
            old(self)@.wf(),
        ensures
            final(self)@.wf(),
            r is Err ==> final(self)@ == old(self)@,
            !(old(self)@ is Unloaded) ==> (r matches Err(EnvironmentError::State(e)) && e == (
            StateError { required: StateKind::Unloaded, actual: old(self)@.kind() })),
            old(self)@ is Unloaded ==> match probe {
                CoreProbe::Resolved { api_version } => if api_version == RETRO_API_VERSION {
                    r is Ok && (final(self)@ matches StateView::Loaded(h) && h.core_path
                        == core_path@ && h.wf())
                } else {
                    r matches Err(
                        EnvironmentError::Configuration(
                            ConfigurationError::VersionMismatch { got, expected },
                        ),
                    ) && got == api_version && expected == RETRO_API_VERSION
                },
                CoreProbe::FileNotFound => r matches Err(
                    EnvironmentError::Configuration(ConfigurationError::FileNotFound),
                ),
                CoreProbe::MissingSymbol(s) => r matches Err(
                    EnvironmentError::Configuration(ConfigurationError::SymbolNotFound(t)),
                ) && t@ == s@,
            },
    {
        let k = self.kind();
        if k != StateKind::Unloaded {
            return Err(EnvironmentError::State(StateError { required: StateKind::Unloaded, actual: k }));
        }
        match CoreHandle::load(core_path, probe) {
            Ok(h) => {
                *self = EnvironmentState::Loaded(h);
                Ok(())
            },
            Err(e) => Err(EnvironmentError::Configuration(e)),
        }
    }

    /// Initialise the bound core: loaded to initialised.
    ///
    /// When this succeeds the embedding registers all five callbacks with
    /// the core and calls its init entry, routing any callbacks the core
    /// makes during init through [`EnvironmentState::handle_callback`]. The
    /// declared pixel format starts unknown.
    pub fn initialise_core(&mut self) -> (r: Result<(), StateError>)
        requires
            old(self)@.wf(),
        ensures
            final(self)@.wf(),
            match old(self)@ {
                StateView::Loaded(h) => r is Ok && final(self)@ == StateView::Initialised(
                    h,
                    PixelFormat::RetroPixelFormatUnknown,
                ),
                _ => r matches Err(e) && e == (StateError {
                    required: StateKind::Loaded,
                    actual: old(self)@.kind(),
                }) && final(self)@ == old(self)@,
            },
    {
        let mut taken = EnvironmentState::Unloaded;
        core::mem::swap(self, &mut taken);
        match taken {
            EnvironmentState::Loaded(h) => {
                *self = EnvironmentState::Initialised(h, PixelFormat::RetroPixelFormatUnknown);
                Ok(())
            },
            other => {
                let k = other.kind();
                *self = other;
                Err(StateError { required: StateKind::Loaded, actual: k })
            },
        }
    }

    /// Load a ROM: initialised to running.
    ///
    /// `resolved` is the ROM path resolved to an absolute path by the
    /// embedding (none when resolution failed — reported as a ROM error,
    /// never silently substituted), and `game_loaded` is what the core's
    /// load-game entry returned for that resolved path. The embedding makes
    /// that foreign call only when the state is initialised and resolution
    /// succeeded. On success the environment starts with no captured frame.
    pub fn load_rom(&mut self, rom_path: String, resolved: Option<String>, game_loaded: bool) -> (r:
        Result<(), EnvironmentError>)
        requires
            old(self)@.wf(),
        ensures
            final(self)@.wf(),
            r is Err ==> final(self)@ == old(self)@,
            match old(self)@ {
                StateView::Initialised(h, f) => match resolved {
                    Some(p) => if game_loaded {
                        r is Ok && final(self)@ == StateView::Running(
                            h,
                            f,
                            p@,
                            None::<FrameView>,
                        )
                    } else {
                        r matches Err(EnvironmentError::Rom(RomError::Rejected))
                    },
                    None => r matches Err(EnvironmentError::Rom(RomError::PathUnresolvable(q)))
                        && q@ == rom_path@,
                },
                _ => r matches Err(EnvironmentError::State(e)) && e == (StateError {
                    required: StateKind::Initialised,
                    actual: old(self)@.kind(),
                }),
            },
    {
        let mut taken = EnvironmentState::Unloaded;
        core::mem::swap(self, &mut taken);
        match taken {
            EnvironmentState::Initialised(h, f) => match resolved {
                Some(p) => if game_loaded {
                    *self = EnvironmentState::Running(h, f, p, None);
                    Ok(())
                } else {
                    *self = EnvironmentState::Initialised(h, f);
                    Err(EnvironmentError::Rom(RomError::Rejected))
                },
                None => {
                    *self = EnvironmentState::Initialised(h, f);
                    Err(EnvironmentError::Rom(RomError::PathUnresolvable(rom_path)))
                },
            },
            other => {
                let k = other.kind();
                *self = other;
                Err(
                    EnvironmentError::State(
                        StateError { required: StateKind::Initialised, actual: k },
                    ),
                )
            },
        }
    }

    /// Unload the ROM: running back to initialised. The captured frame is
    /// discarded; the declared pixel format is kept. When this succeeds the
    /// embedding calls the core's unload-game entry — and an embedding that
    /// is about to release the library must unload first: releasing the
    /// library while a ROM is loaded would run foreign code after free.
    pub fn unload_rom(&mut self) -> (r: Result<(), StateError>)
        requires
            old(self)@.wf(),
        ensures
            final(self)@.wf(),
            match old(self)@ {
                StateView::Running(h, f, _, _) => r is Ok && final(self)@ == StateView::Initialised(
                    h,
                    f,
                ),
                _ => r matches Err(e) && e == (StateError {
                    required: StateKind::Running,
                    actual: old(self)@.kind(),
                }) && final(self)@ == old(self)@,
            },
    {
        let mut taken = EnvironmentState::Unloaded;
        core::mem::swap(self, &mut taken);
        match taken {
            EnvironmentState::Running(h, f, _, _) => {
                *self = EnvironmentState::Initialised(h, f);
                Ok(())
            },
            other => {
                let k = other.kind();
                *self = other;
                Err(StateError { required: StateKind::Running, actual: k })
            },
        }
    }

    /// Answer one callback the core made during a foreign call, updating the
    /// state as [`spec_step_callback`] says. Total: whatever the core hands
    /// in, the state stays well formed and in the same stage.
    pub fn handle_callback(&mut self, cb: CoreCallback) -> (r: CallbackReply)
        requires
            old(self)@.wf(),
        ensures
            final(self)@ == spec_step_callback(old(self)@, cb@).0,
            r == spec_step_callback(old(self)@, cb@).1,
            final(self)@.wf(),
            final(self)@.kind() == old(self)@.kind(),
    {
        proof {
            lemma_step_callback_preserves(old(self)@, cb@);
        }
        match cb {
            CoreCallback::EnvironmentQuery { command, word } => {
                let reply = classify_query(command, word);
                if let EnvironmentQueryReply::PixelFormatSet(f) = reply {
                    let mut taken = EnvironmentState::Unloaded;
                    core::mem::swap(self, &mut taken);
                    match taken {
                        EnvironmentState::Initialised(h, _) => {
                            *self = EnvironmentState::Initialised(h, f);
                        },
                        EnvironmentState::Running(h, _, rom, frame) => {
                            let kept = match frame {
                                Some(fb) => {
                                    if Self::frame_fits(f, &fb) {
                                        Some(fb)
                                    } else {
                                        None
                                    }
                                },
                                None => None,
                            };
                            *self = EnvironmentState::Running(h, f, rom, kept);
                        },
                        other => {
                            *self = other;
                        },
                    }
                }
                CallbackReply::Environment(reply)
            },
            CoreCallback::VideoRefresh { data, width, height, pitch } => {
                let mut replaced = false;
                let mut taken = EnvironmentState::Unloaded;
                core::mem::swap(self, &mut taken);
                match taken {
                    EnvironmentState::Running(h, f, rom, prev) => {
                        match data {
                            Some(d) => {
                                if Self::refresh_stores(f, &d, width, height) {
                                    let fb = FrameBuffer { buffer: d, width, height, pitch };
                                    *self = EnvironmentState::Running(h, f, rom, Some(fb));
                                    replaced = true;
                                } else {
                                    *self = EnvironmentState::Running(h, f, rom, prev);
                                }
                            },
                            None => {
                                *self = EnvironmentState::Running(h, f, rom, prev);
                            },
                        }
                    },
                    other => {
                        *self = other;
                    },
                }
                CallbackReply::FrameStored { replaced }
            },
            CoreCallback::InputPoll => CallbackReply::Polled,
            CoreCallback::InputState { .. } => CallbackReply::InputState(0),
            CoreCallback::AudioSample { .. } => CallbackReply::AudioDiscarded,
            CoreCallback::AudioSampleBatch { frames } => CallbackReply::AudioFramesConsumed(frames),
        }
    }

    /// Executable twin of the keep-or-discard test of [`spec_refit_frame`].
    fn frame_fits(format: PixelFormat, fb: &FrameBuffer) -> (b: bool)
        ensures
            b == frame_wf(format, fb@),
    {
        if !Self::geometry_fits(fb.width, fb.height) {
            return false;
        }
        match format.bytes_per_pixel() {
            Some(bpp) => {
                proof {
                    assert(bpp <= 4);
                    lemma_u32_product_fits(fb.width as int, fb.height as int, bpp as int);
                }
                let expected: u128 = (fb.width as u128) * (fb.height as u128) * (bpp as u128);
                (fb.buffer.len() as u128) == expected
            },
            None => true,
        }
    }

    /// Whether the canonical sizes for this geometry fit the machine.
    fn geometry_fits(width: u32, height: u32) -> (b: bool)
        ensures
            b == (width * height * 4 <= usize::MAX && width * 4 <= usize::MAX),
    {
        proof {
            lemma_u32_product_fits(width as int, height as int, 4);
        }
        let p: u128 = (width as u128) * (height as u128) * 4;
        let q: u128 = (width as u128) * 4;
        p <= (usize::MAX as u128) && q <= (usize::MAX as u128)
    }

    /// Executable twin of [`spec_refresh_stores`].
    fn refresh_stores(format: PixelFormat, d: &Vec<u8>, width: u32, height: u32) -> (b: bool)
        ensures
            b == spec_refresh_stores(format, d@, width, height),
    {
        match format.bytes_per_pixel() {
            Some(bpp) => {
                if d.len() == 0 {
                    return false;
                }
                if !Self::geometry_fits(width, height) {
                    return false;
                }
                proof {
                    assert(bpp <= 4);
                    lemma_u32_product_fits(width as int, height as int, bpp as int);
                }
                let expected: u128 = (width as u128) * (height as u128) * (bpp as u128);
                (d.len() as u128) == expected
            },
            None => false,
        }
    }

    /// Perform one step: fold the callbacks the core made during one run
    /// call over the state. Legal only while running; stepping never leaves
    /// the running stage, however the core behaves.
    pub fn run(&mut self, callbacks: Vec<CoreCallback>) -> (r: Result<(), StateError>)
        requires
            old(self)@.wf(),
        ensures
            final(self)@.wf(),
            old(self)@ is Running ==> r is Ok && final(self)@ == spec_run_callbacks(
                old(self)@,
                spec_views(callbacks@),
            ) && final(self)@ is Running,
            !(old(self)@ is Running) ==> (r matches Err(e) && e == (StateError {
                required: StateKind::Running,
                actual: old(self)@.kind(),
            }) && final(self)@ == old(self)@),
    {
        let k = self.kind();
        if k != StateKind::Running {
            return Err(StateError { required: StateKind::Running, actual: k });
        }
        let mut cbs = callbacks;
        while cbs.len() > 0
            invariant
                self@.wf(),
                spec_run_callbacks(self@, spec_views(cbs@)) == spec_run_callbacks(
                    old(self)@,
                    spec_views(callbacks@),
                ),
                self@.kind() == old(self)@.kind(),
            decreases cbs.len(),
        {
            let ghost prev = cbs@;
            let ghost s0 = self@;
            let cb = cbs.remove(0);
            self.handle_callback(cb);
            proof {
                assert(spec_views(prev)[0] == cb@);
                assert(spec_views(prev).drop_first() =~= spec_views(cbs@));
                assert(spec_run_callbacks(s0, spec_views(prev)) == spec_run_callbacks(
                    self@,
                    spec_views(cbs@),
                ));
            }
        }
        proof {
            assert(spec_views(cbs@).len() == 0);
            assert(old(self)@.kind() == StateKind::Running ==> self@ is Running);
        }
        Ok(())
    }

    /// Hand out a copy of the last captured frame, or say why none is
    /// ready: the environment is not running, or no video refresh has
    /// delivered a frame since the ROM was loaded.
    pub fn get_frame_info(&self) -> (r: Result<FrameBuffer, FrameError>)
        ensures
            match self@ {
                StateView::Running(_, _, _, Some(f)) => r matches Ok(fb) && fb@ == f,
                StateView::Running(_, _, _, None) => r == Err::<FrameBuffer, FrameError>(
                    FrameError::NoFrameCaptured,
                ),
                _ => r matches Err(FrameError::NotRunning { actual }) && actual == self@.kind(),
            },
    {
        match self {
            EnvironmentState::Running(_, _, _, Some(fb)) => Ok(fb.duplicate()),
            EnvironmentState::Running(_, _, _, None) => Err(FrameError::NoFrameCaptured),
            _ => Err(FrameError::NotRunning { actual: self.kind() }),
        }
    }
}

/// Manager of a single hosted environment: the entry point for an embedding
/// that hosts exactly one core. It owns that environment's state explicitly —
/// not a process-wide global — so several managers can exist side by side;
/// an embedding that manages many named instances uses the registry instead.
#[derive(Debug)]
pub struct GlobalLibretroEnvironmentManager {
    /// The one environment this manager drives.
    pub state: EnvironmentState,
}

impl GlobalLibretroEnvironmentManager {
    /// A manager whose environment has no core bound yet.
    pub fn new() -> (r: GlobalLibretroEnvironmentManager)
        ensures
            r.state@ == StateView::Unloaded,
            r.state@.wf(),
    {
        GlobalLibretroEnvironmentManager { state: EnvironmentState::Unloaded }
    }

    /// Bind a validated core; see [`EnvironmentState::load_core`]. Fails
    /// with a state error unless no core is loaded yet.
    pub fn load_core(&mut self, core_path: String, probe: CoreProbe) -> (r: Result<
        (),
        EnvironmentError,
    >)
        requires
            old(self).state@.wf(),
        ensures
            final(self).state@.wf(),
            r is Err ==> final(self).state@ == old(self).state@,
            !(old(self).state@ is Unloaded) ==> (r matches Err(EnvironmentError::State(e)) && e
                == (StateError { required: StateKind::Unloaded, actual: old(self).state@.kind() })),
            old(self).state@ is Unloaded ==> match probe {
                CoreProbe::Resolved { api_version } => if api_version == RETRO_API_VERSION {
                    r is Ok && (final(self).state@ matches StateView::Loaded(h) && h.core_path
                        == core_path@ && h.wf())
                } else {
                    r matches Err(
                        EnvironmentError::Configuration(
                            ConfigurationError::VersionMismatch { got, expected },
                        ),
                    ) && got == api_version && expected == RETRO_API_VERSION
                },
                CoreProbe::FileNotFound => r matches Err(
                    EnvironmentError::Configuration(ConfigurationError::FileNotFound),
                ),
                CoreProbe::MissingSymbol(s) => r matches Err(
                    EnvironmentError::Configuration(ConfigurationError::SymbolNotFound(t)),
                ) && t@ == s@,
            },
    {
        self.state.load_core(core_path, probe)
    }

    /// Initialise the bound core; see [`EnvironmentState::initialise_core`].
    pub fn initialise_core(&mut self) -> (r: Result<(), StateError>)
        requires
            old(self).state@.wf(),
        ensures
            final(self).state@.wf(),
            match old(self).state@ {
                StateView::Loaded(h) => r is Ok && final(self).state@ == StateView::Initialised(
                    h,
                    PixelFormat::RetroPixelFormatUnknown,
                ),
                _ => r matches Err(e) && e == (StateError {
                    required: StateKind::Loaded,
                    actual: old(self).state@.kind(),
                }) && final(self).state@ == old(self).state@,
            },
    {
        self.state.initialise_core()
    }

    /// Load a ROM; see [`EnvironmentState::load_rom`].
    pub fn load_rom(&mut self, rom_path: String, resolved: Option<String>, game_loaded: bool) -> (r:
        Result<(), EnvironmentError>)
        requires
            old(self).state@.wf(),
        ensures
            final(self).state@.wf(),
            r is Err ==> final(self).state@ == old(self).state@,
            match old(self).state@ {
                StateView::Initialised(h, f) => match resolved {
                    Some(p) => if game_loaded {
                        r is Ok && final(self).state@ == StateView::Running(
                            h,
                            f,
                            p@,
                            None::<FrameView>,
                        )
                    } else {
                        r matches Err(EnvironmentError::Rom(RomError::Rejected))
                    },
                    None => r matches Err(EnvironmentError::Rom(RomError::PathUnresolvable(q)))
                        && q@ == rom_path@,
                },
                _ => r matches Err(EnvironmentError::State(e)) && e == (StateError {
                    required: StateKind::Initialised,
                    actual: old(self).state@.kind(),
                }),
            },
    {
        self.state.load_rom(rom_path, resolved, game_loaded)
    }

    /// Unload the ROM; see [`EnvironmentState::unload_rom`].
    pub fn unload_rom(&mut self) -> (r: Result<(), StateError>)
        requires
            old(self).state@.wf(),
        ensures
            final(self).state@.wf(),
            match old(self).state@ {
                StateView::Running(h, f, _, _) => r is Ok && final(self).state@
                    == StateView::Initialised(h, f),
                _ => r matches Err(e) && e == (StateError {
                    required: StateKind::Running,
                    actual: old(self).state@.kind(),
                }) && final(self).state@ == old(self).state@,
            },
    {
        self.state.unload_rom()
    }

    /// Step the environment once; see [`EnvironmentState::run`].
    pub fn run(&mut self, callbacks: Vec<CoreCallback>) -> (r: Result<(), StateError>)
        requires
            old(self).state@.wf(),
        ensures
            final(self).state@.wf(),
            old(self).state@ is Running ==> r is Ok && final(self).state@ == spec_run_callbacks(
                old(self).state@,
                spec_views(callbacks@),
            ) && final(self).state@ is Running,
            !(old(self).state@ is Running) ==> (r matches Err(e) && e == (StateError {
                required: StateKind::Running,
                actual: old(self).state@.kind(),
            }) && final(self).state@ == old(self).state@),
    {
        self.state.run(callbacks)
    }

    /// Copy of the last captured frame; see
    /// [`EnvironmentState::get_frame_info`].
    pub fn get_frame_info(&self) -> (r: Result<FrameBuffer, FrameError>)
        ensures
            match self.state@ {
                StateView::Running(_, _, _, Some(f)) => r matches Ok(fb) && fb@ == f,
                StateView::Running(_, _, _, None) => r == Err::<FrameBuffer, FrameError>(
                    FrameError::NoFrameCaptured,
                ),
                _ => r matches Err(FrameError::NotRunning { actual }) && actual
                    == self.state@.kind(),
            },
    {
        self.state.get_frame_info()
    }
}

} // verus!
