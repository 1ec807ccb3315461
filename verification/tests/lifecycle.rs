use retro_host::adapter::CoreCallback;
use retro_host::adapter::CallbackReply;
use retro_host::adapter::EnvironmentQueryReply;
use retro_host::adapter::RETRO_ENVIRONMENT_SET_PIXEL_FORMAT;
use retro_host::errors::ConfigurationError;
use retro_host::errors::EnvironmentError;
use retro_host::errors::FrameError;
use retro_host::lifecycle::EnvironmentState;
use retro_host::lifecycle::GlobalLibretroEnvironmentManager;
use retro_host::lifecycle::StateKind;
use retro_host::loader::CoreProbe;
use retro_host::pixel::PixelFormat;
use retro_host::pixel::RETRO_PIXEL_FORMAT_RGB565;

fn good_probe() -> CoreProbe {
    CoreProbe::Resolved { api_version: 1 }
}

fn set_format_565() -> CoreCallback {
    CoreCallback::EnvironmentQuery {
        command: RETRO_ENVIRONMENT_SET_PIXEL_FORMAT,
        word: Some(RETRO_PIXEL_FORMAT_RGB565),
    }
}

fn refresh_1x1_red() -> CoreCallback {
    CoreCallback::VideoRefresh { data: Some(vec![0xf8, 0x00]), width: 1, height: 1, pitch: 2 }
}

fn running_manager() -> GlobalLibretroEnvironmentManager {
    let mut m = GlobalLibretroEnvironmentManager::new();
    m.load_core(String::from("core.so"), good_probe()).unwrap();
    m.initialise_core().unwrap();
    m.load_rom(String::from("game.rom"), Some(String::from("/roms/game.rom")), true).unwrap();
    m
}

#[test]
fn full_lifecycle_reaches_running() {
    let m = running_manager();
    assert_eq!(m.state.kind(), StateKind::Running);
}

#[test]
fn version_mismatch_fails_load_with_zero_side_effects() {
    let mut m = GlobalLibretroEnvironmentManager::new();
    let r = m.load_core(String::from("core.so"), CoreProbe::Resolved { api_version: 7 });
    match r {
        Err(EnvironmentError::Configuration(ConfigurationError::VersionMismatch {
            got,
            expected,
        })) => {
            assert_eq!(got, 7);
            assert_eq!(expected, 1);
        },
        _ => panic!("expected a version mismatch"),
    }
    // Nothing was registered or initialised: the environment is still
    // unloaded, and initialisation still reports the missing loaded stage.
    assert_eq!(m.state.kind(), StateKind::Unloaded);
    let e = m.initialise_core().unwrap_err();
    assert_eq!(e.required, StateKind::Loaded);
    assert_eq!(e.actual, StateKind::Unloaded);
}

#[test]
fn missing_symbol_voids_the_whole_load() {
    let mut m = GlobalLibretroEnvironmentManager::new();
    let r = m.load_core(
        String::from("core.so"),
        CoreProbe::MissingSymbol(String::from("retro_run")),
    );
    match r {
        Err(EnvironmentError::Configuration(ConfigurationError::SymbolNotFound(s))) => {
            assert_eq!(s, "retro_run");
        },
        _ => panic!("expected a missing symbol error"),
    }
    assert_eq!(m.state.kind(), StateKind::Unloaded);
}

#[test]
fn file_not_found_is_reported() {
    let mut m = GlobalLibretroEnvironmentManager::new();
    let r = m.load_core(String::from("absent.so"), CoreProbe::FileNotFound);
    assert!(matches!(
        r,
        Err(EnvironmentError::Configuration(ConfigurationError::FileNotFound))
    ));
}

#[test]
fn load_rom_on_unloaded_names_the_missing_state() {
    let mut m = GlobalLibretroEnvironmentManager::new();
    let r = m.load_rom(String::from("game.rom"), Some(String::from("/roms/game.rom")), true);
    match r {
        Err(EnvironmentError::State(e)) => {
            assert_eq!(e.required, StateKind::Initialised);
            assert_eq!(e.actual, StateKind::Unloaded);
            assert_eq!(
                e.message(),
                "operation requires the environment to be initialised, but it is unloaded"
            );
        },
        _ => panic!("expected a state error"),
    }
    assert_eq!(m.state.kind(), StateKind::Unloaded);
}

#[test]
fn load_rom_on_loaded_names_the_missing_state() {
    let mut m = GlobalLibretroEnvironmentManager::new();
    m.load_core(String::from("core.so"), good_probe()).unwrap();
    let r = m.load_rom(String::from("game.rom"), Some(String::from("/roms/game.rom")), true);
    match r {
        Err(EnvironmentError::State(e)) => {
            assert_eq!(e.required, StateKind::Initialised);
            assert_eq!(e.actual, StateKind::Loaded);
        },
        _ => panic!("expected a state error"),
    }
    assert_eq!(m.state.kind(), StateKind::Loaded);
}

#[test]
fn unresolvable_rom_path_is_a_rom_error() {
    let mut m = GlobalLibretroEnvironmentManager::new();
    m.load_core(String::from("core.so"), good_probe()).unwrap();
    m.initialise_core().unwrap();
    let r = m.load_rom(String::from("game.rom"), None, false);
    match r {
        Err(EnvironmentError::Rom(e)) => {
            assert_eq!(e.message(), "failed to resolve ROM path game.rom");
        },
        _ => panic!("expected a rom error"),
    }
    assert_eq!(m.state.kind(), StateKind::Initialised);
}

#[test]
fn rejected_rom_is_a_rom_error_and_no_transition() {
    let mut m = GlobalLibretroEnvironmentManager::new();
    m.load_core(String::from("core.so"), good_probe()).unwrap();
    m.initialise_core().unwrap();
    let r = m.load_rom(String::from("game.rom"), Some(String::from("/roms/game.rom")), false);
    match r {
        Err(EnvironmentError::Rom(e)) => {
            assert_eq!(e.message(), "core rejected the ROM");
        },
        _ => panic!("expected a rom error"),
    }
    assert_eq!(m.state.kind(), StateKind::Initialised);
}

#[test]
fn second_load_core_names_the_missing_state() {
    let mut m = GlobalLibretroEnvironmentManager::new();
    m.load_core(String::from("core.so"), good_probe()).unwrap();
    let r = m.load_core(String::from("core.so"), good_probe());
    match r {
        Err(EnvironmentError::State(e)) => {
            assert_eq!(e.required, StateKind::Unloaded);
            assert_eq!(e.actual, StateKind::Loaded);
        },
        _ => panic!("expected a state error"),
    }
}

#[test]
fn second_initialise_names_the_missing_state() {
    let mut m = GlobalLibretroEnvironmentManager::new();
    m.load_core(String::from("core.so"), good_probe()).unwrap();
    m.initialise_core().unwrap();
    let e = m.initialise_core().unwrap_err();
    assert_eq!(e.required, StateKind::Loaded);
    assert_eq!(e.actual, StateKind::Initialised);
}

#[test]
fn get_frame_before_any_step_is_not_ready() {
    let m = running_manager();
    let r = m.get_frame_info();
    assert!(matches!(r, Err(FrameError::NoFrameCaptured)));
}

#[test]
fn step_with_refresh_captures_the_frame() {
    let mut m = running_manager();
    m.run(vec![set_format_565(), refresh_1x1_red()]).unwrap();
    let fb = m.get_frame_info().unwrap();
    assert_eq!(fb.buffer, vec![0xf8, 0x00]);
    assert_eq!(fb.width, 1);
    assert_eq!(fb.height, 1);
    assert_eq!(fb.pitch, 2);
}

#[test]
fn null_refresh_keeps_the_prior_frame() {
    let mut m = running_manager();
    m.run(vec![set_format_565(), refresh_1x1_red()]).unwrap();
    m.run(vec![CoreCallback::VideoRefresh { data: None, width: 1, height: 1, pitch: 2 }])
        .unwrap();
    let fb = m.get_frame_info().unwrap();
    assert_eq!(fb.buffer, vec![0xf8, 0x00]);
}

#[test]
fn malformed_refresh_is_inert() {
    let mut m = running_manager();
    m.run(vec![set_format_565(), refresh_1x1_red()]).unwrap();
    // Three bytes can not be a 1x1 RGB565 frame: the prior frame stays.
    m.run(vec![CoreCallback::VideoRefresh {
        data: Some(vec![1, 2, 3]),
        width: 1,
        height: 1,
        pitch: 2,
    }])
    .unwrap();
    let fb = m.get_frame_info().unwrap();
    assert_eq!(fb.buffer, vec![0xf8, 0x00]);
}

#[test]
fn refresh_without_declared_format_is_inert() {
    let mut m = running_manager();
    m.run(vec![refresh_1x1_red()]).unwrap();
    assert!(matches!(m.get_frame_info(), Err(FrameError::NoFrameCaptured)));
}

#[test]
fn run_before_running_names_the_missing_state() {
    let mut m = GlobalLibretroEnvironmentManager::new();
    let e = m.run(Vec::new()).unwrap_err();
    assert_eq!(e.required, StateKind::Running);
    assert_eq!(e.actual, StateKind::Unloaded);
}

#[test]
fn unload_rom_discards_frame_and_keeps_format() {
    let mut m = running_manager();
    m.run(vec![set_format_565(), refresh_1x1_red()]).unwrap();
    m.unload_rom().unwrap();
    assert_eq!(m.state.kind(), StateKind::Initialised);
    match &m.state {
        EnvironmentState::Initialised(_, f) => {
            assert_eq!(*f, PixelFormat::RetroPixelFormatRgb565);
        },
        _ => panic!("expected the initialised stage"),
    }
    // Loading another ROM starts with no captured frame.
    m.load_rom(String::from("game.rom"), Some(String::from("/roms/game.rom")), true).unwrap();
    assert!(matches!(m.get_frame_info(), Err(FrameError::NoFrameCaptured)));
}

#[test]
fn unload_rom_needs_the_running_state() {
    let mut m = GlobalLibretroEnvironmentManager::new();
    let e = m.unload_rom().unwrap_err();
    assert_eq!(e.required, StateKind::Running);
    assert_eq!(e.actual, StateKind::Unloaded);
}

#[test]
fn callbacks_answer_input_and_audio_inertly() {
    let mut m = running_manager();
    let r1 = m.state.handle_callback(CoreCallback::InputState {
        port: 0,
        device: 1,
        index: 0,
        id: 3,
    });
    assert_eq!(r1, CallbackReply::InputState(0));
    let r2 = m.state.handle_callback(CoreCallback::AudioSampleBatch { frames: 441 });
    assert_eq!(r2, CallbackReply::AudioFramesConsumed(441));
    let r3 = m.state.handle_callback(CoreCallback::AudioSample { left: -5, right: 5 });
    assert_eq!(r3, CallbackReply::AudioDiscarded);
    let r4 = m.state.handle_callback(CoreCallback::InputPoll);
    assert_eq!(r4, CallbackReply::Polled);
}

#[test]
fn format_change_between_16_bit_layouts_keeps_the_frame() {
    let mut m = running_manager();
    m.run(vec![set_format_565(), refresh_1x1_red()]).unwrap();
    // 0RGB1555 has the same pixel size, so the held frame stays.
    let r = m.state.handle_callback(CoreCallback::EnvironmentQuery {
        command: RETRO_ENVIRONMENT_SET_PIXEL_FORMAT,
        word: Some(0),
    });
    assert_eq!(
        r,
        CallbackReply::Environment(EnvironmentQueryReply::PixelFormatSet(
            PixelFormat::RetroPixelFormatRgb1555
        ))
    );
    assert!(m.get_frame_info().is_ok());
    // XRGB8888 needs twice the bytes: the held frame is discarded.
    m.state.handle_callback(CoreCallback::EnvironmentQuery {
        command: RETRO_ENVIRONMENT_SET_PIXEL_FORMAT,
        word: Some(1),
    });
    assert!(matches!(m.get_frame_info(), Err(FrameError::NoFrameCaptured)));
}
