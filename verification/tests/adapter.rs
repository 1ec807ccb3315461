use retro_host::adapter::AdapterContext;
use retro_host::adapter::CoreCallback;
use retro_host::adapter::CallbackReply;
use retro_host::adapter::EnvironmentQueryReply;
use retro_host::adapter::RETRO_ENVIRONMENT_GET_CAN_DUPE;
use retro_host::adapter::RETRO_ENVIRONMENT_GET_GAME_INFO_EXT;
use retro_host::adapter::RETRO_ENVIRONMENT_GET_LOG_INTERFACE;
use retro_host::adapter::RETRO_ENVIRONMENT_SET_PIXEL_FORMAT;
use retro_host::adapter::acknowledged;
use retro_host::adapter::audio_batch_reply;
use retro_host::adapter::classify_query;
use retro_host::adapter::inert_reply;
use retro_host::adapter::input_state_reply;
use retro_host::adapter::log_level_name;
use retro_host::pixel::PixelFormat;

#[test]
fn log_interface_query_installs_the_sink() {
    let r = classify_query(RETRO_ENVIRONMENT_GET_LOG_INTERFACE, None);
    assert_eq!(r, EnvironmentQueryReply::InstallLogInterface);
    assert!(acknowledged(&r));
}

#[test]
fn can_dupe_query_answers_true() {
    let r = classify_query(RETRO_ENVIRONMENT_GET_CAN_DUPE, None);
    assert_eq!(r, EnvironmentQueryReply::WriteCanDupe(true));
    assert!(acknowledged(&r));
}

#[test]
fn set_pixel_format_maps_known_codes() {
    let r = classify_query(RETRO_ENVIRONMENT_SET_PIXEL_FORMAT, Some(0));
    assert_eq!(
        r,
        EnvironmentQueryReply::PixelFormatSet(PixelFormat::RetroPixelFormatRgb1555)
    );
    let r = classify_query(RETRO_ENVIRONMENT_SET_PIXEL_FORMAT, Some(1));
    assert_eq!(
        r,
        EnvironmentQueryReply::PixelFormatSet(PixelFormat::RetroPixelFormatXrgb8888)
    );
    let r = classify_query(RETRO_ENVIRONMENT_SET_PIXEL_FORMAT, Some(2));
    assert_eq!(
        r,
        EnvironmentQueryReply::PixelFormatSet(PixelFormat::RetroPixelFormatRgb565)
    );
}

#[test]
fn unrecognized_format_code_still_reports_success() {
    let r = classify_query(RETRO_ENVIRONMENT_SET_PIXEL_FORMAT, Some(99));
    assert_eq!(
        r,
        EnvironmentQueryReply::PixelFormatSet(PixelFormat::RetroPixelFormatUnknown)
    );
    assert!(acknowledged(&r));
}

#[test]
fn set_pixel_format_with_unreadable_slot_is_declined() {
    let r = classify_query(RETRO_ENVIRONMENT_SET_PIXEL_FORMAT, None);
    assert_eq!(r, EnvironmentQueryReply::Declined { recognized: true });
    assert!(!acknowledged(&r));
}

#[test]
fn extended_game_info_is_declined() {
    let r = classify_query(RETRO_ENVIRONMENT_GET_GAME_INFO_EXT, None);
    assert_eq!(r, EnvironmentQueryReply::Declined { recognized: true });
    assert!(!acknowledged(&r));
}

#[test]
fn unknown_command_is_declined_and_marked_unrecognized() {
    let r = classify_query(12345, None);
    assert_eq!(r, EnvironmentQueryReply::Declined { recognized: false });
    assert!(!acknowledged(&r));
}

#[test]
fn input_state_always_reports_not_pressed() {
    assert_eq!(input_state_reply(0, 0, 0, 0), 0);
    assert_eq!(input_state_reply(3, 1, 2, 9), 0);
}

#[test]
fn audio_batch_echoes_the_consumed_count() {
    assert_eq!(audio_batch_reply(0), 0);
    assert_eq!(audio_batch_reply(735), 735);
}

#[test]
fn inert_replies_match_each_callback() {
    let r = inert_reply(&CoreCallback::EnvironmentQuery { command: 3, word: None });
    assert_eq!(
        r,
        CallbackReply::Environment(EnvironmentQueryReply::Declined { recognized: false })
    );
    let r = inert_reply(&CoreCallback::VideoRefresh {
        data: Some(vec![1, 2]),
        width: 1,
        height: 1,
        pitch: 2,
    });
    assert_eq!(r, CallbackReply::FrameStored { replaced: false });
    let r = inert_reply(&CoreCallback::InputState { port: 0, device: 0, index: 0, id: 0 });
    assert_eq!(r, CallbackReply::InputState(0));
    let r = inert_reply(&CoreCallback::AudioSampleBatch { frames: 11 });
    assert_eq!(r, CallbackReply::AudioFramesConsumed(11));
}

#[test]
fn log_levels_are_labeled_as_the_abi_defines() {
    assert_eq!(log_level_name(0), "DEBUG");
    assert_eq!(log_level_name(1), "INFO");
    assert_eq!(log_level_name(2), "WARN");
    assert_eq!(log_level_name(3), "ERROR");
    assert_eq!(log_level_name(0x7fffffff), "DUMMY");
    assert_eq!(log_level_name(77), "UNKNOWN");
}

#[test]
fn adapter_context_brackets_a_foreign_call() {
    let mut ctx = AdapterContext::new();
    assert!(ctx.active_instance().is_none());
    ctx.begin_call(String::from("environment_0"));
    assert_eq!(ctx.active_instance().unwrap(), "environment_0");
    ctx.end_call();
    assert!(ctx.active_instance().is_none());
}
