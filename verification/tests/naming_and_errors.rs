use retro_host::errors::ConfigurationError;
use retro_host::errors::EnvironmentError;
use retro_host::errors::FrameError;
use retro_host::errors::RegistryError;
use retro_host::errors::RomError;
use retro_host::errors::StateError;
use retro_host::lifecycle::StateKind;
use retro_host::loader::CoreHandle;
use retro_host::loader::CoreProbe;
use retro_host::naming::environment_name;
use retro_host::naming::u64_to_decimal;

#[test]
fn decimal_rendering_matches_formatting() {
    assert_eq!(u64_to_decimal(0), "0");
    assert_eq!(u64_to_decimal(7), "7");
    assert_eq!(u64_to_decimal(10), "10");
    assert_eq!(u64_to_decimal(105), "105");
    assert_eq!(u64_to_decimal(18446744073709551615), "18446744073709551615");
}

#[test]
fn environment_names_carry_the_counter() {
    assert_eq!(environment_name(0), "environment_0");
    assert_eq!(environment_name(12), "environment_12");
    assert_eq!(environment_name(3000), "environment_3000");
}

#[test]
fn version_mismatch_message_names_both_versions() {
    let e = ConfigurationError::VersionMismatch { got: 3, expected: 1 };
    assert_eq!(e.message(), "core ABI version mismatch: got 3, expected 1");
}

#[test]
fn missing_symbol_message_names_the_symbol() {
    let e = ConfigurationError::SymbolNotFound(String::from("retro_init"));
    assert_eq!(e.message(), "core is missing required symbol retro_init");
}

#[test]
fn file_not_found_message() {
    assert_eq!(
        ConfigurationError::FileNotFound.message(),
        "failed to open the core binary"
    );
}

#[test]
fn state_error_message_names_both_states() {
    let e = StateError { required: StateKind::Running, actual: StateKind::Loaded };
    assert_eq!(
        e.message(),
        "operation requires the environment to be running, but it is loaded"
    );
}

#[test]
fn rom_error_messages() {
    assert_eq!(
        RomError::PathUnresolvable(String::from("x.rom")).message(),
        "failed to resolve ROM path x.rom"
    );
    assert_eq!(RomError::Rejected.message(), "core rejected the ROM");
}

#[test]
fn environment_error_message_delegates() {
    let e = EnvironmentError::Rom(RomError::Rejected);
    assert_eq!(e.message(), "core rejected the ROM");
}

#[test]
fn frame_error_messages() {
    assert_eq!(
        FrameError::NotRunning { actual: StateKind::Initialised }.message(),
        "frame not ready: environment is initialised"
    );
    assert_eq!(
        FrameError::NoFrameCaptured.message(),
        "frame not ready: no frame captured yet"
    );
}

#[test]
fn registry_error_messages() {
    assert_eq!(RegistryError::UnknownId.message(), "unknown id");
    assert_eq!(
        RegistryError::DuplicateName(String::from("arena")).message(),
        "an environment named arena already exists"
    );
    assert_eq!(
        RegistryError::NotRunning { actual: StateKind::Loaded }.message(),
        "environment is not running: it is loaded"
    );
    assert_eq!(RegistryError::NotReady.message(), "frame not ready");
}

#[test]
fn core_handle_accepts_only_the_expected_version() {
    let h = CoreHandle::load(
        String::from("core.so"),
        CoreProbe::Resolved { api_version: 1 },
    )
    .unwrap();
    assert_eq!(h.core_path, "core.so");
    assert_eq!(h.api_version, 1);

    let r = CoreHandle::load(
        String::from("core.so"),
        CoreProbe::Resolved { api_version: 2 },
    );
    assert!(matches!(
        r,
        Err(ConfigurationError::VersionMismatch { got: 2, expected: 1 })
    ));
}
