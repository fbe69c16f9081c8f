//! The numeric wire code of the dedicated server reinstall step.

use nodesty_api::models::dedicated::DedicatedServerReinstallStep;

#[test]
fn codes_decode() {
    assert_eq!(
        DedicatedServerReinstallStep::try_from(0),
        Ok(DedicatedServerReinstallStep::RebootingServer)
    );
    assert_eq!(
        DedicatedServerReinstallStep::try_from(1),
        Ok(DedicatedServerReinstallStep::PreparingBootEnvironment)
    );
    assert_eq!(
        DedicatedServerReinstallStep::try_from(2),
        Ok(DedicatedServerReinstallStep::InstallingOperatingSystem)
    );
    assert_eq!(
        DedicatedServerReinstallStep::try_from(3),
        Ok(DedicatedServerReinstallStep::InstallationCompleted)
    );
}

#[test]
fn unknown_codes_are_rejected() {
    for value in [4u8, 9, 255] {
        assert!(DedicatedServerReinstallStep::try_from(value).is_err());
    }
}

#[test]
fn code_round_trip() {
    let steps = [
        DedicatedServerReinstallStep::RebootingServer,
        DedicatedServerReinstallStep::PreparingBootEnvironment,
        DedicatedServerReinstallStep::InstallingOperatingSystem,
        DedicatedServerReinstallStep::InstallationCompleted,
    ];
    for step in steps {
        assert_eq!(DedicatedServerReinstallStep::try_from(step.code()), Ok(step));
    }
    for value in 0u8..=3 {
        assert_eq!(DedicatedServerReinstallStep::try_from(value).unwrap().code(), value);
    }
}
