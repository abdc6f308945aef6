use ax206lcd::error::{check_status, command_result, AX206Error, UsbFault};
use ax206lcd::session::{begin_cycle, handle_survives, judge, Next, Task, Verdict, OPEN_BACKOFF_SECS};

#[test]
fn cycle_begins_by_opening_without_a_handle() {
    assert_eq!(begin_cycle(false), Task::Open);
    assert_eq!(begin_cycle(true), Task::SetBacklight);
}

#[test]
fn success_leads_through_the_cycle() {
    assert_eq!(
        judge(Task::Open, Ok(())),
        Verdict { connected: true, next: Next::Then(Task::SetBacklight) }
    );
    assert_eq!(
        judge(Task::SetBacklight, Ok(())),
        Verdict { connected: true, next: Next::Then(Task::Draw) }
    );
    assert_eq!(
        judge(Task::Draw, Ok(())),
        Verdict { connected: true, next: Next::Rest { backoff_secs: 0 } }
    );
}

#[test]
fn failed_opening_backs_off_for_ten_seconds() {
    assert_eq!(OPEN_BACKOFF_SECS, 10);
    for error in [
        AX206Error::DeviceNotFound,
        AX206Error::UsbError(UsbFault::Access),
        AX206Error::ScsiCommandFailed(1),
    ] {
        assert_eq!(
            judge(Task::Open, Err(error)),
            Verdict { connected: false, next: Next::Rest { backoff_secs: 10 } }
        );
    }
}

#[test]
fn failed_command_discards_the_handle() {
    for task in [Task::SetBacklight, Task::Draw] {
        for error in [
            AX206Error::ScsiCommandFailed(1),
            AX206Error::ScsiCommandFailed(2),
            AX206Error::UsbError(UsbFault::Timeout),
            AX206Error::UsbError(UsbFault::NoDevice),
            AX206Error::DeviceNotFound,
        ] {
            assert_eq!(
                judge(task, Err(error)),
                Verdict { connected: false, next: Next::Rest { backoff_secs: 0 } }
            );
        }
    }
}

#[test]
fn refused_brightness_keeps_the_handle() {
    assert_eq!(
        judge(Task::SetBacklight, Err(AX206Error::InvalidBrightness(9))),
        Verdict { connected: true, next: Next::Rest { backoff_secs: 0 } }
    );
    assert!(handle_survives(AX206Error::InvalidBrightness(8)));
    assert!(!handle_survives(AX206Error::ScsiCommandFailed(1)));
    assert!(!handle_survives(AX206Error::UsbError(UsbFault::Io)));
    assert!(!handle_survives(AX206Error::DeviceNotFound));
}

#[test]
fn status_zero_is_the_only_success() {
    assert_eq!(check_status(0), Ok(()));
    for status in 1..=255u8 {
        assert_eq!(check_status(status), Err(AX206Error::ScsiCommandFailed(status)));
    }
}

#[test]
fn outcome_maps_to_the_typed_error() {
    assert_eq!(command_result(Ok(0)), Ok(()));
    assert_eq!(command_result(Ok(1)), Err(AX206Error::ScsiCommandFailed(1)));
    assert_eq!(
        command_result(Err(UsbFault::Pipe)),
        Err(AX206Error::UsbError(UsbFault::Pipe))
    );
}
