use paso_websocket::boot::{BootOutcome, BootStep, RESTART_DELAY_SECS};
use paso_websocket::message::OutgoingMessage;

/// A device that is about to look whether it has credentials.
fn storage_opened() -> BootStep {
    let step = BootStep::first();
    assert!(matches!(step, BootStep::TakePeripherals));
    let step = step.next(BootOutcome::Done);
    assert!(matches!(step, BootStep::TakeEventLoop));
    let step = step.next(BootOutcome::Done);
    assert!(matches!(step, BootStep::TakeNvsPartition));
    let step = step.next(BootOutcome::Done);
    assert!(matches!(step, BootStep::ConfigureLed));
    let step = step.next(BootOutcome::Done);
    assert!(matches!(step, BootStep::OpenStorage));
    let step = step.next(BootOutcome::Done);
    assert!(matches!(step, BootStep::CheckProvisioned));
    step
}

/// A failure: everything is released, and the device restarts.
fn restarts(step: BootStep) {
    let step = step.next(BootOutcome::Failed);
    assert!(matches!(step, BootStep::Release));
    let step = step.next(BootOutcome::Done);
    assert!(matches!(step, BootStep::AwaitRestart));
    assert_eq!(RESTART_DELAY_SECS, 10);
    let step = step.next(BootOutcome::Done);
    assert!(matches!(step, BootStep::Restart));
    assert!(matches!(step.next(BootOutcome::Done), BootStep::Restart));
}

#[test]
fn device_without_credentials_is_provisioned() {
    let step = storage_opened().next(BootOutcome::Provisioned(false));
    assert!(matches!(step, BootStep::StartProvisioning));
    let step = step.next(BootOutcome::Done);
    assert!(matches!(step, BootStep::Finish));
    assert!(matches!(step.next(BootOutcome::Failed), BootStep::Finish));
}

#[test]
fn device_with_credentials_greets_and_breathes() {
    let step = storage_opened().next(BootOutcome::Provisioned(true));
    assert!(matches!(step, BootStep::LoadCredentials));
    let step = step.next(BootOutcome::Loaded { device_id: "lamp-7".to_string() });
    assert!(matches!(&step, BootStep::ConnectWifi { device_id } if device_id == "lamp-7"));
    let step = step.next(BootOutcome::Done);
    assert!(matches!(&step, BootStep::WipeCredentials { .. }));
    let step = step.next(BootOutcome::Done);
    assert!(matches!(&step, BootStep::StartWsClient { .. }));
    let step = step.next(BootOutcome::Done);
    match &step {
        BootStep::Greet(OutgoingMessage::Hello { device_id }) => assert_eq!(device_id, "lamp-7"),
        other => panic!("{:?}", other),
    }
    let mut step = step.next(BootOutcome::Done);
    for _ in 0..3 {
        assert!(matches!(step, BootStep::Breathe));
        step = step.next(BootOutcome::Done);
        assert!(matches!(step, BootStep::Rest));
        step = step.next(BootOutcome::Done);
    }
}

#[test]
fn every_failure_leads_to_a_restart() {
    restarts(BootStep::first());
    restarts(storage_opened());
    restarts(storage_opened().next(BootOutcome::Provisioned(false)));
    let mut step = storage_opened().next(BootOutcome::Provisioned(true));
    restarts(storage_opened().next(BootOutcome::Provisioned(true)));
    step = step.next(BootOutcome::Loaded { device_id: "x".to_string() });
    restarts(step);
    restarts(BootStep::Breathe);
}

#[test]
fn wiping_and_resting_cannot_fail() {
    assert!(matches!(BootStep::Rest.next(BootOutcome::Failed), BootStep::Rest));
    let step = BootStep::WipeCredentials { device_id: "x".to_string() };
    assert!(matches!(step.next(BootOutcome::Failed), BootStep::WipeCredentials { .. }));
}

#[test]
fn boot_waits_last_as_long_as_they_should() {
    assert_eq!(BootStep::Rest.wait_ms(), Some(500));
    assert_eq!(BootStep::AwaitRestart.wait_ms(), Some(10_000));
    assert_eq!(BootStep::Breathe.wait_ms(), None);
}
