//! From power-on to the breathing loop: what the firmware does in which order, and
//! what it does when something fails.
//!
//! A `BootStep` is what has to be done next; its outcome decides on the step after it.

use crate::light::BREATH_STEP_MS;
use crate::message::{OutgoingMessage, OutgoingView};
use vstd::prelude::*;

verus! {

/// How long to wait before the restart after a fatal error, in seconds.
pub const RESTART_DELAY_SECS: u64 = 10;

/// What is done next.
#[derive(Debug)]
pub enum BootStep {
    /// Take the peripherals.
    TakePeripherals,
    /// Take the system's event loop.
    TakeEventLoop,
    /// Take the partition that persists.
    TakeNvsPartition,
    /// Set up the LED.
    ConfigureLed,
    /// Open the storage of the credentials.
    OpenStorage,
    /// Look whether the storage holds credentials.
    CheckProvisioned,
    /// Let the user enter credentials.
    StartProvisioning,
    /// Load the credentials.
    LoadCredentials,
    /// Connect to the Wi-Fi with the loaded credentials.
    ConnectWifi { device_id: String },
    /// Wipe the credentials from memory.
    WipeCredentials { device_id: String },
    /// Start the WebSocket client.
    StartWsClient { device_id: String },
    /// Send the first message.
    Greet(OutgoingMessage),
    /// Go on with the breathing cycle.
    Breathe,
    /// Rest until the next step of the cycle.
    Rest,
    /// The firmware has nothing more to do.
    Finish,
    /// Release what was set up, credentials among it, after a fatal error.
    Release,
    /// Wait after a fatal error.
    AwaitRestart,
    /// Restart the device.
    Restart,
}

/// What came of a step.
#[derive(Debug)]
pub enum BootOutcome {
    /// It was done.
    Done,
    /// It failed.
    Failed,
    /// The storage holds credentials, or not.
    Provisioned(bool),
    /// The credentials are loaded; they are those of this device.
    Loaded { device_id: String },
}

/// A step, with texts as sequences of characters.
pub enum BootView {
    TakePeripherals,
    TakeEventLoop,
    TakeNvsPartition,
    ConfigureLed,
    OpenStorage,
    CheckProvisioned,
    StartProvisioning,
    LoadCredentials,
    ConnectWifi { device_id: Seq<char> },
    WipeCredentials { device_id: Seq<char> },
    StartWsClient { device_id: Seq<char> },
    Greet(OutgoingView),
    Breathe,
    Rest,
    Finish,
    Release,
    AwaitRestart,
    Restart,
}

/// An outcome, with texts as sequences of characters.
pub enum BootOutcomeView {
    Done,
    Failed,
    Provisioned(bool),
    Loaded { device_id: Seq<char> },
}

impl View for BootStep {
    type V = BootView;

    open spec fn view(&self) -> BootView {
        match *self {
            BootStep::TakePeripherals => BootView::TakePeripherals,
            BootStep::TakeEventLoop => BootView::TakeEventLoop,
            BootStep::TakeNvsPartition => BootView::TakeNvsPartition,
            BootStep::ConfigureLed => BootView::ConfigureLed,
            BootStep::OpenStorage => BootView::OpenStorage,
            BootStep::CheckProvisioned => BootView::CheckProvisioned,
            BootStep::StartProvisioning => BootView::StartProvisioning,
            BootStep::LoadCredentials => BootView::LoadCredentials,
            BootStep::ConnectWifi { device_id } => BootView::ConnectWifi { device_id: device_id@ },
            BootStep::WipeCredentials { device_id } => BootView::WipeCredentials {
                device_id: device_id@,
            },
            BootStep::StartWsClient { device_id } => BootView::StartWsClient {
                device_id: device_id@,
            },
            BootStep::Greet(message) => BootView::Greet(message@),
            BootStep::Breathe => BootView::Breathe,
            BootStep::Rest => BootView::Rest,
            BootStep::Finish => BootView::Finish,
            BootStep::Release => BootView::Release,
            BootStep::AwaitRestart => BootView::AwaitRestart,
            BootStep::Restart => BootView::Restart,
        }
    }
}

impl View for BootOutcome {
    type V = BootOutcomeView;

    open spec fn view(&self) -> BootOutcomeView {
        match *self {
            BootOutcome::Done => BootOutcomeView::Done,
            BootOutcome::Failed => BootOutcomeView::Failed,
            BootOutcome::Provisioned(provisioned) => BootOutcomeView::Provisioned(provisioned),
            BootOutcome::Loaded { device_id } => BootOutcomeView::Loaded { device_id: device_id@ },
        }
    }
}

impl BootView {
    /// The step can fail.
    pub open spec fn can_fail(self) -> bool {
        match self {
            BootView::WipeCredentials { .. }
            | BootView::Rest
            | BootView::Finish
            | BootView::Release
            | BootView::AwaitRestart
            | BootView::Restart => false,
            _ => true,
        }
    }

    /// How long the step waits, in milliseconds: a step of the breathing cycle, or
    /// the delay before a restart.
    pub open spec fn wait_ms(self) -> Option<u64> {
        match self {
            BootView::Rest => Some(BREATH_STEP_MS as u64),
            BootView::AwaitRestart => Some((RESTART_DELAY_SECS * 1000) as u64),
            _ => None,
        }
    }

    /// The outcome is one that the step can have.
    pub open spec fn admits(self, outcome: BootOutcomeView) -> bool {
        if outcome is Failed {
            self.can_fail()
        } else {
            match self {
                BootView::CheckProvisioned => outcome is Provisioned,
                BootView::LoadCredentials => outcome is Loaded,
                BootView::Finish | BootView::Restart => false,
                _ => outcome is Done,
            }
        }
    }
}

/// The step after `step`, which had this outcome. A failure leads to a restart. An
/// outcome that the step cannot have leaves the step to be done.
pub open spec fn next_boot_step(step: BootView, outcome: BootOutcomeView) -> BootView {
    match (step, outcome) {
        (_, BootOutcomeView::Failed) => if step.can_fail() {
            BootView::Release
        } else {
            step
        },
        (BootView::TakePeripherals, BootOutcomeView::Done) => BootView::TakeEventLoop,
        (BootView::TakeEventLoop, BootOutcomeView::Done) => BootView::TakeNvsPartition,
        (BootView::TakeNvsPartition, BootOutcomeView::Done) => BootView::ConfigureLed,
        (BootView::ConfigureLed, BootOutcomeView::Done) => BootView::OpenStorage,
        (BootView::OpenStorage, BootOutcomeView::Done) => BootView::CheckProvisioned,
        (BootView::CheckProvisioned, BootOutcomeView::Provisioned(provisioned)) => if provisioned {
            BootView::LoadCredentials
        } else {
            BootView::StartProvisioning
        },
        (BootView::StartProvisioning, BootOutcomeView::Done) => BootView::Finish,
        (BootView::LoadCredentials, BootOutcomeView::Loaded { device_id }) =>
            BootView::ConnectWifi { device_id },
        (BootView::ConnectWifi { device_id }, BootOutcomeView::Done) => BootView::WipeCredentials {
            device_id,
        },
        (BootView::WipeCredentials { device_id }, BootOutcomeView::Done) =>
            BootView::StartWsClient { device_id },
        (BootView::StartWsClient { device_id }, BootOutcomeView::Done) => BootView::Greet(
            OutgoingView::Hello { device_id },
        ),
        (BootView::Greet(_), BootOutcomeView::Done) => BootView::Breathe,
        (BootView::Breathe, BootOutcomeView::Done) => BootView::Rest,
        (BootView::Rest, BootOutcomeView::Done) => BootView::Breathe,
        (BootView::Release, BootOutcomeView::Done) => BootView::AwaitRestart,
        (BootView::AwaitRestart, BootOutcomeView::Done) => BootView::Restart,
        _ => step,
    }
}

impl BootStep {
    /// The first step after power-on.
    pub fn first() -> (step: BootStep)
        ensures
            step@ == BootView::TakePeripherals,
    {
        BootStep::TakePeripherals
    }

    /// Tells whether the step can fail.
    fn can_fail(&self) -> (result: bool)
        ensures
            result == self@.can_fail(),
    {
        match self {
            BootStep::WipeCredentials { .. }
            | BootStep::Rest
            | BootStep::Finish
            | BootStep::Release
            | BootStep::AwaitRestart
            | BootStep::Restart => false,
            _ => true,
        }
    }

    /// How long the step waits, in milliseconds, where it is a wait.
    pub fn wait_ms(&self) -> (ms: Option<u64>)
        ensures
            ms == self@.wait_ms(),
    {
        match self {
            BootStep::Rest => Some(BREATH_STEP_MS as u64),
            BootStep::AwaitRestart => Some(RESTART_DELAY_SECS * 1000),
            _ => None,
        }
    }

    /// The step after this one, which had this outcome.
    pub fn next(self, outcome: BootOutcome) -> (step: BootStep)
        ensures
            step@ == next_boot_step(self@, outcome@),
    {
        if self.can_fail() && matches!(outcome, BootOutcome::Failed) {
            return BootStep::Release;
        }
        match (self, outcome) {
            (BootStep::TakePeripherals, BootOutcome::Done) => BootStep::TakeEventLoop,
            (BootStep::TakeEventLoop, BootOutcome::Done) => BootStep::TakeNvsPartition,
            (BootStep::TakeNvsPartition, BootOutcome::Done) => BootStep::ConfigureLed,
            (BootStep::ConfigureLed, BootOutcome::Done) => BootStep::OpenStorage,
            (BootStep::OpenStorage, BootOutcome::Done) => BootStep::CheckProvisioned,
            (BootStep::CheckProvisioned, BootOutcome::Provisioned(provisioned)) => if provisioned {
                BootStep::LoadCredentials
            } else {
                BootStep::StartProvisioning
            },
            (BootStep::StartProvisioning, BootOutcome::Done) => BootStep::Finish,
            (BootStep::LoadCredentials, BootOutcome::Loaded { device_id }) =>
                BootStep::ConnectWifi { device_id },
            (BootStep::ConnectWifi { device_id }, BootOutcome::Done) => BootStep::WipeCredentials {
                device_id,
            },
            (BootStep::WipeCredentials { device_id }, BootOutcome::Done) =>
                BootStep::StartWsClient { device_id },
            (BootStep::StartWsClient { device_id }, BootOutcome::Done) => BootStep::Greet(
                OutgoingMessage::Hello { device_id },
            ),
            (BootStep::Greet(_), BootOutcome::Done) => BootStep::Breathe,
            (BootStep::Breathe, BootOutcome::Done) => BootStep::Rest,
            (BootStep::Rest, BootOutcome::Done) => BootStep::Breathe,
            (BootStep::Release, BootOutcome::Done) => BootStep::AwaitRestart,
            (BootStep::AwaitRestart, BootOutcome::Done) => BootStep::Restart,
            (step, _) => step,
        }
    }
}

/// The step that a boot has come to, whose steps so far had these outcomes.
pub open spec fn boot_step_after(boot: Seq<BootOutcomeView>) -> BootView
    decreases boot.len(),
{
    if boot.len() == 0 {
        BootView::TakePeripherals
    } else {
        next_boot_step(boot_step_after(boot.drop_last()), boot.last())
    }
}

/// Each step of the boot had an outcome that it can have.
pub open spec fn is_boot(boot: Seq<BootOutcomeView>) -> bool
    decreases boot.len(),
{
    boot.len() > 0 ==> {
        &&& is_boot(boot.drop_last())
        &&& boot_step_after(boot.drop_last()).admits(boot.last())
    }
}

/// What a boot has brought about.
pub struct Progress {
    /// What the storage said about credentials, if it was asked.
    pub provisioned: Option<bool>,
    /// The device whose credentials were loaded.
    pub device_id: Option<Seq<char>>,
    /// Credentials are in memory.
    pub secrets_in_memory: bool,
    /// The Wi-Fi is connected.
    pub wifi_connected: bool,
    /// The WebSocket client runs.
    pub client_started: bool,
    /// What was sent first.
    pub greeting: Option<OutgoingView>,
}

/// What is so at power-on.
pub open spec fn powered_on() -> Progress {
    Progress {
        provisioned: None,
        device_id: None,
        secrets_in_memory: false,
        wifi_connected: false,
        client_started: false,
        greeting: None,
    }
}

impl Progress {
    /// What a step with this outcome brings about. A step that failed brings about
    /// nothing.
    pub open spec fn after(self, step: BootView, outcome: BootOutcomeView) -> Progress {
        match (step, outcome) {
            (BootView::CheckProvisioned, BootOutcomeView::Provisioned(provisioned)) => Progress {
                provisioned: Some(provisioned),
                ..self
            },
            (BootView::LoadCredentials, BootOutcomeView::Loaded { device_id }) => Progress {
                device_id: Some(device_id),
                secrets_in_memory: true,
                ..self
            },
            (BootView::ConnectWifi { .. }, BootOutcomeView::Done) => Progress {
                wifi_connected: true,
                ..self
            },
            (BootView::WipeCredentials { .. }, BootOutcomeView::Done) => Progress {
                secrets_in_memory: false,
                ..self
            },
            (BootView::StartWsClient { .. }, BootOutcomeView::Done) => Progress {
                client_started: true,
                ..self
            },
            (BootView::Greet(message), BootOutcomeView::Done) => Progress {
                greeting: Some(message),
                ..self
            },
            (BootView::Release, BootOutcomeView::Done) => Progress {
                secrets_in_memory: false,
                wifi_connected: false,
                ..self
            },
            _ => self,
        }
    }

    /// The step may be done.
    pub open spec fn allows(self, step: BootView) -> bool {
        match step {
            BootView::StartProvisioning | BootView::Finish => self == (Progress {
                provisioned: Some(false),
                ..powered_on()
            }),
            BootView::LoadCredentials => self == (Progress {
                provisioned: Some(true),
                ..powered_on()
            }),
            BootView::ConnectWifi { device_id } => {
                &&& self.device_id == Some(device_id)
                &&& self.secrets_in_memory
                &&& !self.wifi_connected
            },
            BootView::WipeCredentials { .. } => self.secrets_in_memory && self.wifi_connected,
            BootView::StartWsClient { .. } => {
                &&& self.wifi_connected
                &&& !self.secrets_in_memory
                &&& !self.client_started
            },
            BootView::Greet(message) => {
                &&& self.wifi_connected
                &&& self.client_started
                &&& !self.secrets_in_memory
                &&& self.greeting is None
                &&& self.device_id is Some
                &&& message == OutgoingView::Hello { device_id: self.device_id->0 }
            },
            BootView::Breathe | BootView::Rest => {
                &&& self.wifi_connected
                &&& self.client_started
                &&& !self.secrets_in_memory
                &&& self.device_id is Some
                &&& self.greeting == Some(OutgoingView::Hello { device_id: self.device_id->0 })
            },
            BootView::Release => true,
            BootView::AwaitRestart | BootView::Restart => {
                &&& !self.secrets_in_memory
                &&& !self.wifi_connected
            },
            _ => self == powered_on(),
        }
    }
}

/// What the boot has brought about.
pub open spec fn progress_after(boot: Seq<BootOutcomeView>) -> Progress
    decreases boot.len(),
{
    if boot.len() == 0 {
        powered_on()
    } else {
        progress_after(boot.drop_last()).after(boot_step_after(boot.drop_last()), boot.last())
    }
}

/// What the boot has brought about whenever it comes to the step and the loaded
/// device is this one.
spec fn progress_at(step: BootView, device_id: Option<Seq<char>>) -> Progress {
    let loaded = Progress {
        provisioned: Some(true),
        device_id,
        secrets_in_memory: true,
        ..powered_on()
    };
    let online = Progress { secrets_in_memory: false, wifi_connected: true, ..loaded };
    match step {
        BootView::StartProvisioning | BootView::Finish => Progress {
            provisioned: Some(false),
            ..powered_on()
        },
        BootView::LoadCredentials => Progress { provisioned: Some(true), ..powered_on() },
        BootView::ConnectWifi { .. } => loaded,
        BootView::WipeCredentials { .. } => Progress { wifi_connected: true, ..loaded },
        BootView::StartWsClient { .. } => online,
        BootView::Greet(_) => Progress { client_started: true, ..online },
        BootView::Breathe | BootView::Rest => Progress {
            client_started: true,
            greeting: Some(OutgoingView::Hello { device_id: device_id->0 }),
            ..online
        },
        _ => powered_on(),
    }
}

/// The step carries the device that was loaded.
spec fn carries(step: BootView, device_id: Option<Seq<char>>) -> bool {
    match step {
        BootView::ConnectWifi { device_id: carried } => device_id == Some(carried),
        BootView::WipeCredentials { device_id: carried } => device_id == Some(carried),
        BootView::StartWsClient { device_id: carried } => device_id == Some(carried),
        BootView::Greet(message) => {
            &&& device_id is Some
            &&& message == OutgoingView::Hello { device_id: device_id->0 }
        },
        BootView::Breathe | BootView::Rest => device_id is Some,
        _ => true,
    }
}

proof fn lemma_progress(boot: Seq<BootOutcomeView>)
    requires
        is_boot(boot),
    ensures
        ({
            let step = boot_step_after(boot);
            let progress = progress_after(boot);
            ||| step is Release
            ||| (step is AwaitRestart || step is Restart) && progress.allows(step)
            ||| progress == progress_at(step, progress.device_id) && carries(
                step,
                progress.device_id,
            )
        }),
    decreases boot.len(),
{
    if boot.len() > 0 {
        lemma_progress(boot.drop_last());
    }
}

/// In every boot, each step finds done what it needs. So a device without
/// credentials goes to provisioning and nowhere else; one with credentials loads
/// them, connects to the Wi-Fi and wipes them from memory before the WebSocket
/// client starts; the lamp breathes only once the greeting, which names the loaded
/// device, has been sent; and the Wi-Fi stays connected while it breathes. After a failure nothing secret is in memory while
/// the device waits for its restart.
pub proof fn boot_is_in_order(boot: Seq<BootOutcomeView>)
    requires
        is_boot(boot),
    ensures
        progress_after(boot).allows(boot_step_after(boot)),
{
    lemma_progress(boot);
}

/// Whatever fails, the device releases what it set up, waits and restarts, and it
/// restarts for no other reason.
pub proof fn failure_leads_to_restart(step: BootView, outcome: BootOutcomeView)
    requires
        step.admits(outcome),
    ensures
        outcome is Failed <==> next_boot_step(step, outcome) is Release,
        next_boot_step(step, outcome) is AwaitRestart <==> step is Release,
        next_boot_step(step, outcome) is Restart <==> step is AwaitRestart,
{
}

/// Each step comes exactly where it should, whatever the device's id, and an outcome
/// that a step cannot have changes nothing. The id goes along unchanged from the
/// credentials to the greeting.
pub proof fn boot_steps_come_when_they_should(step: BootView, outcome: BootOutcomeView)
    ensures
        !step.admits(outcome) ==> next_boot_step(step, outcome) == step,
        step.admits(outcome) ==> {
            let next = next_boot_step(step, outcome);
            let done = outcome is Done;
            &&& !(next is TakePeripherals)
            &&& next is TakeEventLoop <==> step is TakePeripherals && done
            &&& next is TakeNvsPartition <==> step is TakeEventLoop && done
            &&& next is ConfigureLed <==> step is TakeNvsPartition && done
            &&& next is OpenStorage <==> step is ConfigureLed && done
            &&& next is CheckProvisioned <==> step is OpenStorage && done
            &&& next is StartProvisioning <==> step is CheckProvisioned && outcome
                == BootOutcomeView::Provisioned(false)
            &&& next is Finish <==> step is StartProvisioning && done
            &&& next is LoadCredentials <==> step is CheckProvisioned && outcome
                == BootOutcomeView::Provisioned(true)
            &&& next is ConnectWifi <==> step is LoadCredentials && outcome is Loaded
            &&& next is ConnectWifi ==> next->ConnectWifi_device_id == outcome->device_id
            &&& next is WipeCredentials <==> step is ConnectWifi && done
            &&& next is WipeCredentials ==> next->WipeCredentials_device_id
                == step->ConnectWifi_device_id
            &&& next is StartWsClient <==> step is WipeCredentials && done
            &&& next is StartWsClient ==> next->StartWsClient_device_id
                == step->WipeCredentials_device_id
            &&& next is Greet <==> step is StartWsClient && done
            &&& next is Greet ==> next->Greet_0 == (OutgoingView::Hello {
                device_id: step->StartWsClient_device_id,
            })
            &&& next is Breathe <==> (step is Greet || step is Rest) && done
            &&& next is Rest <==> step is Breathe && done
            &&& next is Release <==> outcome is Failed
            &&& next is AwaitRestart <==> step is Release
            &&& next is Restart <==> step is AwaitRestart
        },
{
}

/// The outcomes that a step can have, whatever the step carries.
pub proof fn outcomes_belong_to_boot_steps(step: BootView, outcome: BootOutcomeView)
    ensures
        step.admits(BootOutcomeView::Failed) <==> !(step is WipeCredentials || step is Rest
            || step is Finish || step is Release || step is AwaitRestart || step is Restart),
        step.admits(BootOutcomeView::Done) <==> !(step is CheckProvisioned
            || step is LoadCredentials || step is Finish || step is Restart),
        outcome is Provisioned ==> (step.admits(outcome) <==> step is CheckProvisioned),
        outcome is Loaded ==> (step.admits(outcome) <==> step is LoadCredentials),
{
}

/// How long the waits last, in milliseconds, whatever the step carries.
pub proof fn boot_waits(step: BootView)
    ensures
        step is Rest ==> step.wait_ms() == Some(500u64),
        step is AwaitRestart ==> step.wait_ms() == Some(10_000u64),
        !(step is Rest) && !(step is AwaitRestart) ==> step.wait_ms() is None,
{
}

/// The view of a step keeps all that it carries.
pub proof fn boot_view_keeps_all(step: BootStep)
    ensures
        step matches BootStep::ConnectWifi { device_id } ==> step@ == (BootView::ConnectWifi {
            device_id: device_id@,
        }),
        step matches BootStep::WipeCredentials { device_id } ==> step@
            == (BootView::WipeCredentials { device_id: device_id@ }),
        step matches BootStep::StartWsClient { device_id } ==> step@ == (BootView::StartWsClient {
            device_id: device_id@,
        }),
        step matches BootStep::Greet(message) ==> step@ == BootView::Greet(message@),
{
}

/// The view of an outcome keeps all that it carries.
pub proof fn boot_outcome_view_keeps_all(outcome: BootOutcome)
    ensures
        outcome matches BootOutcome::Provisioned(provisioned) ==> outcome@
            == BootOutcomeView::Provisioned(provisioned),
        outcome matches BootOutcome::Loaded { device_id } ==> outcome@
            == (BootOutcomeView::Loaded { device_id: device_id@ }),
{
}

} // verus!
