//! Driving the host and the device: an operation that changes something
//! outside the application runs on the model of the host, which lists the
//! changes it makes as actions in order. The caller carries out the first
//! action that was not carried out yet, hands back what the host or the
//! device answered, and steps again, until no action is left: then the
//! model's outcome is the operation's outcome.

use vstd::prelude::*;
use crate::application::{
    is_apply_outcome, is_baseline_outcome, is_disable_sharing_outcome, is_enable_sharing_outcome,
    is_remove_sharing_outcome, is_role_change_outcome, is_verification_outcome, selected_interface_of,
    Application,
};
use crate::environment::{EnvironmentView, InMemoryEnvironment, SystemAction};
use crate::failures;
use crate::log::SafeEvent;
use crate::model::{
    radio_configuration_equal, ApplicationSnapshot, ApplicationSnapshotView, DeviceRole, OperationFailure,
    RadioBand, RadioConfiguration, RadioUpdate, RadioWriteEffect, RoleWriteEffect,
};
use crate::text::copy_optional_text;

verus! {

/// An operation that may change the device or the host.
pub enum Command {
    VerifySelectedPuppis,
    EnableManagedSharing,
    DisableManagedSharing,
    RemoveManagedSharing,
    ApplyRadioSettings(RadioBand, RadioUpdate),
    SetDeviceRole(DeviceRole, bool),
    AcceptCurrentConfigurationAsBaseline,
}

/// The outcome of command `c` from snapshot `o` and environment `w`: the
/// outcome of the operation it names. Disabling or removing managed sharing
/// on a selected interface whose host state is unknown fails as unavailable.
pub open spec fn is_command_outcome(
    o: ApplicationSnapshotView,
    w: EnvironmentView,
    c: Command,
    n: ApplicationSnapshotView,
    v: EnvironmentView,
    r: Result<ApplicationSnapshot, OperationFailure>,
) -> bool {
    let unknown_host = selected_interface_of(o) is Some && w.host_sharing is None;
    match c {
        Command::VerifySelectedPuppis => if o.selected_candidate_id is None && o.candidates.len() != 1 {
            (r matches Err(f) && failures::is_verification_candidate_required(f)) && n == o && v == w
        } else {
            is_verification_outcome(o, w, n, v, r)
        },
        Command::EnableManagedSharing => is_enable_sharing_outcome(o, w, n, v, r),
        Command::DisableManagedSharing => if unknown_host {
            (r matches Err(f) && failures::is_network_state_unavailable(f)) && n == o && v == w
        } else {
            is_disable_sharing_outcome(o, w, n, v, r)
        },
        Command::RemoveManagedSharing => if unknown_host {
            (r matches Err(f) && failures::is_network_state_unavailable(f)) && n == o && v == w
        } else {
            is_remove_sharing_outcome(o, w, n, v, r)
        },
        Command::ApplyRadioSettings(band, u) => is_apply_outcome(o, w, band, u, n, v, r),
        Command::SetDeviceRole(role, confirmed) => is_role_change_outcome(o, w, role, confirmed, n, v, r),
        Command::AcceptCurrentConfigurationAsBaseline => is_baseline_outcome(o, w, n, v, r),
    }
}

/// A copy of a radio update.
fn copy_update(u: &RadioUpdate) -> (r: RadioUpdate)
    ensures
        r == *u,
{
    RadioUpdate {
        ssid: copy_optional_text(&u.ssid),
        channel: copy_optional_text(&u.channel),
        password: copy_optional_text(&u.password),
    }
}

impl Application {
    /// Runs a command on the application (see `is_command_outcome`).
    pub fn run_command(&mut self, command: &Command) -> (r: Result<ApplicationSnapshot, OperationFailure>)
        ensures
            is_command_outcome(old(self).state(), old(self).world(), *command, final(self).state(), final(self).world(), r),
    {
        let unknown_host = self.selected_interface().is_ok() && self.environment().host_sharing.is_none();
        match command {
            Command::VerifySelectedPuppis => self.verify_selected_puppis(),
            Command::EnableManagedSharing => self.enable_managed_sharing(),
            Command::DisableManagedSharing => if unknown_host {
                Err(failures::network_state_unavailable_failure())
            } else {
                self.disable_managed_sharing()
            },
            Command::RemoveManagedSharing => if unknown_host {
                Err(failures::network_state_unavailable_failure())
            } else {
                self.remove_managed_sharing()
            },
            Command::ApplyRadioSettings(band, update) => self.apply_radio_settings(*band, copy_update(update)),
            Command::SetDeviceRole(role, confirmed) => self.set_device_role(*role, *confirmed),
            Command::AcceptCurrentConfigurationAsBaseline => self.accept_current_configuration_as_baseline(),
        }
    }

    /// One step of a command: the command runs on a copy of the application
    /// (whose environment holds every answer handed back so far). The result
    /// is that copy, its outcome, and the command's next action after the
    /// `performed` ones that were carried out already (`None`: the outcome
    /// stands).
    pub fn step(&self, command: &Command, performed: usize) -> (r: (Application, Result<ApplicationSnapshot, OperationFailure>, Option<SystemAction>))
        ensures
            is_command_outcome(self.state(), self.world(), *command, r.0.state(), r.0.world(), r.1),
            r.2 == next_action_of(self.world(), r.0.world(), performed as int),
    {
        let mut model = self.copied();
        let result = model.run_command(command);
        let next = next_action(self.environment(), model.environment(), performed);
        (model, result, next)
    }
}

/// The action of a command after `performed` carried-out ones, where the
/// command took environment `before` to `after`.
pub open spec fn next_action_of(before: EnvironmentView, after: EnvironmentView, performed: int) -> Option<SystemAction> {
    let k = before.actions.len() + performed;
    if 0 <= performed && k < after.actions.len() { Some(after.actions[k]) } else { None }
}

/// The action after `performed` carried-out ones (see `next_action_of`).
pub fn next_action(before: &InMemoryEnvironment, after: &InMemoryEnvironment, performed: usize) -> (r: Option<SystemAction>)
    ensures
        r == next_action_of(before@, after@, performed as int),
{
    let start = before.actions.len();
    let end = after.actions.len();
    if start <= end && performed < end - start {
        Some(after.actions[start + performed].copied())
    } else {
        None
    }
}

/// How a radio write went on the device, from the settings the radio held
/// before, what the write returned and what reading the radio back gave.
pub open spec fn radio_effect_of(
    previous: Option<RadioConfiguration>,
    write: Result<(), OperationFailure>,
    read_back: Result<RadioConfiguration, OperationFailure>,
) -> RadioWriteEffect {
    match read_back {
        Ok(c) => if write is Ok {
            RadioWriteEffect::Apply(c)
        } else if previous matches Some(p) && radio_configuration_equal(p, c) {
            RadioWriteEffect::Fail
        } else {
            RadioWriteEffect::Unverifiable
        },
        Err(_) => RadioWriteEffect::Unverifiable,
    }
}

/// How a radio write went on the device (see `radio_effect_of`).
pub fn radio_write_effect(
    previous: &Option<RadioConfiguration>,
    write: &Result<(), OperationFailure>,
    read_back: &Result<RadioConfiguration, OperationFailure>,
) -> (r: RadioWriteEffect)
    ensures
        r == radio_effect_of(*previous, *write, *read_back),
{
    match read_back {
        Ok(c) => if write.is_ok() {
            RadioWriteEffect::Apply(c.copied())
        } else {
            match previous {
                Some(p) => if p.same_as(c) { RadioWriteEffect::Fail } else { RadioWriteEffect::Unverifiable },
                None => RadioWriteEffect::Unverifiable,
            }
        },
        Err(_) => RadioWriteEffect::Unverifiable,
    }
}

/// How a role write went on the device, from the role held before, what
/// the write returned and what reading the role back gave.
pub open spec fn role_effect_of(
    previous: Option<DeviceRole>,
    write: Result<(), OperationFailure>,
    read_back: Result<DeviceRole, OperationFailure>,
) -> RoleWriteEffect {
    match read_back {
        Ok(role) => if write is Ok {
            RoleWriteEffect::Apply(role)
        } else if previous == Some(role) {
            RoleWriteEffect::Fail
        } else {
            RoleWriteEffect::Unverifiable
        },
        Err(_) => RoleWriteEffect::Unverifiable,
    }
}

/// How a role write went on the device (see `role_effect_of`).
pub fn role_write_effect(
    previous: Option<DeviceRole>,
    write: &Result<(), OperationFailure>,
    read_back: &Result<DeviceRole, OperationFailure>,
) -> (r: RoleWriteEffect)
    ensures
        r == role_effect_of(previous, *write, *read_back),
{
    match read_back {
        Ok(role) => if write.is_ok() {
            RoleWriteEffect::Apply(*role)
        } else {
            match previous {
                Some(p) => if p == *role { RoleWriteEffect::Fail } else { RoleWriteEffect::Unverifiable },
                None => RoleWriteEffect::Unverifiable,
            }
        },
        Err(_) => RoleWriteEffect::Unverifiable,
    }
}

/// Whether an action list holds a write of the given kind.
pub open spec fn writes_radio(actions: Seq<SystemAction>) -> bool {
    exists|k: int| 0 <= k < actions.len() && #[trigger] actions[k] is WriteRadio
}

/// Whether an action list holds a role write.
pub open spec fn writes_role(actions: Seq<SystemAction>) -> bool {
    exists|k: int| 0 <= k < actions.len() && #[trigger] actions[k] is WriteRole
}

/// The actions that took environment `before` to `after`.
pub open spec fn new_actions(before: EnvironmentView, after: EnvironmentView) -> Seq<SystemAction> {
    let start = if before.actions.len() <= after.actions.len() { before.actions.len() } else { after.actions.len() };
    after.actions.subrange(start as int, after.actions.len() as int)
}

/// The safe log events of an operation that made `actions` and went from
/// snapshot `o` to `n` with result `ok`: a role transaction is logged when
/// it starts; the device when a verification of it succeeds (`verified`
/// names a verification) or it became verified; a radio
/// transaction when it is verified; and recovery when it becomes required.
pub open spec fn events_of(o: ApplicationSnapshotView, actions: Seq<SystemAction>, n: ApplicationSnapshotView, verified: bool, ok: bool) -> Seq<SafeEvent> {
    let started = if writes_role(actions) { seq![SafeEvent::SettingsTransactionStarted] } else { Seq::empty() };
    let puppis = if ((verified && ok) || o.verified_puppis is None) && n.verified_puppis is Some { seq![SafeEvent::PuppisVerified] } else { Seq::empty() };
    let settled = if writes_radio(actions) && ok { seq![SafeEvent::SettingsTransactionVerified] } else { Seq::empty() };
    let recovery = if !o.recovery_required && n.recovery_required { seq![SafeEvent::RecoveryRequired] } else { Seq::empty() };
    started + puppis + settled + recovery
}

/// Whether an action list holds a radio write.
fn has_radio_write(actions: &Vec<SystemAction>, start: usize) -> (r: bool)
    requires
        start <= actions.len(),
    ensures
        r == writes_radio(actions@.subrange(start as int, actions.len() as int)),
{
    let ghost tail = actions@.subrange(start as int, actions.len() as int);
    let mut i = start;
    while i < actions.len()
        invariant
            start <= i <= actions.len(),
            tail == actions@.subrange(start as int, actions.len() as int),
            forall|k: int| 0 <= k < i - start ==> !(tail[k] is WriteRadio),
        decreases actions.len() - i,
    {
        if let SystemAction::WriteRadio(_, _, _) = &actions[i] {
            assert(tail[i - start] is WriteRadio);
            return true;
        }
        i = i + 1;
    }
    false
}

/// Whether an action list holds a role write.
fn has_role_write(actions: &Vec<SystemAction>, start: usize) -> (r: bool)
    requires
        start <= actions.len(),
    ensures
        r == writes_role(actions@.subrange(start as int, actions.len() as int)),
{
    let ghost tail = actions@.subrange(start as int, actions.len() as int);
    let mut i = start;
    while i < actions.len()
        invariant
            start <= i <= actions.len(),
            tail == actions@.subrange(start as int, actions.len() as int),
            forall|k: int| 0 <= k < i - start ==> !(tail[k] is WriteRole),
        decreases actions.len() - i,
    {
        if let SystemAction::WriteRole(_, _) = &actions[i] {
            assert(tail[i - start] is WriteRole);
            return true;
        }
        i = i + 1;
    }
    false
}

/// The safe log events of a finished operation: `before` and `after` are the
/// application before it and the model where it ended, `verified` whether
/// it was a verification of the device, `ok` whether it succeeded.
pub fn operation_events(before: &Application, after: &Application, verified: bool, ok: bool) -> (r: Vec<SafeEvent>)
    ensures
        r@ == events_of(before.state(), new_actions(before.world(), after.world()), after.state(), verified, ok),
{
    let actions = &after.environment().actions;
    let start = if before.environment().actions.len() <= actions.len() { before.environment().actions.len() } else { actions.len() };
    let o = before.snapshot();
    let n = after.snapshot();
    let mut r: Vec<SafeEvent> = Vec::new();
    if has_role_write(actions, start) {
        r.push(SafeEvent::SettingsTransactionStarted);
    }
    if ((verified && ok) || o.verified_puppis.is_none()) && n.verified_puppis.is_some() {
        r.push(SafeEvent::PuppisVerified);
    }
    if has_radio_write(actions, start) && ok {
        r.push(SafeEvent::SettingsTransactionVerified);
    }
    if !o.recovery_required && n.recovery_required {
        r.push(SafeEvent::RecoveryRequired);
    }
    assert(r@ =~= events_of(before.state(), new_actions(before.world(), after.world()), after.state(), verified, ok));
    r
}

} // verus!
