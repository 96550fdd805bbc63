//! Changing settings of the camera, one after the other, until one cannot be changed.
//!
//! Each change takes three steps at the camera: fetch the widget of the setting, give the
//! widget its new value, write the widget back.

use vstd::prelude::*;

use crate::camera::camera_config::{leaf_setting, Widget};
use crate::camera::worker::CameraError;
use crate::text::{after_last, last_part};
use crate::websocket::scheme::{ConfigUpdate, ConfigValue, UpdateCameraConfig};

verus! {

/// What kind of widget the camera has under a name.
#[derive(Debug, Clone, Copy, PartialEq, Eq)]
pub enum WidgetKind {
    Group,
    Text,
    Range,
    Toggle,
    Radio,
    Button,
    Date,
}

/// What to do with a widget before it is written back. A number of a range is held by its
/// bits (IEEE 754, single precision).
#[derive(Debug, Clone, PartialEq, Eq)]
pub enum WidgetChange {
    SetText(String),
    SetRange(u32),
    SetToggle(bool),
    SetChoice(String),
    Press,
    SetTimestamp(i32),
    /// Leave it as it is.
    Keep,
}

/// How a value is given to a widget of a kind, where the two fit. A timestamp keeps its
/// low 32 bits. A button takes every value, but only a press presses it.
pub open spec fn change_for(kind: WidgetKind, value: ConfigValue) -> Option<WidgetChange> {
    match (kind, value) {
        (WidgetKind::Text, ConfigValue::Str(text)) => Some(WidgetChange::SetText(text)),
        (WidgetKind::Range, ConfigValue::F32(bits)) => Some(WidgetChange::SetRange(bits)),
        (WidgetKind::Toggle, ConfigValue::Bool(on)) => Some(WidgetChange::SetToggle(on)),
        (WidgetKind::Radio, ConfigValue::Str(choice)) => Some(WidgetChange::SetChoice(choice)),
        (WidgetKind::Button, ConfigValue::ButtonPress) => Some(WidgetChange::Press),
        (WidgetKind::Button, _) => Some(WidgetChange::Keep),
        (WidgetKind::Date, ConfigValue::Int(seconds)) => Some(
            WidgetChange::SetTimestamp(low_32_bits(seconds)),
        ),
        _ => None,
    }
}

/// The number between `-2^31` and `2^31 - 1` that differs from `value` by a multiple of
/// `2^32`.
pub open spec fn low_32_bits(value: i64) -> i32 {
    ((value + 0x8000_0000) % 0x1_0000_0000 - 0x8000_0000) as i32
}

/// The low 32 bits of a number.
fn truncate_to_i32(value: i64) -> (low: i32)
    ensures
        low == low_32_bits(value),
{
    let low: i32 = #[verifier::truncate] (value as i32);
    proof {
        assert(value - (value as i32) == 0x1_0000_0000 * ((value >> 32u32) + (if (value as i32) < 0 {
            1int
        } else {
            0int
        }))) by (bit_vector);
    }
    low
}

/// How a value is given to a widget of a kind, or the error for a value of another kind.
pub open spec fn planned(kind: WidgetKind, value: ConfigValue) -> Result<
    WidgetChange,
    CameraError,
> {
    match change_for(kind, value) {
        Some(change) => Ok(change),
        None => Err(CameraError::InvalidConfigValueType),
    }
}

/// How a value is given to a widget of a kind.
pub fn plan_change(kind: WidgetKind, value: ConfigValue) -> (plan: Result<
    WidgetChange,
    CameraError,
>)
    ensures
        plan == planned(kind, value),
{
    match kind {
        WidgetKind::Group => Err(CameraError::InvalidConfigValueType),
        WidgetKind::Text => if let ConfigValue::Str(new_value) = value {
            Ok(WidgetChange::SetText(new_value))
        } else {
            Err(CameraError::InvalidConfigValueType)
        },
        WidgetKind::Range => if let ConfigValue::F32(new_value) = value {
            Ok(WidgetChange::SetRange(new_value))
        } else {
            Err(CameraError::InvalidConfigValueType)
        },
        WidgetKind::Toggle => if let ConfigValue::Bool(new_value) = value {
            Ok(WidgetChange::SetToggle(new_value))
        } else {
            Err(CameraError::InvalidConfigValueType)
        },
        WidgetKind::Radio => if let ConfigValue::Str(new_value) = value {
            Ok(WidgetChange::SetChoice(new_value))
        } else {
            Err(CameraError::InvalidConfigValueType)
        },
        WidgetKind::Button => if let ConfigValue::ButtonPress = value {
            Ok(WidgetChange::Press)
        } else {
            Ok(WidgetChange::Keep)
        },
        WidgetKind::Date => if let ConfigValue::Int(new_value) = value {
            Ok(WidgetChange::SetTimestamp(truncate_to_i32(new_value)))
        } else {
            Err(CameraError::InvalidConfigValueType)
        },
    }
}

/// Where a run of changes stands.
#[derive(Debug, PartialEq, Eq)]
pub enum UpdatePhase {
    /// The widget of the first remaining change is to be fetched.
    Fetching,
    /// The fetched widget is to be given its value.
    Applying(WidgetChange),
    /// The widget is to be written back.
    Writing,
    /// There is nothing left to do.
    Finished(Result<(), CameraError>),
}

/// A run of changes.
#[derive(Debug, PartialEq, Eq)]
pub struct ConfigUpdateRun {
    pub remaining: Vec<ConfigUpdate>,
    pub phase: UpdatePhase,
}

/// What a run of changes asks of the camera.
#[derive(Debug, PartialEq, Eq)]
pub enum UpdateRequest<'a> {
    /// Fetch the widget with this name.
    Fetch(&'a str),
    /// Do this with the fetched widget.
    Apply(&'a WidgetChange),
    /// Write the fetched widget back.
    Write,
    /// Stop, with this outcome.
    Finish(&'a Result<(), CameraError>),
}

/// How a request went.
#[derive(Debug, PartialEq, Eq)]
pub enum UpdateEvent {
    /// The fetch: what kind the widget is.
    Fetched(Result<WidgetKind, CameraError>),
    /// The change of the widget, or its writing.
    Done(Result<(), CameraError>),
}

/// The changes that remain and where the run stands.
pub struct UpdateModel {
    pub remaining: Seq<ConfigUpdate>,
    pub phase: UpdatePhase,
}

impl View for ConfigUpdateRun {
    type V = UpdateModel;

    open spec fn view(&self) -> UpdateModel {
        UpdateModel { remaining: self.remaining@, phase: self.phase }
    }
}

impl UpdateModel {
    /// This is what the run asks of the camera.
    pub open spec fn asks(self, request: UpdateRequest<'_>) -> bool {
        match self.phase {
            UpdatePhase::Fetching => request matches UpdateRequest::Fetch(name) && name@
                == after_last(self.remaining[0].key@, '.'),
            UpdatePhase::Applying(change) => request == UpdateRequest::Apply(&change),
            UpdatePhase::Writing => request == UpdateRequest::Write,
            UpdatePhase::Finished(outcome) => request == UpdateRequest::Finish(&outcome),
        }
    }

    /// A widget is only fetched for a change that remains.
    pub open spec fn wf(self) -> bool {
        self.phase is Fetching ==> self.remaining.len() > 0
    }

    /// The run asked for what this event tells.
    pub open spec fn expects(self, event: UpdateEvent) -> bool {
        match self.phase {
            UpdatePhase::Fetching => event is Fetched,
            UpdatePhase::Applying(_) | UpdatePhase::Writing => event is Done,
            UpdatePhase::Finished(_) => false,
        }
    }

    /// The run goes on with what remains, or has succeeded.
    pub open spec fn resumed(remaining: Seq<ConfigUpdate>) -> UpdateModel {
        UpdateModel {
            remaining,
            phase: if remaining.len() == 0 {
                UpdatePhase::Finished(Ok(()))
            } else {
                UpdatePhase::Fetching
            },
        }
    }

    /// The run has failed.
    pub open spec fn failed(self, error: CameraError) -> UpdateModel {
        UpdateModel { phase: UpdatePhase::Finished(Err(error)), ..self }
    }

    /// The run after an event: any error ends it, with that error, and a value that does not
    /// fit the fetched widget ends it before the widget is touched.
    pub open spec fn after(self, event: UpdateEvent) -> UpdateModel {
        match (self.phase, event) {
            (UpdatePhase::Fetching, UpdateEvent::Fetched(Ok(kind))) => match change_for(
                kind,
                self.remaining[0].value,
            ) {
                Some(change) => UpdateModel {
                    remaining: self.remaining.drop_first(),
                    phase: UpdatePhase::Applying(change),
                },
                None => UpdateModel {
                    remaining: self.remaining.drop_first(),
                    phase: UpdatePhase::Finished(Err(CameraError::InvalidConfigValueType)),
                },
            },
            (_, UpdateEvent::Fetched(Err(error))) => self.failed(error),
            (UpdatePhase::Applying(_), UpdateEvent::Done(Ok(()))) => UpdateModel {
                phase: UpdatePhase::Writing,
                ..self
            },
            (UpdatePhase::Writing, UpdateEvent::Done(Ok(()))) => Self::resumed(self.remaining),
            (_, UpdateEvent::Done(Err(error))) => self.failed(error),
            _ => self,
        }
    }
}

impl ConfigUpdateRun {
    /// A run of the changes of a message.
    pub fn new(config_update: UpdateCameraConfig) -> (run: ConfigUpdateRun)
        ensures
            run@ == UpdateModel::resumed(config_update.config_updates@),
            run@.wf(),
    {
        let phase = if config_update.config_updates.len() == 0 {
            UpdatePhase::Finished(Ok(()))
        } else {
            UpdatePhase::Fetching
        };
        ConfigUpdateRun { remaining: config_update.config_updates, phase }
    }

    /// What to do next. The name by which a widget is fetched is what follows the last dot
    /// of the key.
    pub fn request(&self) -> (request: UpdateRequest<'_>)
        requires
            self@.wf(),
        ensures
            self@.asks(request),
    {
        match &self.phase {
            UpdatePhase::Fetching => UpdateRequest::Fetch(
                last_part(self.remaining[0].key.as_str(), '.'),
            ),
            UpdatePhase::Applying(change) => UpdateRequest::Apply(change),
            UpdatePhase::Writing => UpdateRequest::Write,
            UpdatePhase::Finished(outcome) => UpdateRequest::Finish(outcome),
        }
    }

    /// Whether the event tells how the last request went.
    pub fn expects(&self, event: &UpdateEvent) -> (expected: bool)
        ensures
            expected == self@.expects(*event),
    {
        match (&self.phase, event) {
            (UpdatePhase::Fetching, UpdateEvent::Fetched(_)) => true,
            (UpdatePhase::Applying(_), UpdateEvent::Done(_)) => true,
            (UpdatePhase::Writing, UpdateEvent::Done(_)) => true,
            _ => false,
        }
    }

    /// Takes the outcome of the last request.
    pub fn advance(&mut self, event: UpdateEvent)
        requires
            old(self)@.wf(),
            old(self)@.expects(event),
        ensures
            final(self)@ == old(self)@.after(event),
            final(self)@.wf(),
    {
        match event {
            UpdateEvent::Fetched(Ok(kind)) => {
                let update = self.remaining.remove(0);
                assert(self.remaining@ =~= old(self).remaining@.drop_first());
                self.phase = match plan_change(kind, update.value) {
                    Ok(change) => UpdatePhase::Applying(change),
                    Err(error) => UpdatePhase::Finished(Err(error)),
                };
            },
            UpdateEvent::Fetched(Err(error)) => {
                self.phase = UpdatePhase::Finished(Err(error));
            },
            UpdateEvent::Done(Ok(())) => {
                let applied = match self.phase {
                    UpdatePhase::Applying(_) => true,
                    _ => false,
                };
                self.phase = if applied {
                    UpdatePhase::Writing
                } else if self.remaining.len() == 0 {
                    UpdatePhase::Finished(Ok(()))
                } else {
                    UpdatePhase::Fetching
                };
            },
            UpdateEvent::Done(Err(error)) => {
                self.phase = UpdatePhase::Finished(Err(error));
            },
        }
    }
}

/// The kind of a widget.
pub open spec fn kind_of(widget: Widget) -> WidgetKind {
    match widget {
        Widget::Group(_) => WidgetKind::Group,
        Widget::Text { .. } => WidgetKind::Text,
        Widget::Range { .. } => WidgetKind::Range,
        Widget::Toggle { .. } => WidgetKind::Toggle,
        Widget::Radio { .. } => WidgetKind::Radio,
        Widget::Button { .. } => WidgetKind::Button,
        Widget::Date { .. } => WidgetKind::Date,
    }
}

/// The value that a setting is listed with fits its widget, and giving it to the widget
/// sets what the widget holds already: its text, number, choice or timestamp, or whether it
/// is on. A button is pressed.
pub proof fn law_listed_value_can_be_given_back(widget: Widget)
    requires
        !(widget is Group),
    ensures
        leaf_setting(widget) is Some,
        change_for(kind_of(widget), leaf_setting(widget)->0.value) == Some(
            match widget {
                Widget::Group(_) => WidgetChange::Keep,
                Widget::Text { base, value } => WidgetChange::SetText(value),
                Widget::Range { base, value, range } => WidgetChange::SetRange(value),
                Widget::Toggle { base, toggled } => WidgetChange::SetToggle(
                    toggled == Some(true),
                ),
                Widget::Radio { base, choice, choices } => WidgetChange::SetChoice(choice),
                Widget::Button { base } => WidgetChange::Press,
                Widget::Date { base, timestamp } => WidgetChange::SetTimestamp(timestamp),
            },
        ),
{
}

/// The run after one change was made at the camera without an error, on a widget of this
/// kind: fetched, changed and written.
pub open spec fn after_change(run: UpdateModel, kind: WidgetKind) -> UpdateModel {
    run.after(UpdateEvent::Fetched(Ok(kind))).after(UpdateEvent::Done(Ok(()))).after(
        UpdateEvent::Done(Ok(())),
    )
}

/// The run after the changes on widgets of these kinds.
pub open spec fn after_changes(run: UpdateModel, kinds: Seq<WidgetKind>) -> UpdateModel
    decreases kinds.len(),
{
    if kinds.len() == 0 {
        run
    } else {
        after_change(after_changes(run, kinds.drop_last()), kinds.last())
    }
}

/// The changes are made in the order of the message: when the first ones have been made
/// on widgets that they fit, exactly the rest remains, and when all have been made the run
/// has succeeded.
pub proof fn law_changes_are_made_in_order(updates: Seq<ConfigUpdate>, kinds: Seq<WidgetKind>)
    requires
        kinds.len() <= updates.len(),
        forall|i: int|
            0 <= i < kinds.len() ==> change_for(#[trigger] kinds[i], updates[i].value) is Some,
    ensures
        after_changes(UpdateModel::resumed(updates), kinds) == UpdateModel::resumed(
            updates.skip(kinds.len() as int),
        ),
    decreases kinds.len(),
{
    if kinds.len() == 0 {
        assert(updates.skip(0) =~= updates);
    } else {
        let n = kinds.len() - 1;
        assert forall|i: int| 0 <= i < n implies change_for(
            #[trigger] kinds.drop_last()[i],
            updates[i].value,
        ) is Some by {
            assert(kinds[i] == kinds.drop_last()[i]);
        }
        law_changes_are_made_in_order(updates, kinds.drop_last());
        assert(change_for(kinds[n], updates[n].value) is Some);
        assert(updates.skip(n)[0] == updates[n]);
        assert(updates.skip(n).drop_first() =~= updates.skip(n + 1));
    }
}

/// A value that does not fit its widget ends the run with `InvalidConfigValueType`: the
/// changes before it have been made, it and the ones behind it never will be.
pub proof fn law_misfit_ends_the_run(
    updates: Seq<ConfigUpdate>,
    kinds: Seq<WidgetKind>,
    misfit: WidgetKind,
    event: UpdateEvent,
)
    requires
        kinds.len() < updates.len(),
        forall|i: int|
            0 <= i < kinds.len() ==> change_for(#[trigger] kinds[i], updates[i].value) is Some,
        change_for(misfit, updates[kinds.len() as int].value) is None,
    ensures
        ({
            let end = after_changes(UpdateModel::resumed(updates), kinds).after(
                UpdateEvent::Fetched(Ok(misfit)),
            );
            &&& end.phase == UpdatePhase::Finished(Err(CameraError::InvalidConfigValueType))
            &&& !end.expects(event)
        }),
{
    law_changes_are_made_in_order(updates, kinds);
    assert(updates.skip(kinds.len() as int)[0] == updates[kinds.len() as int]);
}

/// The run after some events.
pub open spec fn after_events(run: UpdateModel, events: Seq<UpdateEvent>) -> UpdateModel
    decreases events.len(),
{
    if events.len() == 0 {
        run
    } else {
        after_events(run, events.drop_last()).after(events.last())
    }
}

/// The run asked for each of the events when it came.
pub open spec fn can_follow(run: UpdateModel, events: Seq<UpdateEvent>) -> bool
    decreases events.len(),
{
    events.len() > 0 ==> {
        &&& can_follow(run, events.drop_last())
        &&& after_events(run, events.drop_last()).expects(events.last())
    }
}

/// A run with further changes behind those that remain. One that has succeeded goes on with
/// them, one that has failed does not.
pub open spec fn continued(run: UpdateModel, further: Seq<ConfigUpdate>) -> UpdateModel {
    if run.phase == UpdatePhase::Finished(Ok(())) {
        UpdateModel::resumed(further)
    } else {
        UpdateModel { remaining: run.remaining + further, phase: run.phase }
    }
}

proof fn lemma_continued_step(run: UpdateModel, further: Seq<ConfigUpdate>, event: UpdateEvent)
    requires
        run.wf(),
        run.expects(event),
    ensures
        continued(run, further).expects(event),
        continued(run.after(event), further) == continued(run, further).after(event),
        run.after(event).wf(),
{
    let whole = run.remaining + further;
    match (run.phase, event) {
        (UpdatePhase::Fetching, UpdateEvent::Fetched(Ok(kind))) => {
            assert(whole[0] == run.remaining[0]);
            assert(whole.drop_first() =~= run.remaining.drop_first() + further);
        },
        (UpdatePhase::Writing, UpdateEvent::Done(Ok(()))) => {
            if run.remaining.len() == 0 {
                assert(whole =~= further);
            }
        },
        _ => {},
    }
}

proof fn lemma_continued_events(
    run: UpdateModel,
    further: Seq<ConfigUpdate>,
    events: Seq<UpdateEvent>,
)
    requires
        run.wf(),
        can_follow(run, events),
    ensures
        can_follow(continued(run, further), events),
        after_events(continued(run, further), events) == continued(
            after_events(run, events),
            further,
        ),
        after_events(run, events).wf(),
    decreases events.len(),
{
    if events.len() > 0 {
        lemma_continued_events(run, further, events.drop_last());
        lemma_continued_step(after_events(run, events.drop_last()), further, events.last());
    }
}

proof fn lemma_events_concat(run: UpdateModel, first: Seq<UpdateEvent>, second: Seq<UpdateEvent>)
    ensures
        after_events(run, first + second) == after_events(after_events(run, first), second),
        can_follow(run, first) && can_follow(after_events(run, first), second) ==> can_follow(
            run,
            first + second,
        ),
    decreases second.len(),
{
    if second.len() == 0 {
        assert(first + second =~= first);
    } else {
        lemma_events_concat(run, first, second.drop_last());
        assert((first + second).drop_last() =~= first + second.drop_last());
    }
}

/// A run of two lists of changes is the run of the first and then, if that succeeded, the run
/// of the second. While the first is going on, and if it fails, the run stands where that of
/// the first alone does, with the second list still behind it.
pub proof fn law_two_lists_run_one_after_the_other(
    first: Seq<ConfigUpdate>,
    second: Seq<ConfigUpdate>,
    events: Seq<UpdateEvent>,
    later: Seq<UpdateEvent>,
)
    requires
        can_follow(UpdateModel::resumed(first), events),
    ensures
        ({
            let both = UpdateModel::resumed(first + second);
            let alone = after_events(UpdateModel::resumed(first), events);
            &&& can_follow(both, events)
            &&& alone.phase == UpdatePhase::Finished(Ok(())) ==> {
                &&& after_events(both, events + later) == after_events(
                    UpdateModel::resumed(second),
                    later,
                )
                &&& can_follow(UpdateModel::resumed(second), later) ==> can_follow(
                    both,
                    events + later,
                )
            }
            &&& alone.phase != UpdatePhase::Finished(Ok(())) ==> after_events(both, events) == (
            UpdateModel { remaining: alone.remaining + second, phase: alone.phase })
        }),
{
    let run = UpdateModel::resumed(first);
    if first.len() == 0 {
        assert(first + second =~= second);
    }
    assert(continued(run, second) == UpdateModel::resumed(first + second));
    lemma_continued_events(run, second, events);
    lemma_events_concat(UpdateModel::resumed(first + second), events, later);
}

/// An error at the camera, at whatever step, ends the run with that error.
pub proof fn law_camera_error_ends_the_run(run: UpdateModel, error: CameraError)
    requires
        run.wf(),
        !(run.phase is Finished),
    ensures
        run.expects(UpdateEvent::Fetched(Err(error))) || run.expects(UpdateEvent::Done(Err(error))),
        run.expects(UpdateEvent::Fetched(Err(error))) ==> run.after(
            UpdateEvent::Fetched(Err(error)),
        ).phase == UpdatePhase::Finished(Err(error)),
        run.expects(UpdateEvent::Done(Err(error))) ==> run.after(
            UpdateEvent::Done(Err(error)),
        ).phase == UpdatePhase::Finished(Err(error)),
{
}

/// The part of a number that fits 32 bits: the number itself where it fits, and otherwise the
/// one that differs from it by a multiple of `2^32`.
pub proof fn law_timestamp_keeps_its_low_bits(value: i64)
    ensures
        i32::MIN <= value <= i32::MAX ==> low_32_bits(value) == value,
        (value - low_32_bits(value)) % 0x1_0000_0000 == 0,
{
}

/// A fetched widget is given exactly the value of the change: a text or a choice its text, a
/// range its number, a toggle on or off as the value says, a date its timestamp; a button is
/// pressed by the value for that, and left alone by any other. No other change is made, and
/// the next request is that one.
pub proof fn law_widget_is_given_the_value(
    run: ConfigUpdateRun,
    kind: WidgetKind,
    value: ConfigValue,
)
    requires
        run@.phase is Fetching,
        run@.remaining.len() > 0,
        run@.remaining[0].value == value,
    ensures
        ({
            let next = run@.after(UpdateEvent::Fetched(Ok(kind)));
            &&& next.remaining == run@.remaining.subrange(1, run@.remaining.len() as int)
            &&& kind is Text && value is Str ==> next.phase == UpdatePhase::Applying(
                WidgetChange::SetText(value->Str_0),
            )
            &&& kind is Range && value is F32 ==> next.phase == UpdatePhase::Applying(
                WidgetChange::SetRange(value->F32_0),
            )
            &&& kind is Toggle && value is Bool ==> next.phase == UpdatePhase::Applying(
                WidgetChange::SetToggle(value->Bool_0),
            )
            &&& kind is Radio && value is Str ==> next.phase == UpdatePhase::Applying(
                WidgetChange::SetChoice(value->Str_0),
            )
            &&& kind is Button && value is ButtonPress ==> next.phase == UpdatePhase::Applying(
                WidgetChange::Press,
            )
            &&& kind is Button && !(value is ButtonPress) ==> next.phase == UpdatePhase::Applying(
                WidgetChange::Keep,
            )
            &&& kind is Date && value is Int ==> {
                &&& next.phase is Applying
                &&& next.phase->Applying_0 is SetTimestamp
                &&& (value->Int_0 - next.phase->Applying_0->SetTimestamp_0) % 0x1_0000_0000 == 0
            }
            &&& next.phase is Applying || next.phase == UpdatePhase::Finished(
                Err(CameraError::InvalidConfigValueType),
            )
        }),
{
    if value is Int {
        law_timestamp_keeps_its_low_bits(value->Int_0);
    }
}

/// Which values fit which widgets: a text for a text or a choice, a number for a range, on or
/// off for a toggle, a whole number for a date, and anything for a button; nothing fits a
/// group.
pub proof fn law_value_fits_its_widget(kind: WidgetKind, value: ConfigValue)
    ensures
        change_for(kind, value) is Some <==> match kind {
            WidgetKind::Group => false,
            WidgetKind::Text | WidgetKind::Radio => value is Str,
            WidgetKind::Range => value is F32,
            WidgetKind::Toggle => value is Bool,
            WidgetKind::Button => true,
            WidgetKind::Date => value is Int,
        },
{
}

/// What is asked for comes in turn: fetched, changed and written, then the next change, until
/// none remains. A run holds the changes that remain and where it stands, and waits only for
/// the answer to what it asked for.
pub proof fn law_changes_take_their_turn(run: ConfigUpdateRun, updates: Seq<ConfigUpdate>)
    ensures
        run@.remaining == run.remaining@,
        run@.phase == run.phase,
        UpdateModel::resumed(updates).remaining == updates,
        updates.len() > 0 ==> UpdateModel::resumed(updates).phase is Fetching,
        updates.len() == 0 ==> UpdateModel::resumed(updates).phase == UpdatePhase::Finished(Ok(())),
        run@.phase is Applying ==> run@.after(UpdateEvent::Done(Ok(()))) == (UpdateModel {
            remaining: run@.remaining,
            phase: UpdatePhase::Writing,
        }),
        run@.phase is Writing ==> ({
            let next = run@.after(UpdateEvent::Done(Ok(())));
            &&& next.remaining == run@.remaining
            &&& run@.remaining.len() > 0 ==> next.phase is Fetching
            &&& run@.remaining.len() == 0 ==> next.phase == UpdatePhase::Finished(Ok(()))
        }),
        forall|event: UpdateEvent|
            #![trigger run@.expects(event)]
            run@.expects(event) <==> (run@.phase is Fetching && event is Fetched) || ((
            run@.phase is Applying || run@.phase is Writing) && event is Done),
        run@.wf() <==> (run@.phase is Fetching ==> run@.remaining.len() > 0),
{
}

/// Each change of a run is made as it is wished: the widget is fetched by what follows the last
/// dot of the key, it is given exactly the value, and then it is written; a widget of another
/// kind than the value, and an error of the camera, end the run with that error.
pub proof fn law_run_asks_for_the_change(
    run: UpdateModel,
    key: String,
    value: ConfigValue,
    kind: WidgetKind,
    error: CameraError,
    request: UpdateRequest<'_>,
)
    requires
        run.phase is Fetching,
        run.remaining.len() > 0,
        run.remaining[0] == (ConfigUpdate { key, value }),
    ensures
        run.asks(request) ==> request is Fetch && request->Fetch_0@ == after_last(key@, '.'),
        run.after(UpdateEvent::Fetched(Err(error))).asks(request) ==> request
            == UpdateRequest::Finish(&Err(error)),
        ({
            let fetched = run.after(UpdateEvent::Fetched(Ok(kind)));
            let changed = fetched.after(UpdateEvent::Done(Ok(())));
            &&& fetched.asks(request) ==> match (kind, value) {
                (WidgetKind::Text, ConfigValue::Str(text)) => request == UpdateRequest::Apply(
                    &WidgetChange::SetText(text),
                ),
                (WidgetKind::Range, ConfigValue::F32(number)) => request == UpdateRequest::Apply(
                    &WidgetChange::SetRange(number),
                ),
                (WidgetKind::Toggle, ConfigValue::Bool(on)) => request == UpdateRequest::Apply(
                    &WidgetChange::SetToggle(on),
                ),
                (WidgetKind::Radio, ConfigValue::Str(text)) => request == UpdateRequest::Apply(
                    &WidgetChange::SetChoice(text),
                ),
                (WidgetKind::Button, ConfigValue::ButtonPress) => request == UpdateRequest::Apply(
                    &WidgetChange::Press,
                ),
                (WidgetKind::Button, _) => request == UpdateRequest::Apply(&WidgetChange::Keep),
                (WidgetKind::Date, ConfigValue::Int(seconds)) => {
                    &&& request is Apply
                    &&& request->Apply_0 is SetTimestamp
                    &&& (seconds - request->Apply_0->SetTimestamp_0) % 0x1_0000_0000 == 0
                },
                _ => request == UpdateRequest::Finish(&Err(CameraError::InvalidConfigValueType)),
            }
            &&& fetched.phase is Applying ==> {
                &&& changed.asks(request) ==> request == UpdateRequest::Write
                &&& fetched.after(UpdateEvent::Done(Err(error))).asks(request) ==> request
                    == UpdateRequest::Finish(&Err(error))
                &&& changed.after(UpdateEvent::Done(Err(error))).asks(request) ==> request
                    == UpdateRequest::Finish(&Err(error))
                &&& run.remaining.len() == 1 ==> (changed.after(UpdateEvent::Done(Ok(()))).asks(
                    request,
                ) ==> request == UpdateRequest::Finish(&Ok(())))
                &&& run.remaining.len() > 1 ==> (changed.after(UpdateEvent::Done(Ok(()))).asks(
                    request,
                ) ==> request is Fetch && request->Fetch_0@ == after_last(
                    run.remaining[1].key@,
                    '.',
                ))
            }
        }),
{
    if value is Int {
        law_timestamp_keeps_its_low_bits(value->Int_0);
    }
}

/// A value is given to a widget of a kind as the kind wants it, or refused.
pub proof fn law_value_is_given_or_refused(kind: WidgetKind, value: ConfigValue)
    ensures
        kind is Group ==> planned(kind, value) is Err,
        kind is Text && value is Str ==> planned(kind, value) == Ok::<_, CameraError>(
            WidgetChange::SetText(value->Str_0),
        ),
        kind is Range && value is F32 ==> planned(kind, value) == Ok::<_, CameraError>(
            WidgetChange::SetRange(value->F32_0),
        ),
        kind is Toggle && value is Bool ==> planned(kind, value) == Ok::<_, CameraError>(
            WidgetChange::SetToggle(value->Bool_0),
        ),
        kind is Radio && value is Str ==> planned(kind, value) == Ok::<_, CameraError>(
            WidgetChange::SetChoice(value->Str_0),
        ),
        kind is Button && value is ButtonPress ==> planned(kind, value) == Ok::<_, CameraError>(
            WidgetChange::Press,
        ),
        kind is Button && !(value is ButtonPress) ==> planned(kind, value) == Ok::<_, CameraError>(
            WidgetChange::Keep,
        ),
        kind is Date && value is Int && i32::MIN <= value->Int_0 <= i32::MAX ==> planned(kind, value)
            == Ok::<_, CameraError>(WidgetChange::SetTimestamp(value->Int_0 as i32)),
        (kind is Text || kind is Radio) && !(value is Str) ==> planned(kind, value) is Err,
        kind is Range && !(value is F32) ==> planned(kind, value) is Err,
        kind is Toggle && !(value is Bool) ==> planned(kind, value) is Err,
        kind is Date && !(value is Int) ==> planned(kind, value) is Err,
        planned(kind, value) is Err ==> planned(kind, value)->Err_0
            == CameraError::InvalidConfigValueType,
{
    if value is Int {
        law_timestamp_keeps_its_low_bits(value->Int_0);
    }
}

} // verus!
