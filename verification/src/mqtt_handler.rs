//! Decisions of the MQTT client: which events to act on, which handlers a
//! published message runs, and how the failures of those handlers are
//! reported.
use vstd::prelude::*;
use vstd::utf8::*;
use crate::text::{contains_seq, str_contains};
use crate::wire;

verus! {

/// The topic names (as substrings) that select the handlers of a message.
pub struct TopicNames {
    pub chip_temp: String,
    pub temp: String,
    pub humidity: String,
    pub air_pressure: String,
    pub light_intensity: String,
    pub battery_voltage: String,
    pub co2: String,
    pub measurement_bundle: String,
    pub error: String,
}

/// One handler that a published message may run, in the order they run.
#[derive(Debug, PartialEq, Eq, Structural, Clone, Copy)]
pub enum PublishStep {
    ChipTemperature,
    Temperature,
    Humidity,
    AirPressure,
    LightIntensity,
    BatteryVoltage,
    Co2,
    MeasurementBundle,
    SensorError,
}

/// The JSON shape the payload of a step is read as.
#[derive(Debug, PartialEq, Eq, Structural, Clone, Copy)]
pub enum PayloadKind {
    SingleSimpleMeasure,
    SingleCo2Measure,
    TypedSimpleMeasurements,
    SensorError,
}

/// The store operation a step runs on its payload.
#[derive(Debug, PartialEq, Eq, Structural, Clone, Copy)]
pub enum StoreAction {
    ChipTemperature,
    Temperature,
    Humidity,
    AirPressure,
    BatteryVoltage,
    Co2,
    BundledMeasurements,
    SensorError,
}

/// What happens to the error of a failed store operation.
#[derive(Debug, PartialEq, Eq, Structural, Clone, Copy)]
pub enum FailurePolicy {
    /// Kept, and reported with the others at the end.
    Collect,
    /// Logged and otherwise dropped.
    Log,
    /// Reported at once, ending the handling of the message.
    Return,
}

/// All steps, in the order in which they are tried.
pub open spec fn all_steps() -> Seq<PublishStep> {
    seq![
        PublishStep::ChipTemperature,
        PublishStep::Temperature,
        PublishStep::Humidity,
        PublishStep::AirPressure,
        PublishStep::LightIntensity,
        PublishStep::BatteryVoltage,
        PublishStep::Co2,
        PublishStep::MeasurementBundle,
        PublishStep::SensorError,
    ]
}

impl TopicNames {
    /// The topic name that selects `step`.
    pub open spec fn name_of(&self, step: PublishStep) -> Seq<char> {
        match step {
            PublishStep::ChipTemperature => self.chip_temp@,
            PublishStep::Temperature => self.temp@,
            PublishStep::Humidity => self.humidity@,
            PublishStep::AirPressure => self.air_pressure@,
            PublishStep::LightIntensity => self.light_intensity@,
            PublishStep::BatteryVoltage => self.battery_voltage@,
            PublishStep::Co2 => self.co2@,
            PublishStep::MeasurementBundle => self.measurement_bundle@,
            PublishStep::SensorError => self.error@,
        }
    }

    fn name_ref(&self, step: PublishStep) -> (r: &String)
        ensures
            r@ == self.name_of(step),
    {
        match step {
            PublishStep::ChipTemperature => &self.chip_temp,
            PublishStep::Temperature => &self.temp,
            PublishStep::Humidity => &self.humidity,
            PublishStep::AirPressure => &self.air_pressure,
            PublishStep::LightIntensity => &self.light_intensity,
            PublishStep::BatteryVoltage => &self.battery_voltage,
            PublishStep::Co2 => &self.co2,
            PublishStep::MeasurementBundle => &self.measurement_bundle,
            PublishStep::SensorError => &self.error,
        }
    }
}

/// The steps a message published on `topic` runs: those whose topic name
/// occurs in `topic`, in the order of `all_steps`.
pub open spec fn selected_steps(topic: Seq<char>, names: TopicNames) -> Seq<PublishStep> {
    all_steps().filter(|s: PublishStep| contains_seq(topic, names.name_of(s)))
}

/// Payload shape of `step`.
pub open spec fn spec_payload_kind(step: PublishStep) -> PayloadKind {
    match step {
        PublishStep::Co2 => PayloadKind::SingleCo2Measure,
        PublishStep::MeasurementBundle => PayloadKind::TypedSimpleMeasurements,
        PublishStep::SensorError => PayloadKind::SensorError,
        _ => PayloadKind::SingleSimpleMeasure,
    }
}

/// Store operation of `step`. Light intensity readings are stored as air
/// pressures.
pub open spec fn spec_store_action(step: PublishStep) -> StoreAction {
    match step {
        PublishStep::ChipTemperature => StoreAction::ChipTemperature,
        PublishStep::Temperature => StoreAction::Temperature,
        PublishStep::Humidity => StoreAction::Humidity,
        PublishStep::AirPressure => StoreAction::AirPressure,
        PublishStep::LightIntensity => StoreAction::AirPressure,
        PublishStep::BatteryVoltage => StoreAction::BatteryVoltage,
        PublishStep::Co2 => StoreAction::Co2,
        PublishStep::MeasurementBundle => StoreAction::BundledMeasurements,
        PublishStep::SensorError => StoreAction::SensorError,
    }
}

/// Failure policy of `step`.
pub open spec fn spec_failure_policy(step: PublishStep) -> FailurePolicy {
    match step {
        PublishStep::Co2 => FailurePolicy::Log,
        PublishStep::MeasurementBundle => FailurePolicy::Return,
        _ => FailurePolicy::Collect,
    }
}

impl PublishStep {
    pub fn payload_kind(self) -> (r: PayloadKind)
        ensures
            r == spec_payload_kind(self),
    {
        match self {
            PublishStep::Co2 => PayloadKind::SingleCo2Measure,
            PublishStep::MeasurementBundle => PayloadKind::TypedSimpleMeasurements,
            PublishStep::SensorError => PayloadKind::SensorError,
            _ => PayloadKind::SingleSimpleMeasure,
        }
    }

    pub fn store_action(self) -> (r: StoreAction)
        ensures
            r == spec_store_action(self),
    {
        match self {
            PublishStep::ChipTemperature => StoreAction::ChipTemperature,
            PublishStep::Temperature => StoreAction::Temperature,
            PublishStep::Humidity => StoreAction::Humidity,
            PublishStep::AirPressure => StoreAction::AirPressure,
            PublishStep::LightIntensity => StoreAction::AirPressure,
            PublishStep::BatteryVoltage => StoreAction::BatteryVoltage,
            PublishStep::Co2 => StoreAction::Co2,
            PublishStep::MeasurementBundle => StoreAction::BundledMeasurements,
            PublishStep::SensorError => StoreAction::SensorError,
        }
    }

    pub fn failure_policy(self) -> (r: FailurePolicy)
        ensures
            r == spec_failure_policy(self),
    {
        match self {
            PublishStep::Co2 => FailurePolicy::Log,
            PublishStep::MeasurementBundle => FailurePolicy::Return,
            _ => FailurePolicy::Collect,
        }
    }
}

/// The store operation for one reading of a bundle, by the quantity it
/// measures: the same as for a single reading on that quantity's topic, so
/// a light intensity is stored as an air pressure. A CO2 reading is no
/// simple reading and has none.
pub open spec fn spec_bundle_store_action(t: wire::SensorType) -> Option<StoreAction> {
    match t {
        wire::SensorType::Temperature => Some(StoreAction::Temperature),
        wire::SensorType::Humidity => Some(StoreAction::Humidity),
        wire::SensorType::Airpressure => Some(StoreAction::AirPressure),
        wire::SensorType::LightIntensity => Some(StoreAction::AirPressure),
        wire::SensorType::BatteryVoltage => Some(StoreAction::BatteryVoltage),
        wire::SensorType::ChipTemperature => Some(StoreAction::ChipTemperature),
        wire::SensorType::Co2 => None,
    }
}

pub fn bundle_store_action(t: wire::SensorType) -> (r: Option<StoreAction>)
    ensures
        r == spec_bundle_store_action(t),
{
    match t {
        wire::SensorType::Temperature => Some(StoreAction::Temperature),
        wire::SensorType::Humidity => Some(StoreAction::Humidity),
        wire::SensorType::Airpressure => Some(StoreAction::AirPressure),
        wire::SensorType::LightIntensity => Some(StoreAction::AirPressure),
        wire::SensorType::BatteryVoltage => Some(StoreAction::BatteryVoltage),
        wire::SensorType::ChipTemperature => Some(StoreAction::ChipTemperature),
        wire::SensorType::Co2 => None,
    }
}

fn all_steps_exec() -> (r: Vec<PublishStep>)
    ensures
        r@ == all_steps(),
{
    let r = vec![
        PublishStep::ChipTemperature,
        PublishStep::Temperature,
        PublishStep::Humidity,
        PublishStep::AirPressure,
        PublishStep::LightIntensity,
        PublishStep::BatteryVoltage,
        PublishStep::Co2,
        PublishStep::MeasurementBundle,
        PublishStep::SensorError,
    ];
    assert(r@ =~= all_steps());
    r
}

/// The steps that a message published on `topic` runs.
pub fn publish_steps(topic: &str, names: &TopicNames) -> (r: Vec<PublishStep>)
    ensures
        r@ == selected_steps(topic@, *names),
{
    let all = all_steps_exec();
    let ghost pred = |s: PublishStep| contains_seq(topic@, names.name_of(s));
    let mut r: Vec<PublishStep> = Vec::new();
    let mut i: usize = 0;
    while i < all.len()
        invariant
            all@ == all_steps(),
            i <= all@.len(),
            pred == (|s: PublishStep| contains_seq(topic@, names.name_of(s))),
            r@ == all@.take(i as int).filter(pred),
        decreases all@.len() - i,
    {
        let step = all[i];
        proof {
            reveal_with_fuel(Seq::filter, 1);
            assert(all@.take(i + 1).drop_last() =~= all@.take(i as int));
        }
        if str_contains(topic, names.name_ref(step).as_str()) {
            r.push(step);
        }
        i = i + 1;
    }
    assert(all@.take(all@.len() as int) =~= all@);
    r
}

/// How handling of a message ended early.
#[derive(Debug, PartialEq, Eq, Structural, Clone, Copy)]
pub enum AbortReason {
    /// The payload of a step could not be read.
    Extraction,
    /// A store operation whose policy is `Return` failed.
    Store,
}

/// Result of handling a published message.
#[derive(Debug, PartialEq, Eq, Structural, Clone, Copy)]
pub enum PublishResult {
    /// All steps ran and none of the collected kind failed.
    Handled,
    /// All steps ran; this many collected errors are reported.
    Failed(usize),
    /// Handling stopped early; only the error of that step is reported.
    Aborted(AbortReason),
}

/// Progress in handling one published message.
pub struct PublishRun {
    steps: Vec<PublishStep>,
    next: usize,
    collected: usize,
    aborted: Option<AbortReason>,
}

/// The reply to a recorded store result: what to do with its error.
#[derive(Debug, PartialEq, Eq, Structural, Clone, Copy)]
pub enum ErrorHandling {
    /// The operation succeeded.
    Nothing,
    /// Keep the error for the final report.
    Collect,
    /// Log the error.
    Log,
    /// Report the error now; handling has ended.
    ReturnNow,
}

impl PublishRun {
    pub closed spec fn steps(&self) -> Seq<PublishStep> {
        self.steps@
    }

    /// Number of steps finished.
    pub closed spec fn done(&self) -> nat {
        self.next as nat
    }

    /// Number of collected errors.
    pub closed spec fn collected(&self) -> nat {
        self.collected as nat
    }

    pub closed spec fn aborted(&self) -> Option<AbortReason> {
        self.aborted
    }

    pub closed spec fn wf(&self) -> bool {
        &&& self.next <= self.steps@.len()
        &&& self.collected <= self.next
    }

    /// Starts handling a message published on `topic`.
    pub fn new(topic: &str, names: &TopicNames) -> (r: Self)
        ensures
            r.wf(),
            r.steps() == selected_steps(topic@, *names),
            r.done() == 0,
            r.collected() == 0,
            r.aborted() is None,
    {
        PublishRun { steps: publish_steps(topic, names), next: 0, collected: 0, aborted: None }
    }

    /// The step to run next, if handling goes on.
    pub fn next_step(&self) -> (r: Option<PublishStep>)
        requires
            self.wf(),
        ensures
            self.aborted() is None && self.done() < self.steps().len() ==> r == Some(
                self.steps()[self.done() as int],
            ),
            self.aborted() is Some || self.done() == self.steps().len() ==> r is None,
    {
        if self.aborted.is_none() && self.next < self.steps.len() {
            Some(self.steps[self.next])
        } else {
            None
        }
    }

    /// The payload of the current step could not be read: handling ends.
    pub fn record_extraction_failure(&mut self)
        requires
            old(self).wf(),
        ensures
            final(self).wf(),
            final(self).steps() == old(self).steps(),
            final(self).done() == old(self).done(),
            final(self).collected() == old(self).collected(),
            final(self).aborted() == Some(AbortReason::Extraction),
    {
        self.aborted = Some(AbortReason::Extraction);
    }

    /// Records the result of the current step's store operation and moves
    /// to the next step.
    pub fn record_store_result(&mut self, succeeded: bool) -> (r: ErrorHandling)
        requires
            old(self).wf(),
            old(self).aborted() is None,
            old(self).done() < old(self).steps().len(),
        ensures
            final(self).wf(),
            final(self).steps() == old(self).steps(),
            final(self).done() == old(self).done() + 1,
            ({
                let policy = spec_failure_policy(old(self).steps()[old(self).done() as int]);
                if succeeded {
                    &&& r == ErrorHandling::Nothing
                    &&& final(self).collected() == old(self).collected()
                    &&& final(self).aborted() is None
                } else {
                    match policy {
                        FailurePolicy::Collect => {
                            &&& r == ErrorHandling::Collect
                            &&& final(self).collected() == old(self).collected() + 1
                            &&& final(self).aborted() is None
                        },
                        FailurePolicy::Log => {
                            &&& r == ErrorHandling::Log
                            &&& final(self).collected() == old(self).collected()
                            &&& final(self).aborted() is None
                        },
                        FailurePolicy::Return => {
                            &&& r == ErrorHandling::ReturnNow
                            &&& final(self).collected() == old(self).collected()
                            &&& final(self).aborted() == Some(AbortReason::Store)
                        },
                    }
                }
            }),
    {
        let step = self.steps[self.next];
        assert(self.next < self.steps.len());
        self.next = self.next + 1;
        if succeeded {
            return ErrorHandling::Nothing;
        }
        match step.failure_policy() {
            FailurePolicy::Collect => {
                self.collected = self.collected + 1;
                ErrorHandling::Collect
            },
            FailurePolicy::Log => ErrorHandling::Log,
            FailurePolicy::Return => {
                self.aborted = Some(AbortReason::Store);
                ErrorHandling::ReturnNow
            },
        }
    }

    /// The result of handling the message so far.
    pub fn result(&self) -> (r: PublishResult)
        requires
            self.wf(),
        ensures
            r == spec_publish_result(self.aborted(), self.collected()),
    {
        match self.aborted {
            Some(reason) => PublishResult::Aborted(reason),
            None => if self.collected == 0 {
                PublishResult::Handled
            } else {
                PublishResult::Failed(self.collected)
            },
        }
    }
}

/// The result that a run with the given abort state and number of
/// collected errors reports.
pub open spec fn spec_publish_result(aborted: Option<AbortReason>, collected: nat) -> PublishResult {
    match aborted {
        Some(reason) => PublishResult::Aborted(reason),
        None => if collected == 0 {
            PublishResult::Handled
        } else {
            PublishResult::Failed(collected as usize)
        },
    }
}

/// A message is handled without error exactly when no step aborted it and
/// no collected error occurred.
pub proof fn law_publish_ok_iff_clean(run: PublishRun)
    requires
        run.wf(),
    ensures
        (spec_publish_result(run.aborted(), run.collected()) == PublishResult::Handled) <==> (
        run.aborted() is None && run.collected() == 0),
{
}

/// Filtering a sequence without repetitions gives one without repetitions.
proof fn lemma_filter_no_duplicates(s: Seq<PublishStep>, p: spec_fn(PublishStep) -> bool)
    requires
        s.no_duplicates(),
    ensures
        s.filter(p).no_duplicates(),
    decreases s.len(),
{
    reveal(Seq::filter);
    if s.len() > 0 {
        let init = s.drop_last();
        assert(init.no_duplicates());
        lemma_filter_no_duplicates(init, p);
        if p(s.last()) {
            let f = init.filter(p);
            if f.contains(s.last()) {
                init.lemma_filter_contains_rev(p, s.last());
                let k = choose|k: int| 0 <= k < init.len() && init[k] == s.last();
                assert(s[k] == s[s.len() - 1]);
            }
            assert(f.push(s.last()).no_duplicates());
        }
    }
}

/// A published message runs each handler at most once, and runs a handler
/// exactly when the handler's topic name occurs in the message's topic.
pub proof fn law_each_step_runs_once(topic: Seq<char>, names: TopicNames, step: PublishStep)
    ensures
        selected_steps(topic, names).no_duplicates(),
        selected_steps(topic, names).contains(step) <==> contains_seq(topic, names.name_of(step)),
{
    let all = all_steps();
    let pred = |s: PublishStep| contains_seq(topic, names.name_of(s));
    assert(all.no_duplicates());
    lemma_filter_no_duplicates(all, pred);
    let i: int = match step {
        PublishStep::ChipTemperature => 0,
        PublishStep::Temperature => 1,
        PublishStep::Humidity => 2,
        PublishStep::AirPressure => 3,
        PublishStep::LightIntensity => 4,
        PublishStep::BatteryVoltage => 5,
        PublishStep::Co2 => 6,
        PublishStep::MeasurementBundle => 7,
        PublishStep::SensorError => 8,
    };
    assert(all[i] == step);
    if pred(step) {
        all.lemma_filter_contains(pred, i);
    }
    if all.filter(pred).contains(step) {
        let j = choose|j: int| 0 <= j < all.filter(pred).len() && all.filter(pred)[j] == step;
        all.lemma_filter_pred(pred, j);
    }
}

/// Whether the single-reading step `step` and the bundle reading type `t`
/// measure the same quantity (by name: air pressure is `Airpressure` in
/// bundles).
pub open spec fn step_measures(step: PublishStep, t: wire::SensorType) -> bool {
    ||| step == PublishStep::ChipTemperature && t == wire::SensorType::ChipTemperature
    ||| step == PublishStep::Temperature && t == wire::SensorType::Temperature
    ||| step == PublishStep::Humidity && t == wire::SensorType::Humidity
    ||| step == PublishStep::AirPressure && t == wire::SensorType::Airpressure
    ||| step == PublishStep::LightIntensity && t == wire::SensorType::LightIntensity
    ||| step == PublishStep::BatteryVoltage && t == wire::SensorType::BatteryVoltage
}

/// A message is stored as what its topic names: temperature, humidity, air
/// pressure, chip temperature and battery voltage readings each go to their
/// own store operation, no two of them to the same one, while a light
/// intensity is stored as an air pressure; CO2 readings, bundles and sensor
/// errors go to theirs. A reading inside a bundle is stored exactly as a
/// single reading of the same quantity.
pub proof fn law_single_readings_store_their_quantity(
    step: PublishStep,
    other: PublishStep,
    t: wire::SensorType,
)
    ensures
        step == PublishStep::ChipTemperature ==> spec_store_action(step)
            == StoreAction::ChipTemperature,
        step == PublishStep::Temperature ==> spec_store_action(step) == StoreAction::Temperature,
        step == PublishStep::Humidity ==> spec_store_action(step) == StoreAction::Humidity,
        step == PublishStep::AirPressure ==> spec_store_action(step) == StoreAction::AirPressure,
        step == PublishStep::LightIntensity ==> spec_store_action(step)
            == StoreAction::AirPressure,
        step == PublishStep::BatteryVoltage ==> spec_store_action(step)
            == StoreAction::BatteryVoltage,
        step == PublishStep::Co2 ==> spec_store_action(step) == StoreAction::Co2,
        step == PublishStep::MeasurementBundle ==> spec_store_action(step)
            == StoreAction::BundledMeasurements,
        step == PublishStep::SensorError ==> spec_store_action(step) == StoreAction::SensorError,
        spec_payload_kind(step) == PayloadKind::SingleSimpleMeasure && spec_payload_kind(other)
            == PayloadKind::SingleSimpleMeasure && step != other && step
            != PublishStep::LightIntensity && other != PublishStep::LightIntensity
            ==> spec_store_action(step) != spec_store_action(other),
        spec_store_action(PublishStep::LightIntensity) == spec_store_action(
            PublishStep::AirPressure,
        ),
        step_measures(step, t) ==> spec_bundle_store_action(t) == Some(spec_store_action(step)),
{
}

/// Events of the MQTT connection, as far as the client's loop tells them
/// apart.
#[derive(Debug, PartialEq, Eq, Structural, Clone, Copy)]
pub enum MqEvent {
    /// An incoming `Publish` packet.
    IncomingPublish,
    /// Any other event.
    Other,
    /// A connection error: an I/O error of kind `ConnectionAborted`.
    ConnectionAborted,
    /// Any other connection error.
    OtherError,
}

/// What the client's loop does on an event.
#[derive(Debug, PartialEq, Eq, Structural, Clone, Copy)]
pub enum MqAction {
    /// Handle the published message and go on.
    HandlePublish,
    /// Go on.
    Continue,
    /// Log the error and go on.
    LogError,
    /// Log the error and leave the loop to reconnect.
    LogErrorAndDisconnect,
}

/// The action of the MQTT event loop on `event`.
pub fn mq_event_action(event: MqEvent) -> (r: MqAction)
    ensures
        event == MqEvent::IncomingPublish ==> r == MqAction::HandlePublish,
        event == MqEvent::Other ==> r == MqAction::Continue,
        event == MqEvent::ConnectionAborted ==> r == MqAction::LogErrorAndDisconnect,
        event == MqEvent::OtherError ==> r == MqAction::LogError,
{
    match event {
        MqEvent::IncomingPublish => MqAction::HandlePublish,
        MqEvent::Other => MqAction::Continue,
        MqEvent::ConnectionAborted => MqAction::LogErrorAndDisconnect,
        MqEvent::OtherError => MqAction::LogError,
    }
}

/// The payload of a published message is not UTF-8.
#[derive(Debug, PartialEq, Eq, Structural, Clone, Copy)]
pub enum PayloadError {
    InvalidUtf8,
}

/// `String::from_utf8`: the bytes as a string, if they are valid UTF-8.
#[verifier::external_body]
fn string_from_utf8(bytes: Vec<u8>) -> (r: Option<String>)
    ensures
        r is Some <==> valid_utf8(bytes@),
        r matches Some(s) ==> s@ == decode_utf8(bytes@),
{
    String::from_utf8(bytes).ok()
}

/// The text of a message payload, which is then read as JSON.
pub fn payload_text(payload: Vec<u8>) -> (r: Result<String, PayloadError>)
    ensures
        r is Ok <==> valid_utf8(payload@),
        r matches Ok(s) ==> s@ == decode_utf8(payload@),
        r matches Err(e) ==> e == PayloadError::InvalidUtf8,
{
    match string_from_utf8(payload) {
        Some(s) => Ok(s),
        None => Err(PayloadError::InvalidUtf8),
    }
}

} // verus!
