//! The decisions of the pipeline: which operation comes next after each
//! outcome, when a failure is retried, skipped or fatal, and what is logged.
//!
//! The driver performs no operation itself. Its caller lists the interfaces,
//! opens the channel, reads frames and sends messages, and reports each
//! outcome as an `Event`; the driver answers with the next `Action`.

use vstd::prelude::*;
use crate::error::{disposition_of, Disposition, PipelineError, PipelineErrorView};
use crate::frame::{decode, decoded, Decoded};
use crate::interface::{first_named, names_of, resolve_interface, NetworkInterface};
use crate::publish::{message_for, settings_for, Message, MessageView, PublisherSettings};
use crate::record::{event_text, format_event, Timestamp};

verus! {

/// Exit status after a requested shutdown.
pub const EXIT_OK: i32 = 0;

/// Exit status after a fatal failure.
pub const EXIT_FAILURE: i32 = 1;

/// The four settings of a run.
#[derive(Clone, Debug, PartialEq, Eq)]
pub struct Config {
    /// Name of the interface to capture on.
    pub interface: String,
    /// Address of the broker.
    pub broker: String,
    /// Topic that receives the records.
    pub topic: String,
    /// Routing key of every message.
    pub key: String,
}

impl Config {
    /// The producer settings that follow from the configuration.
    pub fn publisher_settings(&self) -> (settings: PublisherSettings)
        ensures
            settings@ == settings_for(self.broker@, self.key@),
    {
        PublisherSettings::new(self.broker.as_str(), self.key.as_str())
    }
}

/// How often a failed read or send is tried again, and after what pause.
#[derive(Clone, Copy, Debug, PartialEq, Eq, Structural)]
pub struct RetryPolicy {
    /// Retries allowed after the first failure of one read or one send.
    pub max_retries: u32,
    /// Pause before each retry, in milliseconds.
    pub backoff_ms: u64,
}

impl Default for RetryPolicy {
    /// Three retries, half a second apart.
    fn default() -> (policy: RetryPolicy)
        ensures
            policy == (RetryPolicy { max_retries: 3, backoff_ms: 500 }),
    {
        RetryPolicy { max_retries: 3, backoff_ms: 500 }
    }
}

/// Where the pipeline stands.
#[derive(Clone, Debug, PartialEq, Eq)]
pub enum State {
    /// Waiting for the list of interfaces.
    Resolving,
    /// Waiting for the capture channel to open.
    Opening,
    /// Waiting for the next frame.
    Capturing,
    /// Waiting for the broker to acknowledge this message.
    Publishing(Message),
    /// Finished, with this exit status.
    Stopped(i32),
}

/// A `State` with its message as a `MessageView`.
pub enum StateView {
    Resolving,
    Opening,
    Capturing,
    Publishing(MessageView),
    Stopped(i32),
}

impl View for State {
    type V = StateView;

    open spec fn view(&self) -> StateView {
        match self {
            State::Resolving => StateView::Resolving,
            State::Opening => StateView::Opening,
            State::Capturing => StateView::Capturing,
            State::Publishing(message) => StateView::Publishing(message@),
            State::Stopped(status) => StateView::Stopped(*status),
        }
    }
}

/// The outcome of the operation that the driver asked for last.
#[derive(Clone, Copy, Debug)]
pub enum Event<'a> {
    /// The interfaces of the machine, as the operating system lists them.
    Interfaces(&'a [NetworkInterface]),
    /// The capture channel is open.
    ChannelOpened,
    /// The capture channel could not be opened.
    ChannelFailed { cause: &'a str },
    /// A frame arrived at the instant `at`.
    Frame { bytes: &'a [u8], at: &'a Timestamp },
    /// Reading a frame failed.
    CaptureFailed { cause: &'a str },
    /// The broker acknowledged the message.
    Published,
    /// The message was not acknowledged.
    PublishFailed { cause: &'a str },
    /// The pipeline was asked to stop.
    Shutdown,
}

/// An `Event` with its data as sequences; of the interfaces, their names.
pub enum EventView {
    Interfaces(Seq<Seq<char>>),
    ChannelOpened,
    ChannelFailed { cause: Seq<char> },
    Frame { bytes: Seq<u8>, at: Seq<char> },
    CaptureFailed { cause: Seq<char> },
    Published,
    PublishFailed { cause: Seq<char> },
    Shutdown,
}

impl<'a> View for Event<'a> {
    type V = EventView;

    open spec fn view(&self) -> EventView {
        match self {
            Event::Interfaces(list) => EventView::Interfaces(names_of(list@)),
            Event::ChannelOpened => EventView::ChannelOpened,
            Event::ChannelFailed { cause } => EventView::ChannelFailed { cause: cause@ },
            Event::Frame { bytes, at } => EventView::Frame { bytes: bytes@, at: at@ },
            Event::CaptureFailed { cause } => EventView::CaptureFailed { cause: cause@ },
            Event::Published => EventView::Published,
            Event::PublishFailed { cause } => EventView::PublishFailed { cause: cause@ },
            Event::Shutdown => EventView::Shutdown,
        }
    }
}

/// The operation to perform next. Its outcome is the next event.
#[derive(Clone, Debug, PartialEq, Eq)]
pub enum Action {
    /// Open the capture channel on the listed interface at `index`.
    OpenChannel { index: usize },
    /// Wait `wait_ms` milliseconds, then read one frame.
    NextFrame { wait_ms: u64 },
    /// Wait `wait_ms` milliseconds, then send `message` once.
    Publish { message: Message, wait_ms: u64 },
    /// Release the channel and the broker connection and exit with `status`.
    Exit { status: i32 },
    /// The event was not awaited: nothing changes, nothing is to be done.
    Ignore,
}

/// An `Action` with its message as a `MessageView`.
pub enum ActionView {
    OpenChannel { index: usize },
    NextFrame { wait_ms: u64 },
    Publish { message: MessageView, wait_ms: u64 },
    Exit { status: i32 },
    Ignore,
}

impl View for Action {
    type V = ActionView;

    open spec fn view(&self) -> ActionView {
        match self {
            Action::OpenChannel { index } => ActionView::OpenChannel { index: *index },
            Action::NextFrame { wait_ms } => ActionView::NextFrame { wait_ms: *wait_ms },
            Action::Publish { message, wait_ms } => ActionView::Publish {
                message: message@,
                wait_ms: *wait_ms,
            },
            Action::Exit { status } => ActionView::Exit { status: *status },
            Action::Ignore => ActionView::Ignore,
        }
    }
}

/// The driver's answer to one event.
#[derive(Clone, Debug, PartialEq, Eq)]
pub struct Step {
    pub action: Action,
    /// A line for the local log: the record about to be sent, or the
    /// description of a failure. Logging it is best effort.
    pub log: Option<String>,
}

/// A `Step` with its texts as sequences of characters.
pub struct StepView {
    pub action: ActionView,
    pub log: Option<Seq<char>>,
}

impl View for Step {
    type V = StepView;

    open spec fn view(&self) -> StepView {
        StepView {
            action: self.action@,
            log: match self.log {
                Some(line) => Some(line@),
                None => None,
            },
        }
    }
}

/// The state of a run.
#[derive(Debug)]
pub struct Driver {
    config: Config,
    policy: RetryPolicy,
    state: State,
    retries: u32,
}

/// A `Driver` as the contracts see it.
pub struct DriverView {
    pub interface: Seq<char>,
    pub topic: Seq<char>,
    pub key: Seq<char>,
    pub policy: RetryPolicy,
    pub state: StateView,
    /// Retries spent on the read or the send in progress.
    pub retries: u32,
}

impl View for Driver {
    type V = DriverView;

    closed spec fn view(&self) -> DriverView {
        DriverView {
            interface: self.config.interface@,
            topic: self.config.topic@,
            key: self.config.key@,
            policy: self.policy,
            state: self.state@,
            retries: self.retries,
        }
    }
}

impl DriverView {
    /// The driver in `state`, with no retry spent.
    pub open spec fn enter(self, state: StateView) -> DriverView {
        DriverView { state, retries: 0, ..self }
    }

    /// Nothing changes and nothing is to be done.
    pub open spec fn ignore(self) -> (DriverView, StepView) {
        (self, StepView { action: ActionView::Ignore, log: None })
    }

    /// The run ends with `error`.
    pub open spec fn fail(self, error: PipelineErrorView) -> (DriverView, StepView) {
        (
            self.enter(StateView::Stopped(EXIT_FAILURE)),
            StepView {
                action: ActionView::Exit { status: EXIT_FAILURE },
                log: Some(error.description()),
            },
        )
    }

    /// The failed operation is tried again as `again` while the policy allows
    /// it, and ends the run after that.
    pub open spec fn retry_or_fail(self, error: PipelineErrorView, again: ActionView) -> (
        DriverView,
        StepView,
    ) {
        if self.retries < self.policy.max_retries {
            (
                DriverView { retries: (self.retries + 1) as u32, ..self },
                StepView { action: again, log: Some(error.description()) },
            )
        } else {
            self.fail(error)
        }
    }

    /// The answer to a frame that arrived while one was awaited.
    pub open spec fn on_frame(self, bytes: Seq<u8>, at: Seq<char>) -> (DriverView, StepView) {
        match decoded(bytes) {
            Ok(Decoded::Header(header)) => {
                let record = event_text(at, header, self.interface);
                let message = message_for(record, self.topic, self.key);
                (
                    self.enter(StateView::Publishing(message)),
                    StepView {
                        action: ActionView::Publish { message, wait_ms: 0 },
                        log: Some(record),
                    },
                )
            },
            Ok(Decoded::Unsupported { .. }) => (
                self.enter(StateView::Capturing),
                StepView { action: ActionView::NextFrame { wait_ms: 0 }, log: None },
            ),
            Err(malformed) => (
                self.enter(StateView::Capturing),
                StepView {
                    action: ActionView::NextFrame { wait_ms: 0 },
                    log: Some(PipelineErrorView::MalformedHeader(malformed).description()),
                },
            ),
        }
    }

    /// The state after `event` and the answer to it.
    ///
    /// A request to stop ends any run that has not ended. Apart from that each
    /// state awaits the outcomes of one operation, and any other event is
    /// ignored.
    pub open spec fn next(self, event: EventView) -> (DriverView, StepView) {
        match (self.state, event) {
            (StateView::Stopped(_), _) => self.ignore(),
            (_, EventView::Shutdown) => (
                self.enter(StateView::Stopped(EXIT_OK)),
                StepView { action: ActionView::Exit { status: EXIT_OK }, log: None },
            ),
            (StateView::Resolving, EventView::Interfaces(names)) => match first_named(
                names,
                self.interface,
            ) {
                Some(index) => (
                    self.enter(StateView::Opening),
                    StepView {
                        action: ActionView::OpenChannel { index: index as usize },
                        log: None,
                    },
                ),
                None => self.fail(PipelineErrorView::Resolution { name: self.interface }),
            },
            (StateView::Opening, EventView::ChannelOpened) => (
                self.enter(StateView::Capturing),
                StepView { action: ActionView::NextFrame { wait_ms: 0 }, log: None },
            ),
            (StateView::Opening, EventView::ChannelFailed { cause }) => self.fail(
                PipelineErrorView::Channel { interface: self.interface, cause },
            ),
            (StateView::Capturing, EventView::Frame { bytes, at }) => self.on_frame(bytes, at),
            (StateView::Capturing, EventView::CaptureFailed { cause }) => self.retry_or_fail(
                PipelineErrorView::Capture { interface: self.interface, cause },
                ActionView::NextFrame { wait_ms: self.policy.backoff_ms },
            ),
            (StateView::Publishing(_), EventView::Published) => (
                self.enter(StateView::Capturing),
                StepView { action: ActionView::NextFrame { wait_ms: 0 }, log: None },
            ),
            (StateView::Publishing(message), EventView::PublishFailed { cause }) => self.retry_or_fail(
                PipelineErrorView::Publish { topic: self.topic, cause },
                ActionView::Publish { message, wait_ms: self.policy.backoff_ms },
            ),
            _ => self.ignore(),
        }
    }
}

impl DriverView {
    /// The state after a run of events, oldest first.
    pub open spec fn after(self, events: Seq<EventView>) -> DriverView
        decreases events.len(),
    {
        if events.len() == 0 {
            self
        } else {
            self.next(events[0]).0.after(events.subrange(1, events.len() as int))
        }
    }

    /// The failure that `event` reports in this state, if it reports one.
    pub open spec fn failure(self, event: EventView) -> Option<PipelineErrorView> {
        match (self.state, event) {
            (StateView::Resolving, EventView::Interfaces(names)) => if first_named(
                names,
                self.interface,
            ) is None {
                Some(PipelineErrorView::Resolution { name: self.interface })
            } else {
                None
            },
            (StateView::Opening, EventView::ChannelFailed { cause }) => Some(
                PipelineErrorView::Channel { interface: self.interface, cause },
            ),
            (StateView::Capturing, EventView::Frame { bytes, .. }) => match decoded(bytes) {
                Err(malformed) => Some(PipelineErrorView::MalformedHeader(malformed)),
                Ok(_) => None,
            },
            (StateView::Capturing, EventView::CaptureFailed { cause }) => Some(
                PipelineErrorView::Capture { interface: self.interface, cause },
            ),
            (StateView::Publishing(_), EventView::PublishFailed { cause }) => Some(
                PipelineErrorView::Publish { topic: self.topic, cause },
            ),
            _ => None,
        }
    }

    /// Whether `event` reports that the operation awaited in this state
    /// failed in a way that is retried.
    pub open spec fn is_retried_failure(self, event: EventView) -> bool {
        ||| self.state is Capturing && event is CaptureFailed
        ||| self.state is Publishing && event is PublishFailed
    }
}

/// No event changes the settings of a run, and the retries spent never exceed
/// what the policy allows.
pub proof fn lemma_settings_kept(driver: DriverView, event: EventView)
    requires
        driver.retries <= driver.policy.max_retries,
    ensures
        driver.next(event).0.interface == driver.interface,
        driver.next(event).0.topic == driver.topic,
        driver.next(event).0.key == driver.key,
        driver.next(event).0.policy == driver.policy,
        driver.next(event).0.retries <= driver.policy.max_retries,
{
}

/// A frame is asked for only while no message awaits its acknowledgment, and a
/// message is sent only as the one that the driver then waits for. A frame
/// that decodes to a header is answered by sending its record once, at once,
/// to the configured topic under the configured key; no other frame is
/// answered by a message.
pub proof fn lemma_one_message_per_frame(driver: DriverView, event: EventView)
    ensures
        driver.next(event).1.action is NextFrame ==> driver.next(event).0.state is Capturing,
        driver.next(event).1.action matches ActionView::Publish { message, .. }
            ==> driver.next(event).0.state == StateView::Publishing(message),
        driver.state is Publishing && !(event is Published) && !(event is Shutdown)
            ==> !(driver.next(event).1.action is NextFrame),
        driver.state is Publishing && driver.next(event).1.action is Publish ==> driver.next(
            event,
        ).0.state == driver.state && event is PublishFailed,
        driver.state is Capturing ==> match event {
            EventView::Frame { bytes, at } => match decoded(bytes) {
                Ok(Decoded::Header(header)) => driver.next(event).1.action == (ActionView::Publish {
                    message: message_for(
                        event_text(at, header, driver.interface),
                        driver.topic,
                        driver.key,
                    ),
                    wait_ms: 0,
                }),
                _ => driver.next(event).1.action == (ActionView::NextFrame { wait_ms: 0 }),
            },
            _ => !(driver.next(event).1.action is Publish),
        },
{
}

/// Every failure is logged with its description and handled as its class
/// demands: a fatal one ends the run with the failure status; one that is
/// skipped costs the frame and nothing else; one that is retried has the same
/// read or the same send done again after the pause of the policy, and ends
/// the run once the retries are spent.
pub proof fn lemma_failures_by_class(driver: DriverView, event: EventView)
    ensures
        driver.failure(event) matches Some(error) ==> {
            let (then, step) = driver.next(event);
            let stopped = then.state == StateView::Stopped(EXIT_FAILURE) && step.action
                == (ActionView::Exit { status: EXIT_FAILURE });
            &&& step.log == Some(error.description())
            &&& match disposition_of(error.kind()) {
                Disposition::Fatal => stopped,
                Disposition::Skip => then.state is Capturing && step.action
                    == (ActionView::NextFrame { wait_ms: 0 }),
                Disposition::Retry => if driver.retries < driver.policy.max_retries {
                    &&& then == (DriverView { retries: (driver.retries + 1) as u32, ..driver })
                    &&& step.action == match driver.state {
                        StateView::Publishing(message) => ActionView::Publish {
                            message,
                            wait_ms: driver.policy.backoff_ms,
                        },
                        _ => ActionView::NextFrame { wait_ms: driver.policy.backoff_ms },
                    }
                } else {
                    stopped
                },
            }
        },
        driver.failure(event) is None ==> !(driver.next(event).1.action
            == (ActionView::Exit { status: EXIT_FAILURE })),
{
}

/// A run that has ended stays ended, whatever is reported to it.
pub proof fn lemma_stopped_is_final(driver: DriverView, events: Seq<EventView>)
    requires
        driver.state is Stopped,
    ensures
        driver.after(events) == driver,
    decreases events.len(),
{
    if events.len() > 0 {
        lemma_stopped_is_final(driver, events.subrange(1, events.len() as int));
    }
}

/// Retrying is bounded: when the same read or the same send fails more often
/// in a row than the policy allows retries, the run ends with the failure
/// status. Until then each failure is answered by the same operation again,
/// after the pause of the policy.
pub proof fn lemma_retries_end(driver: DriverView, events: Seq<EventView>)
    requires
        driver.retries <= driver.policy.max_retries,
        driver.state is Capturing || driver.state is Publishing,
        forall|i: int| 0 <= i < events.len() ==> driver.is_retried_failure(#[trigger] events[i]),
    ensures
        events.len() > driver.policy.max_retries - driver.retries ==> driver.after(events).state
            == StateView::Stopped(EXIT_FAILURE),
        events.len() <= driver.policy.max_retries - driver.retries ==> driver.after(events)
            == (DriverView { retries: (driver.retries + events.len()) as u32, ..driver }),
    decreases events.len(),
{
    if events.len() > 0 {
        let rest = events.subrange(1, events.len() as int);
        let then = driver.next(events[0]).0;
        assert(driver.is_retried_failure(events[0]));
        if driver.retries < driver.policy.max_retries {
            assert forall|i: int| 0 <= i < rest.len() implies then.is_retried_failure(
                #[trigger] rest[i],
            ) by {
                assert(rest[i] == events[i + 1]);
                assert(driver.is_retried_failure(events[i + 1]));
            }
            lemma_retries_end(then, rest);
        } else {
            lemma_stopped_is_final(then, rest);
        }
    }
}

impl Driver {
    /// A driver that awaits the list of interfaces.
    pub fn new(config: Config, policy: RetryPolicy) -> (driver: Driver)
        ensures
            driver@ == (DriverView {
                interface: config.interface@,
                topic: config.topic@,
                key: config.key@,
                policy,
                state: StateView::Resolving,
                retries: 0,
            }),
    {
        Driver { config, policy, state: State::Resolving, retries: 0 }
    }

    /// The settings of the run.
    pub fn config(&self) -> (config: &Config)
        ensures
            config.interface@ == self@.interface,
            config.topic@ == self@.topic,
            config.key@ == self@.key,
    {
        &self.config
    }

    /// Where the pipeline stands.
    pub fn state(&self) -> (state: &State)
        ensures
            state@ == self@.state,
    {
        &self.state
    }

    /// Whether the run has ended.
    pub fn is_stopped(&self) -> (stopped: bool)
        ensures
            stopped == (self@.state is Stopped),
    {
        match self.state {
            State::Stopped(_) => true,
            _ => false,
        }
    }

    fn ignore(&self) -> (step: Step)
        ensures
            (self@, step@) == self@.ignore(),
    {
        Step { action: Action::Ignore, log: None }
    }

    fn fail(&mut self, error: PipelineError) -> (step: Step)
        ensures
            (final(self)@, step@) == old(self)@.fail(error@),
    {
        self.state = State::Stopped(EXIT_FAILURE);
        self.retries = 0;
        Step { action: Action::Exit { status: EXIT_FAILURE }, log: Some(error.describe()) }
    }

    fn retry_or_fail(&mut self, error: PipelineError, again: Action) -> (step: Step)
        ensures
            (final(self)@, step@) == old(self)@.retry_or_fail(error@, again@),
    {
        if self.retries < self.policy.max_retries {
            self.retries = self.retries + 1;
            Step { action: again, log: Some(error.describe()) }
        } else {
            self.fail(error)
        }
    }

    fn on_frame(&mut self, bytes: &[u8], at: &Timestamp) -> (step: Step)
        ensures
            (final(self)@, step@) == old(self)@.on_frame(bytes@, at@),
    {
        self.retries = 0;
        match decode(bytes) {
            Ok(Decoded::Header(header)) => {
                let record = format_event(&header, self.config.interface.as_str(), at);
                let message = Message::new(
                    record.as_str(),
                    self.config.topic.as_str(),
                    self.config.key.as_str(),
                );
                self.state = State::Publishing(message.duplicate());
                Step { action: Action::Publish { message, wait_ms: 0 }, log: Some(record) }
            },
            Ok(Decoded::Unsupported { .. }) => {
                self.state = State::Capturing;
                Step { action: Action::NextFrame { wait_ms: 0 }, log: None }
            },
            Err(malformed) => {
                self.state = State::Capturing;
                let error = PipelineError::MalformedHeader(malformed);
                Step { action: Action::NextFrame { wait_ms: 0 }, log: Some(error.describe()) }
            },
        }
    }

    /// Takes the outcome of the last operation and answers with the next one.
    pub fn step(&mut self, event: Event<'_>) -> (step: Step)
        ensures
            (final(self)@, step@) == old(self)@.next(event@),
    {
        if self.is_stopped() {
            return self.ignore();
        }
        match event {
            Event::Shutdown => {
                self.state = State::Stopped(EXIT_OK);
                self.retries = 0;
                Step { action: Action::Exit { status: EXIT_OK }, log: None }
            },
            Event::Interfaces(list) => {
                if let State::Resolving = self.state {
                    match resolve_interface(list, self.config.interface.as_str()) {
                        Ok(index) => {
                            self.state = State::Opening;
                            self.retries = 0;
                            Step { action: Action::OpenChannel { index }, log: None }
                        },
                        Err(error) => self.fail(error),
                    }
                } else {
                    self.ignore()
                }
            },
            Event::ChannelOpened => {
                if let State::Opening = self.state {
                    self.state = State::Capturing;
                    self.retries = 0;
                    Step { action: Action::NextFrame { wait_ms: 0 }, log: None }
                } else {
                    self.ignore()
                }
            },
            Event::ChannelFailed { cause } => {
                if let State::Opening = self.state {
                    let error = PipelineError::Channel {
                        interface: self.config.interface.clone(),
                        cause: cause.to_owned(),
                    };
                    self.fail(error)
                } else {
                    self.ignore()
                }
            },
            Event::Frame { bytes, at } => {
                if let State::Capturing = self.state {
                    self.on_frame(bytes, at)
                } else {
                    self.ignore()
                }
            },
            Event::CaptureFailed { cause } => {
                if let State::Capturing = self.state {
                    let error = PipelineError::Capture {
                        interface: self.config.interface.clone(),
                        cause: cause.to_owned(),
                    };
                    let again = Action::NextFrame { wait_ms: self.policy.backoff_ms };
                    self.retry_or_fail(error, again)
                } else {
                    self.ignore()
                }
            },
            Event::Published => {
                if let State::Publishing(_) = self.state {
                    self.state = State::Capturing;
                    self.retries = 0;
                    Step { action: Action::NextFrame { wait_ms: 0 }, log: None }
                } else {
                    self.ignore()
                }
            },
            Event::PublishFailed { cause } => {
                if let State::Publishing(message) = &self.state {
                    let error = PipelineError::Publish {
                        topic: self.config.topic.clone(),
                        cause: cause.to_owned(),
                    };
                    let again = Action::Publish {
                        message: message.duplicate(),
                        wait_ms: self.policy.backoff_ms,
                    };
                    self.retry_or_fail(error, again)
                } else {
                    self.ignore()
                }
            },
        }
    }
}

} // verus!
