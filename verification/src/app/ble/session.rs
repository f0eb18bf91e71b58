//! One BLE session: advertise, serve GATT until disconnect (or error), with
//! the normal application work in between.
//!
//! [`Session::step`] decides; the caller performs the [`Action`] it is given
//! and comes back with the [`Answer`]. GATT writes and reads happen while the
//! stack works ([`Action::Work`]) and go to [`Session::rx`] directly.
//!
//! While a transfer is in flight nothing but the HCI pump runs: even a short
//! I2C read would let the controller's queue overflow under the phone's
//! write-without-response burst.

use crate::app::ble::{ImgRx, RxModel, ST_IDLE, ST_RECEIVING};
use crate::app::image::{ImageModel, MonoImage};
use crate::app::{elapsed_ms, DOZE_AFTER_MS};
use vstd::prelude::*;

verus! {

/// Advertising interval, in units of 0.625 ms: found within a second by
/// phones, with little radio time.
pub const ADV_INTERVAL_MIN: u16 = 0x0140;

pub const ADV_INTERVAL_MAX: u16 = 0x0190;

/// Rounds of the HCI pump before other work gets its turn.
pub const PUMPS: u8 = 96;

/// Work errors that end a session.
pub const MAX_ERRORS: u8 = 8;

/// A central was active this recently: cheap housekeeping only.
pub const ACTIVE_MS: u64 = 3_000;

/// Why a BLE session ended.
#[derive(Debug, Clone, Copy, PartialEq, Eq, Structural)]
pub enum SessionEnd {
    /// Disconnect or stack error: start a new session right away.
    Restart,
    /// Nothing happened for a long time: advertising is off, the caller
    /// should doze (light sleep) until something wakes the plate.
    Doze,
}

/// What the stack did with a packet.
#[derive(Debug, Clone, Copy, PartialEq, Eq, Structural)]
pub enum Work {
    Disconnected,
    Did,
    Failed,
}

/// What the session waits for.
#[derive(Debug, Clone, Copy, PartialEq, Eq, Structural)]
pub enum Stage {
    Init,
    InitFailed,
    Parameters,
    Defaults,
    Data,
    Enable,
    Pending,
    Working,
    Image,
    Content,
    Light,
    Quiet,
    Tick,
    Stopping,
    Over,
}

/// What to do next.
pub enum Action {
    /// Initialise the stack; answer with the outcome.
    InitStack,
    Pause(u32),
    /// Set the advertising parameters; answer with the outcome.
    SetParameters,
    /// Set the stack's own advertising parameters.
    DefaultParameters,
    /// Build and set the advertising data; answer whether it could be built.
    SetData,
    EnableAdvertising,
    /// Does the controller have something for us? Answer with the outcome.
    AskPending,
    /// Let the stack work, with a STATUS notification to send.
    Work(Option<[u8; 9]>),
    ApplyImage(MonoImage),
    /// Apply a plate text; answer with the plain form of the content.
    ApplyContent(Vec<u8>),
    /// Touch, buttons and display sleep only.
    TickLight,
    /// Is everything quiet enough to doze? Answer with the outcome.
    AskQuiet,
    /// A round of the normal application work.
    Tick,
    DisableAdvertising,
    End(SessionEnd),
}

/// What came of an action.
pub enum Answer {
    Done,
    Outcome(bool),
    Worked(Work),
    Content(Vec<u8>),
}

/// An action, mathematically.
pub enum ActionModel {
    InitStack,
    Pause(u32),
    SetParameters,
    DefaultParameters,
    SetData,
    EnableAdvertising,
    AskPending,
    Work(Option<Seq<u8>>),
    ApplyImage(ImageModel),
    ApplyContent(Seq<u8>),
    TickLight,
    AskQuiet,
    Tick,
    DisableAdvertising,
    End(SessionEnd),
}

/// An answer, mathematically.
pub enum AnswerModel {
    Done,
    Outcome(bool),
    Worked(Work),
    Content(Seq<u8>),
}

impl View for Action {
    type V = ActionModel;

    open spec fn view(&self) -> ActionModel {
        match *self {
            Action::InitStack => ActionModel::InitStack,
            Action::Pause(ms) => ActionModel::Pause(ms),
            Action::SetParameters => ActionModel::SetParameters,
            Action::DefaultParameters => ActionModel::DefaultParameters,
            Action::SetData => ActionModel::SetData,
            Action::EnableAdvertising => ActionModel::EnableAdvertising,
            Action::AskPending => ActionModel::AskPending,
            Action::Work(ntf) => ActionModel::Work(crate::app::ble::status_view(ntf)),
            Action::ApplyImage(image) => ActionModel::ApplyImage(image@),
            Action::ApplyContent(text) => ActionModel::ApplyContent(text@),
            Action::TickLight => ActionModel::TickLight,
            Action::AskQuiet => ActionModel::AskQuiet,
            Action::Tick => ActionModel::Tick,
            Action::DisableAdvertising => ActionModel::DisableAdvertising,
            Action::End(end) => ActionModel::End(end),
        }
    }
}

impl View for Answer {
    type V = AnswerModel;

    open spec fn view(&self) -> AnswerModel {
        match *self {
            Answer::Done => AnswerModel::Done,
            Answer::Outcome(ok) => AnswerModel::Outcome(ok),
            Answer::Worked(w) => AnswerModel::Worked(w),
            Answer::Content(text) => AnswerModel::Content(text@),
        }
    }
}

/// A session between two actions.
pub struct Session {
    pub rx: ImgRx,
    /// Client configuration of the STATUS characteristic.
    pub cccd: [u8; 2],
    /// The plate text that the CONTENT characteristic serves.
    pub content: Vec<u8>,
    pub stage: Stage,
    pub pumps: u8,
    pub errors: u8,
    /// Last time the controller handed us anything (connection traffic counts
    /// as activity even without GATT operations).
    pub hci_last_ms: u64,
    /// The doze test was asked for.
    pub doze_test: bool,
}

/// A session, mathematically.
pub struct SessionModel {
    pub rx: RxModel,
    pub content: Seq<u8>,
    pub stage: Stage,
    pub pumps: u8,
    pub errors: u8,
    pub hci_last_ms: u64,
    pub doze_test: bool,
}

impl View for Session {
    type V = SessionModel;

    open spec fn view(&self) -> SessionModel {
        SessionModel {
            rx: self.rx@,
            content: self.content@,
            stage: self.stage,
            pumps: self.pumps,
            errors: self.errors,
            hci_last_ms: self.hci_last_ms,
            doze_test: self.doze_test,
        }
    }
}

impl SessionModel {
    pub open spec fn fresh(content: Seq<u8>) -> SessionModel {
        SessionModel {
            rx: RxModel::fresh(),
            content,
            stage: Stage::Init,
            pumps: 0,
            errors: 0,
            hci_last_ms: 0,
            doze_test: false,
        }
    }

    pub open spec fn wf(self) -> bool {
        self.rx.wf() && self.pumps < PUMPS && self.errors < MAX_ERRORS
    }

    /// Wait in a stage for an action.
    pub open spec fn wait(self, stage: Stage, action: ActionModel) -> (SessionModel, ActionModel) {
        (SessionModel { stage, ..self }, action)
    }

    /// A pending notification is sent at once; otherwise the controller is
    /// asked.
    pub open spec fn pump(self, now: u64) -> (SessionModel, ActionModel) {
        let s = SessionModel { rx: self.rx.notified(), ..self };
        match self.rx.notification() {
            Some(bytes) => SessionModel { hci_last_ms: now, ..s }.wait(
                Stage::Working,
                ActionModel::Work(Some(bytes)),
            ),
            None => s.wait(Stage::Pending, ActionModel::AskPending),
        }
    }

    /// A new series of pump rounds.
    pub open spec fn pump_anew(self, now: u64) -> (SessionModel, ActionModel) {
        SessionModel { pumps: 0, ..self }.pump(now)
    }

    pub open spec fn after_work(self, w: Work, now: u64) -> (SessionModel, ActionModel) {
        match w {
            Work::Disconnected => self.finish(SessionEnd::Restart),
            Work::Did => if self.pumps + 1 >= PUMPS {
                SessionModel { pumps: 0, ..self }.apply_image(now)
            } else {
                SessionModel { pumps: (self.pumps + 1) as u8, ..self }.pump(now)
            },
            Work::Failed => if self.errors + 1 >= MAX_ERRORS {
                self.finish(SessionEnd::Restart)
            } else {
                SessionModel { errors: (self.errors + 1) as u8, ..self }.apply_image(now)
            },
        }
    }

    /// A committed image is applied only after its STATUS notification went
    /// out (the e-paper refresh blocks the HCI pump for seconds).
    pub open spec fn apply_image(self, now: u64) -> (SessionModel, ActionModel) {
        if !self.rx.pending_ntf && self.rx.done is Some {
            SessionModel { rx: RxModel { done: None, ..self.rx }, ..self }.wait(
                Stage::Image,
                ActionModel::ApplyImage(self.rx.done->Some_0),
            )
        } else {
            self.apply_content(now)
        }
    }

    /// The same for a committed text.
    pub open spec fn apply_content(self, now: u64) -> (SessionModel, ActionModel) {
        if !self.rx.pending_ntf && self.rx.done_content is Some {
            SessionModel { rx: RxModel { done_content: None, ..self.rx }, ..self }.wait(
                Stage::Content,
                ActionModel::ApplyContent(self.rx.done_content->Some_0),
            )
        } else {
            self.other_work(now)
        }
    }

    /// What was committed has been applied.
    pub open spec fn applied(self) -> SessionModel {
        SessionModel { rx: RxModel { state: ST_IDLE, ..self.rx }, errors: 0, ..self }
    }

    pub open spec fn other_work(self, now: u64) -> (SessionModel, ActionModel) {
        if self.rx.state == ST_RECEIVING {
            self.pump_anew(now)
        } else if crate::app::elapsed(self.rx.last_ms, now) < ACTIVE_MS {
            self.wait(Stage::Light, ActionModel::TickLight)
        } else if self.rx.doze_test_req {
            self.finish(SessionEnd::Doze)
        } else if crate::app::elapsed(self.hci_last_ms, now) > DOZE_AFTER_MS {
            self.wait(Stage::Quiet, ActionModel::AskQuiet)
        } else {
            self.wait(Stage::Tick, ActionModel::Tick)
        }
    }

    /// A requested doze test is honoured however the session ends (the bench
    /// client disconnects right after asking). Before dozing, advertising is
    /// stopped.
    pub open spec fn finish(self, end: SessionEnd) -> (SessionModel, ActionModel) {
        let s = SessionModel { doze_test: self.doze_test || self.rx.doze_test_req, ..self };
        if self.rx.doze_test_req || end == SessionEnd::Doze {
            s.wait(Stage::Stopping, ActionModel::DisableAdvertising)
        } else {
            s.wait(Stage::Over, ActionModel::End(SessionEnd::Restart))
        }
    }

    /// What follows an answer. One that does not belong to the action ends
    /// the session.
    pub open spec fn step(self, answer: AnswerModel, now: u64) -> (SessionModel, ActionModel) {
        match (self.stage, answer) {
            (Stage::Init, AnswerModel::Outcome(ok)) => if ok {
                self.wait(Stage::Parameters, ActionModel::SetParameters)
            } else {
                self.wait(Stage::InitFailed, ActionModel::Pause(1000))
            },
            (Stage::InitFailed, AnswerModel::Done) => self.wait(
                Stage::Over,
                ActionModel::End(SessionEnd::Restart),
            ),
            (Stage::Parameters, AnswerModel::Outcome(ok)) => if ok {
                self.wait(Stage::Data, ActionModel::SetData)
            } else {
                self.wait(Stage::Defaults, ActionModel::DefaultParameters)
            },
            (Stage::Defaults, AnswerModel::Done) => self.wait(Stage::Data, ActionModel::SetData),
            (Stage::Data, AnswerModel::Outcome(ok)) => if ok {
                self.wait(Stage::Enable, ActionModel::EnableAdvertising)
            } else {
                self.wait(Stage::Over, ActionModel::End(SessionEnd::Restart))
            },
            (Stage::Enable, AnswerModel::Done) => SessionModel {
                hci_last_ms: now,
                ..self
            }.pump_anew(now),
            (Stage::Pending, AnswerModel::Outcome(have)) => if have {
                SessionModel { hci_last_ms: now, ..self }.wait(
                    Stage::Working,
                    ActionModel::Work(None),
                )
            } else {
                self.apply_image(now)
            },
            (Stage::Working, AnswerModel::Worked(w)) => self.after_work(w, now),
            (Stage::Image, AnswerModel::Done) => self.applied().apply_content(now),
            (Stage::Content, AnswerModel::Content(text)) => SessionModel {
                content: text,
                ..self.applied()
            }.other_work(now),
            (Stage::Light, AnswerModel::Done) => self.pump_anew(now),
            (Stage::Quiet, AnswerModel::Outcome(quiet)) => if quiet {
                self.finish(SessionEnd::Doze)
            } else {
                self.wait(Stage::Tick, ActionModel::Tick)
            },
            (Stage::Tick, AnswerModel::Done) => self.pump_anew(now),
            (Stage::Stopping, AnswerModel::Done) => self.wait(
                Stage::Over,
                ActionModel::End(SessionEnd::Doze),
            ),
            _ => self.wait(Stage::Over, ActionModel::End(SessionEnd::Restart)),
        }
    }
}

impl Session {
    /// A new session that serves this plate text; the stack has to be
    /// initialised first.
    pub fn begin(content: Vec<u8>) -> (r: (Session, Action))
        ensures
            r.0@ == SessionModel::fresh(content@),
            r.0@.wf(),
            r.0.cccd@ == seq![0u8, 0u8],
            r.1@ == ActionModel::InitStack,
    {
        let cccd = [0u8; 2];
        assert(cccd@ =~= seq![0u8, 0u8]);
        let s = Session {
            rx: ImgRx::new(),
            cccd,
            content,
            stage: Stage::Init,
            pumps: 0,
            errors: 0,
            hci_last_ms: 0,
            doze_test: false,
        };
        (s, Action::InitStack)
    }

    fn wait(&mut self, stage: Stage, action: Action) -> (same: Action)
        requires
            old(self)@.wf(),
        ensures
            (final(self)@, same@) == old(self)@.wait(stage, action@),
            final(self)@.wf(),
            final(self).cccd == old(self).cccd,
    {
        self.stage = stage;
        action
    }

    fn pump(&mut self, now: u64) -> (action: Action)
        requires
            old(self)@.wf(),
        ensures
            (final(self)@, action@) == old(self)@.pump(now),
            final(self)@.wf(),
            final(self).cccd == old(self).cccd,
    {
        match self.rx.take_notification() {
            Some(bytes) => {
                self.hci_last_ms = now;
                self.wait(Stage::Working, Action::Work(Some(bytes)))
            },
            None => self.wait(Stage::Pending, Action::AskPending),
        }
    }

    fn pump_anew(&mut self, now: u64) -> (action: Action)
        requires
            old(self)@.wf(),
        ensures
            (final(self)@, action@) == old(self)@.pump_anew(now),
            final(self)@.wf(),
            final(self).cccd == old(self).cccd,
    {
        self.pumps = 0;
        self.pump(now)
    }

    fn finish(&mut self, end: SessionEnd) -> (action: Action)
        requires
            old(self)@.wf(),
        ensures
            (final(self)@, action@) == old(self)@.finish(end),
            final(self)@.wf(),
            final(self).cccd == old(self).cccd,
    {
        self.doze_test = self.doze_test || self.rx.doze_test_req;
        if self.rx.doze_test_req || end == SessionEnd::Doze {
            self.wait(Stage::Stopping, Action::DisableAdvertising)
        } else {
            self.wait(Stage::Over, Action::End(SessionEnd::Restart))
        }
    }

    fn other_work(&mut self, now: u64) -> (action: Action)
        requires
            old(self)@.wf(),
        ensures
            (final(self)@, action@) == old(self)@.other_work(now),
            final(self)@.wf(),
            final(self).cccd == old(self).cccd,
    {
        if self.rx.receiving() {
            self.pump_anew(now)
        } else if elapsed_ms(self.rx.last_ms, now) < ACTIVE_MS {
            self.wait(Stage::Light, Action::TickLight)
        } else if self.rx.doze_test_req {
            self.finish(SessionEnd::Doze)
        } else if elapsed_ms(self.hci_last_ms, now) > DOZE_AFTER_MS {
            self.wait(Stage::Quiet, Action::AskQuiet)
        } else {
            self.wait(Stage::Tick, Action::Tick)
        }
    }

    fn apply_content(&mut self, now: u64) -> (action: Action)
        requires
            old(self)@.wf(),
        ensures
            (final(self)@, action@) == old(self)@.apply_content(now),
            final(self)@.wf(),
            final(self).cccd == old(self).cccd,
    {
        if !self.rx.pending_ntf {
            if let Some(text) = self.rx.done_content.take() {
                return self.wait(Stage::Content, Action::ApplyContent(text));
            }
        }
        assert(self@ == old(self)@);
        self.other_work(now)
    }

    fn apply_image(&mut self, now: u64) -> (action: Action)
        requires
            old(self)@.wf(),
        ensures
            (final(self)@, action@) == old(self)@.apply_image(now),
            final(self)@.wf(),
            final(self).cccd == old(self).cccd,
    {
        if !self.rx.pending_ntf {
            if let Some(image) = self.rx.done.take() {
                return self.wait(Stage::Image, Action::ApplyImage(image));
            }
        }
        assert(self@ == old(self)@);
        self.apply_content(now)
    }

    fn applied(&mut self)
        requires
            old(self)@.wf(),
        ensures
            final(self)@ == old(self)@.applied(),
            final(self)@.wf(),
            final(self).cccd == old(self).cccd,
    {
        self.rx.state = ST_IDLE;
        self.errors = 0;
    }

    fn after_work(&mut self, w: Work, now: u64) -> (action: Action)
        requires
            old(self)@.wf(),
        ensures
            (final(self)@, action@) == old(self)@.after_work(w, now),
            final(self)@.wf(),
            final(self).cccd == old(self).cccd,
    {
        match w {
            Work::Disconnected => self.finish(SessionEnd::Restart),
            Work::Did => {
                if self.pumps + 1 >= PUMPS {
                    self.pumps = 0;
                    self.apply_image(now)
                } else {
                    self.pumps += 1;
                    self.pump(now)
                }
            },
            Work::Failed => {
                if self.errors + 1 >= MAX_ERRORS {
                    self.finish(SessionEnd::Restart)
                } else {
                    self.errors += 1;
                    self.apply_image(now)
                }
            },
        }
    }

    /// Decide what follows an answer.
    pub fn step(&mut self, answer: Answer, now: u64) -> (action: Action)
        requires
            old(self)@.wf(),
        ensures
            (final(self)@, action@) == old(self)@.step(answer@, now),
            final(self)@.wf(),
            final(self).cccd == old(self).cccd,
    {
        match (self.stage, answer) {
            (Stage::Init, Answer::Outcome(ok)) => {
                if ok {
                    self.wait(Stage::Parameters, Action::SetParameters)
                } else {
                    self.wait(Stage::InitFailed, Action::Pause(1000))
                }
            },
            (Stage::InitFailed, Answer::Done) => self.wait(
                Stage::Over,
                Action::End(SessionEnd::Restart),
            ),
            (Stage::Parameters, Answer::Outcome(ok)) => {
                if ok {
                    self.wait(Stage::Data, Action::SetData)
                } else {
                    self.wait(Stage::Defaults, Action::DefaultParameters)
                }
            },
            (Stage::Defaults, Answer::Done) => self.wait(Stage::Data, Action::SetData),
            (Stage::Data, Answer::Outcome(ok)) => {
                if ok {
                    self.wait(Stage::Enable, Action::EnableAdvertising)
                } else {
                    self.wait(Stage::Over, Action::End(SessionEnd::Restart))
                }
            },
            (Stage::Enable, Answer::Done) => {
                self.hci_last_ms = now;
                self.pump_anew(now)
            },
            (Stage::Pending, Answer::Outcome(have)) => {
                if have {
                    self.hci_last_ms = now;
                    self.wait(Stage::Working, Action::Work(None))
                } else {
                    self.apply_image(now)
                }
            },
            (Stage::Working, Answer::Worked(w)) => self.after_work(w, now),
            (Stage::Image, Answer::Done) => {
                self.applied();
                self.apply_content(now)
            },
            (Stage::Content, Answer::Content(text)) => {
                self.applied();
                self.content = text;
                self.other_work(now)
            },
            (Stage::Light, Answer::Done) => self.pump_anew(now),
            (Stage::Quiet, Answer::Outcome(quiet)) => {
                if quiet {
                    self.finish(SessionEnd::Doze)
                } else {
                    self.wait(Stage::Tick, Action::Tick)
                }
            },
            (Stage::Tick, Answer::Done) => self.pump_anew(now),
            (Stage::Stopping, Answer::Done) => self.wait(
                Stage::Over,
                Action::End(SessionEnd::Doze),
            ),
            _ => self.wait(Stage::Over, Action::End(SessionEnd::Restart)),
        }
    }
}

// ----------------------------------------------------------------------
// what holds of every session
// ----------------------------------------------------------------------

/// An image or a text is handed on only when no notification is pending: the
/// client has been told of the commit.
pub proof fn a_commit_is_reported_before_it_is_applied(
    s: SessionModel,
    answer: AnswerModel,
    now: u64,
)
    ensures
        s.step(answer, now).1 is ApplyImage || s.step(answer, now).1 is ApplyContent
            ==> !s.step(answer, now).0.rx.pending_ntf,
{
}

/// While a transfer is in flight, nothing but the HCI pump is asked for.
pub proof fn a_transfer_is_not_disturbed(s: SessionModel, answer: AnswerModel, now: u64)
    requires
        s.stage == Stage::Quiet ==> s.rx.state != ST_RECEIVING,
    ensures
        ({
            let (after, action) = s.step(answer, now);
            &&& action is TickLight || action is Tick || action is AskQuiet ==> after.rx.state
                != ST_RECEIVING
            &&& after.stage == Stage::Quiet ==> after.rx.state != ST_RECEIVING
        }),
{
}

/// Before the plate may doze, advertising is stopped.
pub proof fn advertising_stops_before_dozing(s: SessionModel, answer: AnswerModel, now: u64)
    ensures
        s.step(answer, now).1 == ActionModel::End(SessionEnd::Doze) ==> s.stage == Stage::Stopping,
        s.step(answer, now).0.stage == Stage::Stopping <==> s.step(answer, now).1
            is DisableAdvertising,
{
}

/// A doze test that was asked for is honoured however the session ends once
/// advertising runs.
pub proof fn a_doze_test_is_honoured(s: SessionModel, end: SessionEnd)
    requires
        s.rx.doze_test_req,
    ensures
        s.finish(end).0.doze_test,
        s.finish(end).1 is DisableAdvertising,
{
}

/// Too many work errors since something was last applied end the session.
pub proof fn the_eighth_error_restarts(s: SessionModel, now: u64)
    requires
        s.wf(),
        s.stage == Stage::Working,
        s.errors == MAX_ERRORS - 1,
        !s.rx.doze_test_req,
    ensures
        s.step(AnswerModel::Worked(Work::Failed), now).1 == ActionModel::End(SessionEnd::Restart),
{
}

/// How a session begins: stack, advertising parameters (the stack's own if
/// ours are refused), advertising data, advertising; a stack that does not come
/// up is given a second, and data that cannot be built ends the session.
pub proof fn a_session_begins_step_by_step(s: SessionModel, ok: bool, now: u64)
    ensures
        ({
            let (after, action) = s.step(AnswerModel::Outcome(ok), now);
            &&& s.stage == Stage::Init && ok ==> action == ActionModel::SetParameters && after.stage
                == Stage::Parameters
            &&& s.stage == Stage::Init && !ok ==> action == ActionModel::Pause(1000) && after.stage
                == Stage::InitFailed
            &&& s.stage == Stage::Parameters && ok ==> action == ActionModel::SetData && after.stage
                == Stage::Data
            &&& s.stage == Stage::Parameters && !ok ==> action == ActionModel::DefaultParameters
                && after.stage == Stage::Defaults
            &&& s.stage == Stage::Data && ok ==> action == ActionModel::EnableAdvertising
                && after.stage == Stage::Enable
            &&& s.stage == Stage::Data && !ok ==> action == ActionModel::End(SessionEnd::Restart)
        }),
        ({
            let (after, action) = s.step(AnswerModel::Done, now);
            &&& s.stage == Stage::InitFailed ==> action == ActionModel::End(SessionEnd::Restart)
            &&& s.stage == Stage::Defaults ==> action == ActionModel::SetData && after.stage
                == Stage::Data
            &&& s.stage == Stage::Enable && !(s.rx.pending_ntf && s.rx.notify_on) ==> action
                == ActionModel::AskPending && after.hci_last_ms == now
        }),
        SessionModel::fresh(s.content).stage == Stage::Init,
        SessionModel::fresh(s.content).content == s.content,
{
}

/// A status that is due goes out before anything else is asked of the
/// controller; whatever the controller has is worked on, and both count as
/// traffic.
pub proof fn the_pump_serves_the_status_first(s: SessionModel, now: u64)
    requires
        s.stage == Stage::Light || s.stage == Stage::Tick,
    ensures
        ({
            let (after, action) = s.step(AnswerModel::Done, now);
            let due = s.rx.pending_ntf && s.rx.notify_on;
            &&& due ==> action == ActionModel::Work(Some(s.rx.status_bytes())) && after.stage
                == Stage::Working && after.hci_last_ms == now
            &&& !due ==> action == ActionModel::AskPending && after.stage == Stage::Pending
                && after.hci_last_ms == s.hci_last_ms
            &&& !after.rx.pending_ntf
            &&& after.pumps == 0
        }),
{
}

/// What the controller has is worked on at once.
pub proof fn packets_are_worked_on(s: SessionModel, now: u64)
    requires
        s.stage == Stage::Pending,
    ensures
        ({
            let (after, action) = s.step(AnswerModel::Outcome(true), now);
            &&& action == ActionModel::Work(None)
            &&& after == (SessionModel { stage: Stage::Working, hci_last_ms: now, ..s })
        }),
{
}

/// Work goes on for up to 96 rounds before anything else gets its turn; a
/// disconnect ends the session.
pub proof fn the_pump_runs_for_a_while(s: SessionModel, now: u64)
    requires
        s.wf(),
        s.stage == Stage::Working,
        !s.rx.doze_test_req,
    ensures
        ({
            let (after, action) = s.step(AnswerModel::Worked(Work::Did), now);
            &&& s.pumps < 95 ==> after.pumps == s.pumps + 1 && (action is Work || action
                is AskPending)
            &&& after.errors == s.errors
        }),
        s.step(AnswerModel::Worked(Work::Disconnected), now).1 == ActionModel::End(
            SessionEnd::Restart,
        ),
        s.errors < 7 ==> s.step(AnswerModel::Worked(Work::Failed), now).0.errors == s.errors + 1,
{
}

/// With nothing to pump, a committed image is applied, then a committed text,
/// as soon as no status is due; each is handed on once and as it was received.
pub proof fn what_was_committed_is_applied(s: SessionModel, now: u64)
    requires
        s.stage == Stage::Pending,
        !s.rx.pending_ntf,
    ensures
        ({
            let (after, action) = s.step(AnswerModel::Outcome(false), now);
            &&& s.rx.done matches Some(image) ==> action == ActionModel::ApplyImage(image)
                && after.rx.done is None && after.stage == Stage::Image && after.rx.done_content
                == s.rx.done_content
            &&& s.rx.done is None ==> (s.rx.done_content matches Some(text) ==> action
                == ActionModel::ApplyContent(text) && after.rx.done_content is None && after.stage
                == Stage::Content)
        }),
{
}

/// Once something was applied the receiver is idle and errors are forgotten; a
/// text that was applied is what is served from then on.
pub proof fn what_was_applied_is_served(s: SessionModel, text: Seq<u8>, now: u64)
    ensures
        s.stage == Stage::Image ==> s.step(AnswerModel::Done, now).0.rx.state == 0 && s.step(
            AnswerModel::Done,
            now,
        ).0.errors == 0 && s.step(AnswerModel::Done, now).0.content == s.content,
        s.stage == Stage::Content ==> s.step(AnswerModel::Content(text), now).0.rx.state == 0
            && s.step(AnswerModel::Content(text), now).0.errors == 0 && s.step(
            AnswerModel::Content(text),
            now,
        ).0.content == text,
{
}

/// What else there is to do: nothing during a transfer, housekeeping within
/// three seconds of the last message, a doze test if one was asked for, the
/// question whether to doze after two minutes without traffic, and else the
/// normal work.
pub proof fn idle_time_is_used(s: SessionModel, now: u64)
    requires
        s.stage == Stage::Pending,
        s.rx.done is None,
        s.rx.done_content is None,
        s.rx.last_ms <= now,
        s.hci_last_ms <= now,
    ensures
        ({
            let (after, action) = s.step(AnswerModel::Outcome(false), now);
            let receiving = s.rx.state == 1;
            let active = now - s.rx.last_ms < 3000;
            let silent = now - s.hci_last_ms > 120_000;
            &&& receiving ==> action is Work || action is AskPending
            &&& !receiving && active ==> action == ActionModel::TickLight
            &&& !receiving && !active && s.rx.doze_test_req ==> action
                == ActionModel::DisableAdvertising && after.doze_test
            &&& !receiving && !active && !s.rx.doze_test_req && silent ==> action
                == ActionModel::AskQuiet
            &&& !receiving && !active && !s.rx.doze_test_req && !silent ==> action
                == ActionModel::Tick
        }),
        ({
            let quiet = SessionModel { stage: Stage::Quiet, ..s };
            &&& quiet.step(AnswerModel::Outcome(true), now).1 == ActionModel::DisableAdvertising
            &&& quiet.step(AnswerModel::Outcome(false), now).1 == ActionModel::Tick
        }),
        ({
            let stopping = SessionModel { stage: Stage::Stopping, ..s };
            stopping.step(AnswerModel::Done, now).1 == ActionModel::End(SessionEnd::Doze)
        }),
{
}

/// A session's actions and answers carry what they hold.
pub proof fn actions_carry_their_values(action: Action, answer: Answer)
    ensures
        action matches Action::Pause(ms) ==> action@ == ActionModel::Pause(ms),
        action matches Action::Work(Some(ntf)) ==> action@ == ActionModel::Work(Some(ntf@)),
        action matches Action::Work(None) ==> action@ == ActionModel::Work(None),
        action matches Action::ApplyImage(image) ==> action@ == ActionModel::ApplyImage(image@),
        action matches Action::ApplyContent(text) ==> action@ == ActionModel::ApplyContent(text@),
        action matches Action::End(end) ==> action@ == ActionModel::End(end),
        action is InitStack <==> action@ is InitStack,
        action is SetParameters <==> action@ is SetParameters,
        action is DefaultParameters <==> action@ is DefaultParameters,
        action is SetData <==> action@ is SetData,
        action is EnableAdvertising <==> action@ is EnableAdvertising,
        action is DisableAdvertising <==> action@ is DisableAdvertising,
        action is AskPending <==> action@ is AskPending,
        action is AskQuiet <==> action@ is AskQuiet,
        action is TickLight <==> action@ is TickLight,
        action is Tick <==> action@ is Tick,
        answer matches Answer::Outcome(ok) ==> answer@ == AnswerModel::Outcome(ok),
        answer matches Answer::Worked(w) ==> answer@ == AnswerModel::Worked(w),
        answer matches Answer::Content(text) ==> answer@ == AnswerModel::Content(text@),
        answer is Done <==> answer@ is Done,
{
}

} // verus!
