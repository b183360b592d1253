//! The capture: the events, and the controller that buffers them, flushes
//! them to the store, and starts and stops the counting.

use crate::buffer::AggregationBuffer;
use crate::clock::local_midnight;
use crate::db::{Database, StoreError};
use vstd::prelude::*;

verus! {

/// One observed key release: the day it fell on, the key, and the
/// application that was in front.
#[derive(Clone)]
pub struct KeyStat {
    pub ts_day: i64,
    pub key_code: String,
    pub app_id: i64,
}

/// What a [`KeyStat`] means: the bucket that the event is counted in.
pub struct CaptureEvent {
    pub day: int,
    pub key: Seq<char>,
    pub app: int,
}

impl View for KeyStat {
    type V = CaptureEvent;

    open spec fn view(&self) -> CaptureEvent {
        CaptureEvent { day: self.ts_day as int, key: self.key_code@, app: self.app_id as int }
    }
}

/// The events that a sequence of [`KeyStat`] values stands for, in order.
pub open spec fn events_of(stats: Seq<KeyStat>) -> Seq<CaptureEvent> {
    stats.map_values(|s: KeyStat| s@)
}

/// What the keyboard reports, as far as the capture reads it.
#[derive(Debug, Clone, PartialEq, Eq)]
pub enum InputEvent {
    /// A key went down; `0` names the key.
    KeyPress(String),
    /// A key came up; `0` names the key.
    KeyRelease(String),
    /// Anything else: the mouse, the wheel.
    Other,
}

impl InputEvent {
    /// The key that the event released, if it is a key release.
    pub open spec fn released_key(self) -> Option<Seq<char>> {
        match self {
            InputEvent::KeyRelease(key) => Some(key@),
            _ => None,
        }
    }
}

/// What became of an input event.
#[derive(Debug, Clone, Copy, PartialEq, Eq)]
pub enum EventOutcome {
    /// The capture is stopped, or the event is no key release.
    Ignored,
    /// No application was in front, or the day could not be told.
    Dropped,
    /// The store could not name the application.
    Failed,
    /// The key release waits in the buffer, counted for `app_id`.
    Buffered { app_id: i64 },
}

/// Work that the controller leaves to the program around it, which owns
/// the threads and the log.
#[derive(Debug, Clone, PartialEq, Eq)]
pub enum Command {
    /// Start the thread that flushes the buffer every few seconds.
    SpawnScheduler,
    /// Start the thread that listens to the keyboard.
    SpawnListener,
    /// Wait for the flushing thread to end.
    JoinScheduler,
    /// Let go of the listening thread without waiting for it.
    ReleaseListener,
    /// Say that a batch of `events` key releases was lost.
    ReportFlushFailure { events: usize, error: StoreError },
    /// Say that a key release was lost for want of an application id.
    ReportAppFailure { error: StoreError },
}

/// What a [`Command`] means: what it asks for, without the store's own
/// words.
pub enum CommandView {
    SpawnScheduler,
    SpawnListener,
    JoinScheduler,
    ReleaseListener,
    ReportFlushFailure { events: nat },
    ReportAppFailure,
}

impl View for Command {
    type V = CommandView;

    open spec fn view(&self) -> CommandView {
        match self {
            Command::SpawnScheduler => CommandView::SpawnScheduler,
            Command::SpawnListener => CommandView::SpawnListener,
            Command::JoinScheduler => CommandView::JoinScheduler,
            Command::ReleaseListener => CommandView::ReleaseListener,
            Command::ReportFlushFailure { events, error } => CommandView::ReportFlushFailure {
                events: *events as nat,
            },
            Command::ReportAppFailure { error } => CommandView::ReportAppFailure,
        }
    }
}

/// What a list of commands asks for, in order.
pub open spec fn commands_of(commands: Seq<Command>) -> Seq<CommandView> {
    commands.map_values(|c: Command| c@)
}

/// Why the capture did not start.
#[derive(Debug, Clone, Copy, PartialEq, Eq)]
pub enum StartError {
    /// The system does not let this program watch the keyboard.
    PermissionDenied,
}

impl StartError {
    /// The error in words.
    pub fn to_string(&self) -> (s: String)
        ensures
            s@ == "Insufficient macOS permissions. Please follow the instructions above to set permissions."@,
    {
        String::from_str(
            "Insufficient macOS permissions. Please follow the instructions above to set permissions.",
        )
    }
}

/// The state of the capture.
pub struct HookState {
    /// Whether key releases are being counted.
    pub running: bool,
    /// Whether a listening thread has been started and not let go.
    pub listener: bool,
    /// Whether a flushing thread has been started and not joined.
    pub scheduler: bool,
    /// The key releases that wait for the next flush, oldest first.
    pub buffer: Seq<CaptureEvent>,
    /// The key releases that the store has taken in, oldest first.
    pub stored: Seq<CaptureEvent>,
    /// The commands that nobody has taken yet, oldest first.
    pub commands: Seq<CommandView>,
}

/// The state after a flush. With nothing waiting it is the state before:
/// the store is not asked. Else the buffer is empty, and either the store
/// has taken in what waited (`committed`), or what waited is lost and a
/// report of it is due.
pub open spec fn flushed(s: HookState, committed: bool) -> HookState {
    if s.buffer.len() == 0 {
        s
    } else if committed {
        HookState { buffer: Seq::empty(), stored: s.stored + s.buffer, ..s }
    } else {
        HookState {
            buffer: Seq::empty(),
            commands: s.commands.push(CommandView::ReportFlushFailure { events: s.buffer.len() }),
            ..s
        }
    }
}

/// The state after a stop: counting is off, what waited has been flushed,
/// the flushing thread is to be joined and then the listening thread let
/// go, which nobody waits for.
pub open spec fn stopped(s: HookState, committed: bool) -> HookState {
    let f = flushed(HookState { running: false, ..s }, committed);
    let joined = if f.scheduler {
        f.commands.push(CommandView::JoinScheduler)
    } else {
        f.commands
    };
    let released = if f.listener {
        joined.push(CommandView::ReleaseListener)
    } else {
        joined
    };
    HookState { listener: false, scheduler: false, commands: released, ..f }
}

/// The state after a start. A running capture stays as it is. A stopped
/// one is first stopped in full; then, if the system permits, counting is
/// on and both threads are to be started, the flushing one first.
pub open spec fn started(s: HookState, permitted: bool, committed: bool) -> HookState {
    if s.running {
        s
    } else {
        let n = stopped(s, committed);
        if permitted {
            HookState {
                running: true,
                listener: true,
                scheduler: true,
                commands: n.commands.push(CommandView::SpawnScheduler).push(
                    CommandView::SpawnListener,
                ),
                ..n
            }
        } else {
            n
        }
    }
}

/// The state after a toggle: stopped if it ran, started if it did not.
pub open spec fn toggled(s: HookState, permitted: bool, committed: bool) -> HookState {
    if s.running {
        stopped(s, committed)
    } else {
        started(s, permitted, committed)
    }
}

/// The state after an input event. Only the release of a key while the
/// capture runs, on a day that could be told (`day`) and with an
/// application in front (`in_front`), has an effect: with the id that the
/// store gave for the application (`app`) it joins the buffer; where the
/// store gave none, a report is due.
pub open spec fn observed(
    s: HookState,
    released: Option<Seq<char>>,
    day: Option<i64>,
    in_front: bool,
    app: Option<i64>,
) -> HookState {
    if s.running && released is Some && day is Some && in_front {
        match app {
            Some(id) => HookState {
                buffer: s.buffer.push(
                    CaptureEvent {
                        day: day->Some_0 as int,
                        key: released->Some_0,
                        app: id as int,
                    },
                ),
                ..s
            },
            None => HookState { commands: s.commands.push(CommandView::ReportAppFailure), ..s },
        }
    } else {
        s
    }
}

/// The capture controller: the running flag, the buffer, the store, and
/// a note of which threads are out.
pub struct KeyboardHook {
    running: bool,
    db: Database,
    buffer: AggregationBuffer,
    worker: bool,
    flush_worker: bool,
    commands: Vec<Command>,
}

impl View for KeyboardHook {
    type V = HookState;

    closed spec fn view(&self) -> HookState {
        HookState {
            running: self.running,
            listener: self.worker,
            scheduler: self.flush_worker,
            buffer: self.buffer@,
            stored: self.db.acknowledged(),
            commands: commands_of(self.commands@),
        }
    }
}

impl KeyboardHook {
    /// A stopped controller over the store `db`, with nothing waiting.
    pub fn new(db: Database) -> (hook: KeyboardHook)
        ensures
            hook@ == (HookState {
                running: false,
                listener: false,
                scheduler: false,
                buffer: Seq::empty(),
                stored: db.acknowledged(),
                commands: Seq::empty(),
            }),
    {
        let hook = KeyboardHook {
            running: false,
            db,
            buffer: AggregationBuffer::new(),
            worker: false,
            flush_worker: false,
            commands: Vec::new(),
        };
        assert(commands_of(hook.commands@) == Seq::<CommandView>::empty());
        hook
    }

    /// Whether key releases are being counted.
    pub fn is_running(&self) -> (running: bool)
        ensures
            running == self@.running,
    {
        self.running
    }

    /// The store, for the reports.
    pub fn database(&self) -> (db: &Database)
        ensures
            db.acknowledged() == self@.stored,
    {
        &self.db
    }

    /// Hands out the commands that are due, oldest first, and forgets them.
    pub fn take_commands(&mut self) -> (commands: Vec<Command>)
        ensures
            commands_of(commands@) == old(self)@.commands,
            final(self)@ == (HookState { commands: Seq::empty(), ..old(self)@ }),
    {
        let mut commands: Vec<Command> = Vec::new();
        std::mem::swap(&mut self.commands, &mut commands);
        assert(commands_of(self.commands@) == Seq::<CommandView>::empty());
        commands
    }

    /// Sends what waits in the buffer to the store as one batch, and
    /// empties the buffer. With nothing waiting the store is not asked.
    pub fn flush(&mut self)
        ensures
            final(self)@ == flushed(old(self)@, true) || final(self)@ == flushed(old(self)@, false),
    {
        let batch = self.buffer.drain_all();
        if batch.len() > 0 {
            match self.db.batch_insert_key_stats(batch.as_slice()) {
                Ok(()) => {},
                Err(error) => {
                    let ghost before = self.commands@;
                    let command = Command::ReportFlushFailure { events: batch.len(), error };
                    self.commands.push(command);
                    assert(commands_of(self.commands@) == commands_of(before).push(command@));
                },
            }
        } else {
            assert(old(self)@.buffer =~= self@.buffer);
        }
    }

    /// Stops the capture: turns counting off, flushes the buffer here and
    /// now, asks for the flushing thread to be joined and lets go of the
    /// listening thread.
    pub fn stop(&mut self)
        ensures
            final(self)@ == stopped(old(self)@, true) || final(self)@ == stopped(
                old(self)@,
                false,
            ),
    {
        self.running = false;
        self.flush();
        if self.flush_worker {
            let ghost before = self.commands@;
            self.flush_worker = false;
            self.commands.push(Command::JoinScheduler);
            assert(commands_of(self.commands@) == commands_of(before).push(
                CommandView::JoinScheduler,
            ));
        }
        if self.worker {
            let ghost before = self.commands@;
            self.worker = false;
            self.commands.push(Command::ReleaseListener);
            assert(commands_of(self.commands@) == commands_of(before).push(
                CommandView::ReleaseListener,
            ));
        }
    }

    /// Starts the capture unless it runs. `permitted` says whether the
    /// system lets this program watch the keyboard; without that the
    /// capture stays stopped and the start fails.
    pub fn start(&mut self, permitted: bool) -> (r: Result<(), StartError>)
        ensures
            r is Ok <==> old(self)@.running || permitted,
            final(self)@ == started(old(self)@, permitted, true) || final(self)@ == started(
                old(self)@,
                permitted,
                false,
            ),
    {
        if self.running {
            return Ok(());
        }
        self.stop();
        if !permitted {
            return Err(StartError::PermissionDenied);
        }
        let ghost before = self.commands@;
        self.running = true;
        self.flush_worker = true;
        self.commands.push(Command::SpawnScheduler);
        self.worker = true;
        self.commands.push(Command::SpawnListener);
        assert(commands_of(self.commands@) == commands_of(before).push(
            CommandView::SpawnScheduler,
        ).push(CommandView::SpawnListener));
        Ok(())
    }

    /// Stops a running capture and starts a stopped one; a start that fails
    /// leaves it stopped. Returns whether the capture runs afterwards.
    pub fn toggle(&mut self, permitted: bool) -> (running: bool)
        ensures
            running == final(self)@.running,
            running == (!old(self)@.running && permitted),
            final(self)@ == toggled(old(self)@, permitted, true) || final(self)@ == toggled(
                old(self)@,
                permitted,
                false,
            ),
    {
        if self.is_running() {
            self.stop();
        } else {
            let _ = self.start(permitted);
        }
        self.is_running()
    }

    /// Whether `event` is one that the capture will count once it knows
    /// the application in front: a key release while the capture runs.
    pub fn wants_context(&self, event: &InputEvent) -> (wanted: bool)
        ensures
            wanted == (self@.running && event.released_key() is Some),
    {
        match event {
            InputEvent::KeyRelease(_) => self.running,
            _ => false,
        }
    }

    /// Counts `event` if it is a key release while the capture runs:
    /// `day` is the day bucket of the moment, `in_front` the name and the
    /// identifier of the application in front. The store is asked for the
    /// id of that application, and the key release joins the buffer.
    pub fn record(
        &mut self,
        event: InputEvent,
        day: Option<i64>,
        in_front: Option<(String, String)>,
    ) -> (outcome: EventOutcome)
        ensures
            outcome is Ignored <==> !(old(self)@.running && event.released_key() is Some),
            outcome is Dropped <==> old(self)@.running && event.released_key() is Some && (day
                is None || in_front is None),
            outcome is Ignored || outcome is Dropped ==> final(self)@ == old(self)@,
            outcome matches EventOutcome::Buffered { app_id } ==> final(self)@ == observed(
                old(self)@,
                event.released_key(),
                day,
                true,
                Some(app_id),
            ),
            outcome is Failed ==> final(self)@ == observed(
                old(self)@,
                event.released_key(),
                day,
                true,
                None,
            ),
    {
        if !self.running {
            return EventOutcome::Ignored;
        }
        let key_code = match event {
            InputEvent::KeyRelease(key) => key,
            _ => {
                return EventOutcome::Ignored;
            },
        };
        let (ts_day, name, bundle_id) = match (day, in_front) {
            (Some(ts_day), Some((name, bundle_id))) => (ts_day, name, bundle_id),
            _ => {
                return EventOutcome::Dropped;
            },
        };
        match self.db.get_or_create_app(name.as_str(), bundle_id.as_str()) {
            Ok(app_id) => {
                self.buffer.push(KeyStat { ts_day, key_code, app_id });
                EventOutcome::Buffered { app_id }
            },
            Err(error) => {
                let ghost before = self.commands@;
                self.commands.push(Command::ReportAppFailure { error });
                assert(commands_of(self.commands@) == commands_of(before).push(
                    CommandView::ReportAppFailure,
                ));
                EventOutcome::Failed
            },
        }
    }

    /// Counts `event` as [`KeyboardHook::record`] does, on the day that
    /// the system's clock gives for this moment. The clock is read only
    /// for a key release while the capture runs.
    pub fn handle_event(&mut self, event: InputEvent, in_front: Option<(String, String)>) -> (outcome:
        EventOutcome)
        ensures
            outcome is Ignored <==> !(old(self)@.running && event.released_key() is Some),
            outcome is Ignored || outcome is Dropped ==> final(self)@ == old(self)@,
            old(self)@.running && event.released_key() is Some && in_front is None ==> outcome
                is Dropped,
            outcome matches EventOutcome::Buffered { app_id } ==> exists|day: i64|
                final(self)@ == #[trigger] observed(
                    old(self)@,
                    event.released_key(),
                    Some(day),
                    true,
                    Some(app_id),
                ),
            outcome is Failed ==> exists|day: i64|
                final(self)@ == #[trigger] observed(
                    old(self)@,
                    event.released_key(),
                    Some(day),
                    true,
                    None,
                ),
    {
        let day = if self.wants_context(&event) {
            local_midnight()
        } else {
            None
        };
        self.record(event, day, in_front)
    }
}

/// Whether the system lets this program watch the keyboard: it must grant
/// both the monitoring of input and the accessibility interface.
pub fn check_accessibility_permission(has_input_monitoring: bool, has_accessibility: bool) -> (granted:
    bool)
    ensures
        granted == (has_input_monitoring && has_accessibility),
{
    has_input_monitoring && has_accessibility
}

/// The lines that tell the user which permissions to grant: none where
/// both are granted, else a heading, one line for each permission that is
/// missing, accessibility first, and the closing remarks.
pub open spec fn instruction_lines(has_input_monitoring: bool, has_accessibility: bool) -> Seq<
    Seq<char>,
> {
    if has_input_monitoring && has_accessibility {
        seq![]
    } else {
        let heading = seq![
            "=== macOS permissions required ==="@,
            "Go to System Preferences > Security & Privacy > Privacy and set the following:"@,
        ];
        let accessibility = if has_accessibility {
            heading
        } else {
            heading.push("1. Accessibility: Add and enable the KeyFit app"@)
        };
        let monitoring = if has_input_monitoring {
            accessibility
        } else {
            accessibility.push("2. Input Monitoring: Add and enable the KeyFit app"@)
        };
        monitoring.push(""@).push(
            "Important: On macOS Mojave or later, 'Input Monitoring' permission is required to monitor keyboard events. Without this permission, the rdev library cannot receive keyboard events."@,
        ).push(""@).push("After setting, please restart the app."@).push(
            "=== End of permission instructions ==="@,
        )
    }
}

/// The instructions for the user where a permission is missing, line by
/// line.
pub fn permission_instructions(has_input_monitoring: bool, has_accessibility: bool) -> (lines: Vec<
    String,
>)
    ensures
        crate::statements::texts_of(lines@) == instruction_lines(has_input_monitoring, has_accessibility),
{
    let mut lines: Vec<String> = Vec::new();
    if !check_accessibility_permission(has_input_monitoring, has_accessibility) {
        lines.push(String::from_str("=== macOS permissions required ==="));
        lines.push(
            String::from_str(
                "Go to System Preferences > Security & Privacy > Privacy and set the following:",
            ),
        );
        if !has_accessibility {
            lines.push(String::from_str("1. Accessibility: Add and enable the KeyFit app"));
        }
        if !has_input_monitoring {
            lines.push(String::from_str("2. Input Monitoring: Add and enable the KeyFit app"));
        }
        lines.push(String::from_str(""));
        lines.push(
            String::from_str(
                "Important: On macOS Mojave or later, 'Input Monitoring' permission is required to monitor keyboard events. Without this permission, the rdev library cannot receive keyboard events.",
            ),
        );
        lines.push(String::from_str(""));
        lines.push(String::from_str("After setting, please restart the app."));
        lines.push(String::from_str("=== End of permission instructions ==="));
    }
    lines
}

/// The value of the counter for `bucket` after the store has taken in
/// `events`, counted from nothing: each key release that falls in the
/// bucket adds one.
pub open spec fn stored_count(events: Seq<CaptureEvent>, bucket: CaptureEvent) -> nat
    decreases events.len(),
{
    if events.len() == 0 {
        0
    } else {
        stored_count(events.drop_last(), bucket) + if events.last() == bucket {
            1nat
        } else {
            0nat
        }
    }
}

/// The number of key releases in `batches`.
pub open spec fn releases_in(batches: Seq<Seq<CaptureEvent>>) -> nat
    decreases batches.len(),
{
    if batches.len() == 0 {
        0
    } else {
        releases_in(batches.drop_last()) + batches.last().len()
    }
}

/// The state after the capture has buffered the key releases of each batch
/// in turn and flushed after each, the store taking in every flush.
pub open spec fn pumped(s: HookState, batches: Seq<Seq<CaptureEvent>>) -> HookState
    decreases batches.len(),
{
    if batches.len() == 0 {
        s
    } else {
        let before = pumped(s, batches.drop_last());
        flushed(HookState { buffer: before.buffer + batches.last(), ..before }, true)
    }
}

/// Counting over two runs of key releases is counting over each and
/// adding up.
pub proof fn lemma_stored_count_adds(
    first: Seq<CaptureEvent>,
    second: Seq<CaptureEvent>,
    bucket: CaptureEvent,
)
    ensures
        stored_count(first + second, bucket) == stored_count(first, bucket) + stored_count(
            second,
            bucket,
        ),
    decreases second.len(),
{
    if second.len() == 0 {
    } else {
        lemma_stored_count_adds(first, second.drop_last(), bucket);
        assert((first + second).drop_last() == first + second.drop_last());
    }
}

/// Key releases that all fall in one bucket count as many as they are.
pub proof fn lemma_stored_count_of_one_bucket(events: Seq<CaptureEvent>, bucket: CaptureEvent)
    requires
        forall|i: int| 0 <= i < events.len() ==> events[i] == bucket,
    ensures
        stored_count(events, bucket) == events.len(),
    decreases events.len(),
{
    if events.len() > 0 {
        lemma_stored_count_of_one_bucket(events.drop_last(), bucket);
    }
}

/// Every key release is counted once: when N key releases of one bucket
/// pass through buffer and flush, in one batch or in several, the counter
/// of that bucket has grown by N, and nothing is left waiting.
pub proof fn law_count_grows_by_releases(
    s: HookState,
    batches: Seq<Seq<CaptureEvent>>,
    bucket: CaptureEvent,
)
    requires
        s.buffer.len() == 0,
        forall|i: int, j: int|
            0 <= i < batches.len() && 0 <= j < batches[i].len() ==> #[trigger] batches[i][j]
                == bucket,
    ensures
        stored_count(pumped(s, batches).stored, bucket) == stored_count(s.stored, bucket)
            + releases_in(batches),
        pumped(s, batches).buffer.len() == 0,
    decreases batches.len(),
{
    if batches.len() > 0 {
        let earlier = batches.drop_last();
        let batch = batches.last();
        assert forall|i: int, j: int|
            0 <= i < earlier.len() && 0 <= j < earlier[i].len() implies #[trigger] earlier[i][j]
            == bucket by {
        }
        law_count_grows_by_releases(s, earlier, bucket);
        let before = pumped(s, earlier);
        assert forall|j: int| 0 <= j < batch.len() implies batch[j] == bucket by {
        }
        lemma_stored_count_of_one_bucket(batch, bucket);
        lemma_stored_count_adds(before.stored, batch, bucket);
    }
}

/// A flush that follows a flush, with no key release between them, changes
/// nothing and does not ask the store.
pub proof fn law_second_flush_is_idle(s: HookState, first: bool, second: bool)
    ensures
        flushed(flushed(s, first), second) == flushed(s, first),
{
}

/// A stop flushes what waits and turns counting off; while the capture is
/// stopped a key release has no effect; a start that the system permits
/// turns counting on again, and the next key release waits in the buffer.
pub proof fn law_stop_flushes_and_start_resumes(
    s: HookState,
    committed: bool,
    key: Seq<char>,
    day: i64,
    app: i64,
)
    ensures
        !stopped(s, committed).running,
        stopped(s, committed).buffer == Seq::<CaptureEvent>::empty(),
        stopped(s, true).stored == s.stored + s.buffer,
        observed(stopped(s, committed), Some(key), Some(day), true, Some(app)) == stopped(
            s,
            committed,
        ),
        started(stopped(s, committed), true, committed).running,
        started(stopped(s, committed), true, committed).stored == stopped(s, committed).stored,
        observed(
            started(stopped(s, committed), true, committed),
            Some(key),
            Some(day),
            true,
            Some(app),
        ).buffer == seq![CaptureEvent { day: day as int, key, app: app as int }],
{
    let halted = stopped(s, committed);
    let again = started(halted, true, committed);
}

} // verus!
