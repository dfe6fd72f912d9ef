use vstd::prelude::*;
use vstd::string::*;
use vstd::utf8::encode_utf8;
use crate::commands::DownloaderCommand;
use crate::render::{decimal_text, int_text, join};
use crate::queue::{moved_down, moved_up, removed, AsyncQueue};
use crate::ytdlp::{parse_progress_update_line, progress_spec, DownloaderMsg};

verus! {

/// Why a downloader run ended.
#[derive(PartialEq, Eq, Structural, Debug, Clone, Copy)]
pub enum ExitReason {
    /// Exit code 0.
    Finished,
    /// A non-zero exit code.
    ExitCode(i32),
    /// The user cancelled the download.
    Cancelled,
    /// The user paused the download; the URL is kept.
    Paused,
    /// Reading the downloader's output, or waiting for it, failed.
    IOError,
    /// The downloader was ended by a signal.
    ExternalSignal,
    /// The command channel closed.
    Panic,
}

/// What a `Resume` does when it ends a hold.
#[derive(PartialEq, Eq, Structural, Debug, Clone, Copy)]
pub enum HoldKind {
    /// A pause while idle: back to idle.
    FromIdle,
    /// A pause while downloading: the current URL is tried again.
    Retry,
    /// A failed download: the current URL is dropped.
    Discard,
}

/// The supervisor's phase.
#[derive(PartialEq, Eq, Structural, Debug, Clone, Copy)]
pub enum Phase {
    Idle,
    Downloading,
    Hold(HoldKind),
}

/// What reaches the supervisor.
#[derive(Debug)]
pub enum SupervisorEvent {
    /// A user command.
    Command(DownloaderCommand),
    /// While idle: the queue may be pulled.
    QueueReady,
    /// A line of the downloader's output.
    Line(String),
    /// Reading the downloader's output failed.
    LineError,
    /// The downloader's output ended.
    OutputEnd,
    /// The downloader was reaped: its exit code, none if a signal ended it.
    ChildExited(Option<i32>),
    /// Waiting for the downloader failed.
    WaitFailed,
    /// No line arrived for the stall interval.
    StallTimeout,
    /// The command channel closed.
    CommandsClosed,
}

/// What the supervisor asks of the world around it.
#[derive(Debug)]
pub enum SupervisorAction {
    /// Publish a message to the subscribers.
    Emit(DownloaderMsg),
    /// Start the downloader on a URL.
    Spawn(String),
    /// Kill the running downloader.
    Kill,
    /// Set the stall deadline to now plus the stall interval.
    ResetStallTimer,
    /// Stop: the command channel is gone.
    Stop,
}

/// The supervisor: the queue, the current URL, the phase, and while
/// downloading whether output is still read, whether a stall was reported, and
/// the exit reason the user asked for.
pub struct Supervisor {
    pub queue: AsyncQueue,
    pub current: Option<String>,
    pub phase: Phase,
    pub reading_out: bool,
    pub stuck: bool,
    pub pending: Option<ExitReason>,
    pub stopped: bool,
}

pub open spec fn user_hold() -> Seq<char> {
    "User hold"@
}

pub open spec fn io_error_text() -> Seq<char> {
    "IO Error!"@
}

pub open spec fn killed_text() -> Seq<char> {
    "Downloader killed"@
}

pub open spec fn error_code_prefix() -> Seq<char> {
    "Error code "@
}

/// The command changes the queue.
pub open spec fn is_queue_command(c: DownloaderCommand) -> bool {
    c matches DownloaderCommand::AddUrl(_) || c matches DownloaderCommand::MoveUp(_)
        || c matches DownloaderCommand::MoveDown(_) || c matches DownloaderCommand::Delete(_)
}

/// The queue after the command.
pub open spec fn queue_effect(q: Seq<String>, c: DownloaderCommand) -> Seq<String> {
    match c {
        DownloaderCommand::AddUrl(u) => q.push(u),
        DownloaderCommand::MoveUp(i) => moved_up(q, i as int),
        DownloaderCommand::MoveDown(i) => moved_down(q, i as int),
        DownloaderCommand::Delete(i) => removed(q, i as int),
        _ => q,
    }
}

/// The action publishes the queue `q`.
pub open spec fn is_queue_update(a: SupervisorAction, q: Seq<String>) -> bool {
    a matches SupervisorAction::Emit(DownloaderMsg::QueueUpdate(v)) && v@ == q
}

/// The action publishes a hold with reason `r`.
pub open spec fn is_hold(a: SupervisorAction, r: Seq<char>) -> bool {
    a matches SupervisorAction::Emit(DownloaderMsg::Hold(x)) && x@ == r
}

/// The actions of a queue command that left the queue as `q`: one update if
/// the command changes the queue, none otherwise.
pub open spec fn queue_actions(c: DownloaderCommand, q: Seq<String>, acts: Seq<SupervisorAction>) -> bool {
    if is_queue_command(c) {
        acts.len() == 1 && is_queue_update(acts[0], q)
    } else {
        acts.len() == 0
    }
}

/// The reason a reaped downloader stands for: the user's, if one was given.
pub open spec fn exit_reason(pending: Option<ExitReason>, code: Option<i32>) -> ExitReason {
    match pending {
        Some(r) => r,
        None => match code {
            Some(c) => if c == 0 { ExitReason::Finished } else { ExitReason::ExitCode(c) },
            None => ExitReason::ExternalSignal,
        },
    }
}

/// The reason when waiting for the downloader failed: the user's, if one was given.
pub open spec fn wait_failed_reason(pending: Option<ExitReason>) -> ExitReason {
    match pending {
        Some(r) => r,
        None => ExitReason::IOError,
    }
}

/// The hold reason that an exit reason is reported with, if any.
pub open spec fn hold_text(r: ExitReason) -> Option<Seq<char>> {
    match r {
        ExitReason::ExitCode(c) => Some(error_code_prefix() + decimal_text(c as int)),
        ExitReason::Paused => Some(user_hold()),
        ExitReason::IOError => Some(io_error_text()),
        ExitReason::ExternalSignal => Some(killed_text()),
        _ => None,
    }
}

impl Supervisor {
    /// A downloading supervisor reads output and has a current URL.
    pub open spec fn wf(&self) -> bool {
        self.phase == Phase::Downloading ==> self.current is Some
    }

    /// `t` is `s` gone idle with the queue `s` had: no current URL, `Idle` published.
    pub open spec fn went_idle(s: Supervisor, t: Supervisor, acts: Seq<SupervisorAction>) -> bool {
        &&& t.phase == Phase::Idle
        &&& t.current is None
        &&& t.queue@ == s.queue@
        &&& !t.stopped
        &&& acts.len() == 1
        &&& acts[0] == SupervisorAction::Emit(DownloaderMsg::Idle)
    }

    /// `t` is downloading `url` afresh, with the queue `q`.
    pub open spec fn started(t: Supervisor, url: String, q: Seq<String>) -> bool {
        &&& t.phase == Phase::Downloading
        &&& t.current == Some(url)
        &&& t.queue@ == q
        &&& t.reading_out
        &&& !t.stuck
        &&& t.pending is None
        &&& !t.stopped
    }

    /// `t` is `s` with only the queue changed by the command `c`.
    pub open spec fn queue_changed(s: Supervisor, c: DownloaderCommand, t: Supervisor, acts: Seq<SupervisorAction>) -> bool {
        &&& t.queue@ == queue_effect(s.queue@, c)
        &&& t.current == s.current
        &&& t.phase == s.phase
        &&& t.reading_out == s.reading_out
        &&& t.stuck == s.stuck
        &&& t.pending == s.pending
        &&& t.stopped == s.stopped
        &&& queue_actions(c, t.queue@, acts)
    }

    /// What the supervisor does once the downloader was reaped for reason `r`.
    pub open spec fn after_exit(s: Supervisor, r: ExitReason, t: Supervisor, acts: Seq<SupervisorAction>) -> bool {
        &&& t.queue@ == s.queue@
        &&& !t.stopped
        &&& match r {
            ExitReason::Finished | ExitReason::Cancelled | ExitReason::Panic => Supervisor::went_idle(s, t, acts),
            ExitReason::Paused => {
                &&& t.phase == Phase::Hold(HoldKind::Retry)
                &&& t.current == s.current
                &&& acts.len() == 1
                &&& is_hold(acts[0], user_hold())
            },
            _ => {
                &&& t.phase == Phase::Hold(HoldKind::Discard)
                &&& t.current == s.current
                &&& acts.len() == 1
                &&& is_hold(acts[0], hold_text(r)->Some_0)
            },
        }
    }

    /// One step of the supervisor from `s` on event `ev`, to `t` with the actions `acts`.
    pub open spec fn step_spec(s: Supervisor, ev: SupervisorEvent, t: Supervisor, acts: Seq<SupervisorAction>) -> bool {
        if s.stopped {
            t == s && acts.len() == 0
        } else if ev is CommandsClosed {
            t.stopped && t.queue@ == s.queue@ && acts.len() == 1 && acts[0] == SupervisorAction::Stop
        } else {
            match s.phase {
                Phase::Idle => match ev {
                    SupervisorEvent::QueueReady => if s.queue@.len() == 0 {
                        t == s && acts.len() == 0
                    } else {
                        &&& Supervisor::started(t, s.queue@[0], s.queue@.drop_first())
                        &&& acts.len() == 3
                        &&& is_queue_update(acts[0], s.queue@.drop_first())
                        &&& acts[1] == SupervisorAction::Spawn(s.queue@[0])
                        &&& acts[2] == SupervisorAction::ResetStallTimer
                    },
                    SupervisorEvent::Command(DownloaderCommand::Pause) => {
                        &&& t.phase == Phase::Hold(HoldKind::FromIdle)
                        &&& t.queue@ == s.queue@ && t.current == s.current && !t.stopped
                        &&& acts.len() == 1 && is_hold(acts[0], user_hold())
                    },
                    SupervisorEvent::Command(DownloaderCommand::Cancel) => {
                        &&& t.phase == Phase::Idle && t.current is None
                        &&& t.queue@ == s.queue@ && !t.stopped && acts.len() == 0
                    },
                    SupervisorEvent::Command(c) => Supervisor::queue_changed(s, c, t, acts),
                    _ => t == s && acts.len() == 0,
                },
                Phase::Hold(k) => match ev {
                    SupervisorEvent::Command(DownloaderCommand::Resume) => {
                        if k == HoldKind::Retry && s.current is Some {
                            &&& Supervisor::started(t, s.current->Some_0, s.queue@)
                            &&& acts.len() == 2
                            &&& acts[0] == SupervisorAction::Spawn(s.current->Some_0)
                            &&& acts[1] == SupervisorAction::ResetStallTimer
                        } else {
                            Supervisor::went_idle(s, t, acts)
                        }
                    },
                    SupervisorEvent::Command(DownloaderCommand::Cancel) => {
                        &&& t.phase == s.phase && t.current is None
                        &&& t.queue@ == s.queue@ && !t.stopped && acts.len() == 0
                    },
                    SupervisorEvent::Command(c) => Supervisor::queue_changed(s, c, t, acts),
                    _ => t == s && acts.len() == 0,
                },
                Phase::Downloading => match ev {
                    SupervisorEvent::StallTimeout => if s.stuck {
                        t == s && acts.len() == 0
                    } else {
                        &&& t.stuck && t.phase == s.phase && t.current == s.current
                        &&& t.queue@ == s.queue@ && t.reading_out == s.reading_out
                        &&& t.pending == s.pending && !t.stopped
                        &&& acts.len() == 1 && acts[0] == SupervisorAction::Emit(DownloaderMsg::Stuck)
                    },
                    SupervisorEvent::Line(l) => if !s.reading_out {
                        t == s && acts.len() == 0
                    } else {
                        &&& !t.stuck && t.phase == s.phase && t.current == s.current
                        &&& t.queue@ == s.queue@ && t.reading_out && t.pending == s.pending && !t.stopped
                        &&& acts.len() >= 1 && acts[0] == SupervisorAction::ResetStallTimer
                        &&& (progress_spec(encode_utf8(l@), Err(())) ==> acts.len() == 1)
                        &&& (!progress_spec(encode_utf8(l@), Err(())) ==> acts.len() == 2)
                        &&& (acts.len() == 2 ==> (acts[1] matches SupervisorAction::Emit(m)
                            && progress_spec(encode_utf8(l@), Ok(m))))
                        &&& acts.len() <= 2
                    },
                    SupervisorEvent::OutputEnd => {
                        &&& !t.stuck && !t.reading_out && t.phase == s.phase && t.current == s.current
                        &&& t.queue@ == s.queue@ && t.pending == s.pending && !t.stopped
                        &&& acts.len() == 1 && acts[0] == SupervisorAction::ResetStallTimer
                    },
                    SupervisorEvent::LineError => {
                        &&& !t.reading_out && t.phase == s.phase && t.current == s.current
                        &&& t.queue@ == s.queue@ && !t.stopped && t.stuck == s.stuck
                        &&& t.pending == (if s.pending is Some { s.pending } else { Some(ExitReason::IOError) })
                        &&& acts.len() == 1 && acts[0] == SupervisorAction::Kill
                    },
                    SupervisorEvent::ChildExited(code) => Supervisor::after_exit(s, exit_reason(s.pending, code), t, acts),
                    SupervisorEvent::WaitFailed => Supervisor::after_exit(s, wait_failed_reason(s.pending), t, acts),
                    SupervisorEvent::Command(DownloaderCommand::Cancel) => {
                        &&& !t.reading_out && t.phase == s.phase && t.current == s.current
                        &&& t.queue@ == s.queue@ && !t.stopped && t.stuck == s.stuck
                        &&& t.pending == Some(ExitReason::Cancelled)
                        &&& acts.len() == 1 && acts[0] == SupervisorAction::Kill
                    },
                    SupervisorEvent::Command(DownloaderCommand::Pause) => {
                        &&& !t.reading_out && t.phase == s.phase && t.current == s.current
                        &&& t.queue@ == s.queue@ && !t.stopped && t.stuck == s.stuck
                        &&& t.pending == Some(ExitReason::Paused)
                        &&& acts.len() == 1 && acts[0] == SupervisorAction::Kill
                    },
                    SupervisorEvent::Command(c) => Supervisor::queue_changed(s, c, t, acts),
                    _ => t == s && acts.len() == 0,
                },
            }
        }
    }
}

impl Supervisor {
    /// An idle supervisor with an empty queue.
    pub fn new() -> (r: Supervisor)
        ensures
            r.phase == Phase::Idle,
            r.current is None,
            r.queue@ == Seq::<String>::empty(),
            !r.stopped,
            r.wf(),
    {
        Supervisor {
            queue: AsyncQueue::new(),
            current: None,
            phase: Phase::Idle,
            reading_out: false,
            stuck: false,
            pending: None,
            stopped: false,
        }
    }

    /// What a new supervisor does first: announce that it is idle.
    pub fn start(&self) -> (acts: Vec<SupervisorAction>)
        ensures
            acts@.len() == 1,
            acts@[0] == SupervisorAction::Emit(DownloaderMsg::Idle),
    {
        let mut acts: Vec<SupervisorAction> = Vec::new();
        acts.push(SupervisorAction::Emit(DownloaderMsg::Idle));
        acts
    }

    /// Applies a queue command and publishes the queue; other commands do nothing.
    fn handle_queue_command(&mut self, cmd: &DownloaderCommand, acts: &mut Vec<SupervisorAction>)
        requires
            old(acts)@.len() == 0,
        ensures
            final(self).queue@ == queue_effect(old(self).queue@, *cmd),
            final(self).current == old(self).current,
            final(self).phase == old(self).phase,
            final(self).reading_out == old(self).reading_out,
            final(self).stuck == old(self).stuck,
            final(self).pending == old(self).pending,
            final(self).stopped == old(self).stopped,
            queue_actions(*cmd, final(self).queue@, final(acts)@),
    {
        match cmd {
            DownloaderCommand::AddUrl(url) => {
                self.queue.push(url.clone());
            },
            DownloaderCommand::MoveDown(i) => {
                self.queue.move_down(*i);
            },
            DownloaderCommand::MoveUp(i) => {
                self.queue.move_up(*i);
            },
            DownloaderCommand::Delete(i) => {
                self.queue.remove(*i);
            },
            _ => {
                return;
            },
        }
        acts.push(SupervisorAction::Emit(DownloaderMsg::QueueUpdate(self.queue.contents())));
    }

    /// Leaves for idle: drops the current URL and announces it.
    fn go_idle(&mut self, acts: &mut Vec<SupervisorAction>)
        requires
            old(acts)@.len() == 0,
            !old(self).stopped,
        ensures
            Supervisor::went_idle(*old(self), *final(self), final(acts)@),
    {
        self.phase = Phase::Idle;
        self.current = None;
        acts.push(SupervisorAction::Emit(DownloaderMsg::Idle));
    }

    /// Starts the downloader on `url`.
    fn begin(&mut self, url: String, acts: &mut Vec<SupervisorAction>)
        requires
            !old(self).stopped,
        ensures
            Supervisor::started(*final(self), url, old(self).queue@),
            final(acts)@ == old(acts)@ + seq![SupervisorAction::Spawn(url), SupervisorAction::ResetStallTimer],
    {
        self.current = Some(url.clone());
        self.phase = Phase::Downloading;
        self.reading_out = true;
        self.stuck = false;
        self.pending = None;
        acts.push(SupervisorAction::Spawn(url));
        acts.push(SupervisorAction::ResetStallTimer);
    }

    /// Acts on the reason the downloader was reaped for.
    fn finish_run(&mut self, r: ExitReason, acts: &mut Vec<SupervisorAction>)
        requires
            old(acts)@.len() == 0,
            !old(self).stopped,
        ensures
            Supervisor::after_exit(*old(self), r, *final(self), final(acts)@),
    {
        proof {
            reveal_strlit("User hold");
            reveal_strlit("IO Error!");
            reveal_strlit("Downloader killed");
            reveal_strlit("Error code ");
        }
        match r {
            ExitReason::Finished | ExitReason::Cancelled | ExitReason::Panic => {
                self.go_idle(acts);
            },
            ExitReason::Paused => {
                self.phase = Phase::Hold(HoldKind::Retry);
                acts.push(SupervisorAction::Emit(DownloaderMsg::Hold("User hold".to_owned())));
            },
            ExitReason::ExitCode(c) => {
                self.phase = Phase::Hold(HoldKind::Discard);
                let text = join("Error code ".to_owned(), int_text(c).as_str());
                acts.push(SupervisorAction::Emit(DownloaderMsg::Hold(text)));
            },
            ExitReason::IOError => {
                self.phase = Phase::Hold(HoldKind::Discard);
                acts.push(SupervisorAction::Emit(DownloaderMsg::Hold("IO Error!".to_owned())));
            },
            ExitReason::ExternalSignal => {
                self.phase = Phase::Hold(HoldKind::Discard);
                acts.push(SupervisorAction::Emit(DownloaderMsg::Hold("Downloader killed".to_owned())));
            },
        }
    }

    /// One step: the supervisor takes the event and says what is to be done.
    pub fn step(&mut self, ev: SupervisorEvent) -> (acts: Vec<SupervisorAction>)
        requires
            old(self).wf(),
        ensures
            final(self).wf(),
            Supervisor::step_spec(*old(self), ev, *final(self), acts@),
    {
        let mut acts: Vec<SupervisorAction> = Vec::new();
        if self.stopped {
            return acts;
        }
        if let SupervisorEvent::CommandsClosed = ev {
            self.stopped = true;
            acts.push(SupervisorAction::Stop);
            return acts;
        }
        match self.phase {
            Phase::Idle => match ev {
                SupervisorEvent::QueueReady => {
                    if self.queue.len() > 0 {
                        if let Some(url) = self.queue.pop() {
                            acts.push(SupervisorAction::Emit(DownloaderMsg::QueueUpdate(self.queue.contents())));
                            self.begin(url, &mut acts);
                        }
                    }
                },
                SupervisorEvent::Command(DownloaderCommand::Pause) => {
                    self.phase = Phase::Hold(HoldKind::FromIdle);
                    proof {
                        reveal_strlit("User hold");
                    }
                    acts.push(SupervisorAction::Emit(DownloaderMsg::Hold("User hold".to_owned())));
                },
                SupervisorEvent::Command(DownloaderCommand::Cancel) => {
                    self.current = None;
                },
                SupervisorEvent::Command(c) => {
                    self.handle_queue_command(&c, &mut acts);
                },
                _ => {},
            },
            Phase::Hold(k) => match ev {
                SupervisorEvent::Command(DownloaderCommand::Resume) => {
                    match (k, &self.current) {
                        (HoldKind::Retry, Some(url)) => {
                            let u = url.clone();
                            self.begin(u, &mut acts);
                        },
                        _ => {
                            self.go_idle(&mut acts);
                        },
                    }
                },
                SupervisorEvent::Command(DownloaderCommand::Cancel) => {
                    self.current = None;
                },
                SupervisorEvent::Command(c) => {
                    self.handle_queue_command(&c, &mut acts);
                },
                _ => {},
            },
            Phase::Downloading => match ev {
                SupervisorEvent::StallTimeout => {
                    if !self.stuck {
                        self.stuck = true;
                        acts.push(SupervisorAction::Emit(DownloaderMsg::Stuck));
                    }
                },
                SupervisorEvent::Line(l) => {
                    if self.reading_out {
                        self.stuck = false;
                        acts.push(SupervisorAction::ResetStallTimer);
                        if let Ok(m) = parse_progress_update_line(l.as_str()) {
                            acts.push(SupervisorAction::Emit(m));
                        }
                    }
                },
                SupervisorEvent::OutputEnd => {
                    self.stuck = false;
                    self.reading_out = false;
                    acts.push(SupervisorAction::ResetStallTimer);
                },
                SupervisorEvent::LineError => {
                    self.reading_out = false;
                    if self.pending.is_none() {
                        self.pending = Some(ExitReason::IOError);
                    }
                    acts.push(SupervisorAction::Kill);
                },
                SupervisorEvent::ChildExited(code) => {
                    let r = match self.pending {
                        Some(p) => p,
                        None => match code {
                            Some(c) => if c == 0 { ExitReason::Finished } else { ExitReason::ExitCode(c) },
                            None => ExitReason::ExternalSignal,
                        },
                    };
                    self.finish_run(r, &mut acts);
                },
                SupervisorEvent::WaitFailed => {
                    let r = match self.pending {
                        Some(p) => p,
                        None => ExitReason::IOError,
                    };
                    self.finish_run(r, &mut acts);
                },
                SupervisorEvent::Command(DownloaderCommand::Cancel) => {
                    self.reading_out = false;
                    self.pending = Some(ExitReason::Cancelled);
                    acts.push(SupervisorAction::Kill);
                },
                SupervisorEvent::Command(DownloaderCommand::Pause) => {
                    self.reading_out = false;
                    self.pending = Some(ExitReason::Paused);
                    acts.push(SupervisorAction::Kill);
                },
                SupervisorEvent::Command(c) => {
                    self.handle_queue_command(&c, &mut acts);
                },
                _ => {},
            },
        }
        acts
    }
}

} // verus!
