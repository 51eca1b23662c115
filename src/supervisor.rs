//! Supervision of sidecar processes: which processes are live, what each
//! lifecycle event of a sidecar is to notify, and the one-time shutdown.
//! Starting, signalling and reading processes is left to the caller, who
//! reports what happened and carries out what is decided here.
use vstd::prelude::*;
use crate::text::{concat, decimal, decimal_text, push_text};

verus! {

/// A sidecar to start: its identifier, executable and arguments.
#[derive(Clone, Debug)]
pub struct SidecarSpec {
    pub id: String,
    pub program: String,
    pub args: Vec<String>,
}

/// The sidecars started with the application: the inference server and the
/// backend.
pub fn default_sidecars() -> (r: Vec<SidecarSpec>)
    ensures
        r.len() == 2,
        r[0].id@ == "ollama"@,
        r[0].program@ == "binaries/ollama"@,
        r[0].args.deep_view() == seq!["serve"@],
        r[1].id@ == "python_backend"@,
        r[1].program@ == "binaries/python_backend"@,
        r[1].args.len() == 0,
{
    let mut serve: Vec<String> = Vec::new();
    serve.push("serve".to_owned());
    let mut v: Vec<SidecarSpec> = Vec::new();
    v.push(SidecarSpec { id: "ollama".to_owned(), program: "binaries/ollama".to_owned(), args: serve });
    v.push(SidecarSpec {
        id: "python_backend".to_owned(),
        program: "binaries/python_backend".to_owned(),
        args: Vec::new(),
    });
    assert(v[0].args.deep_view() =~= seq!["serve"@]);
    v
}

/// A started sidecar: which spec it came from, its process id, and whether
/// it has not yet been told to terminate.
#[derive(Clone, Debug)]
pub struct SidecarHandle {
    pub id: String,
    pub pid: u32,
    pub live: bool,
}

/// A sidecar that could not be started, and why.
#[derive(Clone, Debug)]
pub struct SpawnError {
    pub id: String,
    pub reason: String,
}

/// The process ids of the live handles, in order.
pub open spec fn live_pids(hs: Seq<SidecarHandle>) -> Seq<u32>
    decreases hs.len(),
{
    if hs.len() == 0 {
        Seq::empty()
    } else if hs.last().live {
        live_pids(hs.drop_last()).push(hs.last().pid)
    } else {
        live_pids(hs.drop_last())
    }
}

/// The handles of the started sidecars.
pub struct ProcessSupervisor {
    handles: Vec<SidecarHandle>,
}

impl ProcessSupervisor {
    /// The handles, in the order the sidecars were started.
    pub closed spec fn handles(&self) -> Seq<SidecarHandle> {
        self.handles@
    }

    /// No sidecar yet.
    pub fn new() -> (r: ProcessSupervisor)
        ensures
            r.handles().len() == 0,
    {
        ProcessSupervisor { handles: Vec::new() }
    }

    /// Records the outcome of starting the sidecar `id`: with a process id it
    /// becomes a live handle, whose index is returned; with the system's
    /// error it becomes a `SpawnError` and the handles stay as they were.
    pub fn record_spawn(&mut self, id: &str, outcome: Result<u32, String>) -> (r: Result<usize, SpawnError>)
        ensures
            match outcome {
                Ok(pid) => {
                    &&& r == Ok::<usize, SpawnError>(old(self).handles().len() as usize)
                    &&& final(self).handles().len() == old(self).handles().len() + 1
                    &&& final(self).handles().drop_last() == old(self).handles()
                    &&& final(self).handles().last().id@ == id@
                    &&& final(self).handles().last().pid == pid
                    &&& final(self).handles().last().live
                },
                Err(reason) => {
                    &&& r matches Err(e) && e.id@ == id@ && e.reason == reason
                    &&& final(self).handles() == old(self).handles()
                },
            },
    {
        match outcome {
            Ok(pid) => {
                let k = self.handles.len();
                self.handles.push(SidecarHandle { id: id.to_owned(), pid, live: true });
                assert(self.handles@.drop_last() =~= old(self).handles@);
                Ok(k)
            },
            Err(reason) => Err(SpawnError { id: id.to_owned(), reason }),
        }
    }

    /// Marks every live handle as told to terminate and returns their process
    /// ids, in order, for the caller to signal. With none live it changes
    /// nothing and returns nothing.
    pub fn terminate_all(&mut self) -> (r: Vec<u32>)
        ensures
            r@ == live_pids(old(self).handles()),
            final(self).handles().len() == old(self).handles().len(),
            forall|i: int| 0 <= i < final(self).handles().len() ==> {
                &&& !(#[trigger] final(self).handles()[i]).live
                &&& final(self).handles()[i].id == old(self).handles()[i].id
                &&& final(self).handles()[i].pid == old(self).handles()[i].pid
            },
            live_pids(final(self).handles()) == Seq::<u32>::empty(),
    {
        let ghost before = self.handles@;
        let mut pids: Vec<u32> = Vec::new();
        let mut i: usize = 0;
        while i < self.handles.len()
            invariant
                0 <= i <= self.handles.len(),
                self.handles.len() == before.len(),
                pids@ == live_pids(before.subrange(0, i as int)),
                forall|k: int| 0 <= k < self.handles.len() ==> {
                    &&& (#[trigger] self.handles@[k]).id == before[k].id
                    &&& self.handles@[k].pid == before[k].pid
                    &&& (k < i ==> !self.handles@[k].live)
                    &&& (k >= i ==> self.handles@[k].live == before[k].live)
                },
            decreases self.handles.len() - i,
        {
            assert(before.subrange(0, i + 1).drop_last() == before.subrange(0, i as int));
            let h = &self.handles[i];
            if h.live {
                pids.push(h.pid);
                let id = h.id.clone();
                let pid = h.pid;
                self.handles.set(i, SidecarHandle { id, pid, live: false });
            }
            i = i + 1;
        }
        assert(before.subrange(0, before.len() as int) == before);
        proof {
            lemma_none_live(self.handles@);
        }
        pids
    }

    /// The number of handles.
    pub fn len(&self) -> (r: usize)
        ensures
            r == self.handles().len(),
    {
        self.handles.len()
    }

    /// Whether the handle at `k` has not been told to terminate.
    pub fn is_live(&self, k: usize) -> (r: bool)
        requires
            k < self.handles().len(),
        ensures
            r == self.handles()[k as int].live,
    {
        self.handles[k].live
    }
}

/// With no live handle there is no live process id.
proof fn lemma_none_live(hs: Seq<SidecarHandle>)
    requires
        forall|i: int| 0 <= i < hs.len() ==> !(#[trigger] hs[i]).live,
    ensures
        live_pids(hs) == Seq::<u32>::empty(),
    decreases hs.len(),
{
    if hs.len() > 0 {
        assert(!hs[hs.len() - 1].live);
        lemma_none_live(hs.drop_last());
    }
}

/// Where a notification is published.
#[derive(Clone, Copy, Debug, PartialEq, Eq, Structural)]
pub enum Channel {
    Stdout,
    Stderr,
    Error,
    Crashed,
    Terminated,
    Ready,
    Warn,
    Exit,
}

impl Channel {
    /// The event name subscribers listen on.
    pub fn event_name(&self) -> (r: &'static str)
        ensures
            r@ == channel_name(*self),
    {
        match self {
            Channel::Stdout => "unity:stdout",
            Channel::Stderr => "unity:stderr",
            Channel::Error => "unity:error",
            Channel::Crashed => "unity:sidecar_crashed",
            Channel::Terminated => "unity:terminated",
            Channel::Ready => "unity:ready",
            Channel::Warn => "unity:warn",
            Channel::Exit => "unity:exit",
        }
    }
}

/// The event name of a channel.
pub open spec fn channel_name(c: Channel) -> Seq<char> {
    match c {
        Channel::Stdout => "unity:stdout"@,
        Channel::Stderr => "unity:stderr"@,
        Channel::Error => "unity:error"@,
        Channel::Crashed => "unity:sidecar_crashed"@,
        Channel::Terminated => "unity:terminated"@,
        Channel::Ready => "unity:ready"@,
        Channel::Warn => "unity:warn"@,
        Channel::Exit => "unity:exit"@,
    }
}

/// A notification to publish.
#[derive(Clone, Debug)]
pub struct Notice {
    pub channel: Channel,
    pub payload: String,
}

/// Notifications as channel and text.
pub open spec fn notices_view(ns: Seq<Notice>) -> Seq<(Channel, Seq<char>)> {
    ns.map_values(|n: Notice| (n.channel, n.payload@))
}

/// One of a process's two output streams.
#[derive(Clone, Copy, Debug, PartialEq, Eq, Structural)]
pub enum Stream {
    Stdout,
    Stderr,
}

/// What a supervised process reported.
#[derive(Clone, Debug)]
pub enum LifecycleEvent {
    /// A line on one of its output streams.
    OutputLine(Stream, String),
    /// A fault outside normal termination.
    ProcessError(String),
    /// The process exited, with its exit code if it had one.
    Terminated(Option<i32>),
}

/// How an exit status is written.
pub open spec fn exit_text(code: Option<i32>) -> Seq<char> {
    match code {
        None => "no exit code"@,
        Some(c) => if c >= 0 {
            "exit code "@ + decimal_text(c as nat)
        } else {
            "exit code -"@ + decimal_text((-c) as nat)
        },
    }
}

/// The exit status, written out.
pub fn exit_status_text(code: Option<i32>) -> (r: String)
    ensures
        r@ == exit_text(code),
{
    match code {
        None => "no exit code".to_owned(),
        Some(c) => if c >= 0 {
            concat("exit code ", decimal(c as u64).as_str())
        } else {
            let magnitude: u64 = (-(c as i64)) as u64;
            concat("exit code -", decimal(magnitude).as_str())
        },
    }
}

/// The notices that an event of sidecar `name` gives, given whether it has
/// crashed before and whether it had already finished.
pub open spec fn notices_for(name: Seq<char>, crashed: bool, finished: bool, ev: LifecycleEvent) -> Seq<(Channel, Seq<char>)> {
    if finished {
        Seq::empty()
    } else {
        match ev {
            LifecycleEvent::OutputLine(Stream::Stdout, line) => seq![(Channel::Stdout, line@)],
            LifecycleEvent::OutputLine(Stream::Stderr, line) => seq![(Channel::Stderr, line@)],
            LifecycleEvent::ProcessError(reason) => seq![(Channel::Error, name + ": "@ + reason@)],
            LifecycleEvent::Terminated(code) => if crashed {
                seq![
                    (Channel::Terminated, name + ": "@ + exit_text(code)),
                    (Channel::Crashed, "Sidecar crashed: "@ + name),
                ]
            } else {
                seq![(Channel::Terminated, name + ": "@ + exit_text(code))]
            },
        }
    }
}

/// The lifecycle of one started sidecar, as its events arrive.
pub struct SidecarMonitor {
    name: String,
    crashed: bool,
    finished: bool,
}

impl SidecarMonitor {
    /// The sidecar's name.
    pub closed spec fn name(&self) -> Seq<char> {
        self.name@
    }

    /// A fault has been reported.
    pub closed spec fn crashed(&self) -> bool {
        self.crashed
    }

    /// The process has terminated or its event stream has ended.
    pub closed spec fn finished(&self) -> bool {
        self.finished
    }

    /// Watches the sidecar `name` from its start.
    pub fn new(name: &str) -> (r: SidecarMonitor)
        ensures
            r.name() == name@,
            !r.crashed(),
            !r.finished(),
    {
        SidecarMonitor { name: name.to_owned(), crashed: false, finished: false }
    }

    /// The notices to publish for one event. Output lines pass through on
    /// their stream's channel; a fault is published and marks the sidecar
    /// crashed; termination is published once, followed by a crash notice
    /// if and only if a fault came before. After termination nothing more
    /// is published.
    pub fn on_event(&mut self, ev: LifecycleEvent) -> (r: Vec<Notice>)
        ensures
            notices_view(r@) == notices_for(old(self).name(), old(self).crashed(), old(self).finished(), ev),
            final(self).name() == old(self).name(),
            final(self).crashed() == (old(self).crashed() || (!old(self).finished()
                && ev is ProcessError)),
            final(self).finished() == (old(self).finished() || ev is Terminated),
    {
        let mut out: Vec<Notice> = Vec::new();
        if self.finished {
            assert(notices_view(out@) =~= Seq::empty());
            return out;
        }
        match ev {
            LifecycleEvent::OutputLine(stream, line) => {
                let channel = match stream {
                    Stream::Stdout => Channel::Stdout,
                    Stream::Stderr => Channel::Stderr,
                };
                out.push(Notice { channel, payload: line });
            },
            LifecycleEvent::ProcessError(reason) => {
                self.crashed = true;
                let mut text = concat(self.name.as_str(), ": ");
                push_text(&mut text, reason.as_str());
                out.push(Notice { channel: Channel::Error, payload: text });
            },
            LifecycleEvent::Terminated(code) => {
                self.finished = true;
                let mut text = concat(self.name.as_str(), ": ");
                push_text(&mut text, exit_status_text(code).as_str());
                out.push(Notice { channel: Channel::Terminated, payload: text });
                if self.crashed {
                    out.push(Notice { channel: Channel::Crashed, payload: concat("Sidecar crashed: ", self.name.as_str()) });
                }
            },
        }
        assert(notices_view(out@) =~= notices_for(old(self).name(), old(self).crashed(), old(self).finished(), ev));
        out
    }

    /// The event stream ended without a termination event: a crash notice
    /// if a fault came before, and nothing otherwise.
    pub fn on_closed(&mut self) -> (r: Vec<Notice>)
        ensures
            notices_view(r@) == (if !old(self).finished() && old(self).crashed() {
                seq![(Channel::Crashed, "Sidecar crashed: "@ + old(self).name())]
            } else {
                Seq::empty()
            }),
            final(self).name() == old(self).name(),
            final(self).crashed() == old(self).crashed(),
            final(self).finished(),
    {
        let mut out: Vec<Notice> = Vec::new();
        if !self.finished && self.crashed {
            out.push(Notice { channel: Channel::Crashed, payload: concat("Sidecar crashed: ", self.name.as_str()) });
        }
        self.finished = true;
        assert(notices_view(out@) =~= (if !old(self).finished() && old(self).crashed() {
            seq![(Channel::Crashed, "Sidecar crashed: "@ + old(self).name())]
        } else {
            Seq::empty()
        }));
        out
    }
}

/// The notice that ends the startup preflight: ready when both dependencies
/// answered, a warning otherwise.
pub fn preflight_notice(inference_ok: bool, backend_ok: bool) -> (r: Notice)
    ensures
        inference_ok && backend_ok ==> r.channel == Channel::Ready && r.payload@ == "preflight_ok"@,
        !(inference_ok && backend_ok) ==> r.channel == Channel::Warn && r.payload@ == "preflight_failed"@,
{
    if inference_ok && backend_ok {
        Notice { channel: Channel::Ready, payload: "preflight_ok".to_owned() }
    } else {
        Notice { channel: Channel::Warn, payload: "preflight_failed".to_owned() }
    }
}

/// What shutting down is to do: signal these processes, then publish the notice.
pub struct ShutdownPlan {
    pub signal: Vec<u32>,
    pub notice: Notice,
}

/// Runs the shutdown once per process lifetime.
pub struct ShutdownCoordinator {
    done: bool,
}

impl ShutdownCoordinator {
    /// Shutdown has run.
    pub closed spec fn has_run(&self) -> bool {
        self.done
    }

    /// Not yet run.
    pub fn new() -> (r: ShutdownCoordinator)
        ensures
            !r.has_run(),
    {
        ShutdownCoordinator { done: false }
    }

    /// On the exit signal: the first time, every live sidecar is marked and
    /// listed for a termination signal and the exit notice is returned;
    /// every later time nothing happens.
    pub fn on_exit(&mut self, sup: &mut ProcessSupervisor) -> (r: Option<ShutdownPlan>)
        ensures
            final(self).has_run(),
            old(self).has_run() ==> r is None && final(sup).handles() == old(sup).handles(),
            !old(self).has_run() ==> (r matches Some(plan) && plan.signal@ == live_pids(old(sup).handles())
                && plan.notice.channel == Channel::Exit && plan.notice.payload@ == "goodbye"@),
            !old(self).has_run() ==> live_pids(final(sup).handles()) == Seq::<u32>::empty()
                && final(sup).handles().len() == old(sup).handles().len(),
    {
        if self.done {
            return None;
        }
        self.done = true;
        let signal = sup.terminate_all();
        Some(ShutdownPlan { signal, notice: Notice { channel: Channel::Exit, payload: "goodbye".to_owned() } })
    }
}

} // verus!
