use vstd::prelude::*;
use vstd::string::*;

use crate::bounded_queue::{BoundedQueue, QueueError};
use crate::ipc_event::IpcEvent;
use crate::ansi_string::{decimal, push_decimal};
use crate::{IpcRole, IPC_DATA_SIZE, MEM_QUEUE_SHELL, MEM_QUEUE_TERMINAL};

verus! {

/// Identity of a session, as announced through the handshake queue.
pub type SessionPropsId = u64;

/// Why creating or opening a named shared region failed.
#[derive(Debug, Clone, Copy, PartialEq, Eq, Structural)]
pub enum RegionError {
    /// A region of that name is already mapped (left over by an earlier run,
    /// or created by the peer first).
    AlreadyExists,
    /// No region of that name exists.
    NotFound,
    PermissionDenied,
    ResourceExhausted,
    Other,
}

/// What a constructor does after trying to create one of its regions.
#[derive(Debug, Clone, Copy, PartialEq, Eq, Structural)]
pub enum CreateAction {
    /// The region was created: use it as it is.
    Use,
    /// The region already exists: open it.
    Open,
    /// The region already exists: open it and drop its stale contents.
    OpenAndClear,
    /// Construction fails.
    Abort,
}

/// Recovery policy for region creation: a region that already exists is
/// opened (and cleared when `clear_stale`), any other failure aborts
/// construction.
pub fn after_create(created: Result<(), RegionError>, clear_stale: bool) -> (action: CreateAction)
    ensures
        created is Ok ==> action == CreateAction::Use,
        created == Err::<(), RegionError>(RegionError::AlreadyExists) ==> action == if clear_stale {
            CreateAction::OpenAndClear
        } else {
            CreateAction::Open
        },
        created is Err && created != Err::<(), RegionError>(RegionError::AlreadyExists) ==> action
            == CreateAction::Abort,
{
    match created {
        Ok(()) => CreateAction::Use,
        Err(RegionError::AlreadyExists) => if clear_stale {
            CreateAction::OpenAndClear
        } else {
            CreateAction::Open
        },
        Err(_) => CreateAction::Abort,
    }
}

/// Where the opening of a session channel stands: which queue (named by the
/// side that writes it) is being set up, and how far.
#[derive(Debug, Clone, Copy, PartialEq, Eq, Structural)]
pub enum BuildPhase {
    Creating(IpcRole),
    Opening(IpcRole),
    Clearing(IpcRole),
    Ready,
    Failed,
}

/// The next thing the caller does on the operating system while opening a
/// session channel.
#[derive(Debug, Clone, Copy, PartialEq, Eq, Structural)]
pub enum BuildAction {
    /// Create the queue written by that side.
    Create(IpcRole),
    /// Open the existing queue written by that side.
    Open(IpcRole),
    /// Drop the stale contents of the queue written by that side.
    Clear(IpcRole),
    /// Both queues are usable: the channel is ready.
    Ready,
    /// Construction failed; no channel.
    Failed,
}

/// The action that starts `phase`.
pub open spec fn action_of(phase: BuildPhase) -> BuildAction {
    match phase {
        BuildPhase::Creating(q) => BuildAction::Create(q),
        BuildPhase::Opening(q) => BuildAction::Open(q),
        BuildPhase::Clearing(q) => BuildAction::Clear(q),
        BuildPhase::Ready => BuildAction::Ready,
        BuildPhase::Failed => BuildAction::Failed,
    }
}

/// The phase after queue `q` is usable: the terminal-written queue follows
/// the shell-written one, then the channel is ready. The shell side creates,
/// the terminal side only opens.
pub open spec fn after_queue(role: IpcRole, q: IpcRole) -> BuildPhase {
    match q {
        IpcRole::Shell => match role {
            IpcRole::Shell => BuildPhase::Creating(IpcRole::Terminal),
            IpcRole::Terminal => BuildPhase::Opening(IpcRole::Terminal),
        },
        IpcRole::Terminal => BuildPhase::Ready,
    }
}

/// One transition of channel opening on the outcome of the last action:
/// a created queue is used; one that already exists is opened then cleared;
/// any other failure, or a failed open, ends in `Failed`.
pub open spec fn next_phase(role: IpcRole, phase: BuildPhase, outcome: Result<(), RegionError>) -> BuildPhase {
    match phase {
        BuildPhase::Creating(q) => match outcome {
            Ok(()) => after_queue(role, q),
            Err(RegionError::AlreadyExists) => BuildPhase::Opening(q),
            Err(_) => BuildPhase::Failed,
        },
        BuildPhase::Opening(q) => match outcome {
            Ok(()) => match role {
                IpcRole::Shell => BuildPhase::Clearing(q),
                IpcRole::Terminal => after_queue(role, q),
            },
            Err(_) => BuildPhase::Failed,
        },
        BuildPhase::Clearing(q) => after_queue(role, q),
        BuildPhase::Ready => BuildPhase::Ready,
        BuildPhase::Failed => BuildPhase::Failed,
    }
}

/// Opening of one side's channel on a session, driven by the caller: it
/// performs each action on the operating system and hands back the outcome.
pub struct ChannelBuild {
    pub role: IpcRole,
    pub session: SessionPropsId,
    pub phase: BuildPhase,
}

impl ChannelBuild {
    /// Starts opening the shell's channel: it creates both queues.
    pub fn shell(id: SessionPropsId) -> (r: (ChannelBuild, BuildAction))
        ensures
            r.0.role == IpcRole::Shell,
            r.0.session == id,
            r.0.phase == BuildPhase::Creating(IpcRole::Shell),
            r.1 == action_of(r.0.phase),
    {
        let b = ChannelBuild { role: IpcRole::Shell, session: id, phase: BuildPhase::Creating(IpcRole::Shell) };
        (b, BuildAction::Create(IpcRole::Shell))
    }

    /// Starts opening the terminal's channel: it only opens both queues.
    pub fn terminal(id: SessionPropsId) -> (r: (ChannelBuild, BuildAction))
        ensures
            r.0.role == IpcRole::Terminal,
            r.0.session == id,
            r.0.phase == BuildPhase::Opening(IpcRole::Shell),
            r.1 == action_of(r.0.phase),
    {
        let b = ChannelBuild { role: IpcRole::Terminal, session: id, phase: BuildPhase::Opening(IpcRole::Shell) };
        (b, BuildAction::Open(IpcRole::Shell))
    }

    fn after_queue(&self, q: IpcRole) -> (r: BuildPhase)
        ensures
            r == after_queue(self.role, q),
    {
        match q {
            IpcRole::Shell => match self.role {
                IpcRole::Shell => BuildPhase::Creating(IpcRole::Terminal),
                IpcRole::Terminal => BuildPhase::Opening(IpcRole::Terminal),
            },
            IpcRole::Terminal => BuildPhase::Ready,
        }
    }

    /// Moves on with the outcome of the last action and returns the next one.
    /// The outcome of a `Clear` is not looked at.
    pub fn step(&mut self, outcome: Result<(), RegionError>) -> (action: BuildAction)
        ensures
            final(self).role == old(self).role,
            final(self).session == old(self).session,
            final(self).phase == next_phase(old(self).role, old(self).phase, outcome),
            action == action_of(final(self).phase),
    {
        let next = match self.phase {
            BuildPhase::Creating(q) => match outcome {
                Ok(()) => self.after_queue(q),
                Err(RegionError::AlreadyExists) => BuildPhase::Opening(q),
                Err(_) => BuildPhase::Failed,
            },
            BuildPhase::Opening(q) => match outcome {
                Ok(()) => match self.role {
                    IpcRole::Shell => BuildPhase::Clearing(q),
                    IpcRole::Terminal => self.after_queue(q),
                },
                Err(_) => BuildPhase::Failed,
            },
            BuildPhase::Clearing(q) => self.after_queue(q),
            BuildPhase::Ready => BuildPhase::Ready,
            BuildPhase::Failed => BuildPhase::Failed,
        };
        self.phase = next;
        match next {
            BuildPhase::Creating(q) => BuildAction::Create(q),
            BuildPhase::Opening(q) => BuildAction::Open(q),
            BuildPhase::Clearing(q) => BuildAction::Clear(q),
            BuildPhase::Ready => BuildAction::Ready,
            BuildPhase::Failed => BuildAction::Failed,
        }
    }

    /// The channel handle once both queues are usable.
    pub fn channel(&self) -> (r: Option<IpcChannel>)
        ensures
            self.phase == BuildPhase::Ready ==> (r matches Some(c) && c.spec_role() == self.role
                && c.spec_session() == self.session),
            self.phase != BuildPhase::Ready ==> r is None,
    {
        match self.phase {
            BuildPhase::Ready => Some(IpcChannel { role: self.role, session: self.session }),
            _ => None,
        }
    }
}

/// OS names of session `id`'s two queues: the shell-origin one, then the
/// terminal-origin one, each `<prefix>_<id>`.
pub fn queue_os_ids(id: SessionPropsId) -> (r: (String, String))
    ensures
        r.0@ == MEM_QUEUE_SHELL@ + "_"@ + decimal(id as int),
        r.1@ == MEM_QUEUE_TERMINAL@ + "_"@ + decimal(id as int),
{
    let mut sn = String::from_str(MEM_QUEUE_SHELL);
    sn.append("_");
    push_decimal(&mut sn, id as i128);
    let mut tn = String::from_str(MEM_QUEUE_TERMINAL);
    tn.append("_");
    push_decimal(&mut tn, id as i128);
    (sn, tn)
}

/// The two queues of one session: one written by the shell, one written by
/// the terminal.
pub struct SessionQueues {
    /// Shell send, terminal receive.
    pub shell_queue: BoundedQueue<IpcEvent>,
    /// Terminal send, shell receive.
    pub terminal_queue: BoundedQueue<IpcEvent>,
}

impl SessionQueues {
    pub open spec fn wf(&self) -> bool {
        self.shell_queue.wf() && self.terminal_queue.wf()
    }

    /// Both queues empty, each holding up to `IPC_DATA_SIZE` events.
    pub fn new() -> (r: Self)
        ensures
            r.wf(),
            r.shell_queue@ == Seq::<IpcEvent>::empty(),
            r.terminal_queue@ == Seq::<IpcEvent>::empty(),
            r.shell_queue.spec_capacity() == IPC_DATA_SIZE,
            r.terminal_queue.spec_capacity() == IPC_DATA_SIZE,
    {
        SessionQueues {
            shell_queue: BoundedQueue::new(IPC_DATA_SIZE),
            terminal_queue: BoundedQueue::new(IPC_DATA_SIZE),
        }
    }

    /// Drops stale events from both queues.
    pub fn clear(&mut self)
        ensures
            final(self).wf(),
            final(self).shell_queue@ == Seq::<IpcEvent>::empty(),
            final(self).terminal_queue@ == Seq::<IpcEvent>::empty(),
            final(self).shell_queue.spec_capacity() == old(self).shell_queue.spec_capacity(),
            final(self).terminal_queue.spec_capacity() == old(
                self,
            ).terminal_queue.spec_capacity(),
    {
        self.shell_queue.clear();
        self.terminal_queue.clear();
    }
}

/// The queue a handle of `role` writes: its own origin's.
pub open spec fn outbox(q: SessionQueues, role: IpcRole) -> BoundedQueue<IpcEvent> {
    match role {
        IpcRole::Shell => q.shell_queue,
        IpcRole::Terminal => q.terminal_queue,
    }
}

/// The queue a handle of `role` reads: the other origin's.
pub open spec fn inbox(q: SessionQueues, role: IpcRole) -> BoundedQueue<IpcEvent> {
    match role {
        IpcRole::Shell => q.terminal_queue,
        IpcRole::Terminal => q.shell_queue,
    }
}

/// The other side of a session.
pub open spec fn peer(role: IpcRole) -> IpcRole {
    match role {
        IpcRole::Shell => IpcRole::Terminal,
        IpcRole::Terminal => IpcRole::Shell,
    }
}

/// One side's handle on a session's duplex channel.
pub struct IpcChannel {
    role: IpcRole,
    session: SessionPropsId,
}

impl IpcChannel {
    pub closed spec fn spec_role(&self) -> IpcRole {
        self.role
    }

    pub closed spec fn spec_session(&self) -> SessionPropsId {
        self.session
    }

    /// The shell's handle on session `id`.
    pub fn shell(id: SessionPropsId) -> (r: Self)
        ensures
            r.spec_role() == IpcRole::Shell,
            r.spec_session() == id,
    {
        IpcChannel { role: IpcRole::Shell, session: id }
    }

    /// The terminal's handle on session `id`.
    pub fn terminal(id: SessionPropsId) -> (r: Self)
        ensures
            r.spec_role() == IpcRole::Terminal,
            r.spec_session() == id,
    {
        IpcChannel { role: IpcRole::Terminal, session: id }
    }

    pub fn role(&self) -> (r: IpcRole)
        ensures
            r == self.spec_role(),
    {
        self.role
    }

    pub fn session(&self) -> (r: SessionPropsId)
        ensures
            r == self.spec_session(),
    {
        self.session
    }

    /// Writes `evt` to this side's own queue; the peer's queue is untouched.
    /// Fails with `Full`, writing nothing, when that queue is full.
    pub fn try_send(&self, queues: &mut SessionQueues, evt: IpcEvent) -> (r: Result<
        (),
        QueueError,
    >)
        requires
            old(queues).wf(),
        ensures
            final(queues).wf(),
            inbox(*final(queues), self.spec_role()) == inbox(*old(queues), self.spec_role()),
            outbox(*final(queues), self.spec_role()).spec_capacity() == outbox(
                *old(queues),
                self.spec_role(),
            ).spec_capacity(),
            outbox(*old(queues), self.spec_role())@.len() < outbox(
                *old(queues),
                self.spec_role(),
            ).spec_capacity() ==> r is Ok && outbox(*final(queues), self.spec_role())@ == outbox(
                *old(queues),
                self.spec_role(),
            )@.push(evt),
            outbox(*old(queues), self.spec_role())@.len() >= outbox(
                *old(queues),
                self.spec_role(),
            ).spec_capacity() ==> r is Err && outbox(*final(queues), self.spec_role())@ == outbox(
                *old(queues),
                self.spec_role(),
            )@,
    {
        match self.role {
            IpcRole::Shell => queues.shell_queue.try_write(evt),
            IpcRole::Terminal => queues.terminal_queue.try_write(evt),
        }
    }

    /// Takes the oldest event of the peer's queue; this side's own queue is
    /// untouched. `None` when the peer's queue is empty.
    pub fn try_recv(&self, queues: &mut SessionQueues) -> (r: Option<IpcEvent>)
        requires
            old(queues).wf(),
        ensures
            final(queues).wf(),
            outbox(*final(queues), self.spec_role()) == outbox(*old(queues), self.spec_role()),
            inbox(*final(queues), self.spec_role()).spec_capacity() == inbox(
                *old(queues),
                self.spec_role(),
            ).spec_capacity(),
            inbox(*old(queues), self.spec_role())@.len() == 0 ==> r is None && inbox(
                *final(queues),
                self.spec_role(),
            )@ == inbox(*old(queues), self.spec_role())@,
            inbox(*old(queues), self.spec_role())@.len() > 0 ==> r == Some(
                inbox(*old(queues), self.spec_role())@[0],
            ) && inbox(*final(queues), self.spec_role())@ == inbox(
                *old(queues),
                self.spec_role(),
            )@.drop_first(),
    {
        match self.role {
            IpcRole::Shell => queues.terminal_queue.try_read(),
            IpcRole::Terminal => queues.shell_queue.try_read(),
        }
    }
}

/// Each side reads exactly the queue its peer writes, and never the queue it
/// writes itself: what the shell sends only the terminal receives, and the
/// other way round.
pub proof fn lemma_role_asymmetry(q: SessionQueues, role: IpcRole)
    ensures
        inbox(q, peer(role)) == outbox(q, role),
        inbox(q, role) == outbox(q, peer(role)),
        peer(role) != role,
        peer(peer(role)) == role,
{
}

} // verus!
