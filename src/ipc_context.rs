use vstd::prelude::*;

use crate::bounded_queue::{BoundedQueue, QueueError};
use crate::ipc_channel::SessionPropsId;
use crate::register_info::register_list::{
    first_match, lemma_first_match, swept, with_added, without, RegisterList,
};
use crate::register_info::{alive_at, RegisterInfo, RegisterInfoId};
use crate::{IpcRole, HEART_BEAT_INTERVAL, IPC_REGISTER_SIZE};

verus! {

/// One registry table.
pub type RegisterTable = RegisterList<IPC_REGISTER_SIZE, RegisterInfo>;

/// The state every participant shares: the three liveness tables and the
/// handshake queue of announced session ids.
pub struct Registry {
    pub terminal_register_list: RegisterTable,
    pub shell_register_list: RegisterTable,
    pub session_register_list: RegisterTable,
    pub queue: BoundedQueue<SessionPropsId>,
}

impl Registry {
    pub open spec fn wf(&self) -> bool {
        &&& self.terminal_register_list.wf()
        &&& self.shell_register_list.wf()
        &&& self.session_register_list.wf()
        &&& self.queue.wf()
    }

    /// Empty tables and an empty handshake queue of `IPC_REGISTER_SIZE` ids.
    pub fn new() -> (r: Self)
        ensures
            r.wf(),
            r.terminal_register_list@ == Seq::new(IPC_REGISTER_SIZE as nat, |i: int| None::<RegisterInfo>),
            r.shell_register_list@ == Seq::new(IPC_REGISTER_SIZE as nat, |i: int| None::<RegisterInfo>),
            r.session_register_list@ == Seq::new(IPC_REGISTER_SIZE as nat, |i: int| None::<RegisterInfo>),
            r.queue@ == Seq::<SessionPropsId>::empty(),
            r.queue.spec_capacity() == IPC_REGISTER_SIZE,
    {
        Registry {
            terminal_register_list: RegisterList::new(),
            shell_register_list: RegisterList::new(),
            session_register_list: RegisterList::new(),
            queue: BoundedQueue::new(IPC_REGISTER_SIZE),
        }
    }
}

/// The slots of `s` after the first entry with `id` beat at `now`: that slot
/// holds the same identity with heartbeat `now`, every other slot is as it was.
pub open spec fn beaten(s: Seq<Option<RegisterInfo>>, t: Seq<Option<RegisterInfo>>, id: RegisterInfoId, now: u64) -> bool {
    let i = first_match(s, id);
    &&& t.len() == s.len()
    &&& i < s.len() ==> {
        &&& t == s.update(i, t[i])
        &&& t[i] is Some
        &&& t[i].unwrap().spec_register_id() == id
        &&& t[i].unwrap().spec_heart_beat() == now
    }
    &&& i >= s.len() ==> t == s
}

/// Refreshes the heartbeat of the first entry of `table` with `id`; returns
/// whether there was one.
fn beat_in(table: &mut RegisterTable, id: RegisterInfoId, now: u64) -> (found: bool)
    requires
        old(table).wf(),
    ensures
        final(table).wf(),
        found == (first_match(old(table)@, id) < IPC_REGISTER_SIZE),
        beaten(old(table)@, final(table)@, id, now),
{
    proof {
        table.lemma_slot_count();
        lemma_first_match(table@, id);
    }
    match table.get_ref(id) {
        Some(info) => {
            let mut info = info;
            info.heart_beat(now);
            let found = table.get_mut(id, info);
            proof {
                table.lemma_slot_count();
            }
            found
        },
        None => false,
    }
}

/// The handshake accepts `id` only while the session table holds a live
/// entry for it at `now`: the first entry with that id must be alive.
pub open spec fn session_ready(sessions: Seq<Option<RegisterInfo>>, id: SessionPropsId, now: u64) -> bool {
    let i = first_match(sessions, id);
    0 <= i < sessions.len() && alive_at(sessions[i].unwrap().spec_heart_beat(), now)
}

/// Paces a participant's heartbeats: one is due on the first tick, then each
/// time at least `HEART_BEAT_INTERVAL` milliseconds have passed since the
/// last one.
pub struct HeartBeatTimer {
    last: Option<u64>,
}

impl HeartBeatTimer {
    pub closed spec fn spec_last(&self) -> Option<u64> {
        self.last
    }

    pub fn new() -> (r: Self)
        ensures
            r.spec_last() is None,
    {
        HeartBeatTimer { last: None }
    }

    /// Whether a heartbeat is due at `now`; when it is, `now` becomes the time
    /// of the last one.
    pub fn tick(&mut self, now: u64) -> (due: bool)
        ensures
            due == match old(self).spec_last() {
                None => true,
                Some(last) => now >= last + HEART_BEAT_INTERVAL,
            },
            final(self).spec_last() == if due {
                Some(now)
            } else {
                old(self).spec_last()
            },
    {
        let due = match self.last {
            None => true,
            Some(last) => now >= last && now - last >= HEART_BEAT_INTERVAL,
        };
        if due {
            self.last = Some(now);
        }
        due
    }
}

/// A participant's handle on the shared registry, acting as shell or as
/// terminal.
pub struct IpcContext {
    role: IpcRole,
}

impl IpcContext {
    pub closed spec fn spec_role(&self) -> IpcRole {
        self.role
    }

    pub fn shell() -> (r: Self)
        ensures
            r.spec_role() == IpcRole::Shell,
    {
        IpcContext { role: IpcRole::Shell }
    }

    pub fn terminal() -> (r: Self)
        ensures
            r.spec_role() == IpcRole::Terminal,
    {
        IpcContext { role: IpcRole::Terminal }
    }

    pub fn role(&self) -> (r: IpcRole)
        ensures
            r == self.spec_role(),
    {
        self.role
    }

    /// Sweeps the terminal table at `now`, then adds `info`.
    pub fn regsiter_terminal(&self, registry: &mut Registry, info: RegisterInfo, now: u64)
        requires
            old(registry).wf(),
        ensures
            final(registry).wf(),
            final(registry).terminal_register_list@ == with_added(
                swept(old(registry).terminal_register_list@, now),
                info,
            ),
            final(registry).shell_register_list == old(registry).shell_register_list,
            final(registry).session_register_list == old(registry).session_register_list,
            final(registry).queue == old(registry).queue,
    {
        registry.terminal_register_list.check_valid(now);
        registry.terminal_register_list.add(info);
    }

    /// Sweeps the shell table at `now`, then adds `info`.
    pub fn regsiter_shell(&self, registry: &mut Registry, info: RegisterInfo, now: u64)
        requires
            old(registry).wf(),
        ensures
            final(registry).wf(),
            final(registry).shell_register_list@ == with_added(
                swept(old(registry).shell_register_list@, now),
                info,
            ),
            final(registry).terminal_register_list == old(registry).terminal_register_list,
            final(registry).session_register_list == old(registry).session_register_list,
            final(registry).queue == old(registry).queue,
    {
        registry.shell_register_list.check_valid(now);
        registry.shell_register_list.add(info);
    }

    /// Sweeps the session table at `now`, then adds `info`.
    pub fn regsiter_session(&self, registry: &mut Registry, info: RegisterInfo, now: u64)
        requires
            old(registry).wf(),
        ensures
            final(registry).wf(),
            final(registry).session_register_list@ == with_added(
                swept(old(registry).session_register_list@, now),
                info,
            ),
            final(registry).terminal_register_list == old(registry).terminal_register_list,
            final(registry).shell_register_list == old(registry).shell_register_list,
            final(registry).queue == old(registry).queue,
    {
        registry.session_register_list.check_valid(now);
        registry.session_register_list.add(info);
    }

    pub fn remove_terminal(&self, registry: &mut Registry, id: RegisterInfoId)
        requires
            old(registry).wf(),
        ensures
            final(registry).wf(),
            final(registry).terminal_register_list@ == without(
                old(registry).terminal_register_list@,
                id,
            ),
            final(registry).shell_register_list == old(registry).shell_register_list,
            final(registry).session_register_list == old(registry).session_register_list,
            final(registry).queue == old(registry).queue,
    {
        registry.terminal_register_list.remove(id);
    }

    pub fn remove_shell(&self, registry: &mut Registry, id: RegisterInfoId)
        requires
            old(registry).wf(),
        ensures
            final(registry).wf(),
            final(registry).shell_register_list@ == without(old(registry).shell_register_list@, id),
            final(registry).terminal_register_list == old(registry).terminal_register_list,
            final(registry).session_register_list == old(registry).session_register_list,
            final(registry).queue == old(registry).queue,
    {
        registry.shell_register_list.remove(id);
    }

    pub fn remove_session(&self, registry: &mut Registry, id: RegisterInfoId)
        requires
            old(registry).wf(),
        ensures
            final(registry).wf(),
            final(registry).session_register_list@ == without(
                old(registry).session_register_list@,
                id,
            ),
            final(registry).terminal_register_list == old(registry).terminal_register_list,
            final(registry).shell_register_list == old(registry).shell_register_list,
            final(registry).queue == old(registry).queue,
    {
        registry.session_register_list.remove(id);
    }

    /// Refreshes the terminal entry `id`; `false` when it is gone (for
    /// instance swept as dead by another participant).
    pub fn heart_beat_terminal(&self, registry: &mut Registry, id: RegisterInfoId, now: u64) -> (found: bool)
        requires
            old(registry).wf(),
        ensures
            final(registry).wf(),
            found == (first_match(old(registry).terminal_register_list@, id) < IPC_REGISTER_SIZE),
            beaten(
                old(registry).terminal_register_list@,
                final(registry).terminal_register_list@,
                id,
                now,
            ),
            final(registry).shell_register_list == old(registry).shell_register_list,
            final(registry).session_register_list == old(registry).session_register_list,
            final(registry).queue == old(registry).queue,
    {
        beat_in(&mut registry.terminal_register_list, id, now)
    }

    /// Refreshes the shell entry `id`; `false` when it is gone.
    pub fn heart_beat_shell(&self, registry: &mut Registry, id: RegisterInfoId, now: u64) -> (found: bool)
        requires
            old(registry).wf(),
        ensures
            final(registry).wf(),
            found == (first_match(old(registry).shell_register_list@, id) < IPC_REGISTER_SIZE),
            beaten(
                old(registry).shell_register_list@,
                final(registry).shell_register_list@,
                id,
                now,
            ),
            final(registry).terminal_register_list == old(registry).terminal_register_list,
            final(registry).session_register_list == old(registry).session_register_list,
            final(registry).queue == old(registry).queue,
    {
        beat_in(&mut registry.shell_register_list, id, now)
    }

    /// Refreshes the session entry `id`; `false` when it is gone.
    pub fn heart_beat_session(&self, registry: &mut Registry, id: RegisterInfoId, now: u64) -> (found: bool)
        requires
            old(registry).wf(),
        ensures
            final(registry).wf(),
            found == (first_match(old(registry).session_register_list@, id) < IPC_REGISTER_SIZE),
            beaten(
                old(registry).session_register_list@,
                final(registry).session_register_list@,
                id,
                now,
            ),
            final(registry).terminal_register_list == old(registry).terminal_register_list,
            final(registry).shell_register_list == old(registry).shell_register_list,
            final(registry).queue == old(registry).queue,
    {
        beat_in(&mut registry.session_register_list, id, now)
    }

    /// Sweeps all three tables at `now`.
    pub fn check_register_validation(&self, registry: &mut Registry, now: u64)
        requires
            old(registry).wf(),
        ensures
            final(registry).wf(),
            final(registry).terminal_register_list@ == swept(
                old(registry).terminal_register_list@,
                now,
            ),
            final(registry).shell_register_list@ == swept(old(registry).shell_register_list@, now),
            final(registry).session_register_list@ == swept(
                old(registry).session_register_list@,
                now,
            ),
            final(registry).queue == old(registry).queue,
    {
        registry.terminal_register_list.check_valid(now);
        registry.shell_register_list.check_valid(now);
        registry.session_register_list.check_valid(now);
    }

    /// Announces session `id` on the handshake queue (shell side only). Fails
    /// with `Full`, announcing nothing, when the queue is full.
    pub fn try_send(&self, registry: &mut Registry, id: SessionPropsId) -> (r: Result<(), QueueError>)
        requires
            self.spec_role() == IpcRole::Shell,
            old(registry).wf(),
        ensures
            final(registry).wf(),
            final(registry).terminal_register_list == old(registry).terminal_register_list,
            final(registry).shell_register_list == old(registry).shell_register_list,
            final(registry).session_register_list == old(registry).session_register_list,
            final(registry).queue.spec_capacity() == old(registry).queue.spec_capacity(),
            old(registry).queue@.len() < old(registry).queue.spec_capacity() ==> r is Ok
                && final(registry).queue@ == old(registry).queue@.push(id),
            old(registry).queue@.len() >= old(registry).queue.spec_capacity() ==> r is Err
                && final(registry).queue@ == old(registry).queue@,
    {
        registry.queue.try_write(id)
    }

    /// Takes the oldest announced session id (terminal side only) and returns
    /// it only if the session table holds a live entry for it at `now`; an id
    /// that fails the check is dropped, not requeued.
    pub fn try_recv(&self, registry: &mut Registry, now: u64) -> (r: Option<SessionPropsId>)
        requires
            self.spec_role() == IpcRole::Terminal,
            old(registry).wf(),
        ensures
            final(registry).wf(),
            final(registry).terminal_register_list == old(registry).terminal_register_list,
            final(registry).shell_register_list == old(registry).shell_register_list,
            final(registry).session_register_list == old(registry).session_register_list,
            final(registry).queue.spec_capacity() == old(registry).queue.spec_capacity(),
            old(registry).queue@.len() == 0 ==> r is None && final(registry).queue@ == old(
                registry,
            ).queue@,
            old(registry).queue@.len() > 0 ==> {
                let id = old(registry).queue@[0];
                &&& final(registry).queue@ == old(registry).queue@.drop_first()
                &&& r == if session_ready(old(registry).session_register_list@, id, now) {
                    Some(id)
                } else {
                    None::<SessionPropsId>
                }
            },
    {
        proof {
            registry.session_register_list.lemma_slot_count();
        }
        let ghost sessions = registry.session_register_list@;
        match registry.queue.try_read() {
            Some(id) => {
                proof {
                    lemma_first_match(sessions, id);
                }
                match registry.session_register_list.get_ref(id) {
                    Some(info) => {
                        if info.is_alive(now) {
                            Some(id)
                        } else {
                            None
                        }
                    },
                    None => None,
                }
            },
            None => None,
        }
    }
}

} // verus!
