use vstd::prelude::*;

pub mod register_list;

verus! {

/// An entry whose last heartbeat is this many milliseconds old or older is dead.
pub const DEAD_TIME_MILLIS: u64 = 500;

/// Identity of a registered participant (terminal, shell or session).
pub type RegisterInfoId = u64;

/// What a registry table needs of its entries: an identity and a liveness test
/// at a given time.
pub trait IRegisterInfo: Copy + Sized {
    spec fn spec_id(&self) -> RegisterInfoId;

    spec fn spec_valid(&self, now: u64) -> bool;

    fn id(&self) -> (r: RegisterInfoId)
        ensures
            r == self.spec_id(),
    ;

    fn is_valid(&self, now: u64) -> (r: bool)
        ensures
            r == self.spec_valid(now),
    ;
}

/// A liveness record: an identity and the time of its last heartbeat, in
/// milliseconds on a monotonic clock shared by every participant.
#[derive(Debug, Clone, Copy, PartialEq, Eq, Structural)]
pub struct RegisterInfo {
    register_id: RegisterInfoId,
    heart_beat: u64,
}

/// An entry that last beat at `beat` is alive at `now` when fewer than
/// `DEAD_TIME_MILLIS` milliseconds have passed (a time before the beat counts
/// as no time passed).
pub open spec fn alive_at(beat: u64, now: u64) -> bool {
    now < beat + DEAD_TIME_MILLIS
}

impl RegisterInfo {
    pub closed spec fn spec_register_id(&self) -> RegisterInfoId {
        self.register_id
    }

    pub closed spec fn spec_heart_beat(&self) -> u64 {
        self.heart_beat
    }

    /// A record for `register_id` that beats at `now`.
    pub fn new(register_id: RegisterInfoId, now: u64) -> (r: Self)
        ensures
            r.spec_register_id() == register_id,
            r.spec_heart_beat() == now,
    {
        Self { register_id, heart_beat: now }
    }

    /// Records a heartbeat at `now`.
    pub fn heart_beat(&mut self, now: u64)
        ensures
            final(self).spec_register_id() == old(self).spec_register_id(),
            final(self).spec_heart_beat() == now,
    {
        self.heart_beat = now;
    }

    /// Whether the record is alive at `now`.
    pub fn is_alive(&self, now: u64) -> (r: bool)
        ensures
            r == alive_at(self.spec_heart_beat(), now),
    {
        let elapsed = if now > self.heart_beat {
            now - self.heart_beat
        } else {
            0
        };
        elapsed < DEAD_TIME_MILLIS
    }

    pub fn register_id(&self) -> (r: RegisterInfoId)
        ensures
            r == self.spec_register_id(),
    {
        self.register_id
    }

    /// Time of the last heartbeat.
    pub fn last_heart_beat(&self) -> (r: u64)
        ensures
            r == self.spec_heart_beat(),
    {
        self.heart_beat
    }
}

impl IRegisterInfo for RegisterInfo {
    open spec fn spec_id(&self) -> RegisterInfoId {
        self.spec_register_id()
    }

    open spec fn spec_valid(&self, now: u64) -> bool {
        alive_at(self.spec_heart_beat(), now)
    }

    fn id(&self) -> (r: RegisterInfoId) {
        self.register_id
    }

    fn is_valid(&self, now: u64) -> (r: bool) {
        self.is_alive(now)
    }
}

/// An entry that beat at `beat` is alive for every query before
/// `beat + DEAD_TIME_MILLIS` and dead for every query at or after it.
pub proof fn lemma_liveness_window(beat: u64, now: u64)
    ensures
        now < beat + DEAD_TIME_MILLIS ==> alive_at(beat, now),
        now >= beat + DEAD_TIME_MILLIS ==> !alive_at(beat, now),
{
}

} // verus!
