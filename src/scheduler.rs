//! A time-ordered queue of events that fire once their time has come.
use vstd::prelude::*;

verus! {

/// A payload and the absolute time, in milliseconds, at which it fires.
#[derive(Clone, Copy, Debug, PartialEq, Eq)]
pub struct ScheduledEvent<T> {
    pub payload: T,
    pub fire_time: u64,
}

/// The fire times ascend along the queue.
pub open spec fn sorted_by_time<T>(q: Seq<ScheduledEvent<T>>) -> bool {
    forall|i: int, j: int| 0 <= i < j < q.len() ==> q[i].fire_time <= q[j].fire_time
}

/// The length of the leading run of events that fire at or before time `t`.
pub open spec fn due_count<T>(q: Seq<ScheduledEvent<T>>, t: u64) -> nat
    decreases q.len(),
{
    if q.len() == 0 || q[0].fire_time > t {
        0
    } else {
        1 + due_count(q.drop_first(), t)
    }
}

/// The queue with an event for `payload` at `fire_time` placed after every event that fires
/// no later, so that events with equal times keep the order they were scheduled in.
pub open spec fn with_event<T>(q: Seq<ScheduledEvent<T>>, payload: T, fire_time: u64) -> Seq<ScheduledEvent<T>> {
    q.insert(due_count(q, fire_time) as int, ScheduledEvent { payload, fire_time })
}

/// `now + delay`, held at `u64::MAX`.
pub open spec fn later(now: u64, delay: u64) -> u64 {
    if now + delay > u64::MAX {
        u64::MAX
    } else {
        (now + delay) as u64
    }
}

proof fn lemma_due_count<T>(q: Seq<ScheduledEvent<T>>, t: u64)
    ensures
        due_count(q, t) <= q.len(),
        forall|k: int| 0 <= k < due_count(q, t) ==> q[k].fire_time <= t,
        due_count(q, t) < q.len() ==> q[due_count(q, t) as int].fire_time > t,
    decreases q.len(),
{
    if q.len() > 0 && q[0].fire_time <= t {
        lemma_due_count(q.drop_first(), t);
        assert forall|k: int| 0 <= k < due_count(q, t) implies q[k].fire_time <= t by {
            if k > 0 {
                assert(q[k] == q.drop_first()[k - 1]);
            }
        }
    }
}

proof fn lemma_due_count_sorted<T>(q: Seq<ScheduledEvent<T>>, t: u64)
    requires
        sorted_by_time(q),
    ensures
        due_count(q, t) <= q.len(),
        forall|k: int| 0 <= k < due_count(q, t) ==> q[k].fire_time <= t,
        forall|k: int| due_count(q, t) <= k < q.len() ==> q[k].fire_time > t,
{
    lemma_due_count(q, t);
}

proof fn lemma_due_count_is<T>(q: Seq<ScheduledEvent<T>>, t: u64, i: int)
    requires
        0 <= i <= q.len(),
        forall|k: int| 0 <= k < i ==> q[k].fire_time <= t,
        i == q.len() || q[i].fire_time > t,
    ensures
        due_count(q, t) == i,
    decreases i,
{
    if i > 0 {
        lemma_due_count_is(q.drop_first(), t, i - 1);
    }
}

/// A queue of events, each delivered once the scheduler's clock reaches its fire time.
pub struct EventScheduler<T> {
    now: u64,
    queue: Vec<ScheduledEvent<T>>,
}

impl<T> EventScheduler<T> {
    pub closed spec fn spec_now(&self) -> u64 {
        self.now
    }

    pub closed spec fn spec_queue(&self) -> Seq<ScheduledEvent<T>> {
        self.queue@
    }

    pub open spec fn wf(&self) -> bool {
        sorted_by_time(self.spec_queue())
    }

    /// An empty scheduler whose clock reads zero.
    pub fn new() -> (r: EventScheduler<T>)
        ensures
            r.spec_now() == 0,
            r.spec_queue() == Seq::<ScheduledEvent<T>>::empty(),
            r.wf(),
    {
        EventScheduler { now: 0, queue: Vec::new() }
    }

    /// The scheduler's clock, in milliseconds.
    pub fn now(&self) -> (r: u64)
        ensures
            r == self.spec_now(),
    {
        self.now
    }

    /// The number of events waiting to fire.
    pub fn len(&self) -> (r: usize)
        ensures
            r == self.spec_queue().len(),
    {
        self.queue.len()
    }

    /// Schedules `payload` to fire `delay_millis` after the current time.
    pub fn schedule(&mut self, payload: T, delay_millis: u64)
        requires
            old(self).wf(),
        ensures
            final(self).spec_now() == old(self).spec_now(),
            final(self).spec_queue() == with_event(old(self).spec_queue(), payload, later(old(self).spec_now(), delay_millis)),
            final(self).wf(),
    {
        let fire_time = self.now.saturating_add(delay_millis);
        let mut i: usize = 0;
        while i < self.queue.len() && self.queue[i].fire_time <= fire_time
            invariant
                i <= self.queue@.len(),
                forall|k: int| 0 <= k < i ==> self.queue@[k].fire_time <= fire_time,
            decreases self.queue@.len() - i,
        {
            i = i + 1;
        }
        proof {
            lemma_due_count_is(self.queue@, fire_time, i as int);
            lemma_due_count_sorted(self.queue@, fire_time);
        }
        let ghost before = self.queue@;
        self.queue.insert(i, ScheduledEvent { payload, fire_time });
        proof {
            let q = self.queue@;
            assert forall|a: int, b: int| 0 <= a < b < q.len() implies q[a].fire_time <= q[b].fire_time by {
                if b < i {
                } else if a > i {
                    assert(q[a] == before[a - 1]);
                    assert(q[b] == before[b - 1]);
                } else if a == i {
                    assert(q[b] == before[b - 1]);
                } else if b == i {
                } else {
                    assert(q[b] == before[b - 1]);
                }
            }
        }
    }

    /// Advances the clock by `delta_millis`.
    pub fn tick(&mut self, delta_millis: u64)
        ensures
            final(self).spec_now() == later(old(self).spec_now(), delta_millis),
            final(self).spec_queue() == old(self).spec_queue(),
    {
        self.now = self.now.saturating_add(delta_millis);
    }

    /// Removes and returns every event whose fire time is at or before the current time, in
    /// ascending order of fire time, events of equal time in the order they were scheduled.
    pub fn poll(&mut self) -> (fired: Vec<ScheduledEvent<T>>)
        requires
            old(self).wf(),
        ensures
            fired@ == old(self).spec_queue().take(due_count(old(self).spec_queue(), old(self).spec_now()) as int),
            final(self).spec_queue() == old(self).spec_queue().skip(due_count(old(self).spec_queue(), old(self).spec_now()) as int),
            final(self).spec_now() == old(self).spec_now(),
            final(self).wf(),
            forall|i: int| 0 <= i < fired@.len() ==> fired@[i].fire_time <= old(self).spec_now(),
            sorted_by_time(fired@),
            forall|i: int| 0 <= i < final(self).spec_queue().len() ==> final(self).spec_queue()[i].fire_time > old(self).spec_now(),
    {
        let mut i: usize = 0;
        while i < self.queue.len() && self.queue[i].fire_time <= self.now
            invariant
                i <= self.queue@.len(),
                forall|k: int| 0 <= k < i ==> self.queue@[k].fire_time <= self.now,
            decreases self.queue@.len() - i,
        {
            i = i + 1;
        }
        proof {
            lemma_due_count_is(self.queue@, self.now, i as int);
            lemma_due_count_sorted(self.queue@, self.now);
        }
        let mut fired = self.queue.split_off(i);
        std::mem::swap(&mut self.queue, &mut fired);
        fired
    }

    /// Advances the clock by `delta_millis`, then removes and returns the events that are due.
    pub fn update(&mut self, delta_millis: u64) -> (fired: Vec<ScheduledEvent<T>>)
        requires
            old(self).wf(),
        ensures
            final(self).spec_now() == later(old(self).spec_now(), delta_millis),
            fired@ == old(self).spec_queue().take(due_count(old(self).spec_queue(), final(self).spec_now()) as int),
            final(self).spec_queue() == old(self).spec_queue().skip(due_count(old(self).spec_queue(), final(self).spec_now()) as int),
            final(self).wf(),
            forall|i: int| 0 <= i < fired@.len() ==> fired@[i].fire_time <= final(self).spec_now(),
            sorted_by_time(fired@),
            forall|i: int| 0 <= i < final(self).spec_queue().len() ==> final(self).spec_queue()[i].fire_time > final(self).spec_now(),
    {
        self.tick(delta_millis);
        self.poll()
    }
}

/// What a scheduled level card does when its event fires.
#[derive(Clone, Copy, Debug, PartialEq, Eq, Hash, Structural)]
pub enum LevelCardEvent {
    /// The card rises, announcing the level with this index.
    Rise(usize),
    /// The card covers the screen while the level with this index loads.
    Block(usize),
    /// The card falls away.
    Fall,
    /// The card is removed.
    Despawn,
}

/// The stage a level card is in.
#[derive(Clone, Copy, Debug, PartialEq, Eq, Hash, Structural)]
pub enum LevelCard {
    Rising,
    Holding,
    Falling,
    End,
}

/// Schedules the level card's four stages for the level with index `level`: rise, block,
/// fall and despawn, 1500 ms apart, the first `offset_millis` from now.
pub fn schedule_level_card(level_card_events: &mut EventScheduler<LevelCardEvent>, level: usize, offset_millis: u64)
    requires
        old(level_card_events).wf(),
        offset_millis <= u64::MAX - 4500,
    ensures
        final(level_card_events).wf(),
        final(level_card_events).spec_now() == old(level_card_events).spec_now(),
        final(level_card_events).spec_queue() == ({
            let now = old(level_card_events).spec_now();
            let q1 = with_event(old(level_card_events).spec_queue(), LevelCardEvent::Rise(level), later(now, offset_millis));
            let q2 = with_event(q1, LevelCardEvent::Block(level), later(now, (1500 + offset_millis) as u64));
            let q3 = with_event(q2, LevelCardEvent::Fall, later(now, (3000 + offset_millis) as u64));
            with_event(q3, LevelCardEvent::Despawn, later(now, (4500 + offset_millis) as u64))
        }),
{
    level_card_events.schedule(LevelCardEvent::Rise(level), offset_millis);
    level_card_events.schedule(LevelCardEvent::Block(level), 1500 + offset_millis);
    level_card_events.schedule(LevelCardEvent::Fall, 3000 + offset_millis);
    level_card_events.schedule(LevelCardEvent::Despawn, 4500 + offset_millis);
}

} // verus!
