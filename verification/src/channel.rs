//! The latest-value channel between the tiers.
//!
//! The channel keeps, for each kind of event, the value that was published
//! last, stamped with the number of its publication. Each subscriber keeps,
//! for each kind, the stamp of the value it saw last. A subscriber that is
//! behind gets the newest value of a kind and never the ones before it;
//! what one subscriber has read is of no concern to another.

use crate::event::{Event, EventKind, PerKind};
use vstd::prelude::*;

verus! {

/// A published value with the number of its publication.
pub struct Stamped {
    pub event: Event,
    pub stamp: nat,
}

/// The channel as the contracts see it.
pub struct ChannelView {
    /// The value that was published last, for each kind.
    pub slots: PerKind<Option<Stamped>>,
    /// How many publications there were.
    pub generation: nat,
    /// For each subscriber and kind, the stamp of the value seen last; zero
    /// where none was seen.
    pub seen: Seq<PerKind<nat>>,
}

impl ChannelView {
    /// A channel on which nothing was published and to which nobody
    /// listens.
    pub open spec fn empty() -> ChannelView {
        ChannelView { slots: PerKind::all(None), generation: 0, seen: Seq::empty() }
    }

    /// Stamps are numbers of publications that happened; a slot holds an
    /// event of its own kind; no two slots were filled by one publication;
    /// no subscriber has seen more of a kind than was published.
    pub open spec fn wf(self) -> bool {
        &&& forall|kind: EventKind| #[trigger]
            self.slots.get(kind) matches Some(s) ==> 1 <= s.stamp <= self.generation && s.event.kind()
                == kind
        &&& forall|first: EventKind, second: EventKind|
            first != second && (#[trigger] self.slots.get(first)) is Some && (
            #[trigger] self.slots.get(second)) is Some ==> self.slots.get(first)->Some_0.stamp
                != self.slots.get(second)->Some_0.stamp
        &&& forall|sub: int, kind: EventKind|
            0 <= sub < self.seen.len() ==> (#[trigger] self.seen[sub].get(kind)) <= self.pending_stamp(
                kind,
            )
    }

    /// The stamp of the value that the slot of `kind` holds; zero where it
    /// holds none.
    pub open spec fn pending_stamp(self, kind: EventKind) -> nat {
        match self.slots.get(kind) {
            Some(s) => s.stamp,
            None => 0,
        }
    }

    /// The channel after `event` was published: the event takes the slot of
    /// its kind, whatever was there, under the next stamp.
    pub open spec fn publish(self, event: Event) -> ChannelView {
        ChannelView {
            slots: self.slots.set(
                event.kind(),
                Some(Stamped { event, stamp: self.generation + 1 }),
            ),
            generation: self.generation + 1,
            seen: self.seen,
        }
    }

    /// The channel with one more subscriber, who has seen nothing, and the
    /// number by which that subscriber is known.
    pub open spec fn subscribe(self) -> (ChannelView, nat) {
        (ChannelView { seen: self.seen.push(PerKind::all(0nat)), ..self }, self.seen.len())
    }

    /// Whether the slot of `kind` holds a value that subscriber `sub` has
    /// not seen.
    pub open spec fn unseen(self, sub: int, kind: EventKind) -> bool {
        &&& 0 <= sub < self.seen.len()
        &&& self.slots.get(kind) matches Some(s)
        &&& s.stamp > self.seen[sub].get(kind)
    }

    /// Subscriber `sub` reads the slot of `kind`: an unseen value is handed
    /// out and marked as seen; otherwise nothing changes.
    pub open spec fn take(self, sub: int, kind: EventKind) -> (ChannelView, Option<Event>) {
        if self.unseen(sub, kind) {
            let s = self.slots.get(kind)->Some_0;
            (
                ChannelView { seen: self.seen.update(sub, self.seen[sub].set(kind, s.stamp)), ..self },
                Some(s.event),
            )
        } else {
            (self, None)
        }
    }

    /// The better of `best` and `kind` as the next value for `sub`: a kind
    /// with an unseen value, and of two such kinds the one published first.
    pub open spec fn older(self, sub: int, best: Option<EventKind>, kind: EventKind) -> Option<
        EventKind,
    > {
        if !self.unseen(sub, kind) {
            best
        } else {
            match best {
                None => Some(kind),
                Some(b) => if self.slots.get(kind)->Some_0.stamp < self.slots.get(b)->Some_0.stamp {
                    Some(kind)
                } else {
                    best
                },
            }
        }
    }

    /// The kind whose unseen value was published first, if `sub` has any
    /// unseen value.
    pub open spec fn oldest_unseen(self, sub: int) -> Option<EventKind> {
        self.older(
            sub,
            self.older(
                sub,
                self.older(sub, self.older(sub, None, EventKind::Layer), EventKind::Modifiers),
                EventKind::Battery,
            ),
            EventKind::TypingRate,
        )
    }

    /// Subscriber `sub` reads the channel: of the values it has not seen, it
    /// gets the one published first.
    pub open spec fn next(self, sub: int) -> (ChannelView, Option<Event>) {
        match self.oldest_unseen(sub) {
            Some(kind) => self.take(sub, kind),
            None => (self, None),
        }
    }

    /// The channel after a run of publications, first to last.
    pub open spec fn publish_all(self, events: Seq<Event>) -> ChannelView
        decreases events.len(),
    {
        if events.len() == 0 {
            self
        } else {
            self.publish_all(events.drop_last()).publish(events.last())
        }
    }

    /// The channel after subscriber `sub` read the slots of `kinds`, one
    /// after the other.
    pub open spec fn take_all(self, sub: int, kinds: Seq<EventKind>) -> ChannelView
        decreases kinds.len(),
    {
        if kinds.len() == 0 {
            self
        } else {
            self.take_all(sub, kinds.drop_last()).take(sub, kinds.last()).0
        }
    }

    /// Whether subscriber `sub` has seen the value that the slot of `kind`
    /// holds, if it holds one.
    pub open spec fn up_to_date(self, sub: int, kind: EventKind) -> bool {
        self.slots.get(kind) matches Some(s) ==> self.seen[sub].get(kind) == s.stamp
    }
}

/// A slot's content as the channel stores it.
#[derive(Clone, Copy, Debug)]
struct Slot {
    event: Event,
    stamp: u64,
}

/// The latest-value channel.
pub struct Channel {
    slots: PerKind<Option<Slot>>,
    generation: u64,
    seen: Vec<PerKind<u64>>,
}

spec fn slot_view(slot: Option<Slot>) -> Option<Stamped> {
    match slot {
        Some(s) => Some(Stamped { event: s.event, stamp: s.stamp as nat }),
        None => None,
    }
}

spec fn marks_view(marks: PerKind<u64>) -> PerKind<nat> {
    PerKind {
        layer: marks.layer as nat,
        modifiers: marks.modifiers as nat,
        battery: marks.battery as nat,
        typing_rate: marks.typing_rate as nat,
    }
}

impl View for Channel {
    type V = ChannelView;

    closed spec fn view(&self) -> ChannelView {
        ChannelView {
            slots: PerKind {
                layer: slot_view(self.slots.layer),
                modifiers: slot_view(self.slots.modifiers),
                battery: slot_view(self.slots.battery),
                typing_rate: slot_view(self.slots.typing_rate),
            },
            generation: self.generation as nat,
            seen: Seq::new(self.seen@.len(), |i: int| marks_view(self.seen@[i])),
        }
    }
}

fn slot_of(slots: &PerKind<Option<Slot>>, kind: EventKind) -> (slot: Option<Slot>)
    ensures
        slot == slots.get(kind),
{
    match kind {
        EventKind::Layer => slots.layer,
        EventKind::Modifiers => slots.modifiers,
        EventKind::Battery => slots.battery,
        EventKind::TypingRate => slots.typing_rate,
    }
}

fn mark_of(marks: &PerKind<u64>, kind: EventKind) -> (mark: u64)
    ensures
        mark == marks.get(kind),
{
    match kind {
        EventKind::Layer => marks.layer,
        EventKind::Modifiers => marks.modifiers,
        EventKind::Battery => marks.battery,
        EventKind::TypingRate => marks.typing_rate,
    }
}

fn with_mark(marks: PerKind<u64>, kind: EventKind, mark: u64) -> (changed: PerKind<u64>)
    ensures
        changed == marks.set(kind, mark),
{
    match kind {
        EventKind::Layer => PerKind { layer: mark, ..marks },
        EventKind::Modifiers => PerKind { modifiers: mark, ..marks },
        EventKind::Battery => PerKind { battery: mark, ..marks },
        EventKind::TypingRate => PerKind { typing_rate: mark, ..marks },
    }
}

impl Channel {
    /// A channel on which nothing was published and to which nobody
    /// listens.
    pub fn new() -> (channel: Channel)
        ensures
            channel@ == ChannelView::empty(),
            channel@.wf(),
    {
        let channel = Channel {
            slots: PerKind { layer: None, modifiers: None, battery: None, typing_rate: None },
            generation: 0,
            seen: Vec::new(),
        };
        assert(channel@.seen =~= Seq::empty());
        channel
    }

    /// How many publications there were.
    pub fn generation(&self) -> (count: u64)
        ensures
            count == self@.generation,
    {
        self.generation
    }

    /// How many subscribers there are.
    pub fn subscribers(&self) -> (count: usize)
        ensures
            count == self@.seen.len(),
    {
        self.seen.len()
    }

    /// Adds a subscriber, who has seen nothing yet and so will get the
    /// current value of every kind, and returns the number by which it is
    /// known.
    pub fn subscribe(&mut self) -> (sub: usize)
        ensures
            (final(self)@, sub as nat) == old(self)@.subscribe(),
            old(self)@.wf() ==> final(self)@.wf(),
    {
        let sub: usize = self.seen.len();
        self.seen.push(PerKind { layer: 0, modifiers: 0, battery: 0, typing_rate: 0 });
        assert(self@.seen =~= old(self)@.seen.push(PerKind::all(0nat)));
        sub
    }

    /// Publishes an event: it replaces the pending value of its kind. The
    /// call never waits. The count of publications must not have reached
    /// the largest number that the counter holds.
    pub fn publish(&mut self, event: Event)
        requires
            old(self)@.generation < u64::MAX,
        ensures
            final(self)@ == old(self)@.publish(event),
            old(self)@.wf() ==> final(self)@.wf(),
    {
        let stamp: u64 = self.generation + 1;
        let slot = Some(Slot { event, stamp });
        match event.kind_of() {
            EventKind::Layer => {
                self.slots.layer = slot;
            },
            EventKind::Modifiers => {
                self.slots.modifiers = slot;
            },
            EventKind::Battery => {
                self.slots.battery = slot;
            },
            EventKind::TypingRate => {
                self.slots.typing_rate = slot;
            },
        }
        self.generation = stamp;
        proof {
            assert(self@.seen =~= old(self)@.seen);
            if old(self)@.wf() {
                lemma_publish_keeps_wf(old(self)@, event);
            }
        }
    }

    /// The value of `kind` that was published last, if there was one.
    pub fn latest(&self, kind: EventKind) -> (event: Option<Event>)
        ensures
            event == match self@.slots.get(kind) {
                Some(s) => Some(s.event),
                None => None,
            },
    {
        match slot_of(&self.slots, kind) {
            Some(s) => Some(s.event),
            None => None,
        }
    }

    /// Whether subscriber `sub` has not yet seen the pending value of
    /// `kind`.
    pub fn is_unseen(&self, sub: usize, kind: EventKind) -> (yes: bool)
        ensures
            yes == self@.unseen(sub as int, kind),
    {
        if sub >= self.seen.len() {
            return false;
        }
        match slot_of(&self.slots, kind) {
            Some(s) => s.stamp > mark_of(&self.seen[sub], kind),
            None => false,
        }
    }

    /// Subscriber `sub` reads the slot of `kind` without waiting: it gets the
    /// pending value if it has not seen it, and nothing otherwise.
    pub fn try_next_of(&mut self, sub: usize, kind: EventKind) -> (event: Option<Event>)
        ensures
            (final(self)@, event) == old(self)@.take(sub as int, kind),
            old(self)@.wf() ==> final(self)@.wf(),
    {
        if !self.is_unseen(sub, kind) {
            return None;
        }
        match slot_of(&self.slots, kind) {
            Some(s) => {
                let marks = with_mark(self.seen[sub], kind, s.stamp);
                self.seen.set(sub, marks);
                proof {
                    assert(self@.seen =~= old(self)@.seen.update(
                        sub as int,
                        old(self)@.seen[sub as int].set(kind, s.stamp as nat),
                    ));
                    if old(self)@.wf() {
                        lemma_take_keeps_wf(old(self)@, sub as int, kind);
                    }
                }
                Some(s.event)
            },
            None => None,
        }
    }

    fn older_of(&self, sub: usize, best: Option<EventKind>, kind: EventKind) -> (choice: Option<
        EventKind,
    >)
        requires
            best matches Some(b) ==> self@.slots.get(b) is Some,
        ensures
            choice == self@.older(sub as int, best, kind),
            choice matches Some(c) ==> self@.slots.get(c) is Some,
    {
        if !self.is_unseen(sub, kind) {
            return best;
        }
        match best {
            None => Some(kind),
            Some(b) => {
                let new_stamp: u64 = match slot_of(&self.slots, kind) {
                    Some(s) => s.stamp,
                    None => 0,
                };
                let best_stamp: u64 = match slot_of(&self.slots, b) {
                    Some(s) => s.stamp,
                    None => 0,
                };
                if new_stamp < best_stamp {
                    Some(kind)
                } else {
                    best
                }
            },
        }
    }

    /// Whether subscriber `sub` would get a value now.
    pub fn has_unseen(&self, sub: usize) -> (yes: bool)
        ensures
            yes == self@.oldest_unseen(sub as int) is Some,
    {
        let a = self.older_of(sub, None, EventKind::Layer);
        let b = self.older_of(sub, a, EventKind::Modifiers);
        let c = self.older_of(sub, b, EventKind::Battery);
        let d = self.older_of(sub, c, EventKind::TypingRate);
        d.is_some()
    }

    /// Subscriber `sub` reads the channel without waiting: of the pending
    /// values that it has not seen it gets the one published first, and
    /// nothing where it has seen them all. A task that gets nothing
    /// suspends until the next publication.
    pub fn try_next(&mut self, sub: usize) -> (event: Option<Event>)
        ensures
            (final(self)@, event) == old(self)@.next(sub as int),
            old(self)@.wf() ==> final(self)@.wf(),
    {
        let a = self.older_of(sub, None, EventKind::Layer);
        let b = self.older_of(sub, a, EventKind::Modifiers);
        let c = self.older_of(sub, b, EventKind::Battery);
        let d = self.older_of(sub, c, EventKind::TypingRate);
        match d {
            Some(kind) => self.try_next_of(sub, kind),
            None => None,
        }
    }
}

/// A publication keeps the channel well formed.
pub proof fn lemma_publish_keeps_wf(c: ChannelView, event: Event)
    requires
        c.wf(),
    ensures
        c.publish(event).wf(),
{
    let p = c.publish(event);
    assert forall|kind: EventKind| #[trigger]
        p.slots.get(kind) matches Some(s) ==> 1 <= s.stamp <= p.generation && s.event.kind()
            == kind by {
        if kind != event.kind() {
            assert(p.slots.get(kind) == c.slots.get(kind));
        }
    }
    assert forall|first: EventKind, second: EventKind|
        first != second && (#[trigger] p.slots.get(first)) is Some && (#[trigger] p.slots.get(
            second,
        )) is Some implies p.slots.get(first)->Some_0.stamp != p.slots.get(second)->Some_0.stamp by {
        if first != event.kind() {
            assert(p.slots.get(first) == c.slots.get(first));
        }
        if second != event.kind() {
            assert(p.slots.get(second) == c.slots.get(second));
        }
    }
    assert forall|sub: int, kind: EventKind| 0 <= sub < p.seen.len() implies (
    #[trigger] p.seen[sub].get(kind)) <= p.pending_stamp(kind) by {
        assert(c.seen[sub].get(kind) <= c.pending_stamp(kind));
        if kind != event.kind() {
            assert(p.slots.get(kind) == c.slots.get(kind));
        } else {
            assert(c.slots.get(kind) matches Some(s) ==> s.stamp <= c.generation);
        }
    }
}

/// A read keeps the channel well formed.
pub proof fn lemma_take_keeps_wf(c: ChannelView, sub: int, kind: EventKind)
    requires
        c.wf(),
    ensures
        c.take(sub, kind).0.wf(),
{
    let t = c.take(sub, kind).0;
    if c.unseen(sub, kind) {
        let stamp = c.slots.get(kind)->Some_0.stamp;
        assert forall|other: int, k: EventKind| 0 <= other < t.seen.len() implies (
        #[trigger] t.seen[other].get(k)) <= t.pending_stamp(k) by {
            assert(c.seen[other].get(k) <= c.pending_stamp(k));
            if other == sub && k != kind {
                assert(t.seen[other].get(k) == c.seen[other].get(k));
            }
        }
    }
}

/// A run of publications keeps the channel well formed, leaves the
/// subscribers' marks alone and counts each publication.
pub proof fn lemma_publish_all(c: ChannelView, events: Seq<Event>)
    requires
        c.wf(),
    ensures
        c.publish_all(events).wf(),
        c.publish_all(events).seen == c.seen,
        c.publish_all(events).generation == c.generation + events.len(),
    decreases events.len(),
{
    if events.len() > 0 {
        lemma_publish_all(c, events.drop_last());
        lemma_publish_keeps_wf(c.publish_all(events.drop_last()), events.last());
    }
}

/// A subscriber that reads once after a run of publications to one kind
/// gets the last of them, and none of the earlier ones.
pub proof fn reader_gets_the_last_publication(
    c: ChannelView,
    events: Seq<Event>,
    sub: int,
    kind: EventKind,
)
    requires
        c.wf(),
        0 <= sub < c.seen.len(),
        events.len() >= 1,
        forall|i: int| 0 <= i < events.len() ==> (#[trigger] events[i]).kind() == kind,
    ensures
        c.publish_all(events).take(sub, kind).1 == Some(events.last()),
        c.publish_all(events).take(sub, kind).0.up_to_date(sub, kind),
        !c.publish_all(events).take(sub, kind).0.unseen(sub, kind),
{
    let before = c.publish_all(events.drop_last());
    lemma_publish_all(c, events.drop_last());
    assert(before.seen[sub].get(kind) <= before.pending_stamp(kind));
    assert(before.slots.get(kind) matches Some(s) ==> s.stamp <= before.generation);
}

/// A subscriber that had seen everything and reads once after a run of
/// publications to one kind gets the last of them from a plain read, too.
pub proof fn idle_reader_gets_the_last_publication(
    c: ChannelView,
    events: Seq<Event>,
    sub: int,
    kind: EventKind,
)
    requires
        c.wf(),
        0 <= sub < c.seen.len(),
        c.oldest_unseen(sub) is None,
        events.len() >= 1,
        forall|i: int| 0 <= i < events.len() ==> (#[trigger] events[i]).kind() == kind,
    ensures
        c.publish_all(events).next(sub).1 == Some(events.last()),
{
    lemma_only_one_kind_changes(c, events, kind);
    reader_gets_the_last_publication(c, events, sub, kind);
    let p = c.publish_all(events);
    lemma_publish_all(c, events);
    assert forall|k: EventKind| k != kind implies !p.unseen(sub, k) by {
        lemma_oldest_unseen_is_least(c, sub, k);
    }
    lemma_oldest_unseen_is_least(p, sub, kind);
}

/// Publications to one kind leave the slots of the other kinds alone.
proof fn lemma_only_one_kind_changes(c: ChannelView, events: Seq<Event>, kind: EventKind)
    requires
        forall|i: int| 0 <= i < events.len() ==> (#[trigger] events[i]).kind() == kind,
    ensures
        forall|k: EventKind| k != kind ==> #[trigger] c.publish_all(events).slots.get(k) == c.slots.get(k),
    decreases events.len(),
{
    if events.len() > 0 {
        lemma_only_one_kind_changes(c, events.drop_last(), kind);
        let before = c.publish_all(events.drop_last());
        assert(events.last().kind() == kind);
        assert forall|k: EventKind| k != kind implies #[trigger] c.publish_all(events).slots.get(k)
            == c.slots.get(k) by {
            assert(before.publish(events.last()).slots.get(k) == before.slots.get(k));
        }
    }
}

/// What a plain read picks: a kind with an unseen value whose stamp is the
/// least among the unseen values; and it picks one whenever there is one.
pub proof fn lemma_oldest_unseen_is_least(c: ChannelView, sub: int, kind: EventKind)
    ensures
        c.oldest_unseen(sub) matches Some(picked) ==> c.unseen(sub, picked),
        c.unseen(sub, kind) ==> {
            &&& c.oldest_unseen(sub) matches Some(picked)
            &&& c.slots.get(picked)->Some_0.stamp <= c.slots.get(kind)->Some_0.stamp
        },
{
}

/// A subscriber never goes back: a value that it gets is newer than any it
/// got of that kind before, it is the value published last, and nothing it
/// has seen of another kind or that another subscriber has seen changes.
pub proof fn reads_never_go_back(c: ChannelView, sub: int, kind: EventKind)
    requires
        c.wf(),
        c.take(sub, kind).1 is Some,
    ensures
        c.take(sub, kind).0.seen[sub].get(kind) > c.seen[sub].get(kind),
        c.take(sub, kind).0.seen[sub].get(kind) == c.pending_stamp(kind),
        c.take(sub, kind).1 == Some(c.slots.get(kind)->Some_0.event),
        forall|other: EventKind|
            other != kind ==> c.take(sub, kind).0.seen[sub].get(other) == c.seen[sub].get(other),
        forall|other: int|
            0 <= other < c.seen.len() && other != sub ==> c.take(sub, kind).0.seen[other]
                == c.seen[other],
{
}

/// Subscribers are independent: whatever another subscriber reads in the
/// meantime, a subscriber's next read of a kind gives the same value, and
/// after that read it has seen the value published last for that kind.
pub proof fn readers_are_independent(
    c: ChannelView,
    reader: int,
    other: int,
    reads_of_other: Seq<EventKind>,
    kind: EventKind,
)
    requires
        c.wf(),
        0 <= reader < c.seen.len(),
        0 <= other < c.seen.len(),
        reader != other,
    ensures
        c.take_all(other, reads_of_other).take(reader, kind).1 == c.take(reader, kind).1,
        c.take_all(other, reads_of_other).take(reader, kind).0.up_to_date(reader, kind),
        c.take_all(other, reads_of_other).slots == c.slots,
{
    lemma_take_all_leaves_others(c, reader, other, reads_of_other);
    assert(c.seen[reader].get(kind) <= c.pending_stamp(kind));
}

proof fn lemma_take_all_leaves_others(
    c: ChannelView,
    reader: int,
    other: int,
    reads_of_other: Seq<EventKind>,
)
    requires
        0 <= reader < c.seen.len(),
        0 <= other < c.seen.len(),
        reader != other,
    ensures
        c.take_all(other, reads_of_other).slots == c.slots,
        c.take_all(other, reads_of_other).generation == c.generation,
        c.take_all(other, reads_of_other).seen.len() == c.seen.len(),
        c.take_all(other, reads_of_other).seen[reader] == c.seen[reader],
    decreases reads_of_other.len(),
{
    if reads_of_other.len() > 0 {
        lemma_take_all_leaves_others(c, reader, other, reads_of_other.drop_last());
    }
}

} // verus!
