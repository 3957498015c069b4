//! The set of controls that are held down.
//!
//! The control loop records presses and releases; the render loop reads the
//! set once per frame. The set keeps the order in which its members were
//! pressed, and holds each of them once.

use vstd::prelude::*;

verus! {

/// A change of one control's state, as the platform reports it.
#[derive(Clone, Copy, PartialEq, Eq, Structural, Debug)]
pub enum KeyEvent {
    Pressed(u32),
    Released(u32),
}

/// The held controls after `id` was pressed: unchanged where it was held
/// already, else with `id` behind the others.
pub open spec fn pressed(held: Seq<u32>, id: u32) -> Seq<u32> {
    if held.contains(id) {
        held
    } else {
        held.push(id)
    }
}

/// The held controls after `id` was released: unchanged where it was not
/// held, else without it and with the others in their order.
pub open spec fn released(held: Seq<u32>, id: u32) -> Seq<u32> {
    if held.contains(id) {
        held.remove(held.index_of(id))
    } else {
        held
    }
}

/// The held controls after one event.
pub open spec fn applied(held: Seq<u32>, event: KeyEvent) -> Seq<u32> {
    match event {
        KeyEvent::Pressed(id) => pressed(held, id),
        KeyEvent::Released(id) => released(held, id),
    }
}

/// The held controls after `events`, in order, starting with none held.
pub open spec fn replayed(events: Seq<KeyEvent>) -> Seq<u32>
    decreases events.len(),
{
    if events.len() == 0 {
        Seq::<u32>::empty()
    } else {
        applied(replayed(events.drop_last()), events.last())
    }
}

/// Whether the last event about `id` in `events` is a press.
pub open spec fn held_after(events: Seq<KeyEvent>, id: u32) -> bool
    decreases events.len(),
{
    if events.len() == 0 {
        false
    } else {
        match events.last() {
            KeyEvent::Pressed(k) => k == id || held_after(events.drop_last(), id),
            KeyEvent::Released(k) => k != id && held_after(events.drop_last(), id),
        }
    }
}

/// A press adds its control, keeps the others, and keeps every control
/// single.
pub proof fn lemma_pressed(held: Seq<u32>, id: u32)
    requires
        held.no_duplicates(),
    ensures
        pressed(held, id).no_duplicates(),
        forall|k: u32| pressed(held, id).contains(k) <==> (k == id || held.contains(k)),
        pressed(held, id).len() == held.len() + (if held.contains(id) { 0int } else { 1int }),
{
    let after = pressed(held, id);
    if !held.contains(id) {
        assert(after[held.len() as int] == id);
        assert forall|k: u32| after.contains(k) <==> (k == id || held.contains(k)) by {
            if held.contains(k) {
                let i = held.index_of(k);
                assert(after[i] == k);
            }
        }
    }
}

/// A release removes its control, keeps the others, and keeps every control
/// single.
pub proof fn lemma_released(held: Seq<u32>, id: u32)
    requires
        held.no_duplicates(),
    ensures
        released(held, id).no_duplicates(),
        forall|k: u32| released(held, id).contains(k) <==> (k != id && held.contains(k)),
        released(held, id).len() == held.len() - (if held.contains(id) { 1int } else { 0int }),
{
    let after = released(held, id);
    if held.contains(id) {
        let at = held.index_of(id);
        held.remove_ensures(at);
        assert forall|k: u32| after.contains(k) <==> (k != id && held.contains(k)) by {
            if after.contains(k) {
                let i = after.index_of(k);
                if i < at {
                    assert(held[i] == k);
                } else {
                    assert(held[i + 1] == k);
                }
            }
            if k != id && held.contains(k) {
                let i = held.index_of(k);
                if i < at {
                    assert(after[i] == k);
                } else {
                    assert(after[i - 1] == k);
                }
            }
        }
    }
}

/// After any run of presses and releases, the held controls are exactly
/// those whose last event was a press, each held once; so their number is
/// the number of controls pressed and not released since.
pub proof fn lemma_replayed(events: Seq<KeyEvent>)
    ensures
        replayed(events).no_duplicates(),
        forall|id: u32| replayed(events).contains(id) <==> held_after(events, id),
        replayed(events).to_set() == Set::new(|id: u32| held_after(events, id)),
        replayed(events).len() == Set::new(|id: u32| held_after(events, id)).len(),
    decreases events.len(),
{
    let after = replayed(events);
    if events.len() > 0 {
        let before = replayed(events.drop_last());
        lemma_replayed(events.drop_last());
        match events.last() {
            KeyEvent::Pressed(k) => lemma_pressed(before, k),
            KeyEvent::Released(k) => lemma_released(before, k),
        }
        assert forall|id: u32| after.contains(id) <==> held_after(events, id) by {
            assert(before.contains(id) <==> held_after(events.drop_last(), id));
            match events.last() {
                KeyEvent::Pressed(k) => {
                    assert(pressed(before, k).contains(id) <==> (id == k || before.contains(id)));
                },
                KeyEvent::Released(k) => {
                    assert(released(before, k).contains(id) <==> (id != k && before.contains(id)));
                },
            }
        }
    }
    assert(after.to_set() =~= Set::new(|id: u32| held_after(events, id)));
    replayed(events).unique_seq_to_set();
}

/// The controls that are held down, in the order they were pressed.
pub struct InputAggregator {
    held: Vec<u32>,
}

impl View for InputAggregator {
    type V = Seq<u32>;

    closed spec fn view(&self) -> Seq<u32> {
        self.held@
    }
}

impl InputAggregator {
    #[verifier::type_invariant]
    spec fn inv(self) -> bool {
        self.held@.no_duplicates()
    }

    /// An aggregator with nothing held.
    pub fn new() -> (a: InputAggregator)
        ensures
            a@ == Seq::<u32>::empty(),
    {
        InputAggregator { held: Vec::new() }
    }

    /// Where `id` stands among the held controls, if it is held.
    fn position(&self, id: u32) -> (at: Option<usize>)
        ensures
            match at {
                Some(i) => i < self@.len() && self@[i as int] == id,
                None => !self@.contains(id),
            },
    {
        let mut i: usize = 0;
        while i < self.held.len()
            invariant
                i <= self.held@.len(),
                forall|j: int| 0 <= j < i ==> self.held@[j] != id,
            decreases self.held@.len() - i,
        {
            if self.held[i] == id {
                return Some(i);
            }
            i = i + 1;
        }
        None
    }

    /// Whether `id` is held.
    pub fn is_held(&self, id: u32) -> (b: bool)
        ensures
            b == self@.contains(id),
    {
        self.position(id).is_some()
    }

    /// The number of held controls.
    pub fn len(&self) -> (n: usize)
        ensures
            n == self@.len(),
            self@.no_duplicates(),
    {
        proof {
            use_type_invariant(self);
        }
        self.held.len()
    }

    /// Records that `id` went down. Pressing a held control changes nothing.
    pub fn record_press(&mut self, id: u32)
        ensures
            final(self)@ == pressed(old(self)@, id),
            final(self)@.no_duplicates(),
    {
        proof {
            use_type_invariant(&*self);
            lemma_pressed(self@, id);
        }
        if self.position(id).is_none() {
            let mut held: Vec<u32> = Vec::new();
            core::mem::swap(&mut self.held, &mut held);
            held.push(id);
            core::mem::swap(&mut self.held, &mut held);
        }
    }

    /// Records that `id` went up. Releasing a control that is not held
    /// changes nothing.
    pub fn record_release(&mut self, id: u32)
        ensures
            final(self)@ == released(old(self)@, id),
            final(self)@.no_duplicates(),
    {
        proof {
            use_type_invariant(&*self);
            lemma_released(self@, id);
        }
        match self.position(id) {
            Some(at) => {
                assert(self@.index_of(id) == at as int);
                let mut held: Vec<u32> = Vec::new();
                core::mem::swap(&mut self.held, &mut held);
                held.remove(at);
                core::mem::swap(&mut self.held, &mut held);
            },
            None => {},
        }
    }

    /// Records one event of the platform.
    pub fn apply(&mut self, event: KeyEvent)
        ensures
            final(self)@ == applied(old(self)@, event),
            final(self)@.no_duplicates(),
    {
        match event {
            KeyEvent::Pressed(id) => self.record_press(id),
            KeyEvent::Released(id) => self.record_release(id),
        }
    }

    /// A copy of the held controls, in the order they were pressed.
    pub fn snapshot(&self) -> (held: Vec<u32>)
        ensures
            held@ == self@,
            held@.no_duplicates(),
    {
        proof {
            use_type_invariant(self);
        }
        let mut copy: Vec<u32> = Vec::new();
        let mut i: usize = 0;
        while i < self.held.len()
            invariant
                i <= self.held@.len(),
                copy@ == self.held@.take(i as int),
            decreases self.held@.len() - i,
        {
            copy.push(self.held[i]);
            i = i + 1;
            assert(copy@ =~= self.held@.take(i as int));
        }
        assert(self.held@.take(i as int) =~= self.held@);
        copy
    }
}

/// What a reader sees of the aggregator: the held controls where it could be
/// reached, none where it could not.
pub open spec fn visible(access: Option<&InputAggregator>) -> Seq<u32> {
    match access {
        Some(aggregator) => aggregator@,
        None => Seq::<u32>::empty(),
    }
}

/// Shows the held controls to `visitor` and hands back what it returns.
///
/// `access` is the aggregator as the reader got hold of it, or `None` where
/// it could not be reached; the visitor is then shown an empty set, so that a
/// frame goes by without input instead of failing.
pub fn snapshot_and_apply<R, F: FnOnce(&Vec<u32>) -> R>(
    access: Option<&InputAggregator>,
    visitor: F,
) -> (r: R)
    requires
        forall|held: &Vec<u32>|
            held@ == visible(access) ==> #[trigger] call_requires(visitor, (held,)),
    ensures
        exists|held: &Vec<u32>|
            held@ == visible(access) && #[trigger] call_ensures(visitor, (held,), r),
{
    match access {
        Some(aggregator) => {
            assert(aggregator.held@ == visible(access));
            let r = visitor(&aggregator.held);
            assert(call_ensures(visitor, (&aggregator.held,), r));
            r
        },
        None => {
            let none: Vec<u32> = Vec::new();
            assert(none@ == visible(access));
            let r = visitor(&none);
            assert(call_ensures(visitor, (&none,), r));
            r
        },
    }
}

} // verus!
