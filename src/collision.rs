use vstd::prelude::*;
use crate::registry::{Registry, EntityView, remove_label, labels_unique, lemma_remove_idempotent};

verus! {

/// Whether a contact starts or ends.
#[derive(Clone, Copy, Debug, PartialEq, Eq, Structural)]
pub enum Phase {
    Begin,
    End,
}

/// A contact between the entities labelled `a` and `b`.
#[derive(Debug)]
pub struct CollisionEvent {
    pub phase: Phase,
    pub a: String,
    pub b: String,
}

/// The mathematical value of a collision event.
pub ghost struct CollisionView {
    pub phase: Phase,
    pub a: Seq<char>,
    pub b: Seq<char>,
}

impl View for CollisionEvent {
    type V = CollisionView;

    open spec fn view(&self) -> CollisionView {
        CollisionView { phase: self.phase, a: self.a@, b: self.b@ }
    }
}

/// A contact that begins with exactly one side being the controlled entity.
pub open spec fn qualifies(e: CollisionView, controlled: Seq<char>) -> bool {
    e.phase == Phase::Begin && ((e.a == controlled) != (e.b == controlled))
}

/// The side of a contact that is not the controlled entity.
pub open spec fn other_side(e: CollisionView, controlled: Seq<char>) -> Seq<char> {
    if e.a == controlled {
        e.b
    } else {
        e.a
    }
}

/// How many events of the batch qualify.
pub open spec fn count_qualifying(events: Seq<CollisionView>, controlled: Seq<char>) -> nat
    decreases events.len(),
{
    if events.len() == 0 {
        0
    } else {
        count_qualifying(events.drop_last(), controlled) + if qualifies(events.last(), controlled) {
            1nat
        } else {
            0nat
        }
    }
}

/// The registry after each qualifying event, in order, has removed its other side.
pub open spec fn apply_removals(
    reg: Seq<EntityView>,
    events: Seq<CollisionView>,
    controlled: Seq<char>,
) -> Seq<EntityView>
    decreases events.len(),
{
    if events.len() == 0 {
        reg
    } else {
        let before = apply_removals(reg, events.drop_last(), controlled);
        if qualifies(events.last(), controlled) {
            remove_label(before, other_side(events.last(), controlled))
        } else {
            before
        }
    }
}

/// The views of a batch of events.
pub open spec fn views(events: Seq<CollisionEvent>) -> Seq<CollisionView> {
    events.map_values(|e: CollisionEvent| e@)
}

/// Whether `e` is a contact that begins with exactly one side being `controlled`.
pub fn is_qualifying(e: &CollisionEvent, controlled: &String) -> (r: bool)
    ensures
        r == qualifies(e@, controlled@),
{
    if e.phase == Phase::Begin {
        let a_is = e.a == *controlled;
        let b_is = e.b == *controlled;
        a_is != b_is
    } else {
        false
    }
}

/// Goes through the batch in order; for each qualifying event removes the other
/// side from the registry (nothing happens where it is already gone) and counts it.
pub fn process_collisions(reg: &mut Registry, events: &Vec<CollisionEvent>, controlled: &String) -> (r: usize)
    requires
        old(reg).wf(),
    ensures
        final(reg).wf(),
        r == count_qualifying(views(events@), controlled@),
        r <= events@.len(),
        final(reg)@ == apply_removals(old(reg)@, views(events@), controlled@),
{
    let mut count: usize = 0;
    let mut i: usize = 0;
    while i < events.len()
        invariant
            i <= events@.len(),
            reg.wf(),
            count == count_qualifying(views(events@).take(i as int), controlled@),
            reg@ == apply_removals(old(reg)@, views(events@).take(i as int), controlled@),
            count <= i,
        decreases events@.len() - i,
    {
        let ghost vs = views(events@);
        assert(vs.take(i + 1).drop_last() =~= vs.take(i as int));
        assert(vs.take(i + 1).last() == events@[i as int]@);
        let e = &events[i];
        if is_qualifying(e, controlled) {
            if e.a == *controlled {
                reg.remove(&e.b);
            } else {
                reg.remove(&e.a);
            }
            count = count + 1;
        }
        i = i + 1;
    }
    assert(views(events@).take(i as int) =~= views(events@));
    count
}

/// Two qualifying contacts in one batch with the same other side remove it once
/// and count twice.
pub proof fn lemma_repeated_contact(
    reg: Seq<EntityView>,
    first: CollisionView,
    second: CollisionView,
    controlled: Seq<char>,
)
    requires
        labels_unique(reg),
        qualifies(first, controlled),
        qualifies(second, controlled),
        other_side(first, controlled) == other_side(second, controlled),
    ensures
        count_qualifying(seq![first, second], controlled) == 2,
        apply_removals(reg, seq![first, second], controlled) == remove_label(
            reg,
            other_side(first, controlled),
        ),
{
    let both = seq![first, second];
    let one = seq![first];
    let none = Seq::<CollisionView>::empty();
    let label = other_side(first, controlled);
    assert(both.drop_last() =~= one);
    assert(one.drop_last() =~= none);
    assert(both.last() == second);
    assert(one.last() == first);
    assert(count_qualifying(none, controlled) == 0);
    assert(count_qualifying(one, controlled) == 1);
    assert(count_qualifying(both, controlled) == 2);
    assert(apply_removals(reg, none, controlled) == reg);
    assert(apply_removals(reg, one, controlled) == remove_label(reg, label));
    lemma_remove_idempotent(reg, label);
    assert(apply_removals(reg, both, controlled) == remove_label(remove_label(reg, label), label));
}

} // verus!
