use vstd::prelude::*;

verus! {

/// The least coordinate an entity can take.
pub const COORD_MIN: i64 = -9_223_372_036_854_775_807 - 1;

/// The greatest coordinate an entity can take.
pub const COORD_MAX: i64 = 9_223_372_036_854_775_807;

/// A spawned entity. Positions are whole playfield units, rotation is in
/// milliradians and scale in percent.
#[derive(Debug)]
pub struct Entity {
    pub label: String,
    pub x: i64,
    pub y: i64,
    pub rotation: i64,
    pub scale: u32,
    pub collidable: bool,
}

/// The mathematical value of an entity.
pub ghost struct EntityView {
    pub label: Seq<char>,
    pub x: int,
    pub y: int,
    pub rotation: int,
    pub scale: nat,
    pub collidable: bool,
}

impl View for Entity {
    type V = EntityView;

    open spec fn view(&self) -> EntityView {
        EntityView {
            label: self.label@,
            x: self.x as int,
            y: self.y as int,
            rotation: self.rotation as int,
            scale: self.scale as nat,
            collidable: self.collidable,
        }
    }
}

/// Whether some entity in `s` carries `label`.
pub open spec fn has_label(s: Seq<EntityView>, label: Seq<char>) -> bool {
    exists|i: int| 0 <= i < s.len() && s[i].label == label
}

/// No two entities in `s` share a label.
pub open spec fn labels_unique(s: Seq<EntityView>) -> bool {
    forall|i: int, j: int| 0 <= i < s.len() && 0 <= j < s.len() && i != j ==> s[i].label != s[j].label
}

/// The position of the entity carrying `label`.
pub open spec fn label_index(s: Seq<EntityView>, label: Seq<char>) -> int {
    choose|i: int| 0 <= i < s.len() && s[i].label == label
}

/// `s` without the entity carrying `label`, if there is one.
pub open spec fn remove_label(s: Seq<EntityView>, label: Seq<char>) -> Seq<EntityView> {
    if has_label(s, label) {
        s.remove(label_index(s, label))
    } else {
        s
    }
}

/// `v` clamped to the coordinate range.
pub open spec fn clamp_coord(v: int) -> int {
    if v < COORD_MIN {
        COORD_MIN as int
    } else if v > COORD_MAX {
        COORD_MAX as int
    } else {
        v
    }
}

/// `e` moved by (dx, dy), saturating at the edges of the coordinate range.
pub open spec fn moved(e: EntityView, dx: int, dy: int) -> EntityView {
    EntityView { x: clamp_coord(e.x + dx), y: clamp_coord(e.y + dy), ..e }
}

/// `s` after putting `e` in place of the entity with the same label, or after
/// adding it where there is none.
pub open spec fn spawned(s: Seq<EntityView>, e: EntityView) -> Seq<EntityView> {
    if has_label(s, e.label) {
        s.update(label_index(s, e.label), e)
    } else {
        s.push(e)
    }
}

/// `a + b`, saturating at the edges of the coordinate range.
pub fn add_clamped(a: i64, b: i64) -> (r: i64)
    ensures
        r as int == clamp_coord(a + b),
{
    if b >= 0 {
        if a > COORD_MAX - b {
            COORD_MAX
        } else {
            a + b
        }
    } else {
        if a < COORD_MIN - b {
            COORD_MIN
        } else {
            a + b
        }
    }
}

/// All live entities, each under a label of its own.
pub struct Registry {
    entities: Vec<Entity>,
}

impl View for Registry {
    type V = Seq<EntityView>;

    closed spec fn view(&self) -> Seq<EntityView> {
        self.entities@.map_values(|e: Entity| e@)
    }
}

impl Registry {
    pub open spec fn wf(&self) -> bool {
        labels_unique(self@)
    }

    /// An empty registry.
    pub fn new() -> (r: Registry)
        ensures
            r.wf(),
            r@ == Seq::<EntityView>::empty(),
    {
        Registry { entities: Vec::new() }
    }

    /// Number of live entities.
    pub fn len(&self) -> (r: usize)
        ensures
            r == self@.len(),
    {
        self.entities.len()
    }

    /// Where the entity carrying `label` stands, if any.
    pub fn find(&self, label: &String) -> (r: Option<usize>)
        requires
            self.wf(),
        ensures
            r is None <==> !has_label(self@, label@),
            r matches Some(i) ==> i == label_index(self@, label@) && i < self@.len()
                && self@[i as int].label == label@,
    {
        let mut i: usize = 0;
        while i < self.entities.len()
            invariant
                self.wf(),
                i <= self.entities@.len(),
                forall|j: int| 0 <= j < i ==> self.entities@[j].label@ != label@,
            decreases self.entities@.len() - i,
        {
            if self.entities[i].label == *label {
                proof {
                    assert(self@[i as int].label == label@);
                    let k = label_index(self@, label@);
                    assert(0 <= k < self@.len() && self@[k].label == label@);
                    assert(k == i as int);
                }
                return Some(i);
            }
            i = i + 1;
        }
        None
    }

    /// Whether an entity carries `label`.
    pub fn contains(&self, label: &String) -> (r: bool)
        requires
            self.wf(),
        ensures
            r == has_label(self@, label@),
    {
        self.find(label).is_some()
    }

    /// The entity carrying `label`, if any.
    pub fn get(&self, label: &String) -> (r: Option<&Entity>)
        requires
            self.wf(),
        ensures
            r is None <==> !has_label(self@, label@),
            r matches Some(e) ==> e@ == self@[label_index(self@, label@)],
    {
        match self.find(label) {
            Some(i) => Some(&self.entities[i]),
            None => None,
        }
    }

    /// Puts `entity` in place of the one with the same label, or adds it.
    pub fn insert(&mut self, entity: Entity)
        requires
            old(self).wf(),
        ensures
            final(self).wf(),
            final(self)@ == spawned(old(self)@, entity@),
    {
        let ghost e = entity@;
        match self.find(&entity.label) {
            Some(i) => {
                self.entities.remove(i);
                self.entities.insert(i, entity);
                assert(self@ =~= old(self)@.update(i as int, e));
            },
            None => {
                self.entities.push(entity);
                assert(self@ =~= old(self)@.push(e));
            },
        }
    }

    /// Adds an entity at (x, y), unrotated, or overwrites the one with that label.
    pub fn spawn(&mut self, label: String, x: i64, y: i64, scale: u32, collidable: bool)
        requires
            old(self).wf(),
        ensures
            final(self).wf(),
            final(self)@ == spawned(
                old(self)@,
                EntityView {
                    label: label@,
                    x: x as int,
                    y: y as int,
                    rotation: 0,
                    scale: scale as nat,
                    collidable,
                },
            ),
    {
        self.insert(Entity { label, x, y, rotation: 0, scale, collidable });
    }

    /// Removes the entity carrying `label`; reports whether there was one.
    pub fn remove(&mut self, label: &String) -> (r: bool)
        requires
            old(self).wf(),
        ensures
            final(self).wf(),
            r == has_label(old(self)@, label@),
            final(self)@ == remove_label(old(self)@, label@),
    {
        match self.find(label) {
            Some(i) => {
                self.entities.remove(i);
                assert(self@ =~= old(self)@.remove(i as int));
                true
            },
            None => false,
        }
    }

    /// Moves the entity carrying `label` by (dx, dy); reports whether there was one.
    pub fn translate(&mut self, label: &String, dx: i64, dy: i64) -> (r: bool)
        requires
            old(self).wf(),
        ensures
            final(self).wf(),
            r == has_label(old(self)@, label@),
            r ==> final(self)@ == old(self)@.update(
                label_index(old(self)@, label@),
                moved(old(self)@[label_index(old(self)@, label@)], dx as int, dy as int),
            ),
            !r ==> final(self)@ == old(self)@,
    {
        match self.find(label) {
            Some(i) => {
                let mut e = self.entities.remove(i);
                e.x = add_clamped(e.x, dx);
                e.y = add_clamped(e.y, dy);
                self.entities.insert(i, e);
                assert(self@ =~= old(self)@.update(
                    i as int,
                    moved(old(self)@[i as int], dx as int, dy as int),
                ));
                true
            },
            None => false,
        }
    }

    /// Turns the entity carrying `label` to `rotation`; reports whether there was one.
    pub fn set_rotation(&mut self, label: &String, rotation: i64) -> (r: bool)
        requires
            old(self).wf(),
        ensures
            final(self).wf(),
            r == has_label(old(self)@, label@),
            r ==> final(self)@ == old(self)@.update(
                label_index(old(self)@, label@),
                EntityView { rotation: rotation as int, ..old(self)@[label_index(old(self)@, label@)] },
            ),
            !r ==> final(self)@ == old(self)@,
    {
        match self.find(label) {
            Some(i) => {
                let mut e = self.entities.remove(i);
                e.rotation = rotation;
                self.entities.insert(i, e);
                assert(self@ =~= old(self)@.update(
                    i as int,
                    EntityView { rotation: rotation as int, ..old(self)@[i as int] },
                ));
                true
            },
            None => false,
        }
    }
}

/// Removing a label a second time leaves the registry as the first removal left it.
pub proof fn lemma_remove_idempotent(s: Seq<EntityView>, label: Seq<char>)
    requires
        labels_unique(s),
    ensures
        !has_label(remove_label(s, label), label),
        remove_label(remove_label(s, label), label) == remove_label(s, label),
        labels_unique(remove_label(s, label)),
{
    if has_label(s, label) {
        let k = label_index(s, label);
        let t = s.remove(k);
        assert forall|i: int| 0 <= i < t.len() implies t[i].label != label by {
            if i < k {
                assert(t[i] == s[i]);
            } else {
                assert(t[i] == s[i + 1]);
            }
        }
    }
}

} // verus!
