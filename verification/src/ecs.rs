//! Entities, the components attached to them, systems, and the world that
//! owns entities and systems and runs the systems once per frame.
//!
//! An entity stores its components in type-erased form: all components of one
//! world are embedded in a single type `U`, usually an enum with one variant per
//! component type. Each component type names itself by a *kind*, a number that
//! serves as its key in the storage, and says how its values are erased into
//! `U` and recovered from it.
use std::collections::hash_map::Entry;
use std::collections::HashMap;
use vstd::prelude::*;

verus! {

/// A value type that can be attached to an [`Entity`] whose storage holds `U`.
///
/// A component that is stored under a kind takes the place of whatever was
/// stored under that kind before, so the component types of one world are
/// given kinds of their own. An entity holds a component of a type where what
/// is stored under the type's kind is read as a value of the type.
pub trait Component<U>: Sized {
    /// The identity of this component type, its key in an entity's storage.
    spec fn kind() -> u64;

    /// The value of this type that a stored form holds, if it holds one.
    spec fn restored(stored: U) -> Option<Self>;

    /// Computes [`Component::kind`].
    fn kind_of() -> (k: u64)
        ensures
            k == Self::kind(),
    ;

    /// Turns a value into a stored form that holds it.
    fn erase(self) -> (stored: U)
        ensures
            Self::restored(stored) == Some(self),
    ;

    /// The value that a stored form holds, by reference.
    fn downcast_ref(stored: &U) -> (r: Option<&Self>)
        ensures
            match r {
                Some(value) => Self::restored(*stored) == Some(*value),
                None => Self::restored(*stored) is None,
            },
    ;

    /// The value that a stored form holds, for writing: what is written
    /// through the result is what the stored form holds afterwards.
    fn downcast_mut(stored: &mut U) -> (r: Option<&mut Self>)
        ensures
            match r {
                Some(value) => {
                    &&& Self::restored(*old(stored)) == Some(*value)
                    &&& Self::restored(*final(stored)) == Some(*final(value))
                },
                None => Self::restored(*old(stored)) is None && *final(stored) == *old(stored),
            },
    ;
}

/// A collection of components, at most one per kind, to be stored in a [`World`].
#[verifier::reject_recursive_types(U)]
pub struct Entity<U> {
    components: HashMap<u64, U>,
}

impl<U> View for Entity<U> {
    type V = Map<u64, U>;

    /// The storage: the erased component under each kind that is present.
    closed spec fn view(&self) -> Map<u64, U> {
        self.components@
    }
}

/// The component of type `T` in a storage, if there is one.
pub open spec fn component_in<U, T: Component<U>>(storage: Map<u64, U>) -> Option<T> {
    if storage.contains_key(T::kind()) {
        T::restored(storage[T::kind()])
    } else {
        None
    }
}

/// True if `after` is `before` with `component` attached: the component is
/// stored under its kind, and every other kind holds what it held.
pub open spec fn attached<U, T: Component<U>>(
    before: Map<u64, U>,
    component: T,
    after: Map<u64, U>,
) -> bool {
    &&& after.dom() == before.dom().insert(T::kind())
    &&& component_in::<U, T>(after) == Some(component)
    &&& forall|kind: u64|
        kind != T::kind() && before.contains_key(kind) ==> after[kind] == before[kind]
}

/// True if a storage holds a component under every kind of the list.
pub open spec fn has_all<U>(storage: Map<u64, U>, kinds: Seq<u64>) -> bool {
    forall|i: int| 0 <= i < kinds.len() ==> storage.contains_key(#[trigger] kinds[i])
}

impl<U> Entity<U> {
    /// The component of type `T` that this entity holds, if it holds one.
    pub open spec fn component<T: Component<U>>(&self) -> Option<T> {
        component_in::<U, T>(self@)
    }

    /// Creates an entity with no components.
    pub fn new() -> (entity: Self)
        ensures
            entity@ == Map::<u64, U>::empty(),
    {
        Entity { components: HashMap::new() }
    }

    /// Attaches a component, in place of the one of the same kind if there was one.
    /// Components of other kinds are left as they were.
    pub fn add_component<T: Component<U>>(&mut self, component: T)
        ensures
            attached(old(self)@, component, final(self)@),
    {
        let id = T::kind_of();
        let stored = component.erase();
        self.components.insert(id, stored);
    }

    /// Tells whether the entity holds a component of type `T`: whether
    /// something is stored under the kind of `T` that is read as a `T`.
    pub fn has_component<T: Component<U>>(&self) -> (present: bool)
        ensures
            present == (self.component::<T>() is Some),
    {
        let id = T::kind_of();
        match self.components.get(&id) {
            Some(stored) => match T::downcast_ref(stored) {
                Some(_) => true,
                None => false,
            },
            None => false,
        }
    }

    /// Tells whether a component is stored under a kind.
    pub fn has_kind(&self, kind: u64) -> (present: bool)
        ensures
            present == self@.contains_key(kind),
    {
        self.components.contains_key(&kind)
    }

    /// Tells whether a component is stored under every kind of a list.
    /// An empty list is matched by every entity.
    pub fn has_all_kinds(&self, kinds: &Vec<u64>) -> (r: bool)
        ensures
            r == has_all(self@, kinds@),
    {
        let mut i: usize = 0;
        while i < kinds.len()
            invariant
                i <= kinds@.len(),
                forall|j: int| 0 <= j < i ==> self@.contains_key(#[trigger] kinds@[j]),
            decreases kinds@.len() - i,
        {
            if !self.components.contains_key(&kinds[i]) {
                return false;
            }
            i += 1;
        }
        true
    }

    /// The component of type `T`, or `None` if the entity holds none.
    pub fn get_component<T: Component<U>>(&self) -> (r: Option<&T>)
        ensures
            match r {
                Some(value) => self.component::<T>() == Some(*value),
                None => self.component::<T>() is None,
            },
    {
        let id = T::kind_of();
        match self.components.get(&id) {
            Some(stored) => T::downcast_ref(stored),
            None => None,
        }
    }

    /// The component of type `T`, for writing, or `None` if the entity holds
    /// none. What is written replaces the component; nothing else changes.
    pub fn get_component_mut<T: Component<U>>(&mut self) -> (r: Option<&mut T>)
        ensures
            final(self)@.dom() == old(self)@.dom(),
            forall|kind: u64|
                kind != T::kind() && old(self)@.contains_key(kind) ==> final(self)@[kind] == old(
                    self,
                )@[kind],
            match r {
                Some(value) => {
                    &&& old(self).component::<T>() == Some(*value)
                    &&& final(self).component::<T>() == Some(*final(value))
                },
                None => old(self).component::<T>() is None && final(self)@ == old(self)@,
            },
    {
        let id = T::kind_of();
        match self.components.entry(id) {
            Entry::Occupied(slot) => T::downcast_mut(slot.into_mut()),
            Entry::Vacant(_) => None,
        }
    }
}

/// A unit of per-frame behaviour that reads and changes the entities of a world.
pub trait System<U> {
    /// What one run of this system may do: `after` is a storage sequence that
    /// a run started on `before` can leave behind.
    open spec fn step(&self, before: Seq<Map<u64, U>>, after: Seq<Map<u64, U>>) -> bool {
        true
    }

    /// Runs the system once on the entities of a world. The system may read
    /// and write every entity and may pick entities by their components with
    /// [`entities_with_all`], [`entities_with_all_mut`] and
    /// [`entities_with_kinds`].
    fn update(&self, entities: &mut Vec<Entity<U>>)
        ensures
            self.step(storages(old(entities)@), storages(final(entities)@)),
    ;
}

/// A type-level list of component types that an entity can be matched against.
pub trait ComponentTuple<U> {
    /// True if a storage holds a component of every listed type.
    spec fn matches(storage: Map<u64, U>) -> bool;

    /// Tells whether an entity holds a component of every listed type.
    fn matches_all(entity: &Entity<U>) -> (r: bool)
        ensures
            r == Self::matches(entity@),
    ;
}

impl<U> ComponentTuple<U> for () {
    open spec fn matches(storage: Map<u64, U>) -> bool {
        true
    }

    fn matches_all(entity: &Entity<U>) -> (r: bool) {
        true
    }
}

impl<U, C1: Component<U>> ComponentTuple<U> for (C1,) {
    open spec fn matches(storage: Map<u64, U>) -> bool {
        component_in::<U, C1>(storage) is Some
    }

    fn matches_all(entity: &Entity<U>) -> (r: bool) {
        entity.has_component::<C1>()
    }
}

impl<U, C1: Component<U>, C2: Component<U>> ComponentTuple<U> for (C1, C2) {
    open spec fn matches(storage: Map<u64, U>) -> bool {
        component_in::<U, C1>(storage) is Some && component_in::<U, C2>(storage) is Some
    }

    fn matches_all(entity: &Entity<U>) -> (r: bool) {
        entity.has_component::<C1>() && entity.has_component::<C2>()
    }
}

impl<U, C1: Component<U>, C2: Component<U>, C3: Component<U>> ComponentTuple<U> for (C1, C2, C3) {
    open spec fn matches(storage: Map<u64, U>) -> bool {
        component_in::<U, C1>(storage) is Some && component_in::<U, C2>(storage) is Some
            && component_in::<U, C3>(storage) is Some
    }

    fn matches_all(entity: &Entity<U>) -> (r: bool) {
        entity.has_component::<C1>() && entity.has_component::<C2>()
            && entity.has_component::<C3>()
    }
}

/// The positions of the storages that hold a component of every type listed
/// in `C`, in rising order.
pub open spec fn matching_types<U, C: ComponentTuple<U>>(scene: Seq<Map<u64, U>>) -> Seq<int>
    decreases scene.len(),
{
    if scene.len() == 0 {
        Seq::empty()
    } else {
        let earlier = matching_types::<U, C>(scene.drop_last());
        if C::matches(scene.last()) {
            earlier.push(scene.len() - 1)
        } else {
            earlier
        }
    }
}

/// The storages of a sequence of entities, in the same order.
pub open spec fn storages<U>(entities: Seq<Entity<U>>) -> Seq<Map<u64, U>> {
    Seq::new(entities.len(), |i: int| entities[i]@)
}

/// The positions of the storages that hold every kind of a list, in rising order.
pub open spec fn matching<U>(scene: Seq<Map<u64, U>>, kinds: Seq<u64>) -> Seq<int>
    decreases scene.len(),
{
    if scene.len() == 0 {
        Seq::empty()
    } else {
        let earlier = matching(scene.drop_last(), kinds);
        if has_all(scene.last(), kinds) {
            earlier.push(scene.len() - 1)
        } else {
            earlier
        }
    }
}

/// True if running the first `count` systems of `systems`, one after the other
/// from the first, can lead from `before` to `after`.
pub open spec fn ran_in_order<U>(
    systems: Seq<Registered<U>>,
    count: int,
    before: Seq<Map<u64, U>>,
    after: Seq<Map<u64, U>>,
) -> bool
    decreases count,
{
    if count <= 0 {
        after == before
    } else {
        exists|between: Seq<Map<u64, U>>|
            ran_in_order(systems, count - 1, before, between) && #[trigger] systems[count
                - 1].system.step(between, after)
    }
}

/// A system as a world holds it, behind the pointer through which it is run.
#[verifier::reject_recursive_types(U)]
pub struct Registered<U> {
    pub system: Box<dyn System<U>>,
}

impl<U> Registered<U> {
    /// Wraps a system for a world's keeping.
    pub fn new(system: Box<dyn System<U>>) -> (registered: Self) {
        Registered { system }
    }
}

/// The entities of a list that hold a component of every type listed in `C`,
/// in the order of the list.
pub fn entities_with_all<U, C: ComponentTuple<U>>(entities: &Vec<Entity<U>>) -> (r: Vec<
    &Entity<U>,
>)
    ensures
        r@.len() == matching_types::<U, C>(storages(entities@)).len(),
        forall|j: int|
            0 <= j < r@.len() ==>
                *(#[trigger] r@[j]) == entities@[matching_types::<U, C>(storages(entities@))[j]],
{
    let ghost scene = storages(entities@);
    let mut found: Vec<&Entity<U>> = Vec::new();
    let mut i: usize = 0;
    while i < entities.len()
        invariant
            i <= entities@.len(),
            scene == storages(entities@),
            found@.len() == matching_types::<U, C>(scene.take(i as int)).len(),
            forall|j: int|
                0 <= j < found@.len() ==>
                    *(#[trigger] found@[j]) == entities@[matching_types::<U, C>(scene.take(i as int))[j]],
        decreases entities@.len() - i,
    {
        proof {
            assert(scene.take(i + 1).drop_last() =~= scene.take(i as int));
        }
        if C::matches_all(&entities[i]) {
            found.push(&entities[i]);
        }
        i += 1;
    }
    proof {
        assert(scene.take(i as int) =~= scene);
    }
    found
}

/// The entities of a list that hold a component under every kind of a list
/// of kinds, in the order of the list. The list of kinds may have any length;
/// every entity matches the empty one.
pub fn entities_with_kinds<'a, U>(entities: &'a Vec<Entity<U>>, kinds: &Vec<u64>) -> (r: Vec<
    &'a Entity<U>,
>)
    ensures
        r@.len() == matching(storages(entities@), kinds@).len(),
        forall|j: int|
            0 <= j < r@.len() ==> *(#[trigger] r@[j]) == entities@[matching(
                storages(entities@),
                kinds@,
            )[j]],
{
    let ghost scene = storages(entities@);
    let mut found: Vec<&Entity<U>> = Vec::new();
    let mut i: usize = 0;
    while i < entities.len()
        invariant
            i <= entities@.len(),
            scene == storages(entities@),
            found@.len() == matching(scene.take(i as int), kinds@).len(),
            forall|j: int|
                0 <= j < found@.len() ==> *(#[trigger] found@[j]) == entities@[matching(
                    scene.take(i as int),
                    kinds@,
                )[j]],
        decreases entities@.len() - i,
    {
        proof {
            assert(scene.take(i + 1).drop_last() =~= scene.take(i as int));
        }
        if entities[i].has_all_kinds(kinds) {
            found.push(&entities[i]);
        }
        i += 1;
    }
    proof {
        assert(scene.take(i as int) =~= scene);
    }
    found
}

/// The entities of a list that hold a component of every type listed in `C`,
/// for writing, in the order of the list. What is written through the result
/// is what the list holds afterwards; the entities that do not match and the
/// length of the list are left as they were.
#[verifier::loop_isolation(false)]
pub fn entities_with_all_mut<U, C: ComponentTuple<U>>(entities: &mut Vec<Entity<U>>) -> (r: Vec<
    &mut Entity<U>,
>)
    ensures
        r@.len() == matching_types::<U, C>(storages(old(entities)@)).len(),
        forall|j: int|
            0 <= j < r@.len() ==>
                *(#[trigger] r@[j]) == old(entities)@[matching_types::<U, C>(storages(old(entities)@))[j]],
        final(entities)@.len() == old(entities)@.len(),
        forall|j: int|
            0 <= j < r@.len() ==>
                final(entities)@[matching_types::<U, C>(storages(old(entities)@))[j]]
                    == *final(#[trigger] r@[j]),
        forall|k: int|
            0 <= k < old(entities)@.len() && !C::matches(old(entities)@[k]@)
                ==> #[trigger] final(entities)@[k] == old(entities)@[k],
{
    let ghost scene = storages(old(entities)@);
    let ghost before = old(entities)@;
    let mut found: Vec<&mut Entity<U>> = Vec::new();
    let mut rest: &mut [Entity<U>] = entities.as_mut_slice();
    let ghost whole: Seq<Entity<U>> = final(rest)@;
    let ghost mut i: int = 0;
    while rest.len() > 0
        invariant
            0 <= i <= before.len(),
            rest@ == before.subrange(i, before.len() as int),
            whole.len() == i + final(rest)@.len(),
            forall|k: int|
                0 <= k < final(rest)@.len() ==> whole[i + k] == #[trigger] final(rest)@[k],
            forall|k: int|
                0 <= k < i && !C::matches(before[k]@) ==> #[trigger] whole[k]
                    == before[k],
            found@.len() == matching_types::<U, C>(scene.take(i)).len(),
            forall|j: int|
                0 <= j < found@.len() ==>
                    *(#[trigger] found@[j]) == before[matching_types::<U, C>(scene.take(i))[j]],
            forall|j: int|
                0 <= j < found@.len() ==> whole[matching_types::<U, C>(scene.take(i))[j]]
                    == *final(#[trigger] found@[j]),
        decreases rest@.len(),
    {
        proof {
            assert(scene.take(i + 1).drop_last() =~= scene.take(i));
        }
        let ghost all = final(rest)@;
        let (head, tail) = rest.split_at_mut(1);
        let ghost front = final(head)@;
        let ghost back = final(tail)@;
        rest = tail;
        match head.first_mut() {
            Some(entity) => {
                let ghost written = *final(entity);
                proof {
                    assert(front =~= seq![written]);
                    assert(all =~= seq![written] + back);
                    assert(whole[i + 0] == all[0]);
                    assert forall|k: int| 0 <= k < back.len() implies whole[i + 1 + k]
                        == back[k] by {
                        assert(whole[i + (k + 1)] == all[k + 1]);
                    }
                }
                if C::matches_all(entity) {
                    found.push(entity);
                }
            },
            None => {},
        }
        proof {
            i = i + 1;
        }
    }
    proof {
        assert(scene.take(i) =~= scene);
    }
    found
}

/// A collection of entities and of the systems that act on them.
#[verifier::reject_recursive_types(U)]
pub struct World<U> {
    entities: Vec<Entity<U>>,
    systems: Vec<Registered<U>>,
}

impl<U> World<U> {
    /// The entities, in the order in which they were added.
    pub closed spec fn entities(&self) -> Seq<Entity<U>> {
        self.entities@
    }

    /// The systems, in the order in which they were registered.
    pub closed spec fn systems(&self) -> Seq<Registered<U>> {
        self.systems@
    }

    /// The storages of the entities, in the order in which they were added.
    pub open spec fn scene(&self) -> Seq<Map<u64, U>> {
        storages(self.entities())
    }

    /// Creates a world with no entities and no systems.
    pub fn new() -> (world: Self)
        ensures
            world.entities() == Seq::<Entity<U>>::empty(),
            world.systems() == Seq::<Registered<U>>::empty(),
    {
        World { entities: Vec::new(), systems: Vec::new() }
    }

    /// Adds an entity behind those already there.
    pub fn add_entity(&mut self, entity: Entity<U>)
        ensures
            final(self).entities() == old(self).entities().push(entity),
            final(self).systems() == old(self).systems(),
    {
        self.entities.push(entity);
    }

    /// Registers a system behind those already registered, which stay as they
    /// are. Of a system behind a pointer to a trait object no more than that
    /// can be said here; [`World::add_registered`] says which system it is.
    pub fn add_system(&mut self, system: Box<dyn System<U>>)
        ensures
            final(self).systems().len() == old(self).systems().len() + 1,
            final(self).systems().drop_last() == old(self).systems(),
            final(self).entities() == old(self).entities(),
    {
        self.add_registered(Registered::new(system));
        proof {
            assert(self.systems@.drop_last() =~= old(self).systems@);
        }
    }

    /// Registers a system that is wrapped for a world's keeping behind those
    /// already registered.
    pub fn add_registered(&mut self, system: Registered<U>)
        ensures
            final(self).systems() == old(self).systems().push(system),
            final(self).entities() == old(self).entities(),
    {
        self.systems.push(system);
    }

    /// All entities, in the order in which they were added.
    pub fn get_entities(&self) -> (r: &Vec<Entity<U>>)
        ensures
            r@ == self.entities(),
    {
        &self.entities
    }

    /// All entities, for writing. The systems are left as they were.
    pub fn get_entities_mut(&mut self) -> (r: &mut Vec<Entity<U>>)
        ensures
            r@ == old(self).entities(),
            final(self).entities() == final(r)@,
            final(self).systems() == old(self).systems(),
    {
        &mut self.entities
    }

    /// The entities that hold a component of every type listed in `C`, in the
    /// order in which they were added.
    pub fn get_entities_with_all<C: ComponentTuple<U>>(&self) -> (r: Vec<&Entity<U>>)
        ensures
            r@.len() == matching_types::<U, C>(self.scene()).len(),
            forall|j: int|
                0 <= j < r@.len() ==>
                    *(#[trigger] r@[j]) == self.entities()[matching_types::<U, C>(self.scene())[j]],
    {
        entities_with_all::<U, C>(&self.entities)
    }

    /// The entities that hold a component of every type listed in `C`, for
    /// writing, in the order in which they were added. What is written through
    /// the result is what the world holds afterwards; the entities that do not
    /// match, the number of entities and the systems are left as they were.
    pub fn get_entities_with_all_mut<C: ComponentTuple<U>>(&mut self) -> (r: Vec<&mut Entity<U>>)
        ensures
            r@.len() == matching_types::<U, C>(old(self).scene()).len(),
            forall|j: int|
                0 <= j < r@.len() ==>
                    *(#[trigger] r@[j]) == old(self).entities()[matching_types::<U, C>(old(self).scene())[j]],
            final(self).entities().len() == old(self).entities().len(),
            forall|j: int|
                0 <= j < r@.len() ==>
                    final(self).entities()[matching_types::<U, C>(old(self).scene())[j]]
                        == *final(#[trigger] r@[j]),
            forall|k: int|
                0 <= k < old(self).entities().len() && !C::matches(old(self).entities()[k]@)
                    ==> #[trigger] final(self).entities()[k] == old(self).entities()[k],
            final(self).systems() == old(self).systems(),
    {
        entities_with_all_mut::<U, C>(&mut self.entities)
    }

    /// The entities that hold a component under every kind of a list, in the
    /// order in which they were added. The list may have any length; every
    /// entity matches the empty list.
    pub fn get_entities_with_kinds(&self, kinds: &Vec<u64>) -> (r: Vec<&Entity<U>>)
        ensures
            r@.len() == matching(self.scene(), kinds@).len(),
            forall|j: int|
                0 <= j < r@.len() ==> *(#[trigger] r@[j]) == self.entities()[matching(
                    self.scene(),
                    kinds@,
                )[j]],
    {
        entities_with_kinds(&self.entities, kinds)
    }

    /// Runs every registered system once, in the order of registration, each on
    /// the entities as the one before it left them.
    pub fn update(&mut self)
        ensures
            final(self).systems() == old(self).systems(),
            ran_in_order(
                old(self).systems(),
                old(self).systems().len() as int,
                old(self).scene(),
                final(self).scene(),
            ),
    {
        let mut i: usize = 0;
        while i < self.systems.len()
            invariant
                i <= self.systems@.len(),
                self.systems@ == old(self).systems@,
                ran_in_order(self.systems@, i as int, old(self).scene(), self.scene()),
            decreases self.systems@.len() - i,
        {
            let ghost before = self.scene();
            self.systems[i].system.update(&mut self.entities);
            proof {
                assert(ran_in_order(self.systems@, i as int, old(self).scene(), before));
                assert(self.systems@[i + 1 - 1].system.step(before, self.scene()));
            }
            i += 1;
        }
    }
}

/// A component that has just been attached is present, and it is the one that
/// is read back.
pub proof fn attached_component_is_read_back<U, T: Component<U>>(
    before: Map<u64, U>,
    component: T,
    after: Map<u64, U>,
)
    requires
        attached(before, component, after),
    ensures
        after.contains_key(T::kind()),
        component_in::<U, T>(after) == Some(component),
{
}

/// An entity without components holds a component of no type.
pub proof fn empty_storage_holds_nothing<U, T: Component<U>>()
    ensures
        !Map::<u64, U>::empty().contains_key(T::kind()),
        component_in::<U, T>(Map::<u64, U>::empty()) is None,
{
}

/// Attaching a component of one kind changes neither whether a component of
/// another kind is present nor which one it is. So a type of which no
/// component was ever attached, and whose kind no attached type shares, stays
/// absent.
pub proof fn other_kinds_are_untouched<U, T: Component<U>, O: Component<U>>(
    before: Map<u64, U>,
    component: T,
    after: Map<u64, U>,
)
    requires
        attached(before, component, after),
        O::kind() != T::kind(),
    ensures
        after.contains_key(O::kind()) == before.contains_key(O::kind()),
        component_in::<U, O>(after) == component_in::<U, O>(before),
{
}

/// True if a storage that holds a component under the kind of `T` holds one
/// that is read as a `T`: for `T`, to be present is to be readable.
pub open spec fn reads_as<U, T: Component<U>>(storage: Map<u64, U>) -> bool {
    storage.contains_key(T::kind()) ==> component_in::<U, T>(storage) is Some
}

/// What is stored under a kind is read as the type that was stored: in an
/// entity without components every type is readable; attaching a component
/// makes its type readable and leaves every type of another kind as readable
/// as it was. So where the component types of a world have kinds of their
/// own, a component is present exactly if it is read.
pub proof fn present_components_are_readable<U, T: Component<U>, O: Component<U>>(
    before: Map<u64, U>,
    component: T,
    after: Map<u64, U>,
)
    requires
        attached(before, component, after),
        O::kind() != T::kind(),
        reads_as::<U, O>(before),
    ensures
        reads_as::<U, T>(Map::<u64, U>::empty()),
        reads_as::<U, T>(after),
        reads_as::<U, O>(after),
{
}

/// A type of which no component was ever attached stays absent: attaching a
/// component of another type leaves it absent, also where the two types have
/// the same kind, as long as what is stored for the one is not read as the other.
pub proof fn type_never_attached_stays_absent<U, T: Component<U>, O: Component<U>>(
    before: Map<u64, U>,
    component: T,
    after: Map<u64, U>,
)
    requires
        attached(before, component, after),
        component_in::<U, O>(before) is None,
        O::kind() == T::kind() ==> O::restored(after[T::kind()]) is None,
    ensures
        component_in::<U, O>(after) is None,
{
}

/// Attaching a second component of the same type replaces the first: only the
/// second is read back, and no kind is present that would not be after the
/// second alone.
pub proof fn second_component_replaces_first<U, T: Component<U>>(
    start: Map<u64, U>,
    first: T,
    between: Map<u64, U>,
    second: T,
    end: Map<u64, U>,
)
    requires
        attached(start, first, between),
        attached(between, second, end),
    ensures
        component_in::<U, T>(end) == Some(second),
        end.dom() == start.dom().insert(T::kind()),
        forall|kind: u64|
            kind != T::kind() && start.contains_key(kind) ==> end[kind] == start[kind],
{
    assert(end.dom() =~= start.dom().insert(T::kind()));
}

/// What a query by kinds returns: the positions listed by [`matching`] rise strictly,
/// each names a storage that holds every kind asked for, and every such
/// storage is listed.
pub proof fn matching_lists_exactly_the_matches<U>(scene: Seq<Map<u64, U>>, kinds: Seq<u64>)
    ensures
        forall|j: int|
            0 <= j < matching(scene, kinds).len() ==> 0 <= #[trigger] matching(scene, kinds)[j]
                < scene.len() && has_all(scene[matching(scene, kinds)[j]], kinds),
        forall|j: int, k: int|
            0 <= j < k < matching(scene, kinds).len() ==> matching(scene, kinds)[j] < matching(
                scene,
                kinds,
            )[k],
        forall|i: int|
            0 <= i < scene.len() && has_all(#[trigger] scene[i], kinds) ==> matching(
                scene,
                kinds,
            ).contains(i),
    decreases scene.len(),
{
    if scene.len() > 0 {
        let shorter = scene.drop_last();
        let earlier = matching(shorter, kinds);
        matching_lists_exactly_the_matches(shorter, kinds);
        assert forall|i: int| 0 <= i < scene.len() && has_all(#[trigger] scene[i], kinds) implies matching(
            scene,
            kinds,
        ).contains(i) by {
            if i < scene.len() - 1 {
                assert(has_all(shorter[i], kinds));
                let j = choose|j: int| 0 <= j < earlier.len() && earlier[j] == i;
                assert(matching(scene, kinds)[j] == i);
            } else {
                assert(matching(scene, kinds)[earlier.len() as int] == i);
            }
        }
    }
}

/// What a query by types returns: the positions listed by [`matching_types`]
/// rise strictly, each names a storage that holds a component of every type
/// asked for, and every such storage is listed.
pub proof fn matching_types_lists_exactly_the_matches<U, C: ComponentTuple<U>>(
    scene: Seq<Map<u64, U>>,
)
    ensures
        forall|j: int|
            0 <= j < matching_types::<U, C>(scene).len() ==> 0 <= #[trigger] matching_types::<
                U,
                C,
            >(scene)[j] < scene.len() && C::matches(scene[matching_types::<U, C>(scene)[j]]),
        forall|j: int, k: int|
            0 <= j < k < matching_types::<U, C>(scene).len() ==> matching_types::<U, C>(scene)[j]
                < matching_types::<U, C>(scene)[k],
        forall|i: int|
            0 <= i < scene.len() && C::matches(#[trigger] scene[i]) ==> matching_types::<U, C>(
                scene,
            ).contains(i),
    decreases scene.len(),
{
    if scene.len() > 0 {
        let shorter = scene.drop_last();
        let earlier = matching_types::<U, C>(shorter);
        matching_types_lists_exactly_the_matches::<U, C>(shorter);
        assert forall|i: int| 0 <= i < scene.len() && C::matches(#[trigger] scene[i]) implies matching_types::<
            U,
            C,
        >(scene).contains(i) by {
            if i < scene.len() - 1 {
                assert(C::matches(shorter[i]));
                let j = choose|j: int| 0 <= j < earlier.len() && earlier[j] == i;
                assert(matching_types::<U, C>(scene)[j] == i);
            } else {
                assert(matching_types::<U, C>(scene)[earlier.len() as int] == i);
            }
        }
    }
}

/// A query for no component type returns every entity.
pub proof fn query_for_nothing_matches_all<U>(scene: Seq<Map<u64, U>>)
    ensures
        matching_types::<U, ()>(scene) == Seq::new(scene.len(), |i: int| i),
    decreases scene.len(),
{
    if scene.len() > 0 {
        query_for_nothing_matches_all(scene.drop_last());
    }
    assert(matching_types::<U, ()>(scene) =~= Seq::new(scene.len(), |i: int| i));
}

/// A query for a component type of which no entity holds a component returns
/// no entity.
pub proof fn query_for_absent_type_matches_nothing<U, T: Component<U>>(scene: Seq<Map<u64, U>>)
    requires
        forall|i: int| 0 <= i < scene.len() ==> component_in::<U, T>(#[trigger] scene[i]) is None,
    ensures
        matching_types::<U, (T,)>(scene).len() == 0,
    decreases scene.len(),
{
    if scene.len() > 0 {
        query_for_absent_type_matches_nothing::<U, T>(scene.drop_last());
        assert(component_in::<U, T>(scene.last()) is None);
    }
}

/// A query by kinds for no kind matches every entity.
pub proof fn empty_query_matches_all<U>(scene: Seq<Map<u64, U>>)
    ensures
        matching(scene, Seq::<u64>::empty()) == Seq::new(scene.len(), |i: int| i),
    decreases scene.len(),
{
    if scene.len() > 0 {
        empty_query_matches_all(scene.drop_last());
    }
    assert(matching(scene, Seq::<u64>::empty()) =~= Seq::new(scene.len(), |i: int| i));
}

/// A query that names a kind present in no entity matches no entity.
pub proof fn absent_kind_matches_nothing<U>(scene: Seq<Map<u64, U>>, kinds: Seq<u64>, at: int)
    requires
        0 <= at < kinds.len(),
        forall|i: int| 0 <= i < scene.len() ==> !(#[trigger] scene[i]).contains_key(kinds[at]),
    ensures
        matching(scene, kinds).len() == 0,
    decreases scene.len(),
{
    if scene.len() > 0 {
        absent_kind_matches_nothing(scene.drop_last(), kinds, at);
        assert(!scene.last().contains_key(kinds[at]));
    }
}

/// Systems run in the order of their registration: with three systems
/// registered, an update leads through two states in between, reached by the
/// first and the second system, and the third system leaves the final state.
pub proof fn three_systems_run_in_order<U>(
    first: Registered<U>,
    second: Registered<U>,
    third: Registered<U>,
    before: Seq<Map<u64, U>>,
    after: Seq<Map<u64, U>>,
)
    requires
        ran_in_order(seq![first, second, third], 3, before, after),
    ensures
        exists|one: Seq<Map<u64, U>>, two: Seq<Map<u64, U>>|
            first.system.step(before, one) && second.system.step(one, two) && third.system.step(
                two,
                after,
            ),
{
    let systems = seq![first, second, third];
    let two = last_step_of_a_run(systems, 3, before, after);
    let one = last_step_of_a_run(systems, 2, before, two);
    let zero = last_step_of_a_run(systems, 1, before, one);
    assert(first.system.step(before, one) && second.system.step(one, two) && third.system.step(
        two,
        after,
    ));
}

/// A run of at least one system ends with a step of the last of them, taken
/// from the state that the run of the others led to. Returns that state.
pub proof fn last_step_of_a_run<U>(
    systems: Seq<Registered<U>>,
    count: int,
    before: Seq<Map<u64, U>>,
    after: Seq<Map<u64, U>>,
) -> (between: Seq<Map<u64, U>>)
    requires
        0 < count,
        ran_in_order(systems, count, before, after),
    ensures
        ran_in_order(systems, count - 1, before, between),
        systems[count - 1].system.step(between, after),
        count == 1 ==> between == before,
{
    choose|between: Seq<Map<u64, U>>|
        ran_in_order(systems, count - 1, before, between) && #[trigger] systems[count
            - 1].system.step(between, after)
}

/// Running the systems up to a position and then the one at that position is
/// running the systems up to the next position: no system is skipped and none
/// runs out of turn.
pub proof fn next_system_extends_the_run<U>(
    systems: Seq<Registered<U>>,
    count: int,
    before: Seq<Map<u64, U>>,
    between: Seq<Map<u64, U>>,
    after: Seq<Map<u64, U>>,
)
    requires
        0 <= count < systems.len(),
        ran_in_order(systems, count, before, between),
        systems[count].system.step(between, after),
    ensures
        ran_in_order(systems, count + 1, before, after),
{
    assert(systems[count + 1 - 1].system.step(between, after));
}

} // verus!
