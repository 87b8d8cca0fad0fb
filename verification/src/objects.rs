//! Objects placed on maps or carried in an inventory, their named boolean
//! state flags, and the rules that read and change those flags.

use vstd::prelude::*;

verus! {

/// One named boolean flag, either recorded on an object, required by an
/// activation, or assigned by an item use.
#[derive(Debug, PartialEq, Eq)]
pub struct ObjectState {
    pub name: String,
    pub value: bool,
}

pub struct ObjectStateView {
    pub name: Seq<char>,
    pub value: bool,
}

impl DeepView for ObjectState {
    type V = ObjectStateView;

    open spec fn deep_view(&self) -> ObjectStateView {
        ObjectStateView { name: self.name@, value: self.value }
    }
}

impl View for ObjectState {
    type V = ObjectStateView;

    open spec fn view(&self) -> ObjectStateView {
        self.deep_view()
    }
}

impl Clone for ObjectState {
    fn clone(&self) -> (res: Self)
        ensures
            res@ == self@,
    {
        ObjectState { name: self.name.clone(), value: self.value }
    }
}

/// What happens when the player activates the object: the activation fires
/// only while every prerequisite flag has its required value.
#[derive(Debug, PartialEq, Eq)]
pub struct ObjectInteractionActivate {
    pub category: String,
    pub prereqs: Vec<ObjectState>,
    pub destination: Option<String>,
}

pub struct ObjectInteractionActivateView {
    pub category: Seq<char>,
    pub prereqs: Seq<ObjectStateView>,
    pub destination: Option<Seq<char>>,
}

impl DeepView for ObjectInteractionActivate {
    type V = ObjectInteractionActivateView;

    open spec fn deep_view(&self) -> ObjectInteractionActivateView {
        ObjectInteractionActivateView {
            category: self.category@,
            prereqs: self.prereqs.deep_view(),
            destination: self.destination.deep_view(),
        }
    }
}

impl View for ObjectInteractionActivate {
    type V = ObjectInteractionActivateView;

    open spec fn view(&self) -> ObjectInteractionActivateView {
        self.deep_view()
    }
}

impl Clone for ObjectInteractionActivate {
    fn clone(&self) -> (res: Self)
        ensures
            res@ == self@,
    {
        let destination = match &self.destination {
            Some(d) => Some(d.clone()),
            None => None,
        };
        let prereqs = self.prereqs.clone();
        assert(prereqs.deep_view() =~= self.prereqs.deep_view());
        ObjectInteractionActivate { category: self.category.clone(), prereqs, destination }
    }
}

/// What happens when an inventory item is used on the object: the item with
/// id `foreign_object_id` assigns the flags listed in `self_action`.
#[derive(Debug, PartialEq, Eq)]
pub struct ObjectInteractionObjectUse {
    pub foreign_object_id: String,
    pub self_action: Vec<ObjectState>,
    pub consume_item: bool,
}

pub struct ObjectInteractionObjectUseView {
    pub foreign_object_id: Seq<char>,
    pub self_action: Seq<ObjectStateView>,
    pub consume_item: bool,
}

impl DeepView for ObjectInteractionObjectUse {
    type V = ObjectInteractionObjectUseView;

    open spec fn deep_view(&self) -> ObjectInteractionObjectUseView {
        ObjectInteractionObjectUseView {
            foreign_object_id: self.foreign_object_id@,
            self_action: self.self_action.deep_view(),
            consume_item: self.consume_item,
        }
    }
}

impl View for ObjectInteractionObjectUse {
    type V = ObjectInteractionObjectUseView;

    open spec fn view(&self) -> ObjectInteractionObjectUseView {
        self.deep_view()
    }
}

impl Clone for ObjectInteractionObjectUse {
    fn clone(&self) -> (res: Self)
        ensures
            res@ == self@,
    {
        let self_action = self.self_action.clone();
        assert(self_action.deep_view() =~= self.self_action.deep_view());
        ObjectInteractionObjectUse {
            foreign_object_id: self.foreign_object_id.clone(),
            self_action,
            consume_item: self.consume_item,
        }
    }
}

/// Reserved for interactions driven by the world rather than the player.
#[derive(Clone, Copy, Debug, PartialEq, Eq)]
pub struct ObjectInteractionWorld {
}

#[derive(Debug, PartialEq, Eq)]
pub enum ObjectInteraction {
    ObjectInteractionActivate(ObjectInteractionActivate),
    ObjectInteractionObjectUse(ObjectInteractionObjectUse),
}

pub enum ObjectInteractionView {
    Activate(ObjectInteractionActivateView),
    ObjectUse(ObjectInteractionObjectUseView),
}

impl DeepView for ObjectInteraction {
    type V = ObjectInteractionView;

    open spec fn deep_view(&self) -> ObjectInteractionView {
        match self {
            ObjectInteraction::ObjectInteractionActivate(a) => ObjectInteractionView::Activate(a@),
            ObjectInteraction::ObjectInteractionObjectUse(u) => ObjectInteractionView::ObjectUse(
                u@,
            ),
        }
    }
}

impl View for ObjectInteraction {
    type V = ObjectInteractionView;

    open spec fn view(&self) -> ObjectInteractionView {
        self.deep_view()
    }
}

impl Clone for ObjectInteraction {
    fn clone(&self) -> (res: Self)
        ensures
            res@ == self@,
    {
        match self {
            ObjectInteraction::ObjectInteractionActivate(a) => {
                ObjectInteraction::ObjectInteractionActivate(a.clone())
            },
            ObjectInteraction::ObjectInteractionObjectUse(u) => {
                ObjectInteraction::ObjectInteractionObjectUse(u.clone())
            },
        }
    }
}

/// An item of the world. `category` is a free-form tag; the engine gives a
/// meaning to `"collectable"`, `"collidable"` and `"door"`.
#[derive(Debug, PartialEq, Eq)]
pub struct Object {
    pub id: String,
    pub name: String,
    pub category: String,
    pub icon: char,
    pub state: Vec<ObjectState>,
    pub interactions: Vec<ObjectInteraction>,
}

pub struct ObjectView {
    pub id: Seq<char>,
    pub name: Seq<char>,
    pub category: Seq<char>,
    pub icon: char,
    pub state: Seq<ObjectStateView>,
    pub interactions: Seq<ObjectInteractionView>,
}

impl DeepView for Object {
    type V = ObjectView;

    open spec fn deep_view(&self) -> ObjectView {
        ObjectView {
            id: self.id@,
            name: self.name@,
            category: self.category@,
            icon: self.icon,
            state: self.state.deep_view(),
            interactions: self.interactions.deep_view(),
        }
    }
}

impl View for Object {
    type V = ObjectView;

    open spec fn view(&self) -> ObjectView {
        self.deep_view()
    }
}

impl Clone for Object {
    fn clone(&self) -> (res: Self)
        ensures
            res@ == self@,
    {
        let state = self.state.clone();
        let interactions = self.interactions.clone();
        assert(state.deep_view() =~= self.state.deep_view());
        assert(interactions.deep_view() =~= self.interactions.deep_view());
        Object {
            id: self.id.clone(),
            name: self.name.clone(),
            category: self.category.clone(),
            icon: self.icon,
            state,
            interactions,
        }
    }
}

/// The value recorded for `name`: that of the first flag so named, and
/// `false` when no flag carries the name.
pub open spec fn flag_value(state: Seq<ObjectStateView>, name: Seq<char>) -> bool
    decreases state.len(),
{
    if state.len() == 0 {
        false
    } else if state[0].name == name {
        state[0].value
    } else {
        flag_value(state.drop_first(), name)
    }
}

/// Whether some flag of `state` is called `name`.
pub open spec fn has_flag(state: Seq<ObjectStateView>, name: Seq<char>) -> bool {
    exists|i: int| 0 <= i < state.len() && (#[trigger] state[i]).name == name
}

/// `state` with every flag called `name` set to `value`; flags are never
/// added or removed.
pub open spec fn set_flag(state: Seq<ObjectStateView>, name: Seq<char>, value: bool) -> Seq<
    ObjectStateView,
> {
    Seq::new(
        state.len(),
        |i: int|
            if state[i].name == name {
                ObjectStateView { name: state[i].name, value }
            } else {
                state[i]
            },
    )
}

/// `state` after each assignment of `changes` was made in turn.
pub open spec fn set_flags(state: Seq<ObjectStateView>, changes: Seq<ObjectStateView>) -> Seq<
    ObjectStateView,
>
    decreases changes.len(),
{
    if changes.len() == 0 {
        state
    } else {
        set_flag(set_flags(state, changes.drop_last()), changes.last().name, changes.last().value)
    }
}

/// The first item-use interaction among `interactions` that the item with id
/// `item_id` triggers.
pub open spec fn first_object_use(
    interactions: Seq<ObjectInteractionView>,
    item_id: Seq<char>,
) -> Option<ObjectInteractionObjectUseView>
    decreases interactions.len(),
{
    if interactions.len() == 0 {
        None
    } else {
        match interactions[0] {
            ObjectInteractionView::ObjectUse(u) if u.foreign_object_id == item_id => Some(u),
            _ => first_object_use(interactions.drop_first(), item_id),
        }
    }
}

impl ObjectView {
    pub open spec fn get_state(self, name: Seq<char>) -> bool {
        flag_value(self.state, name)
    }

    pub open spec fn set_state(self, name: Seq<char>, value: bool) -> ObjectView {
        ObjectView { state: set_flag(self.state, name, value), ..self }
    }

    pub open spec fn set_states(self, changes: Seq<ObjectStateView>) -> ObjectView {
        ObjectView { state: set_flags(self.state, changes), ..self }
    }

    /// Every required flag has its required value.
    pub open spec fn prereqs_met(self, prereqs: Seq<ObjectStateView>) -> bool {
        forall|i: int|
            0 <= i < prereqs.len() ==> self.get_state((#[trigger] prereqs[i]).name)
                == prereqs[i].value
    }

    pub open spec fn object_use_for(self, item_id: Seq<char>) -> Option<
        ObjectInteractionObjectUseView,
    > {
        first_object_use(self.interactions, item_id)
    }
}

/// Where the first `k` flags are not called `name`, the lookup goes on
/// behind them.
pub proof fn lemma_flag_value_skip(state: Seq<ObjectStateView>, name: Seq<char>, k: int)
    requires
        0 <= k <= state.len(),
        forall|j: int| 0 <= j < k ==> (#[trigger] state[j]).name != name,
    ensures
        flag_value(state, name) == flag_value(state.skip(k), name),
    decreases k,
{
    if k == 0 {
        assert(state.skip(0) =~= state);
    } else {
        lemma_flag_value_skip(state, name, k - 1);
        let rest = state.skip(k - 1);
        assert(rest[0] == state[k - 1]);
        assert(rest.drop_first() =~= state.skip(k));
    }
}

/// A flag that no entry of the state names reads as `false`.
pub proof fn lemma_missing_flag_is_false(state: Seq<ObjectStateView>, name: Seq<char>)
    requires
        !has_flag(state, name),
    ensures
        flag_value(state, name) == false,
{
    lemma_flag_value_skip(state, name, state.len() as int);
}

/// Assigning a flag neither adds nor removes a name.
pub proof fn lemma_set_flag_keeps_names(
    state: Seq<ObjectStateView>,
    name: Seq<char>,
    value: bool,
    other: Seq<char>,
)
    ensures
        has_flag(set_flag(state, name, value), other) == has_flag(state, other),
{
    let after = set_flag(state, name, value);
    if has_flag(state, other) {
        let i = choose|i: int| 0 <= i < state.len() && (#[trigger] state[i]).name == other;
        assert(after[i].name == other);
    }
    if has_flag(after, other) {
        let i = choose|i: int| 0 <= i < after.len() && (#[trigger] after[i]).name == other;
        assert(state[i].name == other);
    }
}

/// After an assignment the flag reads as assigned if the object records it,
/// and every other flag reads as before.
pub proof fn lemma_get_after_set(
    state: Seq<ObjectStateView>,
    name: Seq<char>,
    value: bool,
    other: Seq<char>,
)
    ensures
        flag_value(set_flag(state, name, value), other) == if other == name && has_flag(
            state,
            name,
        ) {
            value
        } else {
            flag_value(state, other)
        },
    decreases state.len(),
{
    let after = set_flag(state, name, value);
    if state.len() == 0 {
    } else {
        assert(after.drop_first() =~= set_flag(state.drop_first(), name, value));
        lemma_get_after_set(state.drop_first(), name, value, other);
        if state[0].name == other {
            assert(has_flag(state, other));
        } else if other == name && has_flag(state, name) {
            let i = choose|i: int| 0 <= i < state.len() && (#[trigger] state[i]).name == name;
            assert(state.drop_first()[i - 1] == state[i]);
            assert(has_flag(state.drop_first(), name));
        } else if other == name {
            assert(!has_flag(state.drop_first(), name)) by {
                if has_flag(state.drop_first(), name) {
                    let i = choose|i: int|
                        0 <= i < state.drop_first().len() && (#[trigger] state.drop_first()[i]).name
                            == name;
                    assert(state[i + 1].name == name);
                }
            }
        }
    }
}

/// An object meets an empty list of prerequisites.
pub proof fn law_no_prereqs_are_met(object: ObjectView)
    ensures
        object.prereqs_met(Seq::empty()),
{
}

/// A flag that was never set reads as `false`: one that the object does
/// not record, whatever flag was assigned since.
pub proof fn law_unset_flag_is_false(
    object: ObjectView,
    flag: Seq<char>,
    name: Seq<char>,
    value: bool,
)
    requires
        !has_flag(object.state, flag),
    ensures
        object.get_state(flag) == false,
        object.set_state(name, value).get_state(flag) == false,
{
    lemma_missing_flag_is_false(object.state, flag);
    lemma_set_flag_keeps_names(object.state, name, value, flag);
    lemma_missing_flag_is_false(set_flag(object.state, name, value), flag);
}

/// The value that `changes` assign to `name` last, if they assign one.
pub open spec fn last_assignment(changes: Seq<ObjectStateView>, name: Seq<char>) -> Option<bool>
    decreases changes.len(),
{
    if changes.len() == 0 {
        None
    } else if changes.last().name == name {
        Some(changes.last().value)
    } else {
        last_assignment(changes.drop_last(), name)
    }
}

/// After a list of assignments every flag keeps its name and its place,
/// and has the value assigned to its name last, or the value it had.
pub proof fn lemma_set_flags_entries(state: Seq<ObjectStateView>, changes: Seq<ObjectStateView>)
    ensures
        set_flags(state, changes).len() == state.len(),
        forall|i: int|
            0 <= i < state.len() ==> (#[trigger] set_flags(state, changes)[i]) == (ObjectStateView {
                name: state[i].name,
                value: match last_assignment(changes, state[i].name) {
                    Some(value) => value,
                    None => state[i].value,
                },
            }),
    decreases changes.len(),
{
    if changes.len() > 0 {
        lemma_set_flags_entries(state, changes.drop_last());
    }
}

/// Making a list of assignments twice changes nothing more than making it
/// once.
pub proof fn lemma_set_flags_idempotent(state: Seq<ObjectStateView>, changes: Seq<ObjectStateView>)
    ensures
        set_flags(set_flags(state, changes), changes) == set_flags(state, changes),
{
    let once = set_flags(state, changes);
    lemma_set_flags_entries(state, changes);
    lemma_set_flags_entries(once, changes);
    assert(set_flags(once, changes) =~= once);
}

/// Assignments set flags rather than toggle them: an object to which a
/// list of assignments was made is not changed by making them again.
pub proof fn law_set_states_is_idempotent(object: ObjectView, changes: Seq<ObjectStateView>)
    ensures
        object.set_states(changes).set_states(changes) == object.set_states(changes),
{
    lemma_set_flags_idempotent(object.state, changes);
}

/// A flag that the state records and the assignments name reads afterwards
/// as it was assigned last; any other flag reads as before.
pub proof fn lemma_get_after_set_flags(
    state: Seq<ObjectStateView>,
    changes: Seq<ObjectStateView>,
    name: Seq<char>,
)
    ensures
        flag_value(set_flags(state, changes), name) == match last_assignment(changes, name) {
            Some(value) => if has_flag(state, name) {
                value
            } else {
                false
            },
            None => flag_value(state, name),
        },
        has_flag(set_flags(state, changes), name) == has_flag(state, name),
    decreases changes.len(),
{
    if changes.len() > 0 {
        let before = set_flags(state, changes.drop_last());
        lemma_get_after_set_flags(state, changes.drop_last(), name);
        lemma_get_after_set(before, changes.last().name, changes.last().value, name);
        lemma_set_flag_keeps_names(before, changes.last().name, changes.last().value, name);
        if !has_flag(state, name) {
            lemma_missing_flag_is_false(state, name);
        }
    }
}

impl Object {
    /// Checks a list of required flag values against the object.
    pub fn prereqs_met(&self, prereqs: &[ObjectState]) -> (met: bool)
        ensures
            met == self@.prereqs_met(prereqs.deep_view()),
    {
        let mut i: usize = 0;
        while i < prereqs.len()
            invariant
                i <= prereqs.len(),
                forall|j: int|
                    0 <= j < i ==> self@.get_state((#[trigger] prereqs.deep_view()[j]).name)
                        == prereqs.deep_view()[j].value,
            decreases prereqs.len() - i,
        {
            let prereq = &prereqs[i];
            assert(prereqs.deep_view()[i as int] == prereq@);
            if self.get_state(prereq.name.as_str()) != prereq.value {
                return false;
            }
            i += 1;
        }
        true
    }

    /// Value of the flag `state_name`; `false` for a flag the object does not
    /// record.
    pub fn get_state(&self, state_name: &str) -> (value: bool)
        ensures
            value == self@.get_state(state_name@),
    {
        let wanted = state_name.to_owned();
        let mut i: usize = 0;
        while i < self.state.len()
            invariant
                i <= self.state.len(),
                wanted@ == state_name@,
                forall|j: int|
                    0 <= j < i ==> (#[trigger] self.state.deep_view()[j]).name != state_name@,
            decreases self.state.len() - i,
        {
            if self.state[i].name == wanted {
                proof {
                    let flags = self.state.deep_view();
                    lemma_flag_value_skip(flags, state_name@, i as int);
                    assert(flags.skip(i as int)[0] == flags[i as int]);
                }
                return self.state[i].value;
            }
            i += 1;
        }
        proof {
            lemma_flag_value_skip(self.state.deep_view(), state_name@, self.state.len() as int);
        }
        false
    }

    /// Sets every flag called `state_name` to `state_val`. An object that
    /// does not record the flag is left as it is.
    pub fn set_state(&mut self, state_name: String, state_val: bool)
        ensures
            final(self)@ == old(self)@.set_state(state_name@, state_val),
    {
        let mut i: usize = 0;
        while i < self.state.len()
            invariant
                i <= self.state.len(),
                self.state.len() == old(self).state.len(),
                self.id == old(self).id,
                self.name == old(self).name,
                self.category == old(self).category,
                self.icon == old(self).icon,
                self.interactions == old(self).interactions,
                forall|j: int|
                    0 <= j < i ==> (#[trigger] self.state.deep_view()[j]) == set_flag(
                        old(self).state.deep_view(),
                        state_name@,
                        state_val,
                    )[j],
                forall|j: int|
                    i <= j < self.state.len() ==> (#[trigger] self.state.deep_view()[j]) == old(
                        self,
                    ).state.deep_view()[j],
            decreases self.state.len() - i,
        {
            let ghost before = self.state;
            if self.state[i].name == state_name {
                self.state[i].value = state_val;
            }
            assert forall|j: int| 0 <= j < self.state.len() && j != i implies (
            #[trigger] self.state.deep_view()[j]) == before.deep_view()[j] by {
                assert(self.state[j] == before[j]);
            }
            assert(self.state.deep_view()[i as int].name == before.deep_view()[i as int].name);
            i += 1;
        }
        assert(self.state.deep_view() =~= set_flag(
            old(self).state.deep_view(),
            state_name@,
            state_val,
        ));
    }

    /// Makes each assignment of `changes` in turn.
    pub fn set_states(&mut self, changes: &Vec<ObjectState>)
        ensures
            final(self)@ == old(self)@.set_states(changes.deep_view()),
    {
        let mut i: usize = 0;
        while i < changes.len()
            invariant
                i <= changes.len(),
                self@ == old(self)@.set_states(changes.deep_view().take(i as int)),
            decreases changes.len() - i,
        {
            proof {
                let all = changes.deep_view();
                assert(all.take(i + 1).drop_last() =~= all.take(i as int));
                assert(all.take(i + 1).last() == changes[i as int]@);
            }
            self.set_state(changes[i].name.clone(), changes[i].value);
            i += 1;
        }
        assert(changes.deep_view().take(changes.len() as int) =~= changes.deep_view());
    }

    /// The first item-use interaction that the item with id `item_id`
    /// triggers, if there is one.
    pub fn object_use_for(&self, item_id: &String) -> (found: Option<&ObjectInteractionObjectUse>)
        ensures
            found.deep_view() == self@.object_use_for(item_id@),
    {
        let mut i: usize = 0;
        assert(self.interactions.deep_view().skip(0) =~= self.interactions.deep_view());
        while i < self.interactions.len()
            invariant
                i <= self.interactions.len(),
                first_object_use(self.interactions.deep_view(), item_id@) == first_object_use(
                    self.interactions.deep_view().skip(i as int),
                    item_id@,
                ),
            decreases self.interactions.len() - i,
        {
            proof {
                let all = self.interactions.deep_view();
                assert(all.skip(i as int)[0] == self.interactions[i as int]@);
                assert(all.skip(i as int).drop_first() =~= all.skip(i + 1));
            }
            match &self.interactions[i] {
                ObjectInteraction::ObjectInteractionObjectUse(object_use) => {
                    if object_use.foreign_object_id == *item_id {
                        return Some(object_use);
                    }
                },
                ObjectInteraction::ObjectInteractionActivate(_) => {},
            }
            i += 1;
        }
        assert(self.interactions.deep_view().skip(self.interactions.len() as int).len() == 0);
        None
    }
}

} // verus!
