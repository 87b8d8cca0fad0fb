//! Object definitions: from a parsed document to the object it describes.

use crate::catalog::{lemma_position_by_is, position_by, put_by};
use crate::config::ConfigError;
use crate::config::yaml::{
    Entries, YamlNode, lemma_try_fold_done, lemma_try_fold_next, try_fold,
};
use crate::objects::{
    Object, ObjectInteraction, ObjectInteractionActivate, ObjectInteractionActivateView,
    ObjectInteractionObjectUse, ObjectInteractionObjectUseView, ObjectInteractionView, ObjectState,
    ObjectStateView, ObjectView,
};
use crate::text::text_is;
use vstd::prelude::*;
use vstd::string::StrSliceExecFns;

verus! {

/// The key under which an object is known: its id.
pub open spec fn object_key() -> spec_fn(ObjectView) -> Seq<char> {
    |object: ObjectView| object.id
}

/// The text of a key.
pub open spec fn key_of(node: YamlNode) -> Result<Seq<char>, ConfigError> {
    match node.text() {
        Some(text) => Ok(text),
        None => Err(ConfigError::KeyNotText),
    }
}

/// The text a value must be.
pub open spec fn text_of(node: YamlNode) -> Result<Seq<char>, ConfigError> {
    match node.text() {
        Some(text) => Ok(text),
        None => Err(ConfigError::NotText),
    }
}

/// The boolean a value must be.
pub open spec fn boolean_of(node: YamlNode) -> Result<bool, ConfigError> {
    match node.boolean() {
        Some(value) => Ok(value),
        None => Err(ConfigError::NotABoolean),
    }
}

/// The items of the list a value must be.
pub open spec fn items_of(node: YamlNode) -> Result<Seq<YamlNode>, ConfigError> {
    match node.items() {
        Some(items) => Ok(items),
        None => Err(ConfigError::NotAList),
    }
}

/// The entries of the mapping a value must be.
pub open spec fn entries_of(node: YamlNode) -> Result<Entries, ConfigError> {
    match node.entries() {
        Some(entries) => Ok(entries),
        None => Err(ConfigError::NotAMapping),
    }
}

/// A flag before anything is known of it.
pub open spec fn blank_state() -> ObjectStateView {
    ObjectStateView { name: Seq::empty(), value: true }
}

/// One entry of an assignment: the key names the flag, the value is what
/// the flag is set to.
pub open spec fn change_step() -> spec_fn(ObjectStateView, (YamlNode, YamlNode)) -> Result<
    ObjectStateView,
    ConfigError,
> {
    |state: ObjectStateView, entry: (YamlNode, YamlNode)|
        match key_of(entry.0) {
            Err(error) => Err(error),
            Ok(name) => match boolean_of(entry.1) {
                Err(error) => Err(error),
                Ok(value) => Ok(ObjectStateView { name, value }),
            },
        }
}

/// The assignment that a mapping of one flag name to a boolean describes.
pub open spec fn state_change_of(node: YamlNode) -> Result<ObjectStateView, ConfigError> {
    match entries_of(node) {
        Err(error) => Err(error),
        Ok(entries) => try_fold(blank_state(), entries, change_step()),
    }
}

pub open spec fn changes_step() -> spec_fn(Seq<ObjectStateView>, YamlNode) -> Result<
    Seq<ObjectStateView>,
    ConfigError,
> {
    |changes: Seq<ObjectStateView>, node: YamlNode|
        match state_change_of(node) {
            Err(error) => Err(error),
            Ok(change) => Ok(changes.push(change)),
        }
}

/// `changes` with the assignments added that a list of mappings describes.
pub open spec fn state_changes_of(changes: Seq<ObjectStateView>, node: YamlNode) -> Result<
    Seq<ObjectStateView>,
    ConfigError,
> {
    match items_of(node) {
        Err(error) => Err(error),
        Ok(items) => try_fold(changes, items, changes_step()),
    }
}

/// One entry of the definition of a flag: `id` names it, `default` is the
/// value it begins with, any other key says nothing.
pub open spec fn state_entry_step() -> spec_fn(ObjectStateView, (YamlNode, YamlNode)) -> Result<
    ObjectStateView,
    ConfigError,
> {
    |state: ObjectStateView, entry: (YamlNode, YamlNode)|
        match key_of(entry.0) {
            Err(error) => Err(error),
            Ok(key) => if key == "id"@ {
                match text_of(entry.1) {
                    Err(error) => Err(error),
                    Ok(name) => Ok(ObjectStateView { name, ..state }),
                }
            } else if key == "default"@ {
                match boolean_of(entry.1) {
                    Err(error) => Err(error),
                    Ok(value) => Ok(ObjectStateView { value, ..state }),
                }
            } else {
                Ok(state)
            },
        }
}

/// The flag that a mapping describes.
pub open spec fn object_state_of(node: YamlNode) -> Result<ObjectStateView, ConfigError> {
    match entries_of(node) {
        Err(error) => Err(error),
        Ok(entries) => try_fold(blank_state(), entries, state_entry_step()),
    }
}

pub open spec fn states_step() -> spec_fn(Seq<ObjectStateView>, YamlNode) -> Result<
    Seq<ObjectStateView>,
    ConfigError,
> {
    |states: Seq<ObjectStateView>, node: YamlNode|
        match object_state_of(node) {
            Err(error) => Err(error),
            Ok(state) => Ok(states.push(state)),
        }
}

/// `states` with the flags added that the mappings describe.
pub open spec fn object_states_of(states: Seq<ObjectStateView>, items: Seq<YamlNode>) -> Result<
    Seq<ObjectStateView>,
    ConfigError,
> {
    try_fold(states, items, states_step())
}

/// An activation before anything is known of it.
pub open spec fn blank_activate() -> ObjectInteractionActivateView {
    ObjectInteractionActivateView {
        category: Seq::empty(),
        prereqs: Seq::empty(),
        destination: None,
    }
}

pub open spec fn activate_entry_step() -> spec_fn(
    ObjectInteractionActivateView,
    (YamlNode, YamlNode),
) -> Result<ObjectInteractionActivateView, ConfigError> {
    |activate: ObjectInteractionActivateView, entry: (YamlNode, YamlNode)|
        match key_of(entry.0) {
            Err(error) => Err(error),
            Ok(key) => if key == "category"@ {
                match text_of(entry.1) {
                    Err(error) => Err(error),
                    Ok(category) => Ok(ObjectInteractionActivateView { category, ..activate }),
                }
            } else if key == "prereqs"@ {
                match state_changes_of(activate.prereqs, entry.1) {
                    Err(error) => Err(error),
                    Ok(prereqs) => Ok(ObjectInteractionActivateView { prereqs, ..activate }),
                }
            } else if key == "destination"@ {
                match text_of(entry.1) {
                    Err(error) => Err(error),
                    Ok(destination) => Ok(
                        ObjectInteractionActivateView {
                            destination: Some(destination),
                            ..activate
                        },
                    ),
                }
            } else {
                Ok(activate)
            },
        }
}

/// The activation that a mapping describes.
pub open spec fn activate_of(node: YamlNode) -> Result<ObjectInteractionActivateView, ConfigError> {
    match entries_of(node) {
        Err(error) => Err(error),
        Ok(entries) => try_fold(blank_activate(), entries, activate_entry_step()),
    }
}

pub open spec fn activates_step() -> spec_fn(Seq<ObjectInteractionView>, YamlNode) -> Result<
    Seq<ObjectInteractionView>,
    ConfigError,
> {
    |interactions: Seq<ObjectInteractionView>, node: YamlNode|
        match activate_of(node) {
            Err(error) => Err(error),
            Ok(activate) => Ok(interactions.push(ObjectInteractionView::Activate(activate))),
        }
}

/// `interactions` with the activations added that a list of mappings
/// describes.
pub open spec fn activates_of(interactions: Seq<ObjectInteractionView>, node: YamlNode) -> Result<
    Seq<ObjectInteractionView>,
    ConfigError,
> {
    match items_of(node) {
        Err(error) => Err(error),
        Ok(items) => try_fold(interactions, items, activates_step()),
    }
}

/// An item use before anything is known of it.
pub open spec fn blank_object_use() -> ObjectInteractionObjectUseView {
    ObjectInteractionObjectUseView {
        foreign_object_id: Seq::empty(),
        self_action: Seq::empty(),
        consume_item: false,
    }
}

pub open spec fn object_use_entry_step() -> spec_fn(
    ObjectInteractionObjectUseView,
    (YamlNode, YamlNode),
) -> Result<ObjectInteractionObjectUseView, ConfigError> {
    |object_use: ObjectInteractionObjectUseView, entry: (YamlNode, YamlNode)|
        match key_of(entry.0) {
            Err(error) => Err(error),
            Ok(key) => if key == "foreign_objects_id"@ {
                match text_of(entry.1) {
                    Err(error) => Err(error),
                    Ok(foreign_object_id) => Ok(
                        ObjectInteractionObjectUseView { foreign_object_id, ..object_use },
                    ),
                }
            } else if key == "self_action"@ {
                match state_changes_of(object_use.self_action, entry.1) {
                    Err(error) => Err(error),
                    Ok(self_action) => Ok(
                        ObjectInteractionObjectUseView { self_action, ..object_use },
                    ),
                }
            } else if key == "consume_item"@ {
                match boolean_of(entry.1) {
                    Err(error) => Err(error),
                    Ok(consume_item) => Ok(
                        ObjectInteractionObjectUseView { consume_item, ..object_use },
                    ),
                }
            } else {
                Ok(object_use)
            },
        }
}

/// The item use that a mapping describes.
pub open spec fn object_use_of(node: YamlNode) -> Result<
    ObjectInteractionObjectUseView,
    ConfigError,
> {
    match entries_of(node) {
        Err(error) => Err(error),
        Ok(entries) => try_fold(blank_object_use(), entries, object_use_entry_step()),
    }
}

pub open spec fn object_uses_step() -> spec_fn(Seq<ObjectInteractionView>, YamlNode) -> Result<
    Seq<ObjectInteractionView>,
    ConfigError,
> {
    |interactions: Seq<ObjectInteractionView>, node: YamlNode|
        match object_use_of(node) {
            Err(error) => Err(error),
            Ok(object_use) => Ok(interactions.push(ObjectInteractionView::ObjectUse(object_use))),
        }
}

/// `interactions` with the item uses added that a list of mappings
/// describes.
pub open spec fn object_uses_of(interactions: Seq<ObjectInteractionView>, node: YamlNode) -> Result<
    Seq<ObjectInteractionView>,
    ConfigError,
> {
    match items_of(node) {
        Err(error) => Err(error),
        Ok(items) => try_fold(interactions, items, object_uses_step()),
    }
}

pub open spec fn interactions_step() -> spec_fn(
    Seq<ObjectInteractionView>,
    (YamlNode, YamlNode),
) -> Result<Seq<ObjectInteractionView>, ConfigError> {
    |interactions: Seq<ObjectInteractionView>, entry: (YamlNode, YamlNode)|
        match key_of(entry.0) {
            Err(error) => Err(error),
            Ok(key) => if key == "activate"@ {
                activates_of(interactions, entry.1)
            } else if key == "object_use"@ {
                object_uses_of(interactions, entry.1)
            } else {
                Ok(interactions)
            },
        }
}

/// `interactions` with those added that a mapping describes under its keys
/// `activate` and `object_use`.
pub open spec fn interactions_of(
    interactions: Seq<ObjectInteractionView>,
    node: YamlNode,
) -> Result<Seq<ObjectInteractionView>, ConfigError> {
    match entries_of(node) {
        Err(error) => Err(error),
        Ok(entries) => try_fold(interactions, entries, interactions_step()),
    }
}

/// An object before anything is known of it.
pub open spec fn blank_object() -> ObjectView {
    ObjectView {
        id: Seq::empty(),
        name: Seq::empty(),
        category: Seq::empty(),
        icon: ' ',
        state: Seq::empty(),
        interactions: Seq::empty(),
    }
}

/// One entry of the definition of an object. A key without a value says
/// nothing, and so does a key the engine does not know.
pub open spec fn object_entry_step() -> spec_fn(ObjectView, (YamlNode, YamlNode)) -> Result<
    ObjectView,
    ConfigError,
> {
    |object: ObjectView, entry: (YamlNode, YamlNode)|
        match key_of(entry.0) {
            Err(error) => Err(error),
            Ok(key) => if entry.1 is Null {
                Ok(object)
            } else if key == "id"@ {
                match text_of(entry.1) {
                    Err(error) => Err(error),
                    Ok(id) => Ok(ObjectView { id, ..object }),
                }
            } else if key == "name"@ {
                match text_of(entry.1) {
                    Err(error) => Err(error),
                    Ok(name) => Ok(ObjectView { name, ..object }),
                }
            } else if key == "category"@ {
                match text_of(entry.1) {
                    Err(error) => Err(error),
                    Ok(category) => Ok(ObjectView { category, ..object }),
                }
            } else if key == "icon"@ {
                match text_of(entry.1) {
                    Err(error) => Err(error),
                    Ok(icon) => if icon.len() == 0 {
                        Err(ConfigError::EmptyIcon)
                    } else {
                        Ok(ObjectView { icon: icon[0], ..object })
                    },
                }
            } else if key == "state"@ {
                match items_of(entry.1) {
                    Err(error) => Err(error),
                    Ok(items) => match object_states_of(object.state, items) {
                        Err(error) => Err(error),
                        Ok(state) => Ok(ObjectView { state, ..object }),
                    },
                }
            } else if key == "interactions"@ {
                match interactions_of(object.interactions, entry.1) {
                    Err(error) => Err(error),
                    Ok(interactions) => Ok(ObjectView { interactions, ..object }),
                }
            } else {
                Ok(object)
            },
        }
}

/// The object that a document describes.
pub open spec fn object_of(doc: YamlNode) -> Result<ObjectView, ConfigError> {
    match entries_of(doc) {
        Err(error) => Err(error),
        Ok(entries) => try_fold(blank_object(), entries, object_entry_step()),
    }
}

/// The object that the first of the documents describes.
pub open spec fn object_of_documents(docs: Seq<YamlNode>) -> Result<ObjectView, ConfigError> {
    if docs.len() == 0 {
        Err(ConfigError::NoDocument)
    } else {
        object_of(docs[0])
    }
}

fn key_text(node: &YamlNode) -> (text: Result<&String, ConfigError>)
    ensures
        match text {
            Ok(text) => key_of(*node) == Ok::<Seq<char>, ConfigError>(text@),
            Err(error) => key_of(*node) == Err::<Seq<char>, ConfigError>(error),
        },
{
    match node.as_str() {
        Some(text) => Ok(text),
        None => Err(ConfigError::KeyNotText),
    }
}

fn value_text(node: &YamlNode) -> (text: Result<String, ConfigError>)
    ensures
        match text {
            Ok(text) => text_of(*node) == Ok::<Seq<char>, ConfigError>(text@),
            Err(error) => text_of(*node) == Err::<Seq<char>, ConfigError>(error),
        },
{
    match node.as_str() {
        Some(text) => Ok(text.clone()),
        None => Err(ConfigError::NotText),
    }
}

fn value_boolean(node: &YamlNode) -> (value: Result<bool, ConfigError>)
    ensures
        value == boolean_of(*node),
{
    match node.as_bool() {
        Some(value) => Ok(value),
        None => Err(ConfigError::NotABoolean),
    }
}

fn value_items(node: &YamlNode) -> (items: Result<&Vec<YamlNode>, ConfigError>)
    ensures
        match items {
            Ok(items) => items_of(*node) == Ok::<Seq<YamlNode>, ConfigError>(items@),
            Err(error) => items_of(*node) == Err::<Seq<YamlNode>, ConfigError>(error),
        },
{
    match node.as_vec() {
        Some(items) => Ok(items),
        None => Err(ConfigError::NotAList),
    }
}

fn value_entries(node: &YamlNode) -> (entries: Result<&Vec<(YamlNode, YamlNode)>, ConfigError>)
    ensures
        match entries {
            Ok(entries) => entries_of(*node) == Ok::<Entries, ConfigError>(entries@),
            Err(error) => entries_of(*node) == Err::<Entries, ConfigError>(error),
        },
{
    match node.as_hash() {
        Some(entries) => Ok(entries),
        None => Err(ConfigError::NotAMapping),
    }
}

/// Reads one assignment, a mapping of a flag name to a boolean.
#[verifier::loop_isolation(false)]
fn parse_state_change(node: &YamlNode) -> (parsed: Result<ObjectState, ConfigError>)
    ensures
        match parsed {
            Ok(state) => state_change_of(*node) == Ok::<ObjectStateView, ConfigError>(state@),
            Err(error) => state_change_of(*node) == Err::<ObjectStateView, ConfigError>(error),
        },
{
    let entries = value_entries(node)?;
    let mut state = ObjectState { name: String::new(), value: true };
    let mut i: usize = 0;
    proof {
        lemma_try_fold_done(blank_state(), entries@, change_step());
    }
    while i < entries.len()
        invariant
            i <= entries.len(),
            try_fold(blank_state(), entries@, change_step()) == try_fold(
                state@,
                entries@.skip(i as int),
                change_step(),
            ),
        decreases entries.len() - i,
    {
        proof {
            lemma_try_fold_next(state@, entries@, change_step(), i as int);
        }
        let name = key_text(&entries[i].0)?;
        let value = value_boolean(&entries[i].1)?;
        state = ObjectState { name: name.clone(), value };
        i += 1;
    }
    proof {
        lemma_try_fold_done(state@, entries@, change_step());
    }
    Ok(state)
}

/// Reads a list of assignments and adds them to `state_changes`.
#[verifier::loop_isolation(false)]
pub fn parse_state_changes(state_changes: &mut Vec<ObjectState>, yaml_changes: &YamlNode) -> (done:
    Result<(), ConfigError>)
    ensures
        match state_changes_of(old(state_changes).deep_view(), *yaml_changes) {
            Ok(changes) => done is Ok && final(state_changes).deep_view() == changes,
            Err(error) => done == Err::<(), ConfigError>(error),
        },
{
    let items = value_items(yaml_changes)?;
    let ghost start = state_changes.deep_view();
    let mut i: usize = 0;
    proof {
        lemma_try_fold_done(start, items@, changes_step());
    }
    while i < items.len()
        invariant
            i <= items.len(),
            try_fold(start, items@, changes_step()) == try_fold(
                state_changes.deep_view(),
                items@.skip(i as int),
                changes_step(),
            ),
        decreases items.len() - i,
    {
        proof {
            lemma_try_fold_next(state_changes.deep_view(), items@, changes_step(), i as int);
        }
        let ghost before = state_changes.deep_view();
        let change = parse_state_change(&items[i])?;
        let ghost added = change@;
        state_changes.push(change);
        assert(state_changes.deep_view() =~= before.push(added));
        i += 1;
    }
    proof {
        lemma_try_fold_done(state_changes.deep_view(), items@, changes_step());
    }
    Ok(())
}

/// Reads the definition of one flag.
#[verifier::loop_isolation(false)]
fn parse_object_state(node: &YamlNode) -> (parsed: Result<ObjectState, ConfigError>)
    ensures
        match parsed {
            Ok(state) => object_state_of(*node) == Ok::<ObjectStateView, ConfigError>(state@),
            Err(error) => object_state_of(*node) == Err::<ObjectStateView, ConfigError>(error),
        },
{
    let entries = value_entries(node)?;
    let mut state = ObjectState { name: String::new(), value: true };
    let mut i: usize = 0;
    proof {
        lemma_try_fold_done(blank_state(), entries@, state_entry_step());
    }
    while i < entries.len()
        invariant
            i <= entries.len(),
            try_fold(blank_state(), entries@, state_entry_step()) == try_fold(
                state@,
                entries@.skip(i as int),
                state_entry_step(),
            ),
        decreases entries.len() - i,
    {
        proof {
            lemma_try_fold_next(state@, entries@, state_entry_step(), i as int);
        }
        let key = key_text(&entries[i].0)?;
        if text_is(key, "id") {
            state.name = value_text(&entries[i].1)?;
        } else if text_is(key, "default") {
            state.value = value_boolean(&entries[i].1)?;
        }
        i += 1;
    }
    proof {
        lemma_try_fold_done(state@, entries@, state_entry_step());
    }
    Ok(state)
}

/// Reads the definitions of the flags of an object and adds them to its
/// state.
#[verifier::loop_isolation(false)]
pub fn parse_object_states(object: &mut Object, yaml_states: &[YamlNode]) -> (done: Result<
    (),
    ConfigError,
>)
    ensures
        match object_states_of(old(object)@.state, yaml_states@) {
            Ok(state) => done is Ok && final(object)@ == (ObjectView { state, ..old(object)@ }),
            Err(error) => done == Err::<(), ConfigError>(error),
        },
{
    let ghost start = object@.state;
    let mut i: usize = 0;
    proof {
        lemma_try_fold_done(start, yaml_states@, states_step());
    }
    while i < yaml_states.len()
        invariant
            i <= yaml_states.len(),
            object@ == (ObjectView { state: object@.state, ..old(object)@ }),
            try_fold(start, yaml_states@, states_step()) == try_fold(
                object@.state,
                yaml_states@.skip(i as int),
                states_step(),
            ),
        decreases yaml_states.len() - i,
    {
        proof {
            lemma_try_fold_next(object@.state, yaml_states@, states_step(), i as int);
        }
        let ghost before = object.state.deep_view();
        let state = parse_object_state(&yaml_states[i])?;
        let ghost added = state@;
        object.state.push(state);
        assert(object.state.deep_view() =~= before.push(added));
        i += 1;
    }
    proof {
        lemma_try_fold_done(object@.state, yaml_states@, states_step());
    }
    Ok(())
}

/// Reads one activation.
#[verifier::loop_isolation(false)]
fn parse_activate(node: &YamlNode) -> (parsed: Result<ObjectInteractionActivate, ConfigError>)
    ensures
        match parsed {
            Ok(activate) => activate_of(*node) == Ok::<ObjectInteractionActivateView, ConfigError>(
                activate@,
            ),
            Err(error) => activate_of(*node) == Err::<ObjectInteractionActivateView, ConfigError>(
                error,
            ),
        },
{
    let entries = value_entries(node)?;
    let mut interaction = ObjectInteractionActivate {
        category: String::new(),
        prereqs: Vec::new(),
        destination: None,
    };
    assert(interaction.prereqs.deep_view() =~= Seq::empty());
    let mut i: usize = 0;
    proof {
        lemma_try_fold_done(blank_activate(), entries@, activate_entry_step());
    }
    while i < entries.len()
        invariant
            i <= entries.len(),
            try_fold(blank_activate(), entries@, activate_entry_step()) == try_fold(
                interaction@,
                entries@.skip(i as int),
                activate_entry_step(),
            ),
        decreases entries.len() - i,
    {
        proof {
            lemma_try_fold_next(interaction@, entries@, activate_entry_step(), i as int);
        }
        let key = key_text(&entries[i].0)?;
        if text_is(key, "category") {
            interaction.category = value_text(&entries[i].1)?;
        } else if text_is(key, "prereqs") {
            parse_state_changes(&mut interaction.prereqs, &entries[i].1)?;
        } else if text_is(key, "destination") {
            let destination = value_text(&entries[i].1)?;
            interaction.destination = Some(destination);
        }
        i += 1;
    }
    proof {
        lemma_try_fold_done(interaction@, entries@, activate_entry_step());
    }
    Ok(interaction)
}

/// Reads a list of activations and adds them to the interactions of the
/// object.
#[verifier::loop_isolation(false)]
pub fn parse_interaction_activate(object: &mut Object, yaml_activate: &YamlNode) -> (done: Result<
    (),
    ConfigError,
>)
    ensures
        match activates_of(old(object)@.interactions, *yaml_activate) {
            Ok(interactions) => done is Ok && final(object)@ == (ObjectView {
                interactions,
                ..old(object)@
            }),
            Err(error) => done == Err::<(), ConfigError>(error),
        },
{
    let items = value_items(yaml_activate)?;
    let ghost start = object@.interactions;
    let mut i: usize = 0;
    proof {
        lemma_try_fold_done(start, items@, activates_step());
    }
    while i < items.len()
        invariant
            i <= items.len(),
            object@ == (ObjectView { interactions: object@.interactions, ..old(object)@ }),
            try_fold(start, items@, activates_step()) == try_fold(
                object@.interactions,
                items@.skip(i as int),
                activates_step(),
            ),
        decreases items.len() - i,
    {
        proof {
            lemma_try_fold_next(object@.interactions, items@, activates_step(), i as int);
        }
        let ghost before = object.interactions.deep_view();
        let activate = parse_activate(&items[i])?;
        let ghost added = ObjectInteractionView::Activate(activate@);
        object.interactions.push(ObjectInteraction::ObjectInteractionActivate(activate));
        assert(object.interactions.deep_view() =~= before.push(added));
        i += 1;
    }
    proof {
        lemma_try_fold_done(object@.interactions, items@, activates_step());
    }
    Ok(())
}

/// Reads one item use.
#[verifier::loop_isolation(false)]
fn parse_object_use(node: &YamlNode) -> (parsed: Result<ObjectInteractionObjectUse, ConfigError>)
    ensures
        match parsed {
            Ok(object_use) => object_use_of(*node) == Ok::<
                ObjectInteractionObjectUseView,
                ConfigError,
            >(object_use@),
            Err(error) => object_use_of(*node) == Err::<
                ObjectInteractionObjectUseView,
                ConfigError,
            >(error),
        },
{
    let entries = value_entries(node)?;
    let mut interaction = ObjectInteractionObjectUse {
        foreign_object_id: String::new(),
        self_action: Vec::new(),
        consume_item: false,
    };
    assert(interaction.self_action.deep_view() =~= Seq::empty());
    let mut i: usize = 0;
    proof {
        lemma_try_fold_done(blank_object_use(), entries@, object_use_entry_step());
    }
    while i < entries.len()
        invariant
            i <= entries.len(),
            try_fold(blank_object_use(), entries@, object_use_entry_step()) == try_fold(
                interaction@,
                entries@.skip(i as int),
                object_use_entry_step(),
            ),
        decreases entries.len() - i,
    {
        proof {
            lemma_try_fold_next(interaction@, entries@, object_use_entry_step(), i as int);
        }
        let key = key_text(&entries[i].0)?;
        if text_is(key, "foreign_objects_id") {
            interaction.foreign_object_id = value_text(&entries[i].1)?;
        } else if text_is(key, "self_action") {
            parse_state_changes(&mut interaction.self_action, &entries[i].1)?;
        } else if text_is(key, "consume_item") {
            interaction.consume_item = value_boolean(&entries[i].1)?;
        }
        i += 1;
    }
    proof {
        lemma_try_fold_done(interaction@, entries@, object_use_entry_step());
    }
    Ok(interaction)
}

/// Reads a list of item uses and adds them to the interactions of the
/// object.
#[verifier::loop_isolation(false)]
pub fn parse_interaction_object_use(object: &mut Object, yaml_activate: &YamlNode) -> (done:
    Result<(), ConfigError>)
    ensures
        match object_uses_of(old(object)@.interactions, *yaml_activate) {
            Ok(interactions) => done is Ok && final(object)@ == (ObjectView {
                interactions,
                ..old(object)@
            }),
            Err(error) => done == Err::<(), ConfigError>(error),
        },
{
    let items = value_items(yaml_activate)?;
    let ghost start = object@.interactions;
    let mut i: usize = 0;
    proof {
        lemma_try_fold_done(start, items@, object_uses_step());
    }
    while i < items.len()
        invariant
            i <= items.len(),
            object@ == (ObjectView { interactions: object@.interactions, ..old(object)@ }),
            try_fold(start, items@, object_uses_step()) == try_fold(
                object@.interactions,
                items@.skip(i as int),
                object_uses_step(),
            ),
        decreases items.len() - i,
    {
        proof {
            lemma_try_fold_next(object@.interactions, items@, object_uses_step(), i as int);
        }
        let ghost before = object.interactions.deep_view();
        let object_use = parse_object_use(&items[i])?;
        let ghost added = ObjectInteractionView::ObjectUse(object_use@);
        object.interactions.push(ObjectInteraction::ObjectInteractionObjectUse(object_use));
        assert(object.interactions.deep_view() =~= before.push(added));
        i += 1;
    }
    proof {
        lemma_try_fold_done(object@.interactions, items@, object_uses_step());
    }
    Ok(())
}

/// Reads the interactions of an object, given under the keys `activate`
/// and `object_use` of a mapping, and adds them to the object.
#[verifier::loop_isolation(false)]
pub fn parse_object_interactions(object: &mut Object, yaml_interactions: &YamlNode) -> (done:
    Result<(), ConfigError>)
    ensures
        match interactions_of(old(object)@.interactions, *yaml_interactions) {
            Ok(interactions) => done is Ok && final(object)@ == (ObjectView {
                interactions,
                ..old(object)@
            }),
            Err(error) => done == Err::<(), ConfigError>(error),
        },
{
    let entries = value_entries(yaml_interactions)?;
    let ghost start = object@.interactions;
    let mut i: usize = 0;
    proof {
        lemma_try_fold_done(start, entries@, interactions_step());
    }
    while i < entries.len()
        invariant
            i <= entries.len(),
            object@ == (ObjectView { interactions: object@.interactions, ..old(object)@ }),
            try_fold(start, entries@, interactions_step()) == try_fold(
                object@.interactions,
                entries@.skip(i as int),
                interactions_step(),
            ),
        decreases entries.len() - i,
    {
        proof {
            lemma_try_fold_next(object@.interactions, entries@, interactions_step(), i as int);
        }
        let key = key_text(&entries[i].0)?;
        if text_is(key, "activate") {
            parse_interaction_activate(object, &entries[i].1)?;
        } else if text_is(key, "object_use") {
            parse_interaction_object_use(object, &entries[i].1)?;
        }
        i += 1;
    }
    proof {
        lemma_try_fold_done(object@.interactions, entries@, interactions_step());
    }
    Ok(())
}

/// Reads the object that a document describes.
#[verifier::loop_isolation(false)]
pub fn object_from_yaml(doc: &YamlNode) -> (parsed: Result<Object, ConfigError>)
    ensures
        match parsed {
            Ok(object) => object_of(*doc) == Ok::<ObjectView, ConfigError>(object@),
            Err(error) => object_of(*doc) == Err::<ObjectView, ConfigError>(error),
        },
{
    let entries = value_entries(doc)?;
    let mut object = Object {
        id: String::new(),
        name: String::new(),
        category: String::new(),
        icon: ' ',
        state: Vec::new(),
        interactions: Vec::new(),
    };
    assert(object.state.deep_view() =~= Seq::empty());
    assert(object.interactions.deep_view() =~= Seq::empty());
    let mut i: usize = 0;
    proof {
        lemma_try_fold_done(blank_object(), entries@, object_entry_step());
    }
    while i < entries.len()
        invariant
            i <= entries.len(),
            try_fold(blank_object(), entries@, object_entry_step()) == try_fold(
                object@,
                entries@.skip(i as int),
                object_entry_step(),
            ),
        decreases entries.len() - i,
    {
        proof {
            lemma_try_fold_next(object@, entries@, object_entry_step(), i as int);
        }
        let key = key_text(&entries[i].0)?;
        let val = &entries[i].1;
        if val.is_null() {
        } else if text_is(key, "id") {
            object.id = value_text(val)?;
        } else if text_is(key, "name") {
            object.name = value_text(val)?;
        } else if text_is(key, "category") {
            object.category = value_text(val)?;
        } else if text_is(key, "icon") {
            let icon = value_text(val)?;
            if icon.as_str().unicode_len() == 0 {
                return Err(ConfigError::EmptyIcon);
            }
            object.icon = icon.as_str().get_char(0);
        } else if text_is(key, "state") {
            let items = value_items(val)?;
            parse_object_states(&mut object, items.as_slice())?;
        } else if text_is(key, "interactions") {
            parse_object_interactions(&mut object, val)?;
        }
        i += 1;
    }
    proof {
        lemma_try_fold_done(object@, entries@, object_entry_step());
    }
    Ok(object)
}

/// Position of the first object with id `id`; the length of the list when
/// there is none.
pub fn find_object(objects: &Vec<Object>, id: &str) -> (at: usize)
    ensures
        at == position_by(objects.deep_view(), object_key(), id@),
        at <= objects.len(),
{
    let wanted = id.to_owned();
    let mut i: usize = 0;
    while i < objects.len()
        invariant
            i <= objects.len(),
            wanted@ == id@,
            forall|j: int| 0 <= j < i ==> object_key()(#[trigger] objects.deep_view()[j]) != id@,
        decreases objects.len() - i,
    {
        if objects[i].id == wanted {
            proof {
                assert(object_key()(objects.deep_view()[i as int]) == id@);
                lemma_position_by_is(objects.deep_view(), object_key(), id@, i as int);
            }
            return i;
        }
        i += 1;
    }
    proof {
        lemma_position_by_is(objects.deep_view(), object_key(), id@, i as int);
    }
    i
}

/// Records `object` under its id, in place of the object known under that
/// id so far.
pub fn insert_object(objects: &mut Vec<Object>, object: Object)
    ensures
        final(objects).deep_view() == put_by(old(objects).deep_view(), object_key(), object@),
{
    let at = find_object(objects, object.id.as_str());
    if at < objects.len() {
        objects[at] = object;
        assert(objects.deep_view() =~= put_by(old(objects).deep_view(), object_key(), object@));
    } else {
        objects.push(object);
        assert(objects.deep_view() =~= put_by(old(objects).deep_view(), object_key(), object@));
    }
}

/// Reads the object that the first of `docs` describes and records it in
/// `objects` under its id. Where the definition has an error `objects` stays
/// as it was.
pub fn process_config(objects: &mut Vec<Object>, docs: &Vec<YamlNode>) -> (done: Result<
    (),
    ConfigError,
>)
    ensures
        match object_of_documents(docs@) {
            Ok(object) => done is Ok && final(objects).deep_view() == put_by(
                old(objects).deep_view(),
                object_key(),
                object,
            ),
            Err(error) => done == Err::<(), ConfigError>(error) && final(objects).deep_view() == old(
                objects,
            ).deep_view(),
        },
{
    if docs.len() == 0 {
        return Err(ConfigError::NoDocument);
    }
    let object = object_from_yaml(&docs[0])?;
    insert_object(objects, object);
    Ok(())
}

} // verus!
