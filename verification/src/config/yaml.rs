//! A parsed YAML document, as the definitions of objects and of the game
//! are read from it.

use crate::config::ConfigError;
use vstd::prelude::*;

verus! {

/// A node of a YAML document. A mapping keeps its entries in the order in
/// which the document gives them.
#[derive(Debug, PartialEq, Eq)]
pub enum YamlNode {
    Real(String),
    Integer(i64),
    Text(String),
    Boolean(bool),
    Array(Vec<YamlNode>),
    Hash(Vec<(YamlNode, YamlNode)>),
    Alias(usize),
    Null,
    BadValue,
}

/// The entries of a mapping.
pub type Entries = Seq<(YamlNode, YamlNode)>;

impl YamlNode {
    pub open spec fn text(self) -> Option<Seq<char>> {
        match self {
            YamlNode::Text(text) => Some(text@),
            _ => None,
        }
    }

    pub open spec fn boolean(self) -> Option<bool> {
        match self {
            YamlNode::Boolean(value) => Some(value),
            _ => None,
        }
    }

    pub open spec fn integer(self) -> Option<i64> {
        match self {
            YamlNode::Integer(value) => Some(value),
            _ => None,
        }
    }

    pub open spec fn items(self) -> Option<Seq<YamlNode>> {
        match self {
            YamlNode::Array(items) => Some(items@),
            _ => None,
        }
    }

    pub open spec fn entries(self) -> Option<Entries> {
        match self {
            YamlNode::Hash(entries) => Some(entries@),
            _ => None,
        }
    }

    /// The text of a text node.
    pub fn as_str(&self) -> (text: Option<&String>)
        ensures
            match text {
                Some(text) => self.text() == Some(text@),
                None => self.text() is None,
            },
    {
        match self {
            YamlNode::Text(text) => Some(text),
            _ => None,
        }
    }

    /// The value of a boolean node.
    pub fn as_bool(&self) -> (value: Option<bool>)
        ensures
            value == self.boolean(),
    {
        match self {
            YamlNode::Boolean(value) => Some(*value),
            _ => None,
        }
    }

    /// The value of an integer node.
    pub fn as_i64(&self) -> (value: Option<i64>)
        ensures
            value == self.integer(),
    {
        match self {
            YamlNode::Integer(value) => Some(*value),
            _ => None,
        }
    }

    /// The items of a sequence node.
    pub fn as_vec(&self) -> (items: Option<&Vec<YamlNode>>)
        ensures
            match items {
                Some(items) => self.items() == Some(items@),
                None => self.items() is None,
            },
    {
        match self {
            YamlNode::Array(items) => Some(items),
            _ => None,
        }
    }

    /// The entries of a mapping node.
    pub fn as_hash(&self) -> (entries: Option<&Vec<(YamlNode, YamlNode)>>)
        ensures
            match entries {
                Some(entries) => self.entries() == Some(entries@),
                None => self.entries() is None,
            },
    {
        match self {
            YamlNode::Hash(entries) => Some(entries),
            _ => None,
        }
    }

    /// Whether the node is the null node.
    pub fn is_null(&self) -> (null: bool)
        ensures
            null == (self is Null),
    {
        match self {
            YamlNode::Null => true,
            _ => false,
        }
    }
}

/// The result of taking `step` with each item in turn, from `start` on; the
/// first error ends the work.
pub open spec fn try_fold<A, T>(
    start: A,
    items: Seq<T>,
    step: spec_fn(A, T) -> Result<A, ConfigError>,
) -> Result<A, ConfigError>
    decreases items.len(),
{
    if items.len() == 0 {
        Ok(start)
    } else {
        match step(start, items[0]) {
            Ok(next) => try_fold(next, items.drop_first(), step),
            Err(error) => Err(error),
        }
    }
}

/// Taking the steps from item `i` on begins with the step for item `i`.
pub proof fn lemma_try_fold_next<A, T>(
    start: A,
    items: Seq<T>,
    step: spec_fn(A, T) -> Result<A, ConfigError>,
    i: int,
)
    requires
        0 <= i < items.len(),
    ensures
        try_fold(start, items.skip(i), step) == match step(start, items[i]) {
            Ok(next) => try_fold(next, items.skip(i + 1), step),
            Err(error) => Err(error),
        },
{
    assert(items.skip(i)[0] == items[i]);
    assert(items.skip(i).drop_first() =~= items.skip(i + 1));
}

/// With no item left the work is done.
pub proof fn lemma_try_fold_done<A, T>(
    start: A,
    items: Seq<T>,
    step: spec_fn(A, T) -> Result<A, ConfigError>,
)
    ensures
        try_fold(start, items.skip(items.len() as int), step) == Ok::<A, ConfigError>(start),
        try_fold(start, items.skip(0), step) == try_fold(start, items, step),
{
    assert(items.skip(0) =~= items);
}

/// The value that the first entry with the text key `key` gives.
pub open spec fn entry_value(entries: Entries, key: Seq<char>) -> Option<YamlNode>
    decreases entries.len(),
{
    if entries.len() == 0 {
        None
    } else if entries[0].0.text() == Some(key) {
        Some(entries[0].1)
    } else {
        entry_value(entries.drop_first(), key)
    }
}

/// The value that the first entry with the text key `key` gives.
pub fn find_entry<'a>(entries: &'a Vec<(YamlNode, YamlNode)>, key: &str) -> (value: Option<
    &'a YamlNode,
>)
    ensures
        match value {
            Some(value) => entry_value(entries@, key@) == Some(*value),
            None => entry_value(entries@, key@) is None,
        },
{
    let wanted = key.to_owned();
    let mut i: usize = 0;
    assert(entries@.skip(0) =~= entries@);
    while i < entries.len()
        invariant
            i <= entries.len(),
            wanted@ == key@,
            entry_value(entries@, key@) == entry_value(entries@.skip(i as int), key@),
        decreases entries.len() - i,
    {
        proof {
            assert(entries@.skip(i as int)[0] == entries@[i as int]);
            assert(entries@.skip(i as int).drop_first() =~= entries@.skip(i + 1));
        }
        match entries[i].0.as_str() {
            Some(text) => {
                if *text == wanted {
                    return Some(&entries[i].1);
                }
            },
            None => {},
        }
        i += 1;
    }
    None
}

} // verus!
