//! Characters: the player and the non-player characters, with their
//! attributes, their inventory grid and the items that can be used on them.

use crate::grid::{
    first_slot, is_first_slot, lemma_first_slot_is, lemma_first_slot_none, no_slot, slot_at, with_slot,
};
use crate::objects::{Object, ObjectView};
use vstd::prelude::*;

verus! {

/// A bounded numeric trait of a character.
#[derive(Debug, PartialEq, Eq)]
pub struct Attribute {
    pub id: String,
    pub display_name: String,
    pub min_val: u8,
    pub max_val: u8,
    pub current_val: u8,
}

pub struct AttributeView {
    pub id: Seq<char>,
    pub display_name: Seq<char>,
    pub min_val: u8,
    pub max_val: u8,
    pub current_val: u8,
}

impl DeepView for Attribute {
    type V = AttributeView;

    open spec fn deep_view(&self) -> AttributeView {
        AttributeView {
            id: self.id@,
            display_name: self.display_name@,
            min_val: self.min_val,
            max_val: self.max_val,
            current_val: self.current_val,
        }
    }
}

impl View for Attribute {
    type V = AttributeView;

    open spec fn view(&self) -> AttributeView {
        self.deep_view()
    }
}

impl Clone for Attribute {
    fn clone(&self) -> (res: Self)
        ensures
            res@ == self@,
    {
        Attribute {
            id: self.id.clone(),
            display_name: self.display_name.clone(),
            min_val: self.min_val,
            max_val: self.max_val,
            current_val: self.current_val,
        }
    }
}

/// How one attribute changes the damage of an attack: a sign and a decimal
/// magnitude per attribute point, the magnitude kept as it was written.
#[derive(Debug, PartialEq, Eq)]
pub struct Modifier {
    pub attribute_id: String,
    pub sign: char,
    pub value: String,
}

pub struct ModifierView {
    pub attribute_id: Seq<char>,
    pub sign: char,
    pub value: Seq<char>,
}

impl DeepView for Modifier {
    type V = ModifierView;

    open spec fn deep_view(&self) -> ModifierView {
        ModifierView { attribute_id: self.attribute_id@, sign: self.sign, value: self.value@ }
    }
}

impl View for Modifier {
    type V = ModifierView;

    open spec fn view(&self) -> ModifierView {
        self.deep_view()
    }
}

impl Clone for Modifier {
    fn clone(&self) -> (res: Self)
        ensures
            res@ == self@,
    {
        Modifier {
            attribute_id: self.attribute_id.clone(),
            sign: self.sign,
            value: self.value.clone(),
        }
    }
}

#[derive(Debug, PartialEq, Eq)]
pub struct Attack {
    pub id: String,
    pub display_name: String,
    pub base_damage: i64,
    pub affected_by: Vec<Modifier>,
}

pub struct AttackView {
    pub id: Seq<char>,
    pub display_name: Seq<char>,
    pub base_damage: i64,
    pub affected_by: Seq<ModifierView>,
}

impl DeepView for Attack {
    type V = AttackView;

    open spec fn deep_view(&self) -> AttackView {
        AttackView {
            id: self.id@,
            display_name: self.display_name@,
            base_damage: self.base_damage,
            affected_by: self.affected_by.deep_view(),
        }
    }
}

impl View for Attack {
    type V = AttackView;

    open spec fn view(&self) -> AttackView {
        self.deep_view()
    }
}

impl Clone for Attack {
    fn clone(&self) -> (res: Self)
        ensures
            res@ == self@,
    {
        let affected_by = self.affected_by.clone();
        assert(affected_by.deep_view() =~= self.affected_by.deep_view());
        Attack {
            id: self.id.clone(),
            display_name: self.display_name.clone(),
            base_damage: self.base_damage,
            affected_by,
        }
    }
}

/// An item that can be used on a character.
#[derive(Debug, PartialEq, Eq)]
pub struct ObjectUse {
    pub object_id: String,
    /// Dialog the character moves to; empty to leave the dialog as it is.
    pub set_dialog: String,
    /// Whether the item is destroyed by the use.
    pub consume_item: bool,
}

pub struct ObjectUseView {
    pub object_id: Seq<char>,
    pub set_dialog: Seq<char>,
    pub consume_item: bool,
}

impl DeepView for ObjectUse {
    type V = ObjectUseView;

    open spec fn deep_view(&self) -> ObjectUseView {
        ObjectUseView {
            object_id: self.object_id@,
            set_dialog: self.set_dialog@,
            consume_item: self.consume_item,
        }
    }
}

impl View for ObjectUse {
    type V = ObjectUseView;

    open spec fn view(&self) -> ObjectUseView {
        self.deep_view()
    }
}

impl Clone for ObjectUse {
    fn clone(&self) -> (res: Self)
        ensures
            res@ == self@,
    {
        ObjectUse {
            object_id: self.object_id.clone(),
            set_dialog: self.set_dialog.clone(),
            consume_item: self.consume_item,
        }
    }
}

#[derive(Debug, PartialEq, Eq)]
pub struct Interactions {
    pub attacks: Vec<Attack>,
    pub object_use: Vec<ObjectUse>,
}

pub struct InteractionsView {
    pub attacks: Seq<AttackView>,
    pub object_use: Seq<ObjectUseView>,
}

impl DeepView for Interactions {
    type V = InteractionsView;

    open spec fn deep_view(&self) -> InteractionsView {
        InteractionsView {
            attacks: self.attacks.deep_view(),
            object_use: self.object_use.deep_view(),
        }
    }
}

impl View for Interactions {
    type V = InteractionsView;

    open spec fn view(&self) -> InteractionsView {
        self.deep_view()
    }
}

impl Clone for Interactions {
    fn clone(&self) -> (res: Self)
        ensures
            res@ == self@,
    {
        let attacks = self.attacks.clone();
        let object_use = self.object_use.clone();
        assert(attacks.deep_view() =~= self.attacks.deep_view());
        assert(object_use.deep_view() =~= self.object_use.deep_view());
        Interactions { attacks, object_use }
    }
}

/// A grid of item slots, addressed as `[column][row]`.
pub type InventoryView = Seq<Seq<Option<ObjectView>>>;

#[derive(Debug, PartialEq, Eq)]
pub struct Character {
    pub id: String,
    pub name: String,
    pub attributes: Vec<Attribute>,
    pub inventory: Vec<Vec<Option<Object>>>,
    pub icon: char,
    pub interactions: Interactions,
    pub dialog_id: String,
}

pub struct CharacterView {
    pub id: Seq<char>,
    pub name: Seq<char>,
    pub attributes: Seq<AttributeView>,
    pub inventory: InventoryView,
    pub icon: char,
    pub interactions: InteractionsView,
    pub dialog_id: Seq<char>,
}

impl DeepView for Character {
    type V = CharacterView;

    open spec fn deep_view(&self) -> CharacterView {
        CharacterView {
            id: self.id@,
            name: self.name@,
            attributes: self.attributes.deep_view(),
            inventory: self.inventory.deep_view(),
            icon: self.icon,
            interactions: self.interactions@,
            dialog_id: self.dialog_id@,
        }
    }
}

impl View for Character {
    type V = CharacterView;

    open spec fn view(&self) -> CharacterView {
        self.deep_view()
    }
}

/// Copies one column of item slots.
pub fn clone_slots(slots: &Vec<Option<Object>>) -> (res: Vec<Option<Object>>)
    ensures
        res.deep_view() == slots.deep_view(),
{
    let mut res: Vec<Option<Object>> = Vec::new();
    let mut i: usize = 0;
    while i < slots.len()
        invariant
            i <= slots.len(),
            res.len() == i,
            forall|j: int| 0 <= j < i ==> (#[trigger] res[j]).deep_view() == slots[j].deep_view(),
        decreases slots.len() - i,
    {
        let slot = match &slots[i] {
            Some(object) => Some(object.clone()),
            None => None,
        };
        res.push(slot);
        i += 1;
    }
    assert(res.deep_view() =~= slots.deep_view());
    res
}

/// Copies a grid of item slots.
pub fn clone_inventory(inventory: &Vec<Vec<Option<Object>>>) -> (res: Vec<Vec<Option<Object>>>)
    ensures
        res.deep_view() == inventory.deep_view(),
{
    let mut res: Vec<Vec<Option<Object>>> = Vec::new();
    let mut i: usize = 0;
    while i < inventory.len()
        invariant
            i <= inventory.len(),
            res.len() == i,
            forall|j: int|
                0 <= j < i ==> (#[trigger] res[j]).deep_view() == inventory[j].deep_view(),
        decreases inventory.len() - i,
    {
        res.push(clone_slots(&inventory[i]));
        i += 1;
    }
    assert(res.deep_view() =~= inventory.deep_view());
    res
}

impl Clone for Character {
    fn clone(&self) -> (res: Self)
        ensures
            res@ == self@,
    {
        let attributes = self.attributes.clone();
        assert(attributes.deep_view() =~= self.attributes.deep_view());
        Character {
            id: self.id.clone(),
            name: self.name.clone(),
            attributes,
            inventory: clone_inventory(&self.inventory),
            icon: self.icon,
            interactions: self.interactions.clone(),
            dialog_id: self.dialog_id.clone(),
        }
    }
}

/// The predicate that holds of exactly the empty slots.
pub open spec fn empty_slot() -> spec_fn(Option<ObjectView>) -> bool {
    |slot: Option<ObjectView>| slot is None
}

/// Every slot of the grid holds an item.
pub open spec fn inventory_full(inventory: InventoryView) -> bool {
    no_slot(inventory, empty_slot())
}

/// The first empty slot when the grid is scanned column by column, and each
/// column from its first row on, if the grid has an empty slot.
pub open spec fn first_empty_slot(inventory: InventoryView) -> Option<(int, int)> {
    first_slot(inventory, empty_slot())
}

impl CharacterView {
    /// The character after an attempt to pick `object` up: the object lies in
    /// the first empty slot, or nothing has changed because no slot is empty.
    pub open spec fn collect_object(self, object: ObjectView) -> CharacterView {
        match first_empty_slot(self.inventory) {
            Some((c, r)) => CharacterView {
                inventory: with_slot(self.inventory, c, r, Some(object)),
                ..self
            },
            None => self,
        }
    }

    /// The character with slot `(c, r)` emptied.
    pub open spec fn remove_inventory_slot(self, c: int, r: int) -> CharacterView {
        CharacterView { inventory: with_slot(self.inventory, c, r, None), ..self }
    }

    /// The first entry of the character's item-use list that the item with
    /// id `item_id` triggers.
    pub open spec fn object_use_for(self, item_id: Seq<char>) -> Option<ObjectUseView> {
        first_character_use(self.interactions.object_use, item_id)
    }

    pub open spec fn with_dialog(self, dialog_id: Seq<char>) -> CharacterView {
        CharacterView { dialog_id, ..self }
    }
}

pub open spec fn first_character_use(uses: Seq<ObjectUseView>, item_id: Seq<char>) -> Option<
    ObjectUseView,
>
    decreases uses.len(),
{
    if uses.len() == 0 {
        None
    } else if uses[0].object_id == item_id {
        Some(uses[0])
    } else {
        first_character_use(uses.drop_first(), item_id)
    }
}

impl Character {
    /// Puts a copy of `object` into the first empty inventory slot. Returns
    /// `false`, and changes nothing, when every slot is taken. The slots are
    /// scanned one by one, which is meant: an inventory has a few slots.
    pub fn collect_object(&mut self, object: &Object) -> (placed: bool)
        ensures
            final(self)@ == old(self)@.collect_object(object@),
            placed == !inventory_full(old(self)@.inventory),
    {
        proof {
            lemma_first_slot_none(self@.inventory, empty_slot());
        }
        let mut c: usize = 0;
        while c < self.inventory.len()
            invariant
                c <= self.inventory.len(),
                *self == *old(self),
                forall|c2: int, r2: int|
                    0 <= c2 < c && 0 <= r2 < self@.inventory[c2].len() ==> !empty_slot()(
                        #[trigger] self@.inventory[c2][r2],
                    ),
            decreases self.inventory.len() - c,
        {
            let mut r: usize = 0;
            while r < self.inventory[c].len()
                invariant
                    c < self.inventory.len(),
                    r <= self.inventory[c as int].len(),
                    *self == *old(self),
                    forall|c2: int, r2: int|
                        0 <= c2 < c && 0 <= r2 < self@.inventory[c2].len() ==> !empty_slot()(
                            #[trigger] self@.inventory[c2][r2],
                        ),
                    forall|r2: int|
                        0 <= r2 < r ==> !empty_slot()(#[trigger] self@.inventory[c as int][r2]),
                decreases self.inventory[c as int].len() - r,
            {
                if self.inventory[c][r].is_none() {
                    proof {
                        assert(self@.inventory[c as int][r as int] is None);
                        assert(is_first_slot(self@.inventory, empty_slot(), c as int, r as int));
                        lemma_first_slot_is(self@.inventory, empty_slot(), c as int, r as int);
                    }
                    self.inventory[c][r] = Some(object.clone());
                    proof {
                        let before = old(self).inventory.deep_view();
                        let after = self.inventory.deep_view();
                        assert(after[c as int] =~= before[c as int].update(
                            r as int,
                            Some(object@),
                        ));
                        assert(after =~= with_slot(before, c as int, r as int, Some(object@)));
                    }
                    return true;
                }
                r += 1;
            }
            c += 1;
        }
        proof {
            assert(inventory_full(self@.inventory));
        }
        false
    }

    /// Empties slot `(x, y)`. A position outside the grid is left alone.
    pub fn remove_inventory_slot(&mut self, x: usize, y: usize)
        ensures
            final(self)@ == old(self)@.remove_inventory_slot(x as int, y as int),
    {
        if x < self.inventory.len() && y < self.inventory[x].len() {
            self.inventory[x][y] = None;
            proof {
                let before = old(self).inventory.deep_view();
                let after = self.inventory.deep_view();
                assert(after[x as int] =~= before[x as int].update(y as int, None));
                assert(after =~= with_slot(before, x as int, y as int, None));
            }
        }
    }

    /// The item in slot `(x, y)`, if the grid has the slot and it is taken.
    pub fn inventory_slot(&self, x: usize, y: usize) -> (item: Option<&Object>)
        ensures
            item.deep_view() == slot_at(self@.inventory, x as int, y as int),
    {
        if x < self.inventory.len() && y < self.inventory[x].len() {
            self.inventory[x][y].as_ref()
        } else {
            None
        }
    }

    /// The first entry of the item-use list that the item with id `item_id`
    /// triggers, if there is one.
    pub fn object_use_for(&self, item_id: &String) -> (found: Option<&ObjectUse>)
        ensures
            found.deep_view() == self@.object_use_for(item_id@),
    {
        let mut i: usize = 0;
        assert(self.interactions.object_use.deep_view().skip(0)
            =~= self.interactions.object_use.deep_view());
        while i < self.interactions.object_use.len()
            invariant
                i <= self.interactions.object_use.len(),
                first_character_use(self.interactions.object_use.deep_view(), item_id@)
                    == first_character_use(
                    self.interactions.object_use.deep_view().skip(i as int),
                    item_id@,
                ),
            decreases self.interactions.object_use.len() - i,
        {
            proof {
                let all = self.interactions.object_use.deep_view();
                assert(all.skip(i as int)[0] == self.interactions.object_use[i as int]@);
                assert(all.skip(i as int).drop_first() =~= all.skip(i + 1));
            }
            if self.interactions.object_use[i].object_id == *item_id {
                return Some(&self.interactions.object_use[i]);
            }
            i += 1;
        }
        assert(self.interactions.object_use.deep_view().skip(
            self.interactions.object_use.len() as int,
        ).len() == 0);
        None
    }
}

} // verus!
