//! Character definitions, and the characters made from them.

use crate::catalog::{lemma_position_by_is, position_by, put_by};
use crate::characters::{
    Attack as CharacterAttack, AttackView as CharacterAttackView, Attribute, AttributeView,
    Character, CharacterView, Interactions as CharacterInteractions, InteractionsView as
    CharacterInteractionsView, Modifier, ModifierView, ObjectUse, ObjectUseView,
};
use crate::config::ConfigError;
use crate::grid::{empty_column, empty_grid, fits_index, grid_size_ok};
use crate::objects::{Object, ObjectView};
use vstd::prelude::*;
use vstd::string::StrSliceExecFns;

verus! {

#[derive(Clone, Copy, Debug, PartialEq, Eq)]
pub struct InventorySize {
    pub width: i64,
    pub height: i64,
}

#[derive(Debug, PartialEq, Eq)]
pub struct Trait {
    pub id: String,
    pub display_name: String,
    pub starting_value: u8,
    pub max_value: u8,
}

pub struct TraitView {
    pub id: Seq<char>,
    pub display_name: Seq<char>,
    pub starting_value: u8,
    pub max_value: u8,
}

impl DeepView for Trait {
    type V = TraitView;

    open spec fn deep_view(&self) -> TraitView {
        TraitView {
            id: self.id@,
            display_name: self.display_name@,
            starting_value: self.starting_value,
            max_value: self.max_value,
        }
    }
}

impl View for Trait {
    type V = TraitView;

    open spec fn view(&self) -> TraitView {
        self.deep_view()
    }
}

/// How one attribute changes an attack: a sign followed by a decimal
/// number, as in `"+0.5"`.
#[derive(Debug, PartialEq, Eq)]
pub struct AffectedBy {
    pub attribute_id: String,
    pub effect_per_point: String,
}

pub struct AffectedByView {
    pub attribute_id: Seq<char>,
    pub effect_per_point: Seq<char>,
}

impl DeepView for AffectedBy {
    type V = AffectedByView;

    open spec fn deep_view(&self) -> AffectedByView {
        AffectedByView {
            attribute_id: self.attribute_id@,
            effect_per_point: self.effect_per_point@,
        }
    }
}

impl View for AffectedBy {
    type V = AffectedByView;

    open spec fn view(&self) -> AffectedByView {
        self.deep_view()
    }
}

#[derive(Debug, PartialEq, Eq)]
pub struct Attack {
    pub id: String,
    pub display_name: String,
    pub base_damage: i64,
    pub affected_by: Vec<AffectedBy>,
}

pub struct AttackView {
    pub id: Seq<char>,
    pub display_name: Seq<char>,
    pub base_damage: i64,
    pub affected_by: Seq<AffectedByView>,
}

impl DeepView for Attack {
    type V = AttackView;

    open spec fn deep_view(&self) -> AttackView {
        AttackView {
            id: self.id@,
            display_name: self.display_name@,
            base_damage: self.base_damage,
            affected_by: self.affected_by.deep_view(),
        }
    }
}

impl View for Attack {
    type V = AttackView;

    open spec fn view(&self) -> AttackView {
        self.deep_view()
    }
}

#[derive(Debug, PartialEq, Eq)]
pub struct ObjectUseData {
    pub object_id: String,
    pub set_dialog: String,
    pub consume_item: bool,
}

pub struct ObjectUseDataView {
    pub object_id: Seq<char>,
    pub set_dialog: Seq<char>,
    pub consume_item: bool,
}

impl DeepView for ObjectUseData {
    type V = ObjectUseDataView;

    open spec fn deep_view(&self) -> ObjectUseDataView {
        ObjectUseDataView {
            object_id: self.object_id@,
            set_dialog: self.set_dialog@,
            consume_item: self.consume_item,
        }
    }
}

impl View for ObjectUseData {
    type V = ObjectUseDataView;

    open spec fn view(&self) -> ObjectUseDataView {
        self.deep_view()
    }
}

#[derive(Debug, PartialEq, Eq)]
pub struct Interactions {
    pub attacks: Vec<Attack>,
    pub object_use: Vec<ObjectUseData>,
}

pub struct InteractionsView {
    pub attacks: Seq<AttackView>,
    pub object_use: Seq<ObjectUseDataView>,
}

impl DeepView for Interactions {
    type V = InteractionsView;

    open spec fn deep_view(&self) -> InteractionsView {
        InteractionsView {
            attacks: self.attacks.deep_view(),
            object_use: self.object_use.deep_view(),
        }
    }
}

impl View for Interactions {
    type V = InteractionsView;

    open spec fn view(&self) -> InteractionsView {
        self.deep_view()
    }
}

#[derive(Debug, PartialEq, Eq)]
pub struct CharacterData {
    pub id: String,
    pub name: String,
    pub icon: char,
    pub inventory_size: InventorySize,
    pub traits: Vec<Trait>,
    pub interactions: Interactions,
    pub dialog_id: String,
}

pub struct CharacterDataView {
    pub id: Seq<char>,
    pub name: Seq<char>,
    pub icon: char,
    pub inventory_size: InventorySize,
    pub traits: Seq<TraitView>,
    pub interactions: InteractionsView,
    pub dialog_id: Seq<char>,
}

impl DeepView for CharacterData {
    type V = CharacterDataView;

    open spec fn deep_view(&self) -> CharacterDataView {
        CharacterDataView {
            id: self.id@,
            name: self.name@,
            icon: self.icon,
            inventory_size: self.inventory_size,
            traits: self.traits.deep_view(),
            interactions: self.interactions@,
            dialog_id: self.dialog_id@,
        }
    }
}

impl View for CharacterData {
    type V = CharacterDataView;

    open spec fn view(&self) -> CharacterDataView {
        self.deep_view()
    }
}

/// The key under which a character is known: its id.
pub open spec fn character_key() -> spec_fn(CharacterView) -> Seq<char> {
    |character: CharacterView| character.id
}

pub open spec fn attribute_of(data: TraitView) -> AttributeView {
    AttributeView {
        id: data.id,
        display_name: data.display_name,
        min_val: 0,
        max_val: data.max_value,
        current_val: data.starting_value,
    }
}

pub open spec fn object_use_of(data: ObjectUseDataView) -> ObjectUseView {
    ObjectUseView {
        object_id: data.object_id,
        set_dialog: data.set_dialog,
        consume_item: data.consume_item,
    }
}

/// The modifier a definition describes: its first character is the sign,
/// what follows is the magnitude.
pub open spec fn modifier_of(data: AffectedByView) -> ModifierView {
    ModifierView {
        attribute_id: data.attribute_id,
        sign: data.effect_per_point[0],
        value: data.effect_per_point.skip(1),
    }
}

pub open spec fn attack_of(data: AttackView) -> CharacterAttackView {
    CharacterAttackView {
        id: data.id,
        display_name: data.display_name,
        base_damage: data.base_damage,
        affected_by: data.affected_by.map_values(|m: AffectedByView| modifier_of(m)),
    }
}

/// Every modifier of the attack gives a sign.
pub open spec fn attack_ok(data: AttackView) -> bool {
    forall|i: int|
        0 <= i < data.affected_by.len() ==> (#[trigger] data.affected_by[i]).effect_per_point.len()
            > 0
}

/// The error in a character definition, if it has one: an inventory that
/// cannot be built comes before a modifier without a sign.
pub open spec fn character_data_error(data: CharacterDataView) -> Option<ConfigError> {
    if !grid_size_ok(data.inventory_size.width as int, data.inventory_size.height as int) {
        Some(ConfigError::InventorySize)
    } else if !(forall|i: int|
        0 <= i < data.interactions.attacks.len() ==> attack_ok(
            #[trigger] data.interactions.attacks[i],
        )) {
        Some(ConfigError::EmptyModifier)
    } else {
        None
    }
}

/// The character a definition describes: an empty inventory of the size
/// given, every attribute at its starting value.
pub open spec fn character_of(data: CharacterDataView) -> CharacterView {
    CharacterView {
        id: data.id,
        name: data.name,
        attributes: data.traits.map_values(|t: TraitView| attribute_of(t)),
        inventory: empty_grid(data.inventory_size.width as int, data.inventory_size.height as int),
        icon: data.icon,
        interactions: CharacterInteractionsView {
            attacks: data.interactions.attacks.map_values(|a: AttackView| attack_of(a)),
            object_use: data.interactions.object_use.map_values(
                |u: ObjectUseDataView| object_use_of(u),
            ),
        },
        dialog_id: data.dialog_id,
    }
}

/// An inventory of `width` columns and `height` rows without items.
pub fn empty_inventory(width: usize, height: usize) -> (inventory: Vec<Vec<Option<Object>>>)
    ensures
        inventory.deep_view() == empty_grid::<ObjectView>(width as int, height as int),
{
    let mut inventory: Vec<Vec<Option<Object>>> = Vec::new();
    let mut c: usize = 0;
    while c < width
        invariant
            c <= width,
            inventory@.len() == c,
            forall|j: int|
                0 <= j < c ==> (#[trigger] inventory@[j]).deep_view() =~= Seq::new(
                    height as nat,
                    |r: int| None::<ObjectView>,
                ),
        decreases width - c,
    {
        let column = empty_column::<Object>(height);
        assert(column.deep_view() =~= Seq::new(height as nat, |r: int| None::<ObjectView>));
        inventory.push(column);
        c += 1;
    }
    assert(inventory.deep_view() =~= empty_grid::<ObjectView>(width as int, height as int));
    inventory
}

/// The modifiers of an attack, or `None` when one of them gives no sign.
fn modifiers_from_data(data: &Vec<AffectedBy>) -> (made: Option<Vec<Modifier>>)
    ensures
        match made {
            Some(modifiers) => {
                &&& forall|i: int|
                    0 <= i < data.len() ==> (#[trigger] data.deep_view()[i]).effect_per_point.len()
                        > 0
                &&& modifiers.deep_view() == data.deep_view().map_values(
                    |m: AffectedByView| modifier_of(m),
                )
            },
            None => exists|i: int|
                0 <= i < data.len() && (#[trigger] data.deep_view()[i]).effect_per_point.len()
                    == 0,
        },
{
    let mut modifiers: Vec<Modifier> = Vec::new();
    let mut i: usize = 0;
    while i < data.len()
        invariant
            i <= data.len(),
            modifiers@.len() == i,
            forall|j: int|
                0 <= j < i ==> (#[trigger] data.deep_view()[j]).effect_per_point.len() > 0,
            forall|j: int|
                0 <= j < i ==> (#[trigger] modifiers@[j])@ == modifier_of(data.deep_view()[j]),
        decreases data.len() - i,
    {
        let text = data[i].effect_per_point.as_str();
        let len = text.unicode_len();
        assert(data.deep_view()[i as int].effect_per_point == text@);
        if len == 0 {
            return None;
        }
        let sign = text.get_char(0);
        let value = text.substring_char(1, len).to_owned();
        assert(value@ =~= text@.skip(1));
        modifiers.push(Modifier { attribute_id: data[i].attribute_id.clone(), sign, value });
        i += 1;
    }
    assert(modifiers.deep_view() =~= data.deep_view().map_values(
        |m: AffectedByView| modifier_of(m),
    ));
    Some(modifiers)
}

/// The attacks of a character, or `None` when a modifier of one of them
/// gives no sign.
fn attacks_from_data(data: &Vec<Attack>) -> (made: Option<Vec<CharacterAttack>>)
    ensures
        match made {
            Some(attacks) => {
                &&& forall|i: int| 0 <= i < data.len() ==> attack_ok(#[trigger] data.deep_view()[i])
                &&& attacks.deep_view() == data.deep_view().map_values(
                    |a: AttackView| attack_of(a),
                )
            },
            None => exists|i: int| 0 <= i < data.len() && !attack_ok(#[trigger] data.deep_view()[i]),
        },
{
    let mut attacks: Vec<CharacterAttack> = Vec::new();
    let mut i: usize = 0;
    while i < data.len()
        invariant
            i <= data.len(),
            attacks@.len() == i,
            forall|j: int| 0 <= j < i ==> attack_ok(#[trigger] data.deep_view()[j]),
            forall|j: int|
                0 <= j < i ==> (#[trigger] attacks@[j])@ == attack_of(data.deep_view()[j]),
        decreases data.len() - i,
    {
        let from = &data[i];
        assert(data.deep_view()[i as int] == from@);
        let modifiers = match modifiers_from_data(&from.affected_by) {
            Some(modifiers) => modifiers,
            None => {
                proof {
                    let k = choose|k: int|
                        0 <= k < from.affected_by.len() && (
                        #[trigger] from.affected_by.deep_view()[k]).effect_per_point.len() == 0;
                    assert(from@.affected_by[k].effect_per_point.len() == 0);
                    assert(!attack_ok(data.deep_view()[i as int]));
                }
                return None;
            },
        };
        attacks.push(
            CharacterAttack {
                id: from.id.clone(),
                display_name: from.display_name.clone(),
                base_damage: from.base_damage,
                affected_by: modifiers,
            },
        );
        i += 1;
    }
    assert(attacks.deep_view() =~= data.deep_view().map_values(|a: AttackView| attack_of(a)));
    Some(attacks)
}

/// Position of the first character with id `id`; the length of the list
/// when there is none.
pub fn find_character(characters: &Vec<Character>, id: &str) -> (at: usize)
    ensures
        at == position_by(characters.deep_view(), character_key(), id@),
        at <= characters.len(),
{
    let wanted = id.to_owned();
    let mut i: usize = 0;
    while i < characters.len()
        invariant
            i <= characters.len(),
            wanted@ == id@,
            forall|j: int|
                0 <= j < i ==> character_key()(#[trigger] characters.deep_view()[j]) != id@,
        decreases characters.len() - i,
    {
        if characters[i].id == wanted {
            proof {
                assert(character_key()(characters.deep_view()[i as int]) == id@);
                lemma_position_by_is(characters.deep_view(), character_key(), id@, i as int);
            }
            return i;
        }
        i += 1;
    }
    proof {
        lemma_position_by_is(characters.deep_view(), character_key(), id@, i as int);
    }
    i
}

/// Records `character` under its id, in place of the character known
/// under that id so far.
pub fn insert_character(characters: &mut Vec<Character>, character: Character)
    ensures
        final(characters).deep_view() == put_by(
            old(characters).deep_view(),
            character_key(),
            character@,
        ),
{
    let at = find_character(characters, character.id.as_str());
    if at < characters.len() {
        characters[at] = character;
        assert(characters.deep_view() =~= put_by(
            old(characters).deep_view(),
            character_key(),
            character@,
        ));
    } else {
        characters.push(character);
        assert(characters.deep_view() =~= put_by(
            old(characters).deep_view(),
            character_key(),
            character@,
        ));
    }
}

/// Makes the character that `data` describes and records it in
/// `characters` under its id. A definition with an error is refused, and
/// `characters` stays as it was.
pub fn get_character_from_data(characters: &mut Vec<Character>, data: CharacterData) -> (done:
    Result<(), ConfigError>)
    ensures
        match character_data_error(data@) {
            Some(error) => done == Err::<(), ConfigError>(error) && final(characters).deep_view()
                == old(characters).deep_view(),
            None => done is Ok && final(characters).deep_view() == put_by(
                old(characters).deep_view(),
                character_key(),
                character_of(data@),
            ),
        },
{
    if !fits_index(data.inventory_size.width) || !fits_index(data.inventory_size.height) {
        return Err(ConfigError::InventorySize);
    }
    let inventory = empty_inventory(
        data.inventory_size.width as usize,
        data.inventory_size.height as usize,
    );
    let mut attributes: Vec<Attribute> = Vec::new();
    let mut i: usize = 0;
    while i < data.traits.len()
        invariant
            i <= data.traits.len(),
            attributes@.len() == i,
            forall|j: int|
                0 <= j < i ==> (#[trigger] attributes@[j])@ == attribute_of(data@.traits[j]),
        decreases data.traits.len() - i,
    {
        let from = &data.traits[i];
        assert(data@.traits[i as int] == from@);
        attributes.push(
            Attribute {
                id: from.id.clone(),
                display_name: from.display_name.clone(),
                min_val: 0,
                max_val: from.max_value,
                current_val: from.starting_value,
            },
        );
        i += 1;
    }
    assert(attributes.deep_view() =~= data@.traits.map_values(|t: TraitView| attribute_of(t)));
    let mut object_use: Vec<ObjectUse> = Vec::new();
    let mut i: usize = 0;
    while i < data.interactions.object_use.len()
        invariant
            i <= data.interactions.object_use.len(),
            object_use@.len() == i,
            forall|j: int|
                0 <= j < i ==> (#[trigger] object_use@[j])@ == object_use_of(
                    data@.interactions.object_use[j],
                ),
        decreases data.interactions.object_use.len() - i,
    {
        let from = &data.interactions.object_use[i];
        assert(data@.interactions.object_use[i as int] == from@);
        object_use.push(
            ObjectUse {
                object_id: from.object_id.clone(),
                set_dialog: from.set_dialog.clone(),
                consume_item: from.consume_item,
            },
        );
        i += 1;
    }
    assert(object_use.deep_view() =~= data@.interactions.object_use.map_values(
        |u: ObjectUseDataView| object_use_of(u),
    ));
    let ghost described = character_of(data@);
    let attacks = match attacks_from_data(&data.interactions.attacks) {
        Some(attacks) => attacks,
        None => {
            return Err(ConfigError::EmptyModifier);
        },
    };
    let character = Character {
        id: data.id,
        name: data.name,
        attributes,
        inventory,
        icon: data.icon,
        interactions: CharacterInteractions { attacks, object_use },
        dialog_id: data.dialog_id,
    };
    assert(character@ == described);
    insert_character(characters, character);
    Ok(())
}

} // verus!
