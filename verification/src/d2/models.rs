//! The character as the interchange document gives it: header, attributes
//! and the three item lists. Each type has a view, in which text is a
//! `Seq<char>` and a list a `Seq`; the contracts speak of the views.

use crate::d2::parser::{
    CharacterStatus, CHARACTER_STATUS_DEAD, CHARACTER_STATUS_EXPANSION, CHARACTER_STATUS_HARDCORE,
    CHARACTER_STATUS_LADDER,
};
use vstd::prelude::*;

verus! {

/// The four flags of a character, unpacked.
#[derive(Clone, Copy, Debug, PartialEq, Eq, Structural)]
pub struct CharacterDataStatus {
    pub expansion: bool,
    pub died: bool,
    pub hardcore: bool,
    pub ladder: bool,
}

/// The summary of a character.
#[derive(Debug, PartialEq)]
pub struct CharacterDataHeader {
    pub identifier: String,
    pub name: String,
    pub level: u8,
    pub class: String,
    pub status: CharacterDataStatus,
    pub created: u32,
    pub last_played: u32,
}

/// The view of a `CharacterDataHeader`.
pub struct CharacterDataHeaderView {
    pub identifier: Seq<char>,
    pub name: Seq<char>,
    pub level: u8,
    pub class: Seq<char>,
    pub status: CharacterDataStatus,
    pub created: u32,
    pub last_played: u32,
}

/// The tier of an item's base type, stored as the ordinal 0, 1 or 2.
#[allow(non_camel_case_types)]
#[derive(Clone, Copy, Debug, PartialEq, Eq, Structural)]
pub enum ItemQuality {
    normal,
    exceptional,
    elite,
}

/// The damage of a weapon, one-handed and two-handed; each bound is there
/// only where it applies.
#[derive(Clone, Copy, Debug, PartialEq, Eq, Structural)]
pub struct WeaponDamage {
    pub mindam: Option<u8>,
    pub maxdam: Option<u8>,
    pub twohandmindam: Option<u8>,
    pub twohandmaxdam: Option<u8>,
}

/// One modifier of an item.
#[derive(Debug, PartialEq)]
pub struct MagicProperty {
    pub id: u32,
    pub name: String,
    pub values: Vec<i32>,
    pub description: Option<String>,
    pub visible: Option<bool>,
    pub op_value: Option<u32>,
    pub op_stats: Option<Vec<String>>,
}

/// The view of a `MagicProperty`.
pub struct MagicPropertyView {
    pub id: u32,
    pub name: Seq<char>,
    pub values: Seq<i32>,
    pub description: Option<Seq<char>>,
    pub visible: Option<bool>,
    pub op_value: Option<u32>,
    pub op_stats: Option<Seq<Seq<char>>>,
}

/// The flags of an item, each 0 or 1, and the name on a personalized one.
#[derive(Debug, PartialEq)]
pub struct ItemFlags {
    pub identified: u8,
    pub socketed: u8,
    pub new: u8,
    pub is_ear: u8,
    pub starter_item: u8,
    pub simple_item: u8,
    pub ethereal: u8,
    pub personalized: u8,
    pub personalized_name: Option<String>,
    pub given_runeword: u8,
}

/// The view of `ItemFlags`.
pub struct ItemFlagsView {
    pub identified: u8,
    pub socketed: u8,
    pub new: u8,
    pub is_ear: u8,
    pub starter_item: u8,
    pub simple_item: u8,
    pub ethereal: u8,
    pub personalized: u8,
    pub personalized_name: Option<Seq<char>>,
    pub given_runeword: u8,
}

/// Where an item is: its location, the slot it is equipped in, and its place in a grid.
#[derive(Debug, PartialEq)]
pub struct ItemPlacement {
    pub location_id: u8,
    pub equipped_id: u8,
    pub position_x: u8,
    pub position_y: u8,
    pub alt_position_id: u8,
}

/// The view of `ItemPlacement`.
pub struct ItemPlacementView {
    pub location_id: u8,
    pub equipped_id: u8,
    pub position_x: u8,
    pub position_y: u8,
    pub alt_position_id: u8,
}

/// What an item is: its type, by code and by name, and how it shows in an inventory.
#[derive(Debug, PartialEq)]
pub struct ItemKind {
    pub version: String,
    pub type_code: String,
    pub type_id: u8,
    pub type_label: String,
    pub quest_difficulty: Option<u8>,
    pub inv_width: u8,
    pub inv_height: u8,
    pub inv_file: String,
    pub inv_transform: Option<u8>,
    pub transform_color: Option<String>,
    pub item_quality: Option<ItemQuality>,
    pub categories: Vec<String>,
}

/// The view of `ItemKind`.
pub struct ItemKindView {
    pub version: Seq<char>,
    pub type_code: Seq<char>,
    pub type_id: u8,
    pub type_label: Seq<char>,
    pub quest_difficulty: Option<u8>,
    pub inv_width: u8,
    pub inv_height: u8,
    pub inv_file: Seq<char>,
    pub inv_transform: Option<u8>,
    pub transform_color: Option<Seq<char>>,
    pub item_quality: Option<ItemQuality>,
    pub categories: Seq<Seq<char>>,
}

/// What only an item that is not simple has: an id, a level, a quality and its pictures.
#[derive(Debug, PartialEq)]
pub struct ItemIdentity {
    pub id: Option<u32>,
    pub level: Option<u8>,
    pub quality: Option<u8>,
    pub multiple_pictures: Option<u8>,
    pub picture_id: Option<u8>,
    pub class_specific: Option<u8>,
    pub low_quality_id: Option<u8>,
    pub timestamp: Option<u8>,
    pub file_index: Option<u8>,
    pub auto_affix_id: Option<u8>,
}

/// The view of `ItemIdentity`.
pub struct ItemIdentityView {
    pub id: Option<u32>,
    pub level: Option<u8>,
    pub quality: Option<u8>,
    pub multiple_pictures: Option<u8>,
    pub picture_id: Option<u8>,
    pub class_specific: Option<u8>,
    pub low_quality_id: Option<u8>,
    pub timestamp: Option<u8>,
    pub file_index: Option<u8>,
    pub auto_affix_id: Option<u8>,
}

/// Defense, durability, quantity, damage and requirements, each where the kind of item has it.
#[derive(Debug, PartialEq)]
pub struct ItemStats {
    pub defense_rating: Option<u16>,
    pub max_durability: Option<u16>,
    pub current_durability: Option<u16>,
    pub quantity: Option<u16>,
    pub base_damage: Option<WeaponDamage>,
    pub reqstr: Option<u8>,
    pub reqdex: Option<u8>,
}

/// The view of `ItemStats`.
pub struct ItemStatsView {
    pub defense_rating: Option<u16>,
    pub max_durability: Option<u16>,
    pub current_durability: Option<u16>,
    pub quantity: Option<u16>,
    pub base_damage: Option<WeaponDamage>,
    pub reqstr: Option<u8>,
    pub reqdex: Option<u8>,
}

/// The sockets of an item and the items in them.
#[derive(Debug, PartialEq)]
pub struct ItemSockets {
    pub nr_of_items_in_sockets: u8,
    pub total_nr_of_sockets: Option<u8>,
    pub socketed_items: Option<Vec<ItemData>>,
}

/// The view of `ItemSockets`.
pub struct ItemSocketsView {
    pub nr_of_items_in_sockets: u8,
    pub total_nr_of_sockets: Option<u8>,
    pub socketed_items: Option<Seq<ItemDataView>>,
}

/// The prefix, the suffix and the modifiers of a magic item.
#[derive(Debug, PartialEq)]
pub struct MagicAffixes {
    pub magic_prefix: Option<u16>,
    pub magic_prefix_name: Option<String>,
    pub magic_suffix: Option<u16>,
    pub magic_suffix_name: Option<String>,
    pub magical_name_ids: Option<Vec<Option<u16>>>,
    pub magic_attributes: Option<Vec<MagicProperty>>,
    pub combined_magic_attributes: Option<Vec<MagicProperty>>,
}

/// The view of `MagicAffixes`.
pub struct MagicAffixesView {
    pub magic_prefix: Option<u16>,
    pub magic_prefix_name: Option<Seq<char>>,
    pub magic_suffix: Option<u16>,
    pub magic_suffix_name: Option<Seq<char>>,
    pub magical_name_ids: Option<Seq<Option<u16>>>,
    pub magic_attributes: Option<Seq<MagicPropertyView>>,
    pub combined_magic_attributes: Option<Seq<MagicPropertyView>>,
}

/// The names of a rare item and of a unique one.
#[derive(Debug, PartialEq)]
pub struct ItemNames {
    pub rare_name: Option<String>,
    pub rare_name2: Option<String>,
    pub rare_name_id: Option<u8>,
    pub rare_name_id2: Option<u8>,
    pub unique_id: Option<u16>,
    pub unique_name: Option<String>,
}

/// The view of `ItemNames`.
pub struct ItemNamesView {
    pub rare_name: Option<Seq<char>>,
    pub rare_name2: Option<Seq<char>>,
    pub rare_name_id: Option<u8>,
    pub rare_name_id2: Option<u8>,
    pub unique_id: Option<u16>,
    pub unique_name: Option<Seq<char>>,
}

/// The runeword of an item and what it grants.
#[derive(Debug, PartialEq)]
pub struct RunewordBonus {
    pub runeword_id: Option<u16>,
    pub runeword_name: Option<String>,
    pub runeword_attributes: Option<Vec<MagicProperty>>,
}

/// The view of `RunewordBonus`.
pub struct RunewordBonusView {
    pub runeword_id: Option<u16>,
    pub runeword_name: Option<Seq<char>>,
    pub runeword_attributes: Option<Seq<MagicPropertyView>>,
}

/// The set of a set item and its bonuses, one list of modifiers for each tier.
#[derive(Debug, PartialEq)]
pub struct SetBonus {
    pub set_id: Option<u16>,
    pub set_name: Option<String>,
    pub set_list_count: Option<u8>,
    pub set_attributes: Option<Vec<Vec<MagicProperty>>>,
    pub set_attributes_num_req: Option<u8>,
    pub set_attributes_ids_req: Option<u8>,
}

/// The view of `SetBonus`.
pub struct SetBonusView {
    pub set_id: Option<u16>,
    pub set_name: Option<Seq<char>>,
    pub set_list_count: Option<u8>,
    pub set_attributes: Option<Seq<Seq<MagicPropertyView>>>,
    pub set_attributes_num_req: Option<u8>,
    pub set_attributes_ids_req: Option<u8>,
}

/// The modifiers of an item as they are shown.
#[derive(Debug, PartialEq)]
pub struct DisplayedAttributes {
    pub displayed_magic_attributes: Option<Vec<MagicProperty>>,
    pub displayed_runeword_attributes: Option<Vec<MagicProperty>>,
    pub displayed_combined_magic_attributes: Option<Vec<MagicProperty>>,
}

/// The view of `DisplayedAttributes`.
pub struct DisplayedAttributesView {
    pub displayed_magic_attributes: Option<Seq<MagicPropertyView>>,
    pub displayed_runeword_attributes: Option<Seq<MagicPropertyView>>,
    pub displayed_combined_magic_attributes: Option<Seq<MagicPropertyView>>,
}

/// One item. Which of the fields that may be missing are there goes by the
/// kind and the quality of the item; a field that is not there does not
/// apply to it.
#[derive(Debug, PartialEq)]
pub struct ItemData {
    pub flags: ItemFlags,
    pub placement: ItemPlacement,
    pub kind: ItemKind,
    pub identity: ItemIdentity,
    pub stats: ItemStats,
    pub sockets: ItemSockets,
    pub magic: MagicAffixes,
    pub names: ItemNames,
    pub runeword: RunewordBonus,
    pub set: SetBonus,
    pub displayed: DisplayedAttributes,
}

/// The view of `ItemData`.
pub struct ItemDataView {
    pub flags: ItemFlagsView,
    pub placement: ItemPlacementView,
    pub kind: ItemKindView,
    pub identity: ItemIdentityView,
    pub stats: ItemStatsView,
    pub sockets: ItemSocketsView,
    pub magic: MagicAffixesView,
    pub names: ItemNamesView,
    pub runeword: RunewordBonusView,
    pub set: SetBonusView,
    pub displayed: DisplayedAttributesView,
}

/// One attribute of a character: its name and its value.
#[derive(Debug, PartialEq)]
pub struct Attribute {
    pub name: String,
    pub value: u32,
}

/// The attributes of a character, each name once.
#[derive(Debug)]
pub struct CharacterDataAttributes {
    entries: Vec<Attribute>,
}

/// A character: what the interchange document holds.
#[derive(Debug)]
pub struct CharacterData {
    pub header: CharacterDataHeader,
    pub attributes: CharacterDataAttributes,
    pub items: Vec<ItemData>,
    pub corpse_items: Vec<ItemData>,
    pub merc_items: Vec<ItemData>,
}

/// The view of a `CharacterData`.
pub struct CharacterDataView {
    pub header: CharacterDataHeaderView,
    pub attributes: Map<Seq<char>, u32>,
    pub items: Seq<ItemDataView>,
    pub corpse_items: Seq<ItemDataView>,
    pub merc_items: Seq<ItemDataView>,
}

/// The flags that a status byte holds: bit 2 hardcore, bit 3 died, bit 5
/// expansion, bit 6 ladder.
pub open spec fn unpacked(bits: CharacterStatus) -> CharacterDataStatus {
    CharacterDataStatus {
        expansion: bits & CHARACTER_STATUS_EXPANSION != 0,
        died: bits & CHARACTER_STATUS_DEAD != 0,
        hardcore: bits & CHARACTER_STATUS_HARDCORE != 0,
        ladder: bits & CHARACTER_STATUS_LADDER != 0,
    }
}

/// The bit of a flag: `bit` where the flag is set, else nothing.
pub open spec fn flag_bit(flag: bool, bit: u8) -> u8 {
    if flag {
        bit
    } else {
        0u8
    }
}

/// The status byte that holds the four flags and nothing else.
pub open spec fn packed(status: CharacterDataStatus) -> CharacterStatus {
    flag_bit(status.hardcore, CHARACTER_STATUS_HARDCORE) | flag_bit(
        status.died,
        CHARACTER_STATUS_DEAD,
    ) | flag_bit(status.expansion, CHARACTER_STATUS_EXPANSION) | flag_bit(
        status.ladder,
        CHARACTER_STATUS_LADDER,
    )
}

/// The bits of a status byte that are flags.
pub const CHARACTER_STATUS_FLAGS: u8 = 0x6C;

/// Packing four flags and unpacking the byte gives the four flags back.
pub proof fn unpack_packed(status: CharacterDataStatus)
    ensures
        unpacked(packed(status)) == status,
{
    let h: u8 = flag_bit(status.hardcore, CHARACTER_STATUS_HARDCORE);
    let d: u8 = flag_bit(status.died, CHARACTER_STATUS_DEAD);
    let e: u8 = flag_bit(status.expansion, CHARACTER_STATUS_EXPANSION);
    let l: u8 = flag_bit(status.ladder, CHARACTER_STATUS_LADDER);
    assert(((h | d | e | l) & 0x04u8 != 0) == (h != 0) && ((h | d | e | l) & 0x08u8 != 0) == (d
        != 0) && ((h | d | e | l) & 0x20u8 != 0) == (e != 0) && ((h | d | e | l) & 0x40u8 != 0)
        == (l != 0)) by (bit_vector)
        requires
            h == 0 || h == 0x04,
            d == 0 || d == 0x08,
            e == 0 || e == 0x20,
            l == 0 || l == 0x40,
    ;
}

/// Unpacking a byte and packing the flags gives back the flag bits of the
/// byte; its other bits are dropped.
pub proof fn pack_unpacked(bits: CharacterStatus)
    ensures
        packed(unpacked(bits)) == bits & CHARACTER_STATUS_FLAGS,
{
    let h: u8 = flag_bit(bits & 0x04u8 != 0, 0x04u8);
    let d: u8 = flag_bit(bits & 0x08u8 != 0, 0x08u8);
    let e: u8 = flag_bit(bits & 0x20u8 != 0, 0x20u8);
    let l: u8 = flag_bit(bits & 0x40u8 != 0, 0x40u8);
    assert((h | d | e | l) == bits & 0x6Cu8) by (bit_vector)
        requires
            h == (if bits & 0x04u8 != 0 { 0x04u8 } else { 0u8 }),
            d == (if bits & 0x08u8 != 0 { 0x08u8 } else { 0u8 }),
            e == (if bits & 0x20u8 != 0 { 0x20u8 } else { 0u8 }),
            l == (if bits & 0x40u8 != 0 { 0x40u8 } else { 0u8 }),
    ;
}

impl CharacterDataStatus {
    /// Unpacks a status byte.
    pub fn from_bits(bits: CharacterStatus) -> (r: CharacterDataStatus)
        ensures
            r == unpacked(bits),
    {
        CharacterDataStatus {
            expansion: bits & CHARACTER_STATUS_EXPANSION != 0,
            died: bits & CHARACTER_STATUS_DEAD != 0,
            hardcore: bits & CHARACTER_STATUS_HARDCORE != 0,
            ladder: bits & CHARACTER_STATUS_LADDER != 0,
        }
    }

    /// Packs the flags into a status byte, all other bits clear.
    pub fn to_bits(&self) -> (r: CharacterStatus)
        ensures
            r == packed(*self),
            unpacked(r) == *self,
    {
        proof {
            unpack_packed(*self);
        }
        let h: u8 = if self.hardcore {
            CHARACTER_STATUS_HARDCORE
        } else {
            0
        };
        let d: u8 = if self.died {
            CHARACTER_STATUS_DEAD
        } else {
            0
        };
        let e: u8 = if self.expansion {
            CHARACTER_STATUS_EXPANSION
        } else {
            0
        };
        let l: u8 = if self.ladder {
            CHARACTER_STATUS_LADDER
        } else {
            0
        };
        h | d | e | l
    }
}

impl DeepView for CharacterDataStatus {
    type V = CharacterDataStatus;

    open spec fn deep_view(&self) -> CharacterDataStatus {
        *self
    }
}

impl DeepView for ItemQuality {
    type V = ItemQuality;

    open spec fn deep_view(&self) -> ItemQuality {
        *self
    }
}

impl DeepView for WeaponDamage {
    type V = WeaponDamage;

    open spec fn deep_view(&self) -> WeaponDamage {
        *self
    }
}

impl DeepView for CharacterDataHeader {
    type V = CharacterDataHeaderView;

    open spec fn deep_view(&self) -> CharacterDataHeaderView {
        CharacterDataHeaderView {
            identifier: self.identifier@,
            name: self.name@,
            level: self.level,
            class: self.class@,
            status: self.status,
            created: self.created,
            last_played: self.last_played,
        }
    }
}

impl DeepView for MagicProperty {
    type V = MagicPropertyView;

    open spec fn deep_view(&self) -> MagicPropertyView {
        MagicPropertyView {
            id: self.id,
            name: self.name@,
            values: self.values.deep_view(),
            description: self.description.deep_view(),
            visible: self.visible,
            op_value: self.op_value,
            op_stats: self.op_stats.deep_view(),
        }
    }
}

impl DeepView for ItemFlags {
    type V = ItemFlagsView;

    open spec fn deep_view(&self) -> ItemFlagsView {
        ItemFlagsView {
            identified: self.identified,
            socketed: self.socketed,
            new: self.new,
            is_ear: self.is_ear,
            starter_item: self.starter_item,
            simple_item: self.simple_item,
            ethereal: self.ethereal,
            personalized: self.personalized,
            personalized_name: self.personalized_name.deep_view(),
            given_runeword: self.given_runeword,
        }
    }
}

impl DeepView for ItemPlacement {
    type V = ItemPlacementView;

    open spec fn deep_view(&self) -> ItemPlacementView {
        ItemPlacementView {
            location_id: self.location_id,
            equipped_id: self.equipped_id,
            position_x: self.position_x,
            position_y: self.position_y,
            alt_position_id: self.alt_position_id,
        }
    }
}

impl DeepView for ItemKind {
    type V = ItemKindView;

    open spec fn deep_view(&self) -> ItemKindView {
        ItemKindView {
            version: self.version@,
            type_code: self.type_code@,
            type_id: self.type_id,
            type_label: self.type_label@,
            quest_difficulty: self.quest_difficulty,
            inv_width: self.inv_width,
            inv_height: self.inv_height,
            inv_file: self.inv_file@,
            inv_transform: self.inv_transform,
            transform_color: self.transform_color.deep_view(),
            item_quality: self.item_quality,
            categories: self.categories.deep_view(),
        }
    }
}

impl DeepView for ItemIdentity {
    type V = ItemIdentityView;

    open spec fn deep_view(&self) -> ItemIdentityView {
        ItemIdentityView {
            id: self.id,
            level: self.level,
            quality: self.quality,
            multiple_pictures: self.multiple_pictures,
            picture_id: self.picture_id,
            class_specific: self.class_specific,
            low_quality_id: self.low_quality_id,
            timestamp: self.timestamp,
            file_index: self.file_index,
            auto_affix_id: self.auto_affix_id,
        }
    }
}

impl DeepView for ItemStats {
    type V = ItemStatsView;

    open spec fn deep_view(&self) -> ItemStatsView {
        ItemStatsView {
            defense_rating: self.defense_rating,
            max_durability: self.max_durability,
            current_durability: self.current_durability,
            quantity: self.quantity,
            base_damage: self.base_damage,
            reqstr: self.reqstr,
            reqdex: self.reqdex,
        }
    }
}

/// The view of the sockets of an item.
pub open spec fn sockets_view(sockets: ItemSockets) -> ItemSocketsView
    decreases sockets,
{
    ItemSocketsView {
        nr_of_items_in_sockets: sockets.nr_of_items_in_sockets,
        total_nr_of_sockets: sockets.total_nr_of_sockets,
        socketed_items: match sockets.socketed_items {
            Some(items) => Some(items_view(items@)),
            None => None,
        },
    }
}

impl DeepView for ItemSockets {
    type V = ItemSocketsView;

    open spec fn deep_view(&self) -> ItemSocketsView {
        sockets_view(*self)
    }
}

impl DeepView for MagicAffixes {
    type V = MagicAffixesView;

    open spec fn deep_view(&self) -> MagicAffixesView {
        MagicAffixesView {
            magic_prefix: self.magic_prefix,
            magic_prefix_name: self.magic_prefix_name.deep_view(),
            magic_suffix: self.magic_suffix,
            magic_suffix_name: self.magic_suffix_name.deep_view(),
            magical_name_ids: self.magical_name_ids.deep_view(),
            magic_attributes: self.magic_attributes.deep_view(),
            combined_magic_attributes: self.combined_magic_attributes.deep_view(),
        }
    }
}

impl DeepView for ItemNames {
    type V = ItemNamesView;

    open spec fn deep_view(&self) -> ItemNamesView {
        ItemNamesView {
            rare_name: self.rare_name.deep_view(),
            rare_name2: self.rare_name2.deep_view(),
            rare_name_id: self.rare_name_id,
            rare_name_id2: self.rare_name_id2,
            unique_id: self.unique_id,
            unique_name: self.unique_name.deep_view(),
        }
    }
}

impl DeepView for RunewordBonus {
    type V = RunewordBonusView;

    open spec fn deep_view(&self) -> RunewordBonusView {
        RunewordBonusView {
            runeword_id: self.runeword_id,
            runeword_name: self.runeword_name.deep_view(),
            runeword_attributes: self.runeword_attributes.deep_view(),
        }
    }
}

impl DeepView for SetBonus {
    type V = SetBonusView;

    open spec fn deep_view(&self) -> SetBonusView {
        SetBonusView {
            set_id: self.set_id,
            set_name: self.set_name.deep_view(),
            set_list_count: self.set_list_count,
            set_attributes: self.set_attributes.deep_view(),
            set_attributes_num_req: self.set_attributes_num_req,
            set_attributes_ids_req: self.set_attributes_ids_req,
        }
    }
}

impl DeepView for DisplayedAttributes {
    type V = DisplayedAttributesView;

    open spec fn deep_view(&self) -> DisplayedAttributesView {
        DisplayedAttributesView {
            displayed_magic_attributes: self.displayed_magic_attributes.deep_view(),
            displayed_runeword_attributes: self.displayed_runeword_attributes.deep_view(),
            displayed_combined_magic_attributes: self
                .displayed_combined_magic_attributes
                .deep_view(),
        }
    }
}

/// The view of an item.
pub open spec fn item_view(item: ItemData) -> ItemDataView
    decreases item,
{
    ItemDataView {
        flags: item.flags.deep_view(),
        placement: item.placement.deep_view(),
        kind: item.kind.deep_view(),
        identity: item.identity.deep_view(),
        stats: item.stats.deep_view(),
        sockets: sockets_view(item.sockets),
        magic: item.magic.deep_view(),
        names: item.names.deep_view(),
        runeword: item.runeword.deep_view(),
        set: item.set.deep_view(),
        displayed: item.displayed.deep_view(),
    }
}

/// The views of the items of a list, in its order.
pub open spec fn items_view(items: Seq<ItemData>) -> Seq<ItemDataView>
    decreases items,
{
    Seq::new(
        items.len(),
        |i: int|
            if 0 <= i < items.len() {
                item_view(items[i])
            } else {
                arbitrary()
            },
    )
}

impl DeepView for ItemData {
    type V = ItemDataView;

    open spec fn deep_view(&self) -> ItemDataView {
        item_view(*self)
    }
}

/// The mapping that a list of attributes stands for: where a name stands
/// twice, its last value counts.
pub open spec fn attributes_map(entries: Seq<Attribute>) -> Map<Seq<char>, u32>
    decreases entries.len(),
{
    if entries.len() == 0 {
        Map::empty()
    } else {
        attributes_map(entries.drop_last()).insert(entries.last().name@, entries.last().value)
    }
}

impl DeepView for CharacterData {
    type V = CharacterDataView;

    open spec fn deep_view(&self) -> CharacterDataView {
        CharacterDataView {
            header: self.header.deep_view(),
            attributes: self.attributes@,
            items: items_view(self.items@),
            corpse_items: items_view(self.corpse_items@),
            merc_items: items_view(self.merc_items@),
        }
    }
}

impl View for CharacterDataAttributes {
    type V = Map<Seq<char>, u32>;

    closed spec fn view(&self) -> Map<Seq<char>, u32> {
        attributes_map(self.entries@)
    }
}

/// Whether no two entries have the same name.
pub open spec fn names_differ(entries: Seq<Attribute>) -> bool {
    forall|i: int, j: int| 0 <= i < j < entries.len() ==> entries[i].name@ != entries[j].name@
}

/// A name is mapped exactly where an entry has it.
pub proof fn attributes_map_domain(entries: Seq<Attribute>, key: Seq<char>)
    ensures
        attributes_map(entries).contains_key(key) <==> exists|i: int|
            0 <= i < entries.len() && entries[i].name@ == key,
    decreases entries.len(),
{
    if entries.len() > 0 {
        let before = entries.drop_last();
        attributes_map_domain(before, key);
        if attributes_map(entries).contains_key(key) {
            if entries.last().name@ == key {
                assert(entries[entries.len() - 1].name@ == key);
            } else {
                let i = choose|i: int| 0 <= i < before.len() && before[i].name@ == key;
                assert(entries[i].name@ == key);
            }
        }
        if exists|i: int| 0 <= i < entries.len() && entries[i].name@ == key {
            let i = choose|i: int| 0 <= i < entries.len() && entries[i].name@ == key;
            if i < entries.len() - 1 {
                assert(before[i].name@ == key);
            }
        }
    }
}

/// Where no two entries have the same name, each entry's name is mapped to
/// its value.
pub proof fn attributes_map_value(entries: Seq<Attribute>, i: int)
    requires
        names_differ(entries),
        0 <= i < entries.len(),
    ensures
        attributes_map(entries).contains_key(entries[i].name@),
        attributes_map(entries)[entries[i].name@] == entries[i].value,
    decreases entries.len(),
{
    let before = entries.drop_last();
    if i < entries.len() - 1 {
        assert forall|a: int, b: int| 0 <= a < b < before.len() implies before[a].name@
            != before[b].name@ by {
            assert(before[a] == entries[a] && before[b] == entries[b]);
        }
        attributes_map_value(before, i);
        assert(before[i] == entries[i]);
        assert(entries[entries.len() - 1].name@ != entries[i].name@);
    }
}

impl CharacterDataAttributes {
    /// What holds of all attributes: no two entries have the same name.
    #[verifier::type_invariant]
    pub closed spec fn well_formed(&self) -> bool {
        names_differ(self.entries@)
    }

    /// The attributes one by one, in the order in which their names came.
    pub closed spec fn entries(&self) -> Seq<Attribute> {
        self.entries@
    }

    /// The view is the mapping that the entries stand for.
    pub proof fn view_is_map_of_entries(&self)
        ensures
            self@ == attributes_map(self.entries()),
            self.well_formed() == names_differ(self.entries()),
    {
    }

    /// The number of attributes.
    pub fn len(&self) -> (r: usize)
        ensures
            r == self.entries().len(),
    {
        self.entries.len()
    }

    /// The attributes one by one, no two of the same name.
    pub fn as_slice(&self) -> (r: &[Attribute])
        ensures
            r@ == self.entries(),
            names_differ(r@),
            attributes_map(r@) == self@,
    {
        proof {
            use_type_invariant(self);
        }
        self.entries.as_slice()
    }

    /// No attributes.
    pub fn new() -> (r: CharacterDataAttributes)
        ensures
            r@ == Map::<Seq<char>, u32>::empty(),
    {
        CharacterDataAttributes { entries: Vec::new() }
    }

    /// The place of the entry with the given name.
    fn position(&self, name: &str) -> (r: Option<usize>)
        ensures
            match r {
                Some(at) => at < self.entries@.len() && self.entries@[at as int].name@ == name@,
                None => forall|k: int| 0 <= k < self.entries@.len() ==> self.entries@[k].name@
                    != name@,
            },
    {
        let key: String = name.to_owned();
        let mut i: usize = 0;
        while i < self.entries.len()
            invariant
                i <= self.entries@.len(),
                key@ == name@,
                forall|k: int| 0 <= k < i ==> self.entries@[k].name@ != name@,
            decreases self.entries@.len() - i,
        {
            if self.entries[i].name == key {
                return Some(i);
            }
            i += 1;
        }
        None
    }

    /// The value of the attribute with the given name.
    pub fn get(&self, name: &str) -> (r: Option<u32>)
        ensures
            r == if self@.contains_key(name@) {
                Some(self@[name@])
            } else {
                None
            },
    {
        proof {
            use_type_invariant(self);
            attributes_map_domain(self.entries@, name@);
        }
        match self.position(name) {
            Some(at) => {
                proof {
                    attributes_map_value(self.entries@, at as int);
                }
                Some(self.entries[at].value)
            },
            None => None,
        }
    }

    /// Gives the attribute with the given name the given value, whether or
    /// not there was one of that name.
    pub fn insert(&mut self, name: String, value: u32)
        ensures
            final(self)@ == old(self)@.insert(name@, value),
    {
        proof {
            use_type_invariant(&*self);
        }
        let found: Option<usize> = self.position(name.as_str());
        let mut taken = CharacterDataAttributes::new();
        core::mem::swap(self, &mut taken);
        let mut entries: Vec<Attribute> = taken.entries;
        let ghost before = entries@;
        let ghost added = Attribute { name, value };
        match found {
            Some(at) => {
                entries.set(at, Attribute { name, value });
                proof {
                    let after = entries@;
                    assert(after == before.update(at as int, added));
                    assert forall|a: int, b: int| 0 <= a < b < after.len() implies after[a].name@
                        != after[b].name@ by {
                        assert(after[a].name@ == before[a].name@);
                        assert(after[b].name@ == before[b].name@);
                    }
                    assert forall|key: Seq<char>|
                        attributes_map(after).contains_key(key) <==> #[trigger] attributes_map(
                            before,
                        ).insert(added.name@, value).contains_key(key) by {
                        attributes_map_domain(after, key);
                        attributes_map_domain(before, key);
                        if exists|i: int| 0 <= i < after.len() && after[i].name@ == key {
                            let i = choose|i: int| 0 <= i < after.len() && after[i].name@ == key;
                            assert(before[i].name@ == key);
                        }
                        if exists|i: int| 0 <= i < before.len() && before[i].name@ == key {
                            let i = choose|i: int| 0 <= i < before.len() && before[i].name@ == key;
                            assert(after[i].name@ == key);
                        }
                        assert(before[at as int].name@ == added.name@);
                    }
                    assert forall|key: Seq<char>| #[trigger]
                        attributes_map(after).contains_key(key) implies attributes_map(after)[key]
                        == attributes_map(before).insert(added.name@, value)[key] by {
                        attributes_map_domain(after, key);
                        let i = choose|i: int| 0 <= i < after.len() && after[i].name@ == key;
                        attributes_map_value(after, i);
                        if i != at {
                            attributes_map_value(before, i);
                        }
                    }
                    assert(attributes_map(after) =~= attributes_map(before).insert(
                        added.name@,
                        value,
                    ));
                }
            },
            None => {
                entries.push(Attribute { name, value });
                proof {
                    let after = entries@;
                    assert(after.drop_last() =~= before);
                    assert forall|a: int, b: int| 0 <= a < b < after.len() implies after[a].name@
                        != after[b].name@ by {
                        assert(after[a] == before[a]);
                    }
                }
            },
        }
        *self = CharacterDataAttributes { entries };
    }
}

impl DeepView for CharacterDataAttributes {
    type V = Map<Seq<char>, u32>;

    open spec fn deep_view(&self) -> Map<Seq<char>, u32> {
        self@
    }
}

} // verus!
