//! The schema of the interchange document: how a JSON tree decodes into a
//! character.
//!
//! An object decodes field by field in the order of the type's fields, and
//! the first field that is missing or wrong is the error. A member that no
//! field names is passed over. A field that may be missing is also missing
//! where its value is `null`.

use crate::d2::json::{
    agrees, array_of, at, bool_decoder, decode_u32, decode_u8, fail, field_index, field_value,
    find, i32s_decoder, json_document, list_error_persists, list_of, opt_bool, opt_string,
    opt_strings, opt_u16, opt_u16_options, opt_u32, opt_u8, optional, parse_json, req_bool,
    req_i32s, req_string, req_strings, req_u32, req_u8, required, string_decoder,
    strings_decoder, u16_decoder, u16_options_decoder, u32_decoder, u32_of, u8_decoder, u8_of,
    under, DecodeError, DecodeErrorKind, DecodeErrorView, Json, JsonField, PathSegmentView,
};
use crate::d2::models::{
    items_view, CharacterData, CharacterDataAttributes, CharacterDataHeader,
    CharacterDataHeaderView, CharacterDataStatus, CharacterDataView, DisplayedAttributes,
    DisplayedAttributesView, ItemData, ItemDataView, ItemFlags, ItemFlagsView, ItemIdentity,
    ItemIdentityView, ItemKind, ItemKindView, ItemNames, ItemNamesView, ItemPlacement,
    ItemPlacementView, ItemQuality, ItemSockets, ItemSocketsView, ItemStats, ItemStatsView,
    MagicAffixes, MagicAffixesView, MagicProperty, MagicPropertyView, RunewordBonus,
    RunewordBonusView, SetBonus, SetBonusView, WeaponDamage,
};
use vstd::prelude::*;

verus! {

/// `quality_of` as a decoder of list items and of fields.
pub open spec fn quality_decoder() -> spec_fn(Json) -> Result<ItemQuality, DecodeErrorView> {
    |j: Json| quality_of(j)
}

/// `damage_of` as a decoder of list items and of fields.
pub open spec fn damage_decoder() -> spec_fn(Json) -> Result<WeaponDamage, DecodeErrorView> {
    |j: Json| damage_of(j)
}

/// `property_of` as a decoder of list items and of fields.
pub open spec fn property_decoder() -> spec_fn(Json) -> Result<MagicPropertyView, DecodeErrorView> {
    |j: Json| property_of(j)
}

/// `properties_of` as a decoder of list items and of fields.
pub open spec fn properties_decoder() -> spec_fn(Json) -> Result<
    Seq<MagicPropertyView>,
    DecodeErrorView,
> {
    |j: Json| properties_of(j)
}

/// `property_lists_of` as a decoder of list items and of fields.
pub open spec fn property_lists_decoder() -> spec_fn(Json) -> Result<
    Seq<Seq<MagicPropertyView>>,
    DecodeErrorView,
> {
    |j: Json| property_lists_of(j)
}

/// `status_of` as a decoder of list items and of fields.
pub open spec fn status_decoder() -> spec_fn(Json) -> Result<CharacterDataStatus, DecodeErrorView> {
    |j: Json| status_of(j)
}

/// `header_of` as a decoder of list items and of fields.
pub open spec fn header_decoder() -> spec_fn(Json) -> Result<
    CharacterDataHeaderView,
    DecodeErrorView,
> {
    |j: Json| header_of(j)
}

/// `attributes_of` as a decoder of list items and of fields.
pub open spec fn attributes_decoder() -> spec_fn(Json) -> Result<
    Map<Seq<char>, u32>,
    DecodeErrorView,
> {
    |j: Json| attributes_of(j)
}

/// The tier of an item's base type: the ordinal 0, 1 or 2. Any other integer
/// of 8 bits is an invalid value.
pub open spec fn quality_of(j: Json) -> Result<ItemQuality, DecodeErrorView> {
    match u8_of(j) {
        Err(e) => Err(e),
        Ok(ordinal) => if ordinal == 0 {
            Ok(ItemQuality::normal)
        } else if ordinal == 1 {
            Ok(ItemQuality::exceptional)
        } else if ordinal == 2 {
            Ok(ItemQuality::elite)
        } else {
            Err(fail(DecodeErrorKind::InvalidValue))
        },
    }
}

/// The damage of a weapon: an object in which each bound may be missing.
pub open spec fn damage_of(j: Json) -> Result<WeaponDamage, DecodeErrorView> {
    match j {
        Json::Object(members) => {
            let fields = members@;
            let mindam = optional(fields, "mindam"@, u8_decoder());
            let maxdam = optional(fields, "maxdam"@, u8_decoder());
            let twohandmindam = optional(fields, "twohandmindam"@, u8_decoder());
            let twohandmaxdam = optional(fields, "twohandmaxdam"@, u8_decoder());
            if mindam is Err {
                Err(mindam->Err_0)
            } else if maxdam is Err {
                Err(maxdam->Err_0)
            } else if twohandmindam is Err {
                Err(twohandmindam->Err_0)
            } else if twohandmaxdam is Err {
                Err(twohandmaxdam->Err_0)
            } else {
                Ok(
                    WeaponDamage {
                        mindam: mindam->Ok_0,
                        maxdam: maxdam->Ok_0,
                        twohandmindam: twohandmindam->Ok_0,
                        twohandmaxdam: twohandmaxdam->Ok_0,
                    },
                )
            }
        },
        _ => Err(fail(DecodeErrorKind::InvalidType)),
    }
}

/// One modifier: an object with an id, a name and values; the rest may be
/// missing.
pub open spec fn property_of(j: Json) -> Result<MagicPropertyView, DecodeErrorView> {
    match j {
        Json::Object(members) => {
            let fields = members@;
            let id = required(fields, "id"@, u32_decoder());
            let name = required(fields, "name"@, string_decoder());
            let values = required(fields, "values"@, i32s_decoder());
            let description = optional(fields, "description"@, string_decoder());
            let visible = optional(fields, "visible"@, bool_decoder());
            let op_value = optional(fields, "op_value"@, u32_decoder());
            let op_stats = optional(fields, "op_stats"@, strings_decoder());
            if id is Err {
                Err(id->Err_0)
            } else if name is Err {
                Err(name->Err_0)
            } else if values is Err {
                Err(values->Err_0)
            } else if description is Err {
                Err(description->Err_0)
            } else if visible is Err {
                Err(visible->Err_0)
            } else if op_value is Err {
                Err(op_value->Err_0)
            } else if op_stats is Err {
                Err(op_stats->Err_0)
            } else {
                Ok(
                    MagicPropertyView {
                        id: id->Ok_0,
                        name: name->Ok_0,
                        values: values->Ok_0,
                        description: description->Ok_0,
                        visible: visible->Ok_0,
                        op_value: op_value->Ok_0,
                        op_stats: op_stats->Ok_0,
                    },
                )
            }
        },
        _ => Err(fail(DecodeErrorKind::InvalidType)),
    }
}

/// A list of modifiers.
pub open spec fn properties_of(j: Json) -> Result<Seq<MagicPropertyView>, DecodeErrorView> {
    array_of(j, property_decoder())
}

/// A list of lists of modifiers.
pub open spec fn property_lists_of(j: Json) -> Result<
    Seq<Seq<MagicPropertyView>>,
    DecodeErrorView,
> {
    array_of(j, properties_decoder())
}

/// The four flags of a character: an object with each of them as a boolean.
pub open spec fn status_of(j: Json) -> Result<CharacterDataStatus, DecodeErrorView> {
    match j {
        Json::Object(members) => {
            let fields = members@;
            let expansion = required(fields, "expansion"@, bool_decoder());
            let died = required(fields, "died"@, bool_decoder());
            let hardcore = required(fields, "hardcore"@, bool_decoder());
            let ladder = required(fields, "ladder"@, bool_decoder());
            if expansion is Err {
                Err(expansion->Err_0)
            } else if died is Err {
                Err(died->Err_0)
            } else if hardcore is Err {
                Err(hardcore->Err_0)
            } else if ladder is Err {
                Err(ladder->Err_0)
            } else {
                Ok(
                    CharacterDataStatus {
                        expansion: expansion->Ok_0,
                        died: died->Ok_0,
                        hardcore: hardcore->Ok_0,
                        ladder: ladder->Ok_0,
                    },
                )
            }
        },
        _ => Err(fail(DecodeErrorKind::InvalidType)),
    }
}

/// The summary of a character: an object with each of its fields.
pub open spec fn header_of(j: Json) -> Result<CharacterDataHeaderView, DecodeErrorView> {
    match j {
        Json::Object(members) => {
            let fields = members@;
            let identifier = required(fields, "identifier"@, string_decoder());
            let name = required(fields, "name"@, string_decoder());
            let level = required(fields, "level"@, u8_decoder());
            let class = required(fields, "class"@, string_decoder());
            let status = required(fields, "status"@, status_decoder());
            let created = required(fields, "created"@, u32_decoder());
            let last_played = required(fields, "last_played"@, u32_decoder());
            if identifier is Err {
                Err(identifier->Err_0)
            } else if name is Err {
                Err(name->Err_0)
            } else if level is Err {
                Err(level->Err_0)
            } else if class is Err {
                Err(class->Err_0)
            } else if status is Err {
                Err(status->Err_0)
            } else if created is Err {
                Err(created->Err_0)
            } else if last_played is Err {
                Err(last_played->Err_0)
            } else {
                Ok(
                    CharacterDataHeaderView {
                        identifier: identifier->Ok_0,
                        name: name->Ok_0,
                        level: level->Ok_0,
                        class: class->Ok_0,
                        status: status->Ok_0,
                        created: created->Ok_0,
                        last_played: last_played->Ok_0,
                    },
                )
            }
        },
        _ => Err(fail(DecodeErrorKind::InvalidType)),
    }
}

/// The attributes that the first `n` members of an object give: each member
/// is an attribute of its name, with an unsigned integer of 32 bits as its
/// value. The first member whose value is none is the error, at its name.
pub open spec fn attributes_upto(fields: Seq<JsonField>, n: nat) -> Result<
    Map<Seq<char>, u32>,
    DecodeErrorView,
>
    decreases n,
{
    if n == 0 {
        Ok(Map::empty())
    } else {
        match attributes_upto(fields, (n - 1) as nat) {
            Err(e) => Err(e),
            Ok(before) => match u32_of(fields[n - 1].value) {
                Ok(v) => Ok(before.insert(fields[n - 1].name@, v)),
                Err(e) => Err(under(e, PathSegmentView::Field(fields[n - 1].name@))),
            },
        }
    }
}

/// The attributes of a character: an object, each member an attribute.
pub open spec fn attributes_of(j: Json) -> Result<Map<Seq<char>, u32>, DecodeErrorView> {
    match j {
        Json::Object(members) => attributes_upto(members@, members@.len()),
        _ => Err(fail(DecodeErrorKind::InvalidType)),
    }
}

/// The first `n` items of a list, decoded in order: the first one that does
/// not decode is the error, at its index.
pub open spec fn items_of(items: Seq<Json>, n: nat) -> Result<Seq<ItemDataView>, DecodeErrorView>
    decreases items, n,
{
    if n == 0 || n > items.len() {
        Ok(Seq::empty())
    } else {
        match items_of(items, (n - 1) as nat) {
            Err(e) => Err(e),
            Ok(before) => match item_of(items[n - 1]) {
                Ok(v) => Ok(before.push(v)),
                Err(e) => Err(under(e, PathSegmentView::Index((n - 1) as nat))),
            },
        }
    }
}

/// The items in the sockets of an item, where the field is there and not
/// `null`: an array of items.
pub open spec fn socketed_of(fields: Seq<JsonField>) -> Result<
    Option<Seq<ItemDataView>>,
    DecodeErrorView,
>
    decreases fields, 0nat,
{
    let at = field_index(fields, "socketed_items"@);
    if 0 <= at < fields.len() {
        match fields[at].value {
            Json::Null => Ok(None),
            Json::Array(children) => match items_of(children@, children@.len()) {
                Ok(items) => Ok(Some(items)),
                Err(e) => Err(under(e, PathSegmentView::Field("socketed_items"@))),
            },
            _ => Err(
                under(
                    fail(DecodeErrorKind::InvalidType),
                    PathSegmentView::Field("socketed_items"@),
                ),
            ),
        }
    } else {
        Ok(None)
    }
}

/// The flags of an item, each 0 or 1, and the name on a personalized one. The
/// fields are the members of the object that is the item.
#[verifier::opaque]
pub open spec fn flags_of(fields: Seq<JsonField>) -> Result<ItemFlagsView, DecodeErrorView> {
    let identified = required(fields, "identified"@, u8_decoder());
    let socketed = required(fields, "socketed"@, u8_decoder());
    let new = required(fields, "new"@, u8_decoder());
    let is_ear = required(fields, "is_ear"@, u8_decoder());
    let starter_item = required(fields, "starter_item"@, u8_decoder());
    let simple_item = required(fields, "simple_item"@, u8_decoder());
    let ethereal = required(fields, "ethereal"@, u8_decoder());
    let personalized = required(fields, "personalized"@, u8_decoder());
    let personalized_name = optional(fields, "personalized_name"@, string_decoder());
    let given_runeword = required(fields, "given_runeword"@, u8_decoder());
    if identified is Err {
        Err(identified->Err_0)
    } else if socketed is Err {
        Err(socketed->Err_0)
    } else if new is Err {
        Err(new->Err_0)
    } else if is_ear is Err {
        Err(is_ear->Err_0)
    } else if starter_item is Err {
        Err(starter_item->Err_0)
    } else if simple_item is Err {
        Err(simple_item->Err_0)
    } else if ethereal is Err {
        Err(ethereal->Err_0)
    } else if personalized is Err {
        Err(personalized->Err_0)
    } else if personalized_name is Err {
        Err(personalized_name->Err_0)
    } else if given_runeword is Err {
        Err(given_runeword->Err_0)
    } else {
        Ok(
            ItemFlagsView {
                identified: identified->Ok_0,
                socketed: socketed->Ok_0,
                new: new->Ok_0,
                is_ear: is_ear->Ok_0,
                starter_item: starter_item->Ok_0,
                simple_item: simple_item->Ok_0,
                ethereal: ethereal->Ok_0,
                personalized: personalized->Ok_0,
                personalized_name: personalized_name->Ok_0,
                given_runeword: given_runeword->Ok_0,
            },
        )
    }
}

/// Where an item is: its location, the slot it is equipped in, and its place
/// in a grid. The fields are the members of the object that is the item.
#[verifier::opaque]
pub open spec fn placement_of(fields: Seq<JsonField>) -> Result<
    ItemPlacementView,
    DecodeErrorView,
> {
    let location_id = required(fields, "location_id"@, u8_decoder());
    let equipped_id = required(fields, "equipped_id"@, u8_decoder());
    let position_x = required(fields, "position_x"@, u8_decoder());
    let position_y = required(fields, "position_y"@, u8_decoder());
    let alt_position_id = required(fields, "alt_position_id"@, u8_decoder());
    if location_id is Err {
        Err(location_id->Err_0)
    } else if equipped_id is Err {
        Err(equipped_id->Err_0)
    } else if position_x is Err {
        Err(position_x->Err_0)
    } else if position_y is Err {
        Err(position_y->Err_0)
    } else if alt_position_id is Err {
        Err(alt_position_id->Err_0)
    } else {
        Ok(
            ItemPlacementView {
                location_id: location_id->Ok_0,
                equipped_id: equipped_id->Ok_0,
                position_x: position_x->Ok_0,
                position_y: position_y->Ok_0,
                alt_position_id: alt_position_id->Ok_0,
            },
        )
    }
}

/// What an item is: its type, by code and by name, and how it shows in an
/// inventory. The fields are the members of the object that is the item.
#[verifier::opaque]
pub open spec fn kind_of(fields: Seq<JsonField>) -> Result<ItemKindView, DecodeErrorView> {
    let version = required(fields, "version"@, string_decoder());
    let type_code = required(fields, "type"@, string_decoder());
    let type_id = required(fields, "type_id"@, u8_decoder());
    let type_label = required(fields, "type_name"@, string_decoder());
    let quest_difficulty = optional(fields, "quest_difficulty"@, u8_decoder());
    let inv_width = required(fields, "inv_width"@, u8_decoder());
    let inv_height = required(fields, "inv_height"@, u8_decoder());
    let inv_file = required(fields, "inv_file"@, string_decoder());
    let inv_transform = optional(fields, "inv_transform"@, u8_decoder());
    let transform_color = optional(fields, "transform_color"@, string_decoder());
    let item_quality = optional(fields, "item_quality"@, quality_decoder());
    let categories = required(fields, "categories"@, strings_decoder());
    if version is Err {
        Err(version->Err_0)
    } else if type_code is Err {
        Err(type_code->Err_0)
    } else if type_id is Err {
        Err(type_id->Err_0)
    } else if type_label is Err {
        Err(type_label->Err_0)
    } else if quest_difficulty is Err {
        Err(quest_difficulty->Err_0)
    } else if inv_width is Err {
        Err(inv_width->Err_0)
    } else if inv_height is Err {
        Err(inv_height->Err_0)
    } else if inv_file is Err {
        Err(inv_file->Err_0)
    } else if inv_transform is Err {
        Err(inv_transform->Err_0)
    } else if transform_color is Err {
        Err(transform_color->Err_0)
    } else if item_quality is Err {
        Err(item_quality->Err_0)
    } else if categories is Err {
        Err(categories->Err_0)
    } else {
        Ok(
            ItemKindView {
                version: version->Ok_0,
                type_code: type_code->Ok_0,
                type_id: type_id->Ok_0,
                type_label: type_label->Ok_0,
                quest_difficulty: quest_difficulty->Ok_0,
                inv_width: inv_width->Ok_0,
                inv_height: inv_height->Ok_0,
                inv_file: inv_file->Ok_0,
                inv_transform: inv_transform->Ok_0,
                transform_color: transform_color->Ok_0,
                item_quality: item_quality->Ok_0,
                categories: categories->Ok_0,
            },
        )
    }
}

/// What only an item that is not simple has: an id, a level, a quality and its
/// pictures. The fields are the members of the object that is the item.
#[verifier::opaque]
pub open spec fn identity_of(fields: Seq<JsonField>) -> Result<ItemIdentityView, DecodeErrorView> {
    let id = optional(fields, "id"@, u32_decoder());
    let level = optional(fields, "level"@, u8_decoder());
    let quality = optional(fields, "quality"@, u8_decoder());
    let multiple_pictures = optional(fields, "multiple_pictures"@, u8_decoder());
    let picture_id = optional(fields, "picture_id"@, u8_decoder());
    let class_specific = optional(fields, "class_specific"@, u8_decoder());
    let low_quality_id = optional(fields, "low_quality_id"@, u8_decoder());
    let timestamp = optional(fields, "timestamp"@, u8_decoder());
    let file_index = optional(fields, "file_index"@, u8_decoder());
    let auto_affix_id = optional(fields, "auto_affix_id"@, u8_decoder());
    if id is Err {
        Err(id->Err_0)
    } else if level is Err {
        Err(level->Err_0)
    } else if quality is Err {
        Err(quality->Err_0)
    } else if multiple_pictures is Err {
        Err(multiple_pictures->Err_0)
    } else if picture_id is Err {
        Err(picture_id->Err_0)
    } else if class_specific is Err {
        Err(class_specific->Err_0)
    } else if low_quality_id is Err {
        Err(low_quality_id->Err_0)
    } else if timestamp is Err {
        Err(timestamp->Err_0)
    } else if file_index is Err {
        Err(file_index->Err_0)
    } else if auto_affix_id is Err {
        Err(auto_affix_id->Err_0)
    } else {
        Ok(
            ItemIdentityView {
                id: id->Ok_0,
                level: level->Ok_0,
                quality: quality->Ok_0,
                multiple_pictures: multiple_pictures->Ok_0,
                picture_id: picture_id->Ok_0,
                class_specific: class_specific->Ok_0,
                low_quality_id: low_quality_id->Ok_0,
                timestamp: timestamp->Ok_0,
                file_index: file_index->Ok_0,
                auto_affix_id: auto_affix_id->Ok_0,
            },
        )
    }
}

/// Defense, durability, quantity, damage and requirements, each where the kind
/// of item has it. The fields are the members of the object that is the item.
#[verifier::opaque]
pub open spec fn stats_of(fields: Seq<JsonField>) -> Result<ItemStatsView, DecodeErrorView> {
    let defense_rating = optional(fields, "defense_rating"@, u16_decoder());
    let max_durability = optional(fields, "max_durability"@, u16_decoder());
    let current_durability = optional(fields, "current_durability"@, u16_decoder());
    let quantity = optional(fields, "quantity"@, u16_decoder());
    let base_damage = optional(fields, "base_damage"@, damage_decoder());
    let reqstr = optional(fields, "reqstr"@, u8_decoder());
    let reqdex = optional(fields, "reqdex"@, u8_decoder());
    if defense_rating is Err {
        Err(defense_rating->Err_0)
    } else if max_durability is Err {
        Err(max_durability->Err_0)
    } else if current_durability is Err {
        Err(current_durability->Err_0)
    } else if quantity is Err {
        Err(quantity->Err_0)
    } else if base_damage is Err {
        Err(base_damage->Err_0)
    } else if reqstr is Err {
        Err(reqstr->Err_0)
    } else if reqdex is Err {
        Err(reqdex->Err_0)
    } else {
        Ok(
            ItemStatsView {
                defense_rating: defense_rating->Ok_0,
                max_durability: max_durability->Ok_0,
                current_durability: current_durability->Ok_0,
                quantity: quantity->Ok_0,
                base_damage: base_damage->Ok_0,
                reqstr: reqstr->Ok_0,
                reqdex: reqdex->Ok_0,
            },
        )
    }
}

/// The sockets of an item and the items in them. The fields are the members of
/// the object that is the item.
pub open spec fn sockets_of(fields: Seq<JsonField>) -> Result<ItemSocketsView, DecodeErrorView>
    decreases fields, 1nat,
{
    let nr_of_items_in_sockets = required(fields, "nr_of_items_in_sockets"@, u8_decoder());
    let total_nr_of_sockets = optional(fields, "total_nr_of_sockets"@, u8_decoder());
    let socketed_items = socketed_of(fields);
    if nr_of_items_in_sockets is Err {
        Err(nr_of_items_in_sockets->Err_0)
    } else if total_nr_of_sockets is Err {
        Err(total_nr_of_sockets->Err_0)
    } else if socketed_items is Err {
        Err(socketed_items->Err_0)
    } else {
        Ok(
            ItemSocketsView {
                nr_of_items_in_sockets: nr_of_items_in_sockets->Ok_0,
                total_nr_of_sockets: total_nr_of_sockets->Ok_0,
                socketed_items: socketed_items->Ok_0,
            },
        )
    }
}

/// The prefix, the suffix and the modifiers of a magic item. The fields are
/// the members of the object that is the item.
#[verifier::opaque]
pub open spec fn magic_of(fields: Seq<JsonField>) -> Result<MagicAffixesView, DecodeErrorView> {
    let magic_prefix = optional(fields, "magic_prefix"@, u16_decoder());
    let magic_prefix_name = optional(fields, "magic_prefix_name"@, string_decoder());
    let magic_suffix = optional(fields, "magic_suffix"@, u16_decoder());
    let magic_suffix_name = optional(fields, "magic_suffix_name"@, string_decoder());
    let magical_name_ids = optional(fields, "magical_name_ids"@, u16_options_decoder());
    let magic_attributes = optional(fields, "magic_attributes"@, properties_decoder());
    let combined_magic_attributes = optional(
        fields,
        "combined_magic_attributes"@,
        properties_decoder(),
    );
    if magic_prefix is Err {
        Err(magic_prefix->Err_0)
    } else if magic_prefix_name is Err {
        Err(magic_prefix_name->Err_0)
    } else if magic_suffix is Err {
        Err(magic_suffix->Err_0)
    } else if magic_suffix_name is Err {
        Err(magic_suffix_name->Err_0)
    } else if magical_name_ids is Err {
        Err(magical_name_ids->Err_0)
    } else if magic_attributes is Err {
        Err(magic_attributes->Err_0)
    } else if combined_magic_attributes is Err {
        Err(combined_magic_attributes->Err_0)
    } else {
        Ok(
            MagicAffixesView {
                magic_prefix: magic_prefix->Ok_0,
                magic_prefix_name: magic_prefix_name->Ok_0,
                magic_suffix: magic_suffix->Ok_0,
                magic_suffix_name: magic_suffix_name->Ok_0,
                magical_name_ids: magical_name_ids->Ok_0,
                magic_attributes: magic_attributes->Ok_0,
                combined_magic_attributes: combined_magic_attributes->Ok_0,
            },
        )
    }
}

/// The names of a rare item and of a unique one. The fields are the members of
/// the object that is the item.
#[verifier::opaque]
pub open spec fn names_of(fields: Seq<JsonField>) -> Result<ItemNamesView, DecodeErrorView> {
    let rare_name = optional(fields, "rare_name"@, string_decoder());
    let rare_name2 = optional(fields, "rare_name2"@, string_decoder());
    let rare_name_id = optional(fields, "rare_name_id"@, u8_decoder());
    let rare_name_id2 = optional(fields, "rare_name_id2"@, u8_decoder());
    let unique_id = optional(fields, "unique_id"@, u16_decoder());
    let unique_name = optional(fields, "unique_name"@, string_decoder());
    if rare_name is Err {
        Err(rare_name->Err_0)
    } else if rare_name2 is Err {
        Err(rare_name2->Err_0)
    } else if rare_name_id is Err {
        Err(rare_name_id->Err_0)
    } else if rare_name_id2 is Err {
        Err(rare_name_id2->Err_0)
    } else if unique_id is Err {
        Err(unique_id->Err_0)
    } else if unique_name is Err {
        Err(unique_name->Err_0)
    } else {
        Ok(
            ItemNamesView {
                rare_name: rare_name->Ok_0,
                rare_name2: rare_name2->Ok_0,
                rare_name_id: rare_name_id->Ok_0,
                rare_name_id2: rare_name_id2->Ok_0,
                unique_id: unique_id->Ok_0,
                unique_name: unique_name->Ok_0,
            },
        )
    }
}

/// The runeword of an item and what it grants. The fields are the members of
/// the object that is the item.
#[verifier::opaque]
pub open spec fn runeword_of(fields: Seq<JsonField>) -> Result<RunewordBonusView, DecodeErrorView> {
    let runeword_id = optional(fields, "runeword_id"@, u16_decoder());
    let runeword_name = optional(fields, "runeword_name"@, string_decoder());
    let runeword_attributes = optional(fields, "runeword_attributes"@, properties_decoder());
    if runeword_id is Err {
        Err(runeword_id->Err_0)
    } else if runeword_name is Err {
        Err(runeword_name->Err_0)
    } else if runeword_attributes is Err {
        Err(runeword_attributes->Err_0)
    } else {
        Ok(
            RunewordBonusView {
                runeword_id: runeword_id->Ok_0,
                runeword_name: runeword_name->Ok_0,
                runeword_attributes: runeword_attributes->Ok_0,
            },
        )
    }
}

/// The set of a set item and its bonuses, one list of modifiers for each tier.
/// The fields are the members of the object that is the item.
#[verifier::opaque]
pub open spec fn set_of(fields: Seq<JsonField>) -> Result<SetBonusView, DecodeErrorView> {
    let set_id = optional(fields, "set_id"@, u16_decoder());
    let set_name = optional(fields, "set_name"@, string_decoder());
    let set_list_count = optional(fields, "set_list_count"@, u8_decoder());
    let set_attributes = optional(fields, "set_attributes"@, property_lists_decoder());
    let set_attributes_num_req = optional(fields, "set_attributes_num_req"@, u8_decoder());
    let set_attributes_ids_req = optional(fields, "set_attributes_ids_req"@, u8_decoder());
    if set_id is Err {
        Err(set_id->Err_0)
    } else if set_name is Err {
        Err(set_name->Err_0)
    } else if set_list_count is Err {
        Err(set_list_count->Err_0)
    } else if set_attributes is Err {
        Err(set_attributes->Err_0)
    } else if set_attributes_num_req is Err {
        Err(set_attributes_num_req->Err_0)
    } else if set_attributes_ids_req is Err {
        Err(set_attributes_ids_req->Err_0)
    } else {
        Ok(
            SetBonusView {
                set_id: set_id->Ok_0,
                set_name: set_name->Ok_0,
                set_list_count: set_list_count->Ok_0,
                set_attributes: set_attributes->Ok_0,
                set_attributes_num_req: set_attributes_num_req->Ok_0,
                set_attributes_ids_req: set_attributes_ids_req->Ok_0,
            },
        )
    }
}

/// The modifiers of an item as they are shown. The fields are the members of
/// the object that is the item.
#[verifier::opaque]
pub open spec fn displayed_of(fields: Seq<JsonField>) -> Result<
    DisplayedAttributesView,
    DecodeErrorView,
> {
    let displayed_magic_attributes = optional(
        fields,
        "displayed_magic_attributes"@,
        properties_decoder(),
    );
    let displayed_runeword_attributes = optional(
        fields,
        "displayed_runeword_attributes"@,
        properties_decoder(),
    );
    let displayed_combined_magic_attributes = optional(
        fields,
        "displayed_combined_magic_attributes"@,
        properties_decoder(),
    );
    if displayed_magic_attributes is Err {
        Err(displayed_magic_attributes->Err_0)
    } else if displayed_runeword_attributes is Err {
        Err(displayed_runeword_attributes->Err_0)
    } else if displayed_combined_magic_attributes is Err {
        Err(displayed_combined_magic_attributes->Err_0)
    } else {
        Ok(
            DisplayedAttributesView {
                displayed_magic_attributes: displayed_magic_attributes->Ok_0,
                displayed_runeword_attributes: displayed_runeword_attributes->Ok_0,
                displayed_combined_magic_attributes: displayed_combined_magic_attributes->Ok_0,
            },
        )
    }
}

/// One item: an object, which each group of its fields is read from.
pub open spec fn item_of(j: Json) -> Result<ItemDataView, DecodeErrorView>
    decreases j, 0nat,
{
    match j {
        Json::Object(members) => {
            let fields = members@;
            let flags = flags_of(fields);
            let placement = placement_of(fields);
            let kind = kind_of(fields);
            let identity = identity_of(fields);
            let stats = stats_of(fields);
            let sockets = sockets_of(fields);
            let magic = magic_of(fields);
            let names = names_of(fields);
            let runeword = runeword_of(fields);
            let set = set_of(fields);
            let displayed = displayed_of(fields);
            if flags is Err {
                Err(flags->Err_0)
            } else if placement is Err {
                Err(placement->Err_0)
            } else if kind is Err {
                Err(kind->Err_0)
            } else if identity is Err {
                Err(identity->Err_0)
            } else if stats is Err {
                Err(stats->Err_0)
            } else if sockets is Err {
                Err(sockets->Err_0)
            } else if magic is Err {
                Err(magic->Err_0)
            } else if names is Err {
                Err(names->Err_0)
            } else if runeword is Err {
                Err(runeword->Err_0)
            } else if set is Err {
                Err(set->Err_0)
            } else if displayed is Err {
                Err(displayed->Err_0)
            } else {
                Ok(
                    ItemDataView {
                        flags: flags->Ok_0,
                        placement: placement->Ok_0,
                        kind: kind->Ok_0,
                        identity: identity->Ok_0,
                        stats: stats->Ok_0,
                        sockets: sockets->Ok_0,
                        magic: magic->Ok_0,
                        names: names->Ok_0,
                        runeword: runeword->Ok_0,
                        set: set->Ok_0,
                        displayed: displayed->Ok_0,
                    },
                )
            }
        },
        _ => Err(fail(DecodeErrorKind::InvalidType)),
    }
}

/// A list of items.
pub open spec fn item_list_of(j: Json) -> Result<Seq<ItemDataView>, DecodeErrorView> {
    match j {
        Json::Array(items) => items_of(items@, items@.len()),
        _ => Err(fail(DecodeErrorKind::InvalidType)),
    }
}

/// A list of items in a field that must be there.
pub open spec fn required_items(fields: Seq<JsonField>, name: Seq<char>) -> Result<
    Seq<ItemDataView>,
    DecodeErrorView,
> {
    let at = field_index(fields, name);
    if 0 <= at < fields.len() {
        crate::d2::json::at(item_list_of(fields[at].value), PathSegmentView::Field(name))
    } else {
        Err(under(fail(DecodeErrorKind::MissingField), PathSegmentView::Field(name)))
    }
}

/// A character: an object with a header, attributes and the three lists of
/// items.
pub open spec fn character_data_of(j: Json) -> Result<CharacterDataView, DecodeErrorView> {
    match j {
        Json::Object(members) => {
            let fields = members@;
            let header = required(fields, "header"@, header_decoder());
            let attributes = required(fields, "attributes"@, attributes_decoder());
            let items = required_items(fields, "items"@);
            let corpse_items = required_items(fields, "corpse_items"@);
            let merc_items = required_items(fields, "merc_items"@);
            if header is Err {
                Err(header->Err_0)
            } else if attributes is Err {
                Err(attributes->Err_0)
            } else if items is Err {
                Err(items->Err_0)
            } else if corpse_items is Err {
                Err(corpse_items->Err_0)
            } else if merc_items is Err {
                Err(merc_items->Err_0)
            } else {
                Ok(
                    CharacterDataView {
                        header: header->Ok_0,
                        attributes: attributes->Ok_0,
                        items: items->Ok_0,
                        corpse_items: corpse_items->Ok_0,
                        merc_items: merc_items->Ok_0,
                    },
                )
            }
        },
        _ => Err(fail(DecodeErrorKind::InvalidType)),
    }
}

/// What a text decodes to: the character of the tree that the text stands
/// for, or a syntax error where it stands for none.
pub open spec fn character_document(text: Seq<char>) -> Result<
    CharacterDataView,
    DecodeErrorView,
> {
    match json_document(text) {
        None => Err(fail(DecodeErrorKind::Syntax)),
        Some(json) => character_data_of(json),
    }
}

/// A document without a member `header` does not decode: the header is
/// the field that is missing, whatever else the document holds.
pub proof fn document_without_header_fails(j: Json)
    requires
        j matches Json::Object(members) && field_value(members@, "header"@) is None,
    ensures
        character_data_of(j) == Err::<CharacterDataView, DecodeErrorView>(
            under(fail(DecodeErrorKind::MissingField), PathSegmentView::Field("header"@)),
        ),
{
}

/// Once an item of a list has failed to decode, the items behind it change
/// nothing.
pub proof fn items_error_persists(items: Seq<Json>, n: nat, m: nat)
    requires
        n <= m <= items.len(),
        items_of(items, n) is Err,
    ensures
        items_of(items, m) == items_of(items, n),
    decreases m,
{
    if n < m {
        items_error_persists(items, n, (m - 1) as nat);
    }
}

/// Once a member of an object has failed to decode as an attribute, the
/// members behind it change nothing.
pub proof fn attributes_error_persists(fields: Seq<JsonField>, n: nat, m: nat)
    requires
        n <= m,
        attributes_upto(fields, n) is Err,
    ensures
        attributes_upto(fields, m) == attributes_upto(fields, n),
    decreases m,
{
    if n < m {
        attributes_error_persists(fields, n, (m - 1) as nat);
    }
}

/// Decodes the tier of an item's base type.
pub fn decode_quality(j: &Json) -> (r: Result<ItemQuality, DecodeError>)
    ensures
        agrees(r, quality_of(*j)),
{
    match decode_u8(j) {
        Err(e) => Err(e),
        Ok(ordinal) => {
            if ordinal == 0 {
                Ok(ItemQuality::normal)
            } else if ordinal == 1 {
                Ok(ItemQuality::exceptional)
            } else if ordinal == 2 {
                Ok(ItemQuality::elite)
            } else {
                Err(DecodeError::new(DecodeErrorKind::InvalidValue))
            }
        },
    }
}

/// Decodes the damage of a weapon.
pub fn decode_damage(j: &Json) -> (r: Result<WeaponDamage, DecodeError>)
    ensures
        agrees(r, damage_of(*j)),
{
    let fields: &Vec<JsonField> = match j {
        Json::Object(members) => members,
        _ => return Err(DecodeError::new(DecodeErrorKind::InvalidType)),
    };
    let mindam: Option<u8> = match opt_u8(fields, "mindam") {
        Ok(v) => v,
        Err(e) => return Err(e),
    };
    let maxdam: Option<u8> = match opt_u8(fields, "maxdam") {
        Ok(v) => v,
        Err(e) => return Err(e),
    };
    let twohandmindam: Option<u8> = match opt_u8(fields, "twohandmindam") {
        Ok(v) => v,
        Err(e) => return Err(e),
    };
    let twohandmaxdam: Option<u8> = match opt_u8(fields, "twohandmaxdam") {
        Ok(v) => v,
        Err(e) => return Err(e),
    };
    Ok(
        WeaponDamage {
            mindam,
            maxdam,
            twohandmindam,
            twohandmaxdam,
        },
    )
}

/// Decodes one modifier.
pub fn decode_property(j: &Json) -> (r: Result<MagicProperty, DecodeError>)
    ensures
        agrees(r, property_of(*j)),
{
    let fields: &Vec<JsonField> = match j {
        Json::Object(members) => members,
        _ => return Err(DecodeError::new(DecodeErrorKind::InvalidType)),
    };
    let id: u32 = match req_u32(fields, "id") {
        Ok(v) => v,
        Err(e) => return Err(e),
    };
    let name: String = match req_string(fields, "name") {
        Ok(v) => v,
        Err(e) => return Err(e),
    };
    let values: Vec<i32> = match req_i32s(fields, "values") {
        Ok(v) => v,
        Err(e) => return Err(e),
    };
    let description: Option<String> = match opt_string(fields, "description") {
        Ok(v) => v,
        Err(e) => return Err(e),
    };
    let visible: Option<bool> = match opt_bool(fields, "visible") {
        Ok(v) => v,
        Err(e) => return Err(e),
    };
    let op_value: Option<u32> = match opt_u32(fields, "op_value") {
        Ok(v) => v,
        Err(e) => return Err(e),
    };
    let op_stats: Option<Vec<String>> = match opt_strings(fields, "op_stats") {
        Ok(v) => v,
        Err(e) => return Err(e),
    };
    Ok(
        MagicProperty {
            id,
            name,
            values,
            description,
            visible,
            op_value,
            op_stats,
        },
    )
}

/// Decodes a list of modifiers.
pub fn decode_properties(j: &Json) -> (r: Result<Vec<MagicProperty>, DecodeError>)
    ensures
        agrees(r, properties_of(*j)),
{
    let items: &Vec<Json> = match j {
        Json::Array(items) => items,
        _ => return Err(DecodeError::new(DecodeErrorKind::InvalidType)),
    };
    let mut out: Vec<MagicProperty> = Vec::new();
    let mut i: usize = 0;
    assert(out.deep_view() =~= Seq::<MagicPropertyView>::empty());
    while i < items.len()
        invariant
            i <= items@.len(),
            *j == Json::Array(*items),
            list_of(items@, i as nat, property_decoder()) == Ok::<
                Seq<MagicPropertyView>,
                DecodeErrorView,
            >(out.deep_view()),
        decreases items@.len() - i,
    {
        match decode_property(&items[i]) {
            Ok(v) => {
                let ghost before = out.deep_view();
                let ghost added = v.deep_view();
                out.push(v);
                assert(out.deep_view() =~= before.push(added));
            },
            Err(e) => {
                proof {
                    list_error_persists(
                        items@,
                        (i + 1) as nat,
                        items@.len(),
                        property_decoder(),
                    );
                }
                return Err(e.under_index(i));
            },
        }
        i += 1;
    }
    Ok(out)
}

/// Decodes a list of lists of modifiers.
pub fn decode_property_lists(j: &Json) -> (r: Result<Vec<Vec<MagicProperty>>, DecodeError>)
    ensures
        agrees(r, property_lists_of(*j)),
{
    let items: &Vec<Json> = match j {
        Json::Array(items) => items,
        _ => return Err(DecodeError::new(DecodeErrorKind::InvalidType)),
    };
    let mut out: Vec<Vec<MagicProperty>> = Vec::new();
    let mut i: usize = 0;
    assert(out.deep_view() =~= Seq::<Seq<MagicPropertyView>>::empty());
    while i < items.len()
        invariant
            i <= items@.len(),
            *j == Json::Array(*items),
            list_of(items@, i as nat, properties_decoder()) == Ok::<
                Seq<Seq<MagicPropertyView>>,
                DecodeErrorView,
            >(out.deep_view()),
        decreases items@.len() - i,
    {
        match decode_properties(&items[i]) {
            Ok(v) => {
                let ghost before = out.deep_view();
                let ghost added = v.deep_view();
                out.push(v);
                assert(out.deep_view() =~= before.push(added));
            },
            Err(e) => {
                proof {
                    list_error_persists(
                        items@,
                        (i + 1) as nat,
                        items@.len(),
                        properties_decoder(),
                    );
                }
                return Err(e.under_index(i));
            },
        }
        i += 1;
    }
    Ok(out)
}


/// Decodes the four flags of a character.
pub fn decode_status(j: &Json) -> (r: Result<CharacterDataStatus, DecodeError>)
    ensures
        agrees(r, status_of(*j)),
{
    let fields: &Vec<JsonField> = match j {
        Json::Object(members) => members,
        _ => return Err(DecodeError::new(DecodeErrorKind::InvalidType)),
    };
    let expansion: bool = match req_bool(fields, "expansion") {
        Ok(v) => v,
        Err(e) => return Err(e),
    };
    let died: bool = match req_bool(fields, "died") {
        Ok(v) => v,
        Err(e) => return Err(e),
    };
    let hardcore: bool = match req_bool(fields, "hardcore") {
        Ok(v) => v,
        Err(e) => return Err(e),
    };
    let ladder: bool = match req_bool(fields, "ladder") {
        Ok(v) => v,
        Err(e) => return Err(e),
    };
    Ok(
        CharacterDataStatus {
            expansion,
            died,
            hardcore,
            ladder,
        },
    )
}

/// Decodes the summary of a character.
pub fn decode_header(j: &Json) -> (r: Result<CharacterDataHeader, DecodeError>)
    ensures
        agrees(r, header_of(*j)),
{
    let fields: &Vec<JsonField> = match j {
        Json::Object(members) => members,
        _ => return Err(DecodeError::new(DecodeErrorKind::InvalidType)),
    };
    let identifier: String = match req_string(fields, "identifier") {
        Ok(v) => v,
        Err(e) => return Err(e),
    };
    let name: String = match req_string(fields, "name") {
        Ok(v) => v,
        Err(e) => return Err(e),
    };
    let level: u8 = match req_u8(fields, "level") {
        Ok(v) => v,
        Err(e) => return Err(e),
    };
    let class: String = match req_string(fields, "class") {
        Ok(v) => v,
        Err(e) => return Err(e),
    };
    let status: CharacterDataStatus = match req_status(fields, "status") {
        Ok(v) => v,
        Err(e) => return Err(e),
    };
    let created: u32 = match req_u32(fields, "created") {
        Ok(v) => v,
        Err(e) => return Err(e),
    };
    let last_played: u32 = match req_u32(fields, "last_played") {
        Ok(v) => v,
        Err(e) => return Err(e),
    };
    Ok(
        CharacterDataHeader {
            identifier,
            name,
            level,
            class,
            status,
            created,
            last_played,
        },
    )
}

/// Decodes the attributes of a character.
pub fn decode_attributes(j: &Json) -> (r: Result<CharacterDataAttributes, DecodeError>)
    ensures
        agrees(r, attributes_of(*j)),
{
    let fields: &Vec<JsonField> = match j {
        Json::Object(members) => members,
        _ => return Err(DecodeError::new(DecodeErrorKind::InvalidType)),
    };
    let mut out = CharacterDataAttributes::new();
    let mut i: usize = 0;
    while i < fields.len()
        invariant
            i <= fields@.len(),
            *j == Json::Object(*fields),
            attributes_upto(fields@, i as nat) == Ok::<Map<Seq<char>, u32>, DecodeErrorView>(out@),
        decreases fields@.len() - i,
    {
        match decode_u32(&fields[i].value) {
            Ok(v) => {
                out.insert(fields[i].name.clone(), v);
            },
            Err(e) => {
                proof {
                    attributes_error_persists(fields@, (i + 1) as nat, fields@.len());
                }
                return Err(e.under_field(fields[i].name.as_str()));
            },
        }
        i += 1;
    }
    Ok(out)
}

/// The field `name`, which must be there.
pub(crate) fn req_status(fields: &Vec<JsonField>, name: &str) -> (r: Result<
    CharacterDataStatus,
    DecodeError,
>)
    ensures
        agrees(r, required(fields@, name@, status_decoder())),
{
    match find(fields, name) {
        None => Err(DecodeError::new(DecodeErrorKind::MissingField).under_field(name)),
        Some(value) => match decode_status(value) {
            Ok(v) => Ok(v),
            Err(e) => Err(e.under_field(name)),
        },
    }
}

/// The field `name`, which must be there.
pub(crate) fn req_header(fields: &Vec<JsonField>, name: &str) -> (r: Result<
    CharacterDataHeader,
    DecodeError,
>)
    ensures
        agrees(r, required(fields@, name@, header_decoder())),
{
    match find(fields, name) {
        None => Err(DecodeError::new(DecodeErrorKind::MissingField).under_field(name)),
        Some(value) => match decode_header(value) {
            Ok(v) => Ok(v),
            Err(e) => Err(e.under_field(name)),
        },
    }
}

/// The field `name`, which must be there.
pub(crate) fn req_attributes(fields: &Vec<JsonField>, name: &str) -> (r: Result<
    CharacterDataAttributes,
    DecodeError,
>)
    ensures
        agrees(r, required(fields@, name@, attributes_decoder())),
{
    match find(fields, name) {
        None => Err(DecodeError::new(DecodeErrorKind::MissingField).under_field(name)),
        Some(value) => match decode_attributes(value) {
            Ok(v) => Ok(v),
            Err(e) => Err(e.under_field(name)),
        },
    }
}

/// The field `name`, where it is there and not `null`.
pub(crate) fn opt_properties(fields: &Vec<JsonField>, name: &str) -> (r: Result<
    Option<Vec<MagicProperty>>,
    DecodeError,
>)
    ensures
        agrees(r, optional(fields@, name@, properties_decoder())),
{
    match find(fields, name) {
        None => Ok(None),
        Some(value) => match value {
            Json::Null => Ok(None),
            _ => match decode_properties(value) {
                Ok(v) => Ok(Some(v)),
                Err(e) => Err(e.under_field(name)),
            },
        },
    }
}

/// The field `name`, where it is there and not `null`.
pub(crate) fn opt_property_lists(fields: &Vec<JsonField>, name: &str) -> (r: Result<
    Option<Vec<Vec<MagicProperty>>>,
    DecodeError,
>)
    ensures
        agrees(r, optional(fields@, name@, property_lists_decoder())),
{
    match find(fields, name) {
        None => Ok(None),
        Some(value) => match value {
            Json::Null => Ok(None),
            _ => match decode_property_lists(value) {
                Ok(v) => Ok(Some(v)),
                Err(e) => Err(e.under_field(name)),
            },
        },
    }
}

/// The field `name`, where it is there and not `null`.
pub(crate) fn opt_damage(fields: &Vec<JsonField>, name: &str) -> (r: Result<
    Option<WeaponDamage>,
    DecodeError,
>)
    ensures
        agrees(r, optional(fields@, name@, damage_decoder())),
{
    match find(fields, name) {
        None => Ok(None),
        Some(value) => match value {
            Json::Null => Ok(None),
            _ => match decode_damage(value) {
                Ok(v) => Ok(Some(v)),
                Err(e) => Err(e.under_field(name)),
            },
        },
    }
}

/// The field `name`, where it is there and not `null`.
pub(crate) fn opt_quality(fields: &Vec<JsonField>, name: &str) -> (r: Result<
    Option<ItemQuality>,
    DecodeError,
>)
    ensures
        agrees(r, optional(fields@, name@, quality_decoder())),
{
    match find(fields, name) {
        None => Ok(None),
        Some(value) => match value {
            Json::Null => Ok(None),
            _ => match decode_quality(value) {
                Ok(v) => Ok(Some(v)),
                Err(e) => Err(e.under_field(name)),
            },
        },
    }
}


/// Decodes the items of a list.
pub fn decode_items(items: &Vec<Json>) -> (r: Result<Vec<ItemData>, DecodeError>)
    ensures
        agrees(r, items_of(items@, items@.len())),
    decreases items,
{
    let mut out: Vec<ItemData> = Vec::new();
    let mut i: usize = 0;
    assert(out.deep_view() =~= Seq::<ItemDataView>::empty());
    while i < items.len()
        invariant
            i <= items@.len(),
            items_of(items@, i as nat) == Ok::<Seq<ItemDataView>, DecodeErrorView>(
                out.deep_view(),
            ),
        decreases items@.len() - i,
    {
        match decode_item(&items[i]) {
            Ok(v) => {
                let ghost before = out.deep_view();
                let ghost added = v.deep_view();
                out.push(v);
                assert(out.deep_view() =~= before.push(added));
            },
            Err(e) => {
                proof {
                    assert(items_of(items@, (i + 1) as nat) is Err);
                    items_error_persists(items@, (i + 1) as nat, items@.len());
                }
                return Err(e.under_index(i));
            },
        }
        i += 1;
    }
    Ok(out)
}

/// Decodes the items in the sockets of an item, where the field is there.
pub fn decode_socketed(fields: &Vec<JsonField>) -> (r: Result<Option<Vec<ItemData>>, DecodeError>)
    ensures
        agrees(r, socketed_of(fields@)),
    decreases fields, 0nat,
{
    match find(fields, "socketed_items") {
        None => Ok(None),
        Some(value) => match value {
            Json::Null => Ok(None),
            Json::Array(children) => match decode_items(children) {
                Ok(items) => Ok(Some(items)),
                Err(e) => Err(e.under_field("socketed_items")),
            },
            _ => Err(
                DecodeError::new(DecodeErrorKind::InvalidType).under_field("socketed_items"),
            ),
        },
    }
}

/// Decodes this group of the fields of an item.
pub fn decode_flags(fields: &Vec<JsonField>) -> (r: Result<ItemFlags, DecodeError>)
    ensures
        agrees(r, flags_of(fields@)),
{
    proof {
        reveal(flags_of);
    }
    let identified: u8 = match req_u8(fields, "identified") {
        Ok(v) => v,
        Err(e) => return Err(e),
    };
    let socketed: u8 = match req_u8(fields, "socketed") {
        Ok(v) => v,
        Err(e) => return Err(e),
    };
    let new: u8 = match req_u8(fields, "new") {
        Ok(v) => v,
        Err(e) => return Err(e),
    };
    let is_ear: u8 = match req_u8(fields, "is_ear") {
        Ok(v) => v,
        Err(e) => return Err(e),
    };
    let starter_item: u8 = match req_u8(fields, "starter_item") {
        Ok(v) => v,
        Err(e) => return Err(e),
    };
    let simple_item: u8 = match req_u8(fields, "simple_item") {
        Ok(v) => v,
        Err(e) => return Err(e),
    };
    let ethereal: u8 = match req_u8(fields, "ethereal") {
        Ok(v) => v,
        Err(e) => return Err(e),
    };
    let personalized: u8 = match req_u8(fields, "personalized") {
        Ok(v) => v,
        Err(e) => return Err(e),
    };
    let personalized_name: Option<String> = match opt_string(fields, "personalized_name") {
        Ok(v) => v,
        Err(e) => return Err(e),
    };
    let given_runeword: u8 = match req_u8(fields, "given_runeword") {
        Ok(v) => v,
        Err(e) => return Err(e),
    };
    Ok(
        ItemFlags {
            identified,
            socketed,
            new,
            is_ear,
            starter_item,
            simple_item,
            ethereal,
            personalized,
            personalized_name,
            given_runeword,
        },
    )
}

/// Decodes this group of the fields of an item.
pub fn decode_placement(fields: &Vec<JsonField>) -> (r: Result<ItemPlacement, DecodeError>)
    ensures
        agrees(r, placement_of(fields@)),
{
    proof {
        reveal(placement_of);
    }
    let location_id: u8 = match req_u8(fields, "location_id") {
        Ok(v) => v,
        Err(e) => return Err(e),
    };
    let equipped_id: u8 = match req_u8(fields, "equipped_id") {
        Ok(v) => v,
        Err(e) => return Err(e),
    };
    let position_x: u8 = match req_u8(fields, "position_x") {
        Ok(v) => v,
        Err(e) => return Err(e),
    };
    let position_y: u8 = match req_u8(fields, "position_y") {
        Ok(v) => v,
        Err(e) => return Err(e),
    };
    let alt_position_id: u8 = match req_u8(fields, "alt_position_id") {
        Ok(v) => v,
        Err(e) => return Err(e),
    };
    Ok(
        ItemPlacement {
            location_id,
            equipped_id,
            position_x,
            position_y,
            alt_position_id,
        },
    )
}

/// Decodes this group of the fields of an item.
pub fn decode_kind(fields: &Vec<JsonField>) -> (r: Result<ItemKind, DecodeError>)
    ensures
        agrees(r, kind_of(fields@)),
{
    proof {
        reveal(kind_of);
    }
    let version: String = match req_string(fields, "version") {
        Ok(v) => v,
        Err(e) => return Err(e),
    };
    let type_code: String = match req_string(fields, "type") {
        Ok(v) => v,
        Err(e) => return Err(e),
    };
    let type_id: u8 = match req_u8(fields, "type_id") {
        Ok(v) => v,
        Err(e) => return Err(e),
    };
    let type_label: String = match req_string(fields, "type_name") {
        Ok(v) => v,
        Err(e) => return Err(e),
    };
    let quest_difficulty: Option<u8> = match opt_u8(fields, "quest_difficulty") {
        Ok(v) => v,
        Err(e) => return Err(e),
    };
    let inv_width: u8 = match req_u8(fields, "inv_width") {
        Ok(v) => v,
        Err(e) => return Err(e),
    };
    let inv_height: u8 = match req_u8(fields, "inv_height") {
        Ok(v) => v,
        Err(e) => return Err(e),
    };
    let inv_file: String = match req_string(fields, "inv_file") {
        Ok(v) => v,
        Err(e) => return Err(e),
    };
    let inv_transform: Option<u8> = match opt_u8(fields, "inv_transform") {
        Ok(v) => v,
        Err(e) => return Err(e),
    };
    let transform_color: Option<String> = match opt_string(fields, "transform_color") {
        Ok(v) => v,
        Err(e) => return Err(e),
    };
    let item_quality: Option<ItemQuality> = match opt_quality(fields, "item_quality") {
        Ok(v) => v,
        Err(e) => return Err(e),
    };
    let categories: Vec<String> = match req_strings(fields, "categories") {
        Ok(v) => v,
        Err(e) => return Err(e),
    };
    Ok(
        ItemKind {
            version,
            type_code,
            type_id,
            type_label,
            quest_difficulty,
            inv_width,
            inv_height,
            inv_file,
            inv_transform,
            transform_color,
            item_quality,
            categories,
        },
    )
}

/// Decodes this group of the fields of an item.
pub fn decode_identity(fields: &Vec<JsonField>) -> (r: Result<ItemIdentity, DecodeError>)
    ensures
        agrees(r, identity_of(fields@)),
{
    proof {
        reveal(identity_of);
    }
    let id: Option<u32> = match opt_u32(fields, "id") {
        Ok(v) => v,
        Err(e) => return Err(e),
    };
    let level: Option<u8> = match opt_u8(fields, "level") {
        Ok(v) => v,
        Err(e) => return Err(e),
    };
    let quality: Option<u8> = match opt_u8(fields, "quality") {
        Ok(v) => v,
        Err(e) => return Err(e),
    };
    let multiple_pictures: Option<u8> = match opt_u8(fields, "multiple_pictures") {
        Ok(v) => v,
        Err(e) => return Err(e),
    };
    let picture_id: Option<u8> = match opt_u8(fields, "picture_id") {
        Ok(v) => v,
        Err(e) => return Err(e),
    };
    let class_specific: Option<u8> = match opt_u8(fields, "class_specific") {
        Ok(v) => v,
        Err(e) => return Err(e),
    };
    let low_quality_id: Option<u8> = match opt_u8(fields, "low_quality_id") {
        Ok(v) => v,
        Err(e) => return Err(e),
    };
    let timestamp: Option<u8> = match opt_u8(fields, "timestamp") {
        Ok(v) => v,
        Err(e) => return Err(e),
    };
    let file_index: Option<u8> = match opt_u8(fields, "file_index") {
        Ok(v) => v,
        Err(e) => return Err(e),
    };
    let auto_affix_id: Option<u8> = match opt_u8(fields, "auto_affix_id") {
        Ok(v) => v,
        Err(e) => return Err(e),
    };
    Ok(
        ItemIdentity {
            id,
            level,
            quality,
            multiple_pictures,
            picture_id,
            class_specific,
            low_quality_id,
            timestamp,
            file_index,
            auto_affix_id,
        },
    )
}

/// Decodes this group of the fields of an item.
pub fn decode_stats(fields: &Vec<JsonField>) -> (r: Result<ItemStats, DecodeError>)
    ensures
        agrees(r, stats_of(fields@)),
{
    proof {
        reveal(stats_of);
    }
    let defense_rating: Option<u16> = match opt_u16(fields, "defense_rating") {
        Ok(v) => v,
        Err(e) => return Err(e),
    };
    let max_durability: Option<u16> = match opt_u16(fields, "max_durability") {
        Ok(v) => v,
        Err(e) => return Err(e),
    };
    let current_durability: Option<u16> = match opt_u16(fields, "current_durability") {
        Ok(v) => v,
        Err(e) => return Err(e),
    };
    let quantity: Option<u16> = match opt_u16(fields, "quantity") {
        Ok(v) => v,
        Err(e) => return Err(e),
    };
    let base_damage: Option<WeaponDamage> = match opt_damage(fields, "base_damage") {
        Ok(v) => v,
        Err(e) => return Err(e),
    };
    let reqstr: Option<u8> = match opt_u8(fields, "reqstr") {
        Ok(v) => v,
        Err(e) => return Err(e),
    };
    let reqdex: Option<u8> = match opt_u8(fields, "reqdex") {
        Ok(v) => v,
        Err(e) => return Err(e),
    };
    Ok(
        ItemStats {
            defense_rating,
            max_durability,
            current_durability,
            quantity,
            base_damage,
            reqstr,
            reqdex,
        },
    )
}

/// Decodes the sockets of an item and the items in them.
pub fn decode_sockets(fields: &Vec<JsonField>) -> (r: Result<ItemSockets, DecodeError>)
    ensures
        agrees(r, sockets_of(fields@)),
    decreases fields, 1nat,
{
    let nr_of_items_in_sockets: u8 = match req_u8(fields, "nr_of_items_in_sockets") {
        Ok(v) => v,
        Err(e) => return Err(e),
    };
    let total_nr_of_sockets: Option<u8> = match opt_u8(fields, "total_nr_of_sockets") {
        Ok(v) => v,
        Err(e) => return Err(e),
    };
    let socketed_items: Option<Vec<ItemData>> = match decode_socketed(fields) {
        Ok(v) => v,
        Err(e) => return Err(e),
    };
    proof {
        if socketed_items is Some {
            let inner = socketed_items->Some_0;
            assert(items_view(inner@) =~= inner.deep_view());
        }
    }
    Ok(
        ItemSockets {
            nr_of_items_in_sockets,
            total_nr_of_sockets,
            socketed_items,
        },
    )
}

/// Decodes this group of the fields of an item.
pub fn decode_magic(fields: &Vec<JsonField>) -> (r: Result<MagicAffixes, DecodeError>)
    ensures
        agrees(r, magic_of(fields@)),
{
    proof {
        reveal(magic_of);
    }
    let magic_prefix: Option<u16> = match opt_u16(fields, "magic_prefix") {
        Ok(v) => v,
        Err(e) => return Err(e),
    };
    let magic_prefix_name: Option<String> = match opt_string(fields, "magic_prefix_name") {
        Ok(v) => v,
        Err(e) => return Err(e),
    };
    let magic_suffix: Option<u16> = match opt_u16(fields, "magic_suffix") {
        Ok(v) => v,
        Err(e) => return Err(e),
    };
    let magic_suffix_name: Option<String> = match opt_string(fields, "magic_suffix_name") {
        Ok(v) => v,
        Err(e) => return Err(e),
    };
    let magical_name_ids: Option<Vec<Option<u16>>> = match opt_u16_options(
        fields,
        "magical_name_ids",
    ) {
        Ok(v) => v,
        Err(e) => return Err(e),
    };
    let magic_attributes: Option<Vec<MagicProperty>> = match opt_properties(
        fields,
        "magic_attributes",
    ) {
        Ok(v) => v,
        Err(e) => return Err(e),
    };
    let combined_magic_attributes: Option<Vec<MagicProperty>> = match opt_properties(
        fields,
        "combined_magic_attributes",
    ) {
        Ok(v) => v,
        Err(e) => return Err(e),
    };
    Ok(
        MagicAffixes {
            magic_prefix,
            magic_prefix_name,
            magic_suffix,
            magic_suffix_name,
            magical_name_ids,
            magic_attributes,
            combined_magic_attributes,
        },
    )
}

/// Decodes this group of the fields of an item.
pub fn decode_names(fields: &Vec<JsonField>) -> (r: Result<ItemNames, DecodeError>)
    ensures
        agrees(r, names_of(fields@)),
{
    proof {
        reveal(names_of);
    }
    let rare_name: Option<String> = match opt_string(fields, "rare_name") {
        Ok(v) => v,
        Err(e) => return Err(e),
    };
    let rare_name2: Option<String> = match opt_string(fields, "rare_name2") {
        Ok(v) => v,
        Err(e) => return Err(e),
    };
    let rare_name_id: Option<u8> = match opt_u8(fields, "rare_name_id") {
        Ok(v) => v,
        Err(e) => return Err(e),
    };
    let rare_name_id2: Option<u8> = match opt_u8(fields, "rare_name_id2") {
        Ok(v) => v,
        Err(e) => return Err(e),
    };
    let unique_id: Option<u16> = match opt_u16(fields, "unique_id") {
        Ok(v) => v,
        Err(e) => return Err(e),
    };
    let unique_name: Option<String> = match opt_string(fields, "unique_name") {
        Ok(v) => v,
        Err(e) => return Err(e),
    };
    Ok(
        ItemNames {
            rare_name,
            rare_name2,
            rare_name_id,
            rare_name_id2,
            unique_id,
            unique_name,
        },
    )
}

/// Decodes this group of the fields of an item.
pub fn decode_runeword(fields: &Vec<JsonField>) -> (r: Result<RunewordBonus, DecodeError>)
    ensures
        agrees(r, runeword_of(fields@)),
{
    proof {
        reveal(runeword_of);
    }
    let runeword_id: Option<u16> = match opt_u16(fields, "runeword_id") {
        Ok(v) => v,
        Err(e) => return Err(e),
    };
    let runeword_name: Option<String> = match opt_string(fields, "runeword_name") {
        Ok(v) => v,
        Err(e) => return Err(e),
    };
    let runeword_attributes: Option<Vec<MagicProperty>> = match opt_properties(
        fields,
        "runeword_attributes",
    ) {
        Ok(v) => v,
        Err(e) => return Err(e),
    };
    Ok(
        RunewordBonus {
            runeword_id,
            runeword_name,
            runeword_attributes,
        },
    )
}

/// Decodes this group of the fields of an item.
pub fn decode_set(fields: &Vec<JsonField>) -> (r: Result<SetBonus, DecodeError>)
    ensures
        agrees(r, set_of(fields@)),
{
    proof {
        reveal(set_of);
    }
    let set_id: Option<u16> = match opt_u16(fields, "set_id") {
        Ok(v) => v,
        Err(e) => return Err(e),
    };
    let set_name: Option<String> = match opt_string(fields, "set_name") {
        Ok(v) => v,
        Err(e) => return Err(e),
    };
    let set_list_count: Option<u8> = match opt_u8(fields, "set_list_count") {
        Ok(v) => v,
        Err(e) => return Err(e),
    };
    let set_attributes: Option<Vec<Vec<MagicProperty>>> = match opt_property_lists(
        fields,
        "set_attributes",
    ) {
        Ok(v) => v,
        Err(e) => return Err(e),
    };
    let set_attributes_num_req: Option<u8> = match opt_u8(fields, "set_attributes_num_req") {
        Ok(v) => v,
        Err(e) => return Err(e),
    };
    let set_attributes_ids_req: Option<u8> = match opt_u8(fields, "set_attributes_ids_req") {
        Ok(v) => v,
        Err(e) => return Err(e),
    };
    Ok(
        SetBonus {
            set_id,
            set_name,
            set_list_count,
            set_attributes,
            set_attributes_num_req,
            set_attributes_ids_req,
        },
    )
}

/// Decodes this group of the fields of an item.
pub fn decode_displayed(fields: &Vec<JsonField>) -> (r: Result<DisplayedAttributes, DecodeError>)
    ensures
        agrees(r, displayed_of(fields@)),
{
    proof {
        reveal(displayed_of);
    }
    let displayed_magic_attributes: Option<Vec<MagicProperty>> = match opt_properties(
        fields,
        "displayed_magic_attributes",
    ) {
        Ok(v) => v,
        Err(e) => return Err(e),
    };
    let displayed_runeword_attributes: Option<Vec<MagicProperty>> = match opt_properties(
        fields,
        "displayed_runeword_attributes",
    ) {
        Ok(v) => v,
        Err(e) => return Err(e),
    };
    let displayed_combined_magic_attributes: Option<Vec<MagicProperty>> = match opt_properties(
        fields,
        "displayed_combined_magic_attributes",
    ) {
        Ok(v) => v,
        Err(e) => return Err(e),
    };
    Ok(
        DisplayedAttributes {
            displayed_magic_attributes,
            displayed_runeword_attributes,
            displayed_combined_magic_attributes,
        },
    )
}

/// Decodes one item, the items in its sockets with it.
pub fn decode_item(j: &Json) -> (r: Result<ItemData, DecodeError>)
    ensures
        agrees(r, item_of(*j)),
    decreases j,
{
    let fields: &Vec<JsonField> = match j {
        Json::Object(members) => members,
        _ => return Err(DecodeError::new(DecodeErrorKind::InvalidType)),
    };
    let flags: ItemFlags = match decode_flags(fields) {
        Ok(v) => v,
        Err(e) => return Err(e),
    };
    let placement: ItemPlacement = match decode_placement(fields) {
        Ok(v) => v,
        Err(e) => return Err(e),
    };
    let kind: ItemKind = match decode_kind(fields) {
        Ok(v) => v,
        Err(e) => return Err(e),
    };
    let identity: ItemIdentity = match decode_identity(fields) {
        Ok(v) => v,
        Err(e) => return Err(e),
    };
    let stats: ItemStats = match decode_stats(fields) {
        Ok(v) => v,
        Err(e) => return Err(e),
    };
    let sockets: ItemSockets = match decode_sockets(fields) {
        Ok(v) => v,
        Err(e) => return Err(e),
    };
    let magic: MagicAffixes = match decode_magic(fields) {
        Ok(v) => v,
        Err(e) => return Err(e),
    };
    let names: ItemNames = match decode_names(fields) {
        Ok(v) => v,
        Err(e) => return Err(e),
    };
    let runeword: RunewordBonus = match decode_runeword(fields) {
        Ok(v) => v,
        Err(e) => return Err(e),
    };
    let set: SetBonus = match decode_set(fields) {
        Ok(v) => v,
        Err(e) => return Err(e),
    };
    let displayed: DisplayedAttributes = match decode_displayed(fields) {
        Ok(v) => v,
        Err(e) => return Err(e),
    };
    Ok(
        ItemData {
            flags,
            placement,
            kind,
            identity,
            stats,
            sockets,
            magic,
            names,
            runeword,
            set,
            displayed,
        },
    )
}

/// Decodes a list of items.
pub fn decode_item_list(j: &Json) -> (r: Result<Vec<ItemData>, DecodeError>)
    ensures
        agrees(r, item_list_of(*j)),
{
    match j {
        Json::Array(items) => decode_items(items),
        _ => Err(DecodeError::new(DecodeErrorKind::InvalidType)),
    }
}

/// The list of items in the field `name`, which must be there.
pub(crate) fn req_items(fields: &Vec<JsonField>, name: &str) -> (r: Result<
    Vec<ItemData>,
    DecodeError,
>)
    ensures
        agrees(r, required_items(fields@, name@)),
{
    match find(fields, name) {
        None => Err(DecodeError::new(DecodeErrorKind::MissingField).under_field(name)),
        Some(value) => match decode_item_list(value) {
            Ok(v) => Ok(v),
            Err(e) => Err(e.under_field(name)),
        },
    }
}

/// Decodes a character.
pub fn decode_character_data(j: &Json) -> (r: Result<CharacterData, DecodeError>)
    ensures
        agrees(r, character_data_of(*j)),
{
    let fields: &Vec<JsonField> = match j {
        Json::Object(members) => members,
        _ => return Err(DecodeError::new(DecodeErrorKind::InvalidType)),
    };
    let header: CharacterDataHeader = match req_header(fields, "header") {
        Ok(v) => v,
        Err(e) => return Err(e),
    };
    let attributes: CharacterDataAttributes = match req_attributes(fields, "attributes") {
        Ok(v) => v,
        Err(e) => return Err(e),
    };
    let items: Vec<ItemData> = match req_items(fields, "items") {
        Ok(v) => v,
        Err(e) => return Err(e),
    };
    let corpse_items: Vec<ItemData> = match req_items(fields, "corpse_items") {
        Ok(v) => v,
        Err(e) => return Err(e),
    };
    let merc_items: Vec<ItemData> = match req_items(fields, "merc_items") {
        Ok(v) => v,
        Err(e) => return Err(e),
    };
    proof {
        assert(items_view(items@) =~= items.deep_view());
        assert(items_view(corpse_items@) =~= corpse_items.deep_view());
        assert(items_view(merc_items@) =~= merc_items.deep_view());
    }
    Ok(
        CharacterData {
            header,
            attributes,
            items,
            corpse_items,
            merc_items,
        },
    )
}

impl CharacterData {
    /// Decodes a character from the tree of its document. A record is read
    /// from an object only. Where an object has two members of one name,
    /// the first is read as a field of a record and the last as an
    /// attribute.
    pub fn from_json(json: &Json) -> (r: Result<CharacterData, DecodeError>)
        ensures
            agrees(r, character_data_of(*json)),
    {
        decode_character_data(json)
    }

    /// Decodes a character from the text of its document. A record is read
    /// from a JSON object only, never from an array of its fields in
    /// order. Where the text gives one key of an object twice, the second
    /// value counts.
    pub fn from_json_str(s: &str) -> (r: Result<CharacterData, DecodeError>)
        ensures
            agrees(r, character_document(s@)),
    {
        match parse_json(s) {
            None => Err(DecodeError::new(DecodeErrorKind::Syntax)),
            Some(json) => decode_character_data(&json),
        }
    }
}

} // verus!
