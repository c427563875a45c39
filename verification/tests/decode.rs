use d2_stash_tracker::d2::decode::{
    decode_attributes, decode_damage, decode_header, decode_item, decode_item_list,
    decode_property, decode_property_lists, decode_quality, decode_status,
};
use d2_stash_tracker::d2::json::{
    decode_bool, decode_i32, decode_i32s, decode_string, decode_strings, decode_u16,
    decode_u16_option, decode_u16_options, decode_u32, decode_u8, decode_unsigned, find,
    parse_json, DecodeError, DecodeErrorKind, Json, JsonField, JsonNumber, PathSegment,
};
use d2_stash_tracker::d2::models::{
    CharacterData, CharacterDataAttributes, CharacterDataStatus, ItemQuality, WeaponDamage,
};

fn field(name: &str) -> PathSegment {
    PathSegment::Field(name.to_string())
}

fn failure(kind: DecodeErrorKind, path: Vec<PathSegment>) -> DecodeError {
    DecodeError { kind, path }
}

fn tree(text: &str) -> Json {
    parse_json(text).unwrap()
}

/// The text of an item with the fields that every item has, and `more`
/// behind them.
fn item_text(more: &str) -> String {
    format!(
        "{{\"identified\":1,\"socketed\":0,\"new\":0,\"is_ear\":0,\"starter_item\":0,\
         \"simple_item\":0,\"ethereal\":0,\"personalized\":0,\"given_runeword\":0,\
         \"version\":\"101\",\"location_id\":1,\"equipped_id\":4,\"position_x\":2,\
         \"position_y\":3,\"alt_position_id\":0,\"type\":\"amu\",\"type_id\":4,\
         \"type_name\":\"Amulet\",\"nr_of_items_in_sockets\":0,\"inv_width\":1,\
         \"inv_height\":1,\"inv_file\":\"invamu\",\"categories\":[\"Amulet\",\"Misc\"]{}}}",
        more
    )
}

fn property_text(id: u32, name: &str, values: &str) -> String {
    format!("{{\"id\":{},\"name\":\"{}\",\"values\":{}}}", id, name, values)
}

fn character_text(header: &str, items: &str) -> String {
    format!(
        "{{{}\"attributes\":{{\"strength\":156,\"energy\":35,\"unused_stats\":0}},\
         \"items\":{},\"corpse_items\":[],\"merc_items\":[{}]}}",
        header,
        items,
        item_text("")
    )
}

const HEADER: &str = "\"header\":{\"identifier\":\"aa55aa55\",\"name\":\"Alina\",\"level\":81,\
    \"class\":\"Sorceress\",\"status\":{\"expansion\":true,\"died\":false,\"hardcore\":false,\
    \"ladder\":false},\"created\":0,\"last_played\":1700000000,\"checksum\":\"2f4a\"},";

#[test]
fn test_deserialize_character() {
    let set_item = item_text(
        ",\"quality\":5,\"level\":87,\"id\":4009755852,\"set_id\":61,\"set_name\":\"Tal Rasha's Wrappings\",\
         \"set_list_count\":2,\"set_attributes\":[[{\"id\":9,\"name\":\"maxmana\",\"values\":[42]}],[]]",
    );
    let socketed = item_text(&format!(
        ",\"socketed\":1,\"nr_of_items_in_sockets\":2,\"total_nr_of_sockets\":2,\
         \"socketed_items\":[{},{}],\"base_damage\":{{\"mindam\":3,\"maxdam\":9}},\
         \"item_quality\":2,\"max_durability\":250,\"current_durability\":97",
        item_text(",\"simple_item\":1"),
        item_text("")
    ));
    let text = character_text(HEADER, &format!("[{},{}]", set_item, socketed));
    let character_data: CharacterData = match CharacterData::from_json_str(&text) {
        Ok(character_data) => character_data,
        Err(err) => panic!("Error deserializing character: {}", err.to_string()),
    };
    assert_eq!(character_data.header.name, "Alina");
    assert_eq!(character_data.header.identifier, "aa55aa55");
    assert_eq!(character_data.header.class, "Sorceress");
    assert_eq!(character_data.header.level, 81);
    assert_eq!(character_data.header.created, 0);
    assert_eq!(character_data.header.last_played, 1_700_000_000);
    assert_eq!(
        character_data.header.status,
        CharacterDataStatus { expansion: true, died: false, hardcore: false, ladder: false }
    );
    assert_eq!(character_data.attributes.get("strength"), Some(156));
    assert_eq!(character_data.attributes.get("energy"), Some(35));
    assert_eq!(character_data.attributes.get("unused_stats"), Some(0));
    assert_eq!(character_data.attributes.get("vitality"), None);
    assert_eq!(character_data.items.len(), 2);
    assert_eq!(character_data.corpse_items.len(), 0);
    assert_eq!(character_data.merc_items.len(), 1);
    let first = &character_data.items[0];
    assert_eq!(first.identity.id, Some(4_009_755_852));
    assert_eq!(first.set.set_name.as_deref(), Some("Tal Rasha's Wrappings"));
    assert_eq!(first.kind.type_code, "amu");
    assert_eq!(first.kind.type_label, "Amulet");
    assert_eq!(first.kind.categories, vec!["Amulet".to_string(), "Misc".to_string()]);
    assert_eq!(first.placement.position_x, 2);
    assert_eq!(first.placement.position_y, 3);
    assert_eq!(first.sockets.socketed_items, None);
    let second = &character_data.items[1];
    assert_eq!(second.flags.socketed, 1);
    assert_eq!(second.sockets.nr_of_items_in_sockets, 2);
    assert_eq!(second.sockets.total_nr_of_sockets, Some(2));
    let inner = second.sockets.socketed_items.as_ref().unwrap();
    assert_eq!(inner.len(), 2);
    assert_eq!(inner[0].flags.simple_item, 1);
    assert_eq!(inner[1].flags.simple_item, 0);
    assert_eq!(
        second.stats.base_damage,
        Some(WeaponDamage { mindam: Some(3), maxdam: Some(9), twohandmindam: None, twohandmaxdam: None })
    );
    assert_eq!(second.kind.item_quality, Some(ItemQuality::elite));
    assert_eq!(second.stats.max_durability, Some(250));
    assert_eq!(second.stats.current_durability, Some(97));
    assert_eq!(second.stats.quantity, None);
}

#[test]
fn document_without_header_names_the_header() {
    let text = character_text("", "[]");
    let err = CharacterData::from_json_str(&text).unwrap_err();
    assert_eq!(err, failure(DecodeErrorKind::MissingField, vec![field("header")]));
}

#[test]
fn each_required_part_of_a_character_is_missed() {
    for name in ["attributes", "items", "corpse_items", "merc_items"] {
        let text = character_text(HEADER, "[]").replace(&format!("\"{}\"", name), "\"other\"");
        let err = CharacterData::from_json_str(&text).unwrap_err();
        assert_eq!(err, failure(DecodeErrorKind::MissingField, vec![field(name)]));
    }
}

#[test]
fn the_first_wrong_field_in_the_order_of_the_type_counts() {
    let text = "{\"merc_items\":7,\"items\":[],\"corpse_items\":[]}";
    let err = CharacterData::from_json_str(text).unwrap_err();
    assert_eq!(err, failure(DecodeErrorKind::MissingField, vec![field("header")]));
    let text = format!("{{{}\"merc_items\":7,\"items\":{{}},\"attributes\":{{}}}}", HEADER);
    let err = CharacterData::from_json_str(&text).unwrap_err();
    assert_eq!(err, failure(DecodeErrorKind::InvalidType, vec![field("items")]));
}

#[test]
fn text_that_is_no_document_is_a_syntax_error() {
    for text in ["", "{", "{\"header\":}", "[1,2", "nul", "{} {}", "{\"a\":1,}"] {
        let err = CharacterData::from_json_str(text).unwrap_err();
        assert_eq!(err, failure(DecodeErrorKind::Syntax, vec![]));
        assert_eq!(parse_json(text), None);
    }
}

#[test]
fn a_document_that_is_no_object_is_of_invalid_type() {
    for text in ["null", "[]", "3", "\"header\"", "true"] {
        let err = CharacterData::from_json_str(text).unwrap_err();
        assert_eq!(err, failure(DecodeErrorKind::InvalidType, vec![]));
    }
}

#[test]
fn header_errors_carry_the_way_to_the_field() {
    let text = character_text(&HEADER.replace("\"level\":81", "\"level\":\"81\""), "[]");
    let err = CharacterData::from_json_str(&text).unwrap_err();
    assert_eq!(err, failure(DecodeErrorKind::InvalidType, vec![field("header"), field("level")]));
    let text = character_text(&HEADER.replace("\"level\":81", "\"level\":256"), "[]");
    let err = CharacterData::from_json_str(&text).unwrap_err();
    assert_eq!(err, failure(DecodeErrorKind::InvalidValue, vec![field("header"), field("level")]));
    let text = character_text(&HEADER.replace("\"ladder\":false", "\"ladder\":0"), "[]");
    let err = CharacterData::from_json_str(&text).unwrap_err();
    assert_eq!(
        err,
        failure(
            DecodeErrorKind::InvalidType,
            vec![field("header"), field("status"), field("ladder")]
        )
    );
    let text = character_text(&HEADER.replace("\"died\":false,", ""), "[]");
    let err = CharacterData::from_json_str(&text).unwrap_err();
    assert_eq!(
        err,
        failure(
            DecodeErrorKind::MissingField,
            vec![field("header"), field("status"), field("died")]
        )
    );
    let text = character_text(&HEADER.replace("\"name\":\"Alina\"", "\"name\":null"), "[]");
    let err = CharacterData::from_json_str(&text).unwrap_err();
    assert_eq!(err, failure(DecodeErrorKind::InvalidType, vec![field("header"), field("name")]));
}

#[test]
fn item_errors_carry_index_and_field() {
    let items = format!(
        "[{},{}]",
        item_text(""),
        item_text(&format!(
            ",\"socketed_items\":[{},{}]",
            item_text(""),
            item_text("").replace("\"identified\":1", "\"identified\":2.5")
        ))
    );
    let err = CharacterData::from_json_str(&character_text(HEADER, &items)).unwrap_err();
    assert_eq!(
        err,
        failure(
            DecodeErrorKind::InvalidType,
            vec![
                field("items"),
                PathSegment::Index(1),
                field("socketed_items"),
                PathSegment::Index(1),
                field("identified")
            ]
        )
    );
    let items = format!("[{}]", item_text(",\"item_quality\":3"));
    let err = CharacterData::from_json_str(&character_text(HEADER, &items)).unwrap_err();
    assert_eq!(
        err,
        failure(
            DecodeErrorKind::InvalidValue,
            vec![field("items"), PathSegment::Index(0), field("item_quality")]
        )
    );
    let items = format!("[{}]", item_text("").replace("\"type_name\":\"Amulet\",", ""));
    let err = CharacterData::from_json_str(&character_text(HEADER, &items)).unwrap_err();
    assert_eq!(
        err,
        failure(
            DecodeErrorKind::MissingField,
            vec![field("items"), PathSegment::Index(0), field("type_name")]
        )
    );
    let items = format!("[{}]", item_text(",\"socketed_items\":{}"));
    let err = CharacterData::from_json_str(&character_text(HEADER, &items)).unwrap_err();
    assert_eq!(
        err,
        failure(
            DecodeErrorKind::InvalidType,
            vec![field("items"), PathSegment::Index(0), field("socketed_items")]
        )
    );
}

#[test]
fn set_item_carries_its_bonuses_without_magic_affixes() {
    let bonus = property_text(39, "fireresist", "[33]");
    let text = item_text(&format!(
        ",\"quality\":5,\"set_id\":80,\"set_name\":\"Tal Rasha's Adjudication\",\
         \"set_list_count\":3,\"set_attributes_num_req\":2,\"set_attributes_ids_req\":1,\
         \"set_attributes\":[[{}],[{},{}]]",
        property_text(7, "maxhp", "[50]"),
        bonus,
        property_text(9, "maxmana", "[42,-1]")
    ));
    let item = decode_item(&tree(&text)).unwrap();
    assert_eq!(item.identity.quality, Some(5));
    assert_eq!(item.set.set_id, Some(80));
    assert_eq!(item.set.set_list_count, Some(3));
    assert_eq!(item.set.set_attributes_num_req, Some(2));
    assert_eq!(item.set.set_attributes_ids_req, Some(1));
    let lists = item.set.set_attributes.as_ref().unwrap();
    assert!(!lists.is_empty());
    assert_eq!(lists.len(), 2);
    assert_eq!(lists[0].len(), 1);
    assert_eq!(lists[0][0].id, 7);
    assert_eq!(lists[0][0].name, "maxhp");
    assert_eq!(lists[0][0].values, vec![50]);
    assert_eq!(lists[1][1].values, vec![42, -1]);
    assert_eq!(item.magic.magic_prefix, None);
    assert_eq!(item.magic.magic_prefix_name, None);
    assert_eq!(item.magic.magic_suffix, None);
    assert_eq!(item.magic.magic_suffix_name, None);
    assert_eq!(item.magic.magic_attributes, None);
    assert_eq!(item.names.unique_id, None);
    assert_eq!(item.runeword.runeword_id, None);
}

#[test]
fn a_missing_field_and_null_are_both_no_value() {
    let absent = decode_item(&tree(&item_text(""))).unwrap();
    let null = decode_item(&tree(&item_text(
        ",\"quality\":null,\"personalized_name\":null,\"socketed_items\":null,\
         \"base_damage\":null,\"magic_attributes\":null,\"set_attributes\":null,\
         \"magical_name_ids\":null,\"item_quality\":null,\"id\":null,\"quantity\":null",
    )))
    .unwrap();
    assert_eq!(absent, null);
    assert_eq!(absent.identity.quality, None);
    assert_eq!(absent.stats.quantity, None);
    assert_eq!(absent.flags.personalized_name, None);
}

#[test]
fn members_that_no_field_names_are_passed_over() {
    let plain = decode_item(&tree(&item_text(""))).unwrap();
    let more = decode_item(&tree(&item_text(",\"ear_attributes\":{\"class\":1},\"zzz\":[1,2]")))
        .unwrap();
    assert_eq!(plain, more);
}

#[test]
fn every_field_of_an_item_is_read_from_its_member() {
    let props = format!("[{}]", property_text(1, "p", "[]"));
    let text = item_text(&format!(
        ",\"personalized_name\":\"Bob\",\"quest_difficulty\":2,\"id\":7,\"level\":8,\"quality\":4,\
         \"multiple_pictures\":1,\"picture_id\":5,\"class_specific\":0,\"low_quality_id\":3,\
         \"timestamp\":1,\"defense_rating\":511,\"max_durability\":12,\"current_durability\":11,\
         \"total_nr_of_sockets\":6,\"quantity\":350,\"magic_prefix\":600,\"magic_prefix_name\":\"Pre\",\
         \"magic_suffix\":700,\"magic_suffix_name\":\"Suf\",\"runeword_id\":27,\
         \"runeword_name\":\"Enigma\",\"runeword_attributes\":{p},\"rare_name\":\"Doom\",\
         \"rare_name2\":\"Knot\",\"magical_name_ids\":[1,null,65535],\"unique_id\":271,\
         \"unique_name\":\"Mara\",\"magic_attributes\":{p},\"combined_magic_attributes\":{p},\
         \"reqstr\":20,\"reqdex\":30,\"inv_transform\":8,\"transform_color\":\"cred\",\
         \"item_quality\":1,\"file_index\":9,\"auto_affix_id\":10,\"rare_name_id\":11,\
         \"rare_name_id2\":12,\"displayed_magic_attributes\":{p},\
         \"displayed_runeword_attributes\":[],\"displayed_combined_magic_attributes\":{p}",
        p = props
    ));
    let item = decode_item(&tree(&text)).unwrap();
    assert_eq!(item.flags.identified, 1);
    assert_eq!(item.flags.personalized_name.as_deref(), Some("Bob"));
    assert_eq!(item.kind.version, "101");
    assert_eq!(item.kind.type_id, 4);
    assert_eq!(item.kind.quest_difficulty, Some(2));
    assert_eq!(item.kind.inv_width, 1);
    assert_eq!(item.kind.inv_file, "invamu");
    assert_eq!(item.kind.inv_transform, Some(8));
    assert_eq!(item.kind.transform_color.as_deref(), Some("cred"));
    assert_eq!(item.kind.item_quality, Some(ItemQuality::exceptional));
    assert_eq!(item.placement.location_id, 1);
    assert_eq!(item.placement.equipped_id, 4);
    assert_eq!(item.identity.id, Some(7));
    assert_eq!(item.identity.level, Some(8));
    assert_eq!(item.identity.quality, Some(4));
    assert_eq!(item.identity.multiple_pictures, Some(1));
    assert_eq!(item.identity.picture_id, Some(5));
    assert_eq!(item.identity.class_specific, Some(0));
    assert_eq!(item.identity.low_quality_id, Some(3));
    assert_eq!(item.identity.timestamp, Some(1));
    assert_eq!(item.identity.file_index, Some(9));
    assert_eq!(item.identity.auto_affix_id, Some(10));
    assert_eq!(item.stats.defense_rating, Some(511));
    assert_eq!(item.stats.max_durability, Some(12));
    assert_eq!(item.stats.current_durability, Some(11));
    assert_eq!(item.stats.quantity, Some(350));
    assert_eq!(item.stats.reqstr, Some(20));
    assert_eq!(item.stats.reqdex, Some(30));
    assert_eq!(item.sockets.total_nr_of_sockets, Some(6));
    assert_eq!(item.magic.magic_prefix, Some(600));
    assert_eq!(item.magic.magic_prefix_name.as_deref(), Some("Pre"));
    assert_eq!(item.magic.magic_suffix, Some(700));
    assert_eq!(item.magic.magic_suffix_name.as_deref(), Some("Suf"));
    assert_eq!(item.magic.magical_name_ids, Some(vec![Some(1), None, Some(65535)]));
    assert_eq!(item.magic.magic_attributes.as_ref().unwrap().len(), 1);
    assert_eq!(item.magic.combined_magic_attributes.as_ref().unwrap()[0].name, "p");
    assert_eq!(item.names.rare_name.as_deref(), Some("Doom"));
    assert_eq!(item.names.rare_name2.as_deref(), Some("Knot"));
    assert_eq!(item.names.rare_name_id, Some(11));
    assert_eq!(item.names.rare_name_id2, Some(12));
    assert_eq!(item.names.unique_id, Some(271));
    assert_eq!(item.names.unique_name.as_deref(), Some("Mara"));
    assert_eq!(item.runeword.runeword_id, Some(27));
    assert_eq!(item.runeword.runeword_name.as_deref(), Some("Enigma"));
    assert_eq!(item.runeword.runeword_attributes.as_ref().unwrap().len(), 1);
    assert_eq!(item.displayed.displayed_magic_attributes.as_ref().unwrap().len(), 1);
    assert_eq!(item.displayed.displayed_runeword_attributes, Some(vec![]));
    assert_eq!(item.displayed.displayed_combined_magic_attributes.as_ref().unwrap().len(), 1);
}

#[test]
fn item_quality_is_one_of_three_ordinals() {
    assert_eq!(decode_quality(&tree("0")), Ok(ItemQuality::normal));
    assert_eq!(decode_quality(&tree("1")), Ok(ItemQuality::exceptional));
    assert_eq!(decode_quality(&tree("2")), Ok(ItemQuality::elite));
    for text in ["3", "255", "256", "-1"] {
        assert_eq!(
            decode_quality(&tree(text)),
            Err(failure(DecodeErrorKind::InvalidValue, vec![]))
        );
    }
    for text in ["\"elite\"", "1.0", "null", "[1]"] {
        assert_eq!(
            decode_quality(&tree(text)),
            Err(failure(DecodeErrorKind::InvalidType, vec![]))
        );
    }
}

#[test]
fn modifier_has_id_name_and_values() {
    let text = "{\"id\":83,\"name\":\"item_addclassskills\",\"values\":[1,2],\
                \"description\":\"+2 to Sorceress Skill Levels\",\"visible\":true,\
                \"op_value\":8,\"op_stats\":[\"level\",\"life\"],\"extra\":0}";
    let property = decode_property(&tree(text)).unwrap();
    assert_eq!(property.id, 83);
    assert_eq!(property.name, "item_addclassskills");
    assert_eq!(property.values, vec![1, 2]);
    assert_eq!(property.description.as_deref(), Some("+2 to Sorceress Skill Levels"));
    assert_eq!(property.visible, Some(true));
    assert_eq!(property.op_value, Some(8));
    assert_eq!(property.op_stats, Some(vec!["level".to_string(), "life".to_string()]));
    let bare = decode_property(&tree(&property_text(1, "x", "[-2147483648,2147483647]"))).unwrap();
    assert_eq!(bare.values, vec![i32::MIN, i32::MAX]);
    assert_eq!(bare.description, None);
    assert_eq!(bare.visible, None);
    assert_eq!(bare.op_value, None);
    assert_eq!(bare.op_stats, None);
    assert_eq!(
        decode_property(&tree("{\"id\":1,\"name\":\"x\"}")),
        Err(failure(DecodeErrorKind::MissingField, vec![field("values")]))
    );
    assert_eq!(
        decode_property(&tree(&property_text(1, "x", "[1,2,2147483648]"))),
        Err(failure(DecodeErrorKind::InvalidValue, vec![field("values"), PathSegment::Index(2)]))
    );
    assert_eq!(
        decode_property_lists(&tree(&format!("[[],[{},7]]", property_text(1, "x", "[]")))),
        Err(failure(
            DecodeErrorKind::InvalidType,
            vec![PathSegment::Index(1), PathSegment::Index(1)]
        ))
    );
}

#[test]
fn weapon_damage_bounds_may_each_be_missing() {
    assert_eq!(
        decode_damage(&tree("{}")),
        Ok(WeaponDamage { mindam: None, maxdam: None, twohandmindam: None, twohandmaxdam: None })
    );
    assert_eq!(
        decode_damage(&tree("{\"twohandmaxdam\":40,\"twohandmindam\":12,\"maxdam\":null}")),
        Ok(WeaponDamage {
            mindam: None,
            maxdam: None,
            twohandmindam: Some(12),
            twohandmaxdam: Some(40)
        })
    );
    assert_eq!(
        decode_damage(&tree("{\"mindam\":300}")),
        Err(failure(DecodeErrorKind::InvalidValue, vec![field("mindam")]))
    );
    assert_eq!(decode_damage(&tree("[]")), Err(failure(DecodeErrorKind::InvalidType, vec![])));
}

#[test]
fn status_and_header_decode_alone() {
    assert_eq!(
        decode_status(&tree(
            "{\"ladder\":true,\"hardcore\":true,\"died\":false,\"expansion\":false}"
        )),
        Ok(CharacterDataStatus { expansion: false, died: false, hardcore: true, ladder: true })
    );
    assert_eq!(
        decode_status(&tree("{\"ladder\":true}")),
        Err(failure(DecodeErrorKind::MissingField, vec![field("expansion")]))
    );
    let header = decode_header(&tree(&format!(
        "{{{}}}",
        HEADER.trim_start_matches("\"header\":{").trim_end_matches("},")
    )))
    .unwrap();
    assert_eq!(header.name, "Alina");
    assert_eq!(header.level, 81);
}

#[test]
fn attributes_map_names_to_values() {
    let attributes =
        decode_attributes(&tree("{\"strength\":10,\"max_hp\":4294967295,\"gold\":0}")).unwrap();
    assert_eq!(attributes.get("strength"), Some(10));
    assert_eq!(attributes.get("max_hp"), Some(u32::MAX));
    assert_eq!(attributes.get("gold"), Some(0));
    assert_eq!(attributes.get("Strength"), None);
    assert_eq!(attributes.get(""), None);
    assert_eq!(
        decode_attributes(&tree("{\"strength\":10,\"max_hp\":4294967296}")).unwrap_err(),
        failure(DecodeErrorKind::InvalidValue, vec![field("max_hp")])
    );
    assert_eq!(
        decode_attributes(&tree("[]")).unwrap_err(),
        failure(DecodeErrorKind::InvalidType, vec![])
    );
    let twice = decode_attributes(&tree("{\"a\":1,\"b\":2,\"a\":3}")).unwrap();
    assert_eq!(twice.get("a"), Some(3));
    assert_eq!(twice.get("b"), Some(2));
    let by_hand = Json::Object(vec![
        JsonField { name: "a".to_string(), value: tree("1") },
        JsonField { name: "b".to_string(), value: tree("2") },
        JsonField { name: "a".to_string(), value: tree("3") },
    ]);
    let twice = decode_attributes(&by_hand).unwrap();
    assert_eq!(twice.get("a"), Some(3));
    assert_eq!(twice.get("b"), Some(2));
}

#[test]
fn numbers_are_integers_within_their_type() {
    assert_eq!(decode_u8(&tree("0")), Ok(0));
    assert_eq!(decode_u8(&tree("255")), Ok(255));
    assert_eq!(decode_u16(&tree("65535")), Ok(65535));
    assert_eq!(decode_u32(&tree("4294967295")), Ok(u32::MAX));
    assert_eq!(decode_unsigned(&tree("18446744073709551615"), u64::MAX), Ok(u64::MAX));
    assert_eq!(decode_i32(&tree("-2147483648")), Ok(i32::MIN));
    assert_eq!(decode_i32(&tree("2147483647")), Ok(i32::MAX));
    assert_eq!(decode_i32(&tree("0")), Ok(0));
    assert_eq!(decode_u16_option(&tree("null")), Ok(None));
    assert_eq!(decode_u16_option(&tree("12")), Ok(Some(12)));
    let value = failure(DecodeErrorKind::InvalidValue, vec![]);
    let kind = failure(DecodeErrorKind::InvalidType, vec![]);
    assert_eq!(decode_u8(&tree("256")), Err(value.clone()));
    assert_eq!(decode_u8(&tree("-1")), Err(value.clone()));
    assert_eq!(decode_u16(&tree("65536")), Err(value.clone()));
    assert_eq!(decode_u32(&tree("4294967296")), Err(value.clone()));
    assert_eq!(decode_u32(&tree("-9223372036854775808")), Err(value.clone()));
    assert_eq!(decode_i32(&tree("2147483648")), Err(value.clone()));
    assert_eq!(decode_i32(&tree("-2147483649")), Err(value.clone()));
    assert_eq!(decode_i32(&tree("18446744073709551615")), Err(value.clone()));
    assert_eq!(decode_u8(&tree("1.0")), Err(kind.clone()));
    assert_eq!(decode_u8(&tree("1e2")), Err(kind.clone()));
    assert_eq!(decode_i32(&tree("-1.5")), Err(kind.clone()));
    assert_eq!(decode_u8(&tree("\"1\"")), Err(kind.clone()));
    assert_eq!(decode_u8(&tree("null")), Err(kind.clone()));
    assert_eq!(decode_u8(&tree("true")), Err(kind.clone()));
    assert_eq!(decode_u16_option(&tree("\"\"")), Err(kind.clone()));
}

#[test]
fn leaves_decode_by_their_type() {
    assert_eq!(decode_bool(&tree("true")), Ok(true));
    assert_eq!(decode_bool(&tree("false")), Ok(false));
    assert_eq!(decode_bool(&tree("1")), Err(failure(DecodeErrorKind::InvalidType, vec![])));
    assert_eq!(decode_string(&tree("\"a\\u00e9\\n\"")), Ok("a\u{e9}\n".to_string()));
    assert_eq!(decode_string(&tree("7")), Err(failure(DecodeErrorKind::InvalidType, vec![])));
    assert_eq!(decode_strings(&tree("[]")), Ok(vec![]));
    assert_eq!(decode_strings(&tree("[\"a\",\"\"]")), Ok(vec!["a".to_string(), String::new()]));
    assert_eq!(
        decode_strings(&tree("[\"a\",\"b\",null,4]")),
        Err(failure(DecodeErrorKind::InvalidType, vec![PathSegment::Index(2)]))
    );
    assert_eq!(decode_i32s(&tree("[3,-4]")), Ok(vec![3, -4]));
    assert_eq!(
        decode_i32s(&tree("{}")),
        Err(failure(DecodeErrorKind::InvalidType, vec![]))
    );
    assert_eq!(decode_u16_options(&tree("[null,0]")), Ok(vec![None, Some(0)]));
    assert_eq!(
        decode_u16_options(&tree("[null,65536]")),
        Err(failure(DecodeErrorKind::InvalidValue, vec![PathSegment::Index(1)]))
    );
    assert_eq!(decode_item_list(&tree("[]")), Ok(vec![]));
    assert_eq!(
        decode_item_list(&tree("[{}]")),
        Err(failure(DecodeErrorKind::MissingField, vec![PathSegment::Index(0), field("identified")]))
    );
}

#[test]
fn text_is_parsed_into_a_tree() {
    assert_eq!(tree("null"), Json::Null);
    assert_eq!(tree(" true "), Json::Bool(true));
    assert_eq!(tree("\"x\""), Json::String("x".to_string()));
    assert_eq!(tree("7"), Json::Number(JsonNumber { unsigned: Some(7), signed: Some(7) }));
    assert_eq!(tree("-7"), Json::Number(JsonNumber { unsigned: None, signed: Some(-7) }));
    assert_eq!(
        tree("18446744073709551615"),
        Json::Number(JsonNumber { unsigned: Some(u64::MAX), signed: None })
    );
    assert_eq!(tree("0.5"), Json::Number(JsonNumber { unsigned: None, signed: None }));
    assert_eq!(
        tree("[1,[null],{}]"),
        Json::Array(vec![
            Json::Number(JsonNumber { unsigned: Some(1), signed: Some(1) }),
            Json::Array(vec![Json::Null]),
            Json::Object(vec![]),
        ])
    );
    assert_eq!(
        tree("{\"b\":false,\"a\":\"x\"}"),
        Json::Object(vec![
            JsonField { name: "a".to_string(), value: Json::String("x".to_string()) },
            JsonField { name: "b".to_string(), value: Json::Bool(false) },
        ])
    );
}

#[test]
fn the_first_member_of_a_name_is_found() {
    let members = vec![
        JsonField { name: "a".to_string(), value: Json::Bool(true) },
        JsonField { name: "b".to_string(), value: Json::Null },
        JsonField { name: "a".to_string(), value: Json::Bool(false) },
    ];
    assert_eq!(find(&members, "a"), Some(&Json::Bool(true)));
    assert_eq!(find(&members, "b"), Some(&Json::Null));
    assert_eq!(find(&members, "c"), None);
    assert_eq!(find(&vec![], "a"), None);
}

#[test]
fn errors_read_as_texts() {
    let err = CharacterData::from_json_str("{}").unwrap_err();
    assert_eq!(err.path_string(), "header");
    assert_eq!(err.to_string(), "missing field at `header`");
    let err = failure(DecodeErrorKind::Syntax, vec![]);
    assert_eq!(err.path_string(), "");
    assert_eq!(err.to_string(), "the text is no JSON document");
    let err = failure(DecodeErrorKind::InvalidType, vec![]);
    assert_eq!(err.to_string(), "invalid type");
    let err = failure(
        DecodeErrorKind::InvalidValue,
        vec![
            field("items"),
            PathSegment::Index(10),
            field("socketed_items"),
            PathSegment::Index(0),
            field("id"),
        ],
    );
    assert_eq!(err.path_string(), "items[10].socketed_items[0].id");
    assert_eq!(err.to_string(), "invalid value at `items[10].socketed_items[0].id`");
    for (index, text) in [
        (0usize, "[0]"),
        (7, "[7]"),
        (9, "[9]"),
        (10, "[10]"),
        (99, "[99]"),
        (100, "[100]"),
        (1234567890, "[1234567890]"),
        (4294967295, "[4294967295]"),
    ] {
        let err = failure(DecodeErrorKind::InvalidType, vec![PathSegment::Index(index)]);
        assert_eq!(err.path_string(), text);
    }
    let err = failure(
        DecodeErrorKind::InvalidType,
        vec![PathSegment::Index(3), PathSegment::Index(4), field("a"), field("b")],
    );
    assert_eq!(err.path_string(), "[3][4].a.b");
}

#[test]
fn attributes_are_held_once_each() {
    let attributes = decode_attributes(&tree("{\"b\":2,\"a\":1}")).unwrap();
    assert_eq!(attributes.len(), 2);
    assert_eq!(attributes.as_slice()[0].name, "a");
    assert_eq!(attributes.as_slice()[0].value, 1);
    assert_eq!(attributes.as_slice()[1].name, "b");
    let by_hand = Json::Object(vec![
        JsonField { name: "a".to_string(), value: tree("1") },
        JsonField { name: "b".to_string(), value: tree("2") },
        JsonField { name: "a".to_string(), value: tree("3") },
    ]);
    let attributes = decode_attributes(&by_hand).unwrap();
    assert_eq!(attributes.len(), 2);
    assert_eq!(attributes.as_slice()[0].name, "a");
    assert_eq!(attributes.as_slice()[0].value, 3);
    let mut attributes = CharacterDataAttributes::new();
    assert_eq!(attributes.len(), 0);
    attributes.insert("x".to_string(), 1);
    attributes.insert("y".to_string(), 2);
    attributes.insert("x".to_string(), 5);
    assert_eq!(attributes.len(), 2);
    assert_eq!(attributes.get("x"), Some(5));
    assert_eq!(attributes.get("y"), Some(2));
    assert_eq!(attributes.get("z"), None);
}

#[test]
fn an_object_is_not_read_from_an_array() {
    assert_eq!(
        decode_status(&tree("[true,false,false,true]")),
        Err(failure(DecodeErrorKind::InvalidType, vec![]))
    );
    assert_eq!(
        decode_item(&tree("[]")).unwrap_err(),
        failure(DecodeErrorKind::InvalidType, vec![])
    );
    let text = character_text(&HEADER.replace(
        "{\"expansion\":true,\"died\":false,\"hardcore\":false,\"ladder\":false}",
        "[true,false,false,false]",
    ), "[]");
    assert_eq!(
        CharacterData::from_json_str(&text).unwrap_err(),
        failure(DecodeErrorKind::InvalidType, vec![field("header"), field("status")])
    );
}
