use tbc_wdb_parser::item::parse_item_entry;
use tbc_wdb_parser::itemcache::{itemcache_rows, parse_item_records, read_itemcache_build};
use tbc_wdb_parser::sql::{item_template_columns, render_insert_sql, render_row, sql_row_values, SqlValue};

fn put(b: &mut Vec<u8>, v: u32) {
    b.extend_from_slice(&v.to_le_bytes());
}

fn put_i(b: &mut Vec<u8>, v: i32) {
    put(b, v as u32);
}

fn put_f(b: &mut Vec<u8>, v: f32) {
    put(b, v.to_bits());
}

fn put_s(b: &mut Vec<u8>, s: &[u8]) {
    b.extend_from_slice(s);
    b.push(0);
}

/// A record as a 2.4.3 client (build 8606) writes it.
fn tbc_record(entry: u32, name: &[u8], description: &[u8], inventory_type: u32) -> Vec<u8> {
    let mut b = Vec::new();
    put(&mut b, entry);
    put(&mut b, 500);
    put(&mut b, 2);
    put(&mut b, 7);
    put_s(&mut b, name);
    put_s(&mut b, b"second slot");
    put_s(&mut b, b"");
    put_s(&mut b, b"");
    put(&mut b, 1234);
    put(&mut b, 4);
    put(&mut b, 0x40);
    put(&mut b, u32::MAX);
    put(&mut b, 5000);
    put(&mut b, inventory_type);
    put_i(&mut b, -1);
    put_i(&mut b, -1);
    put(&mut b, 300);
    put_i(&mut b, 70);
    put(&mut b, u32::MAX);
    put(&mut b, 75);
    put(&mut b, u32::MAX);
    put(&mut b, 3);
    put(&mut b, 0);
    put(&mut b, 942);
    put(&mut b, 5);
    put(&mut b, 1);
    put(&mut b, 20);
    put(&mut b, 0);
    for j in 0..10i32 {
        put_i(&mut b, j + 3);
        put_i(&mut b, if j == 0 { 40000 } else { -j });
    }
    for j in 0..5u32 {
        put_f(&mut b, 10.5 + j as f32);
        put_f(&mut b, 20.25 + j as f32);
        put(&mut b, j);
    }
    for v in [70000i32, -5, 10, 300, 0, 255, 7] {
        put_i(&mut b, v);
    }
    put(&mut b, 2600);
    put(&mut b, 0);
    put_f(&mut b, 100.0);
    for j in 0..5u32 {
        put(&mut b, 1000 + j);
        put(&mut b, j);
        put_i(&mut b, if j == 0 { -1 } else { 2 });
        put_i(&mut b, -1);
        put(&mut b, 70000);
        put_i(&mut b, 3000);
    }
    put(&mut b, 1);
    put_s(&mut b, description);
    for v in [0u32, 300, 2, 0, 0] {
        put(&mut b, v);
    }
    put_i(&mut b, -1);
    put(&mut b, 3);
    put_i(&mut b, -5);
    for v in [0u32, 0, 120, 0, 0, 0] {
        put(&mut b, v);
    }
    put(&mut b, 300);
    for v in [2u32, 20_000_000, 4, 0, 8, 0] {
        put(&mut b, v);
    }
    put(&mut b, 2900);
    put(&mut b, 0);
    put_f(&mut b, 0.25);
    put(&mut b, u32::MAX);
    put(&mut b, 0);
    put(&mut b, 0);
    put(&mut b, 42);
    b
}

fn expected_columns() -> Vec<String> {
    let mut cols: Vec<String> = Vec::new();
    for c in [
        "entry", "class", "subclass", "name", "displayid", "Quality", "Flags", "BuyPrice", "SellPrice",
        "InventoryType", "AllowableClass", "AllowableRace", "ItemLevel", "RequiredLevel", "RequiredSkill",
        "RequiredSkillRank", "requiredspell", "requiredhonorrank", "RequiredCityRank",
        "RequiredReputationFaction", "RequiredReputationRank", "maxcount", "stackable", "ContainerSlots",
    ] {
        cols.push(format!("`{}`", c));
    }
    for i in 1..=10 {
        cols.push(format!("`stat_type{i}`"));
        cols.push(format!("`stat_value{i}`"));
    }
    for i in 1..=5 {
        cols.push(format!("`dmg_min{i}`"));
        cols.push(format!("`dmg_max{i}`"));
        cols.push(format!("`dmg_type{i}`"));
    }
    for c in ["armor", "holy_res", "fire_res", "nature_res", "frost_res", "shadow_res", "arcane_res", "delay", "ammo_type", "RangedModRange"] {
        cols.push(format!("`{}`", c));
    }
    for i in 1..=5 {
        cols.push(format!("`spellid_{i}`"));
        cols.push(format!("`spelltrigger_{i}`"));
        cols.push(format!("`spellcharges_{i}`"));
        cols.push(format!("`spellcooldown_{i}`"));
        cols.push(format!("`spellcategory_{i}`"));
        cols.push(format!("`spellcategorycooldown_{i}`"));
    }
    for c in [
        "bonding", "description", "PageText", "LanguageID", "PageMaterial", "startquest", "lockid", "Material",
        "sheath", "RandomProperty", "block", "itemset", "MaxDurability", "area", "Map", "BagFamily",
        "TotemCategory", "socketColor_1", "socketContent_1", "socketColor_2", "socketContent_2",
        "socketColor_3", "socketContent_3", "socketBonus", "GemProperties", "RequiredDisenchantSkill",
        "ArmorDamageModifier", "DisenchantID", "Duration", "ExtraFlags",
    ] {
        cols.push(format!("`{}`", c));
    }
    cols
}

fn header(build: u32) -> Vec<u8> {
    let mut b = b"BDIW".to_vec();
    put(&mut b, build);
    b.extend_from_slice(&[0u8; 16]);
    b
}

fn texts(row: &[SqlValue]) -> Vec<String> {
    row.iter()
        .map(|v| match v {
            SqlValue::Text(s) => s.clone(),
            SqlValue::Float(bits) => format!("f{}", f32::from_bits(*bits)),
        })
        .collect()
}

fn tbc_row() -> Vec<String> {
    let data = tbc_record(19019, b"Kel'Thuzad\\'s Blade", b"line\nbreak\n", 13);
    let mut pos = 0usize;
    let it = match parse_item_entry(&data, &mut pos, 8606) {
        Ok(Some(it)) => it,
        _ => panic!("record did not parse"),
    };
    texts(&sql_row_values(&it))
}

#[test]
fn columns_are_the_item_template_columns() {
    let cols = item_template_columns();
    assert_eq!(cols.len(), 129);
    assert_eq!(cols, expected_columns());
}

#[test]
fn row_has_one_value_per_column() {
    assert_eq!(tbc_row().len(), item_template_columns().len());
}

#[test]
fn row_values_of_a_tbc_item() {
    let row = tbc_row();
    let expected_head = [
        "19019", "2", "7", "'Kel''Thuzad\\\\''s Blade'", "1234", "4", "64", "0", "5000", "13", "-1", "-1", "255",
        "70", "0", "75", "0", "3", "0", "942", "5", "1", "20", "0",
    ];
    assert_eq!(&row[..24], &expected_head[..]);
    // stats: type clamped to 0..=255, value to the i16 range
    assert_eq!(&row[24..28], &["3", "32767", "4", "-1"][..]);
    // damages: min, max as floats, type
    assert_eq!(&row[44..47], &["f10.5", "f20.25", "0"][..]);
    assert_eq!(&row[56..59], &["f14.5", "f24.25", "4"][..]);
    // armor (u16), resistances (u8), delay, ammo, ranged modifier
    assert_eq!(
        &row[59..69],
        &["65535", "0", "10", "255", "0", "255", "7", "2600", "0", "f100"][..]
    );
    // first two spells
    assert_eq!(&row[69..75], &["1000", "0", "0", "-1", "65535", "3000"][..]);
    assert_eq!(&row[75..81], &["1001", "1", "2", "-1", "65535", "3000"][..]);
    // the rest
    let expected_tail = [
        "1", "'line\\nbreak\\n'", "0", "255", "2", "0", "0", "0", "3", "0", "0", "0", "120", "0", "0", "0",
        "255", "2", "16777215", "4", "0", "8", "0", "2900", "0", "-1", "f0.25", "42", "0", "0",
    ];
    assert_eq!(&row[99..], &expected_tail[..]);
}

#[test]
fn disenchant_skill_is_capped_when_set() {
    let mut data = tbc_record(3, b"Gem", b"", 2);
    let n = data.len();
    // required_disenchant_skill is the fourth word from the end
    data[n - 16..n - 12].copy_from_slice(&40000u32.to_le_bytes());
    let mut pos = 0usize;
    let it = match parse_item_entry(&data, &mut pos, 8606) {
        Ok(Some(it)) => it,
        _ => panic!("record did not parse"),
    };
    assert_eq!(texts(&sql_row_values(&it))[124], "32767");
}

#[test]
fn render_row_wraps_values() {
    let values = vec!["1".to_string(), "'a'".to_string(), "2.5".to_string()];
    assert_eq!(render_row(&values), "(1, 'a', 2.5)");
    assert_eq!(render_row(&Vec::new()), "()");
}

#[test]
fn render_insert_sql_writes_the_statement() {
    let cols = vec!["`entry`".to_string(), "`name`".to_string()];
    let rows = vec![
        vec!["1".to_string(), "'A'".to_string()],
        vec!["2".to_string(), "'B'".to_string()],
    ];
    assert_eq!(
        render_insert_sql(&cols, &rows, true),
        "REPLACE INTO `item_template` (`entry`, `name`) VALUES\n(1, 'A'),\n(2, 'B');\n"
    );
    assert_eq!(
        render_insert_sql(&cols, &rows, false),
        "REPLACE INTO `item_template` (`entry`, `name`) VALUES\n(1, 'A'),\n(2, 'B')"
    );
    assert_eq!(
        render_insert_sql(&cols, &Vec::new(), true),
        "REPLACE INTO `item_template` (`entry`, `name`) VALUES\n;\n"
    );
}

#[test]
fn header_too_small() {
    let data = vec![0u8; 23];
    assert_eq!(read_itemcache_build(&data), Err("itemcache.wdb is too small".to_string()));
    assert_eq!(itemcache_rows(&data).err(), Some("itemcache.wdb is too small".to_string()));
}

#[test]
fn header_bad_signature() {
    let mut data = header(8606);
    data[3] = b'X';
    assert_eq!(read_itemcache_build(&data), Err("unexpected signature: [66, 68, 73, 88]".to_string()));
    assert!(itemcache_rows(&data).is_err());
}

#[test]
fn header_gives_the_build() {
    assert_eq!(read_itemcache_build(&header(8606)), Ok(8606));
}

#[test]
fn export_skips_placeholders_and_stops_at_the_end_marker() {
    let mut data = header(8606);
    data.extend(tbc_record(1, b"One", b"", 13));
    data.extend(tbc_record(2, b"Placeholder", b"", 0));
    data.extend(tbc_record(3, b"Three", b"", 5));
    data.extend_from_slice(&[0u8; 8]);
    data.extend(tbc_record(4, b"After the end", b"", 5));
    let out = itemcache_rows(&data).expect("header is fine");
    assert!(out.failure.is_none());
    assert_eq!(out.rows.len(), 2);
    assert_eq!(texts(&out.rows[0])[0], "1");
    assert_eq!(texts(&out.rows[0])[3], "'One'");
    assert_eq!(texts(&out.rows[1])[0], "3");
}

#[test]
fn export_of_an_empty_cache() {
    let out = itemcache_rows(&header(8606)).expect("header is fine");
    assert!(out.failure.is_none());
    assert!(out.rows.is_empty());
}

#[test]
fn export_keeps_rows_before_a_broken_record() {
    let mut data = header(8606);
    data.extend(tbc_record(1, b"One", b"", 13));
    let broken = tbc_record(2, b"Two", b"", 13);
    data.extend_from_slice(&broken[..broken.len() - 3]);
    let out = itemcache_rows(&data).expect("header is fine");
    assert_eq!(out.rows.len(), 1);
    assert_eq!(out.failure, Some("unexpected EOF while reading u32".to_string()));
}

#[test]
fn parse_item_records_returns_every_item() {
    let mut data = header(8606);
    data.extend(tbc_record(1, b"One", b"", 13));
    data.extend(tbc_record(2, b"Placeholder", b"", 0));
    let scan = parse_item_records(&data, 24, 8606);
    assert!(scan.failure.is_none());
    assert_eq!(scan.items.len(), 2);
    assert_eq!(scan.items[1].name, "Placeholder");
}
