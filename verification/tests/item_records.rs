use tbc_wdb_parser::item::{item_layout, parse_item_entry, FieldKind, ItemEntry};

fn put(b: &mut Vec<u8>, v: u32) {
    b.extend_from_slice(&v.to_le_bytes());
}

fn put_i(b: &mut Vec<u8>, v: i32) {
    put(b, v as u32);
}

fn put_f(b: &mut Vec<u8>, v: f32) {
    put(b, v.to_bits());
}

fn put_s(b: &mut Vec<u8>, s: &[u8]) {
    b.extend_from_slice(s);
    b.push(0);
}

/// A record as a 2.4.3 client (build 8606) writes it.
fn tbc_record(entry: u32, name: &[u8], description: &[u8], inventory_type: u32) -> Vec<u8> {
    let mut b = Vec::new();
    put(&mut b, entry);
    put(&mut b, 500);
    put(&mut b, 2);
    put(&mut b, 7);
    put_s(&mut b, name);
    put_s(&mut b, b"second slot");
    put_s(&mut b, b"");
    put_s(&mut b, b"");
    put(&mut b, 1234);
    put(&mut b, 4);
    put(&mut b, 0x40);
    put(&mut b, u32::MAX);
    put(&mut b, 5000);
    put(&mut b, inventory_type);
    put_i(&mut b, -1);
    put_i(&mut b, -1);
    put(&mut b, 300);
    put_i(&mut b, 70);
    put(&mut b, u32::MAX);
    put(&mut b, 75);
    put(&mut b, u32::MAX);
    put(&mut b, 3);
    put(&mut b, 0);
    put(&mut b, 942);
    put(&mut b, 5);
    put(&mut b, 1);
    put(&mut b, 20);
    put(&mut b, 0);
    for j in 0..10i32 {
        put_i(&mut b, j + 3);
        put_i(&mut b, if j == 0 { 40000 } else { -j });
    }
    for j in 0..5u32 {
        put_f(&mut b, 10.5 + j as f32);
        put_f(&mut b, 20.25 + j as f32);
        put(&mut b, j);
    }
    for v in [70000i32, -5, 10, 300, 0, 255, 7] {
        put_i(&mut b, v);
    }
    put(&mut b, 2600);
    put(&mut b, 0);
    put_f(&mut b, 100.0);
    for j in 0..5u32 {
        put(&mut b, 1000 + j);
        put(&mut b, j);
        put_i(&mut b, if j == 0 { -1 } else { 2 });
        put_i(&mut b, -1);
        put(&mut b, 70000);
        put_i(&mut b, 3000);
    }
    put(&mut b, 1);
    put_s(&mut b, description);
    for v in [0u32, 300, 2, 0, 0] {
        put(&mut b, v);
    }
    put_i(&mut b, -1);
    put(&mut b, 3);
    put_i(&mut b, -5);
    for v in [0u32, 0, 120, 0, 0, 0] {
        put(&mut b, v);
    }
    put(&mut b, 300);
    for v in [2u32, 20_000_000, 4, 0, 8, 0] {
        put(&mut b, v);
    }
    put(&mut b, 2900);
    put(&mut b, 0);
    put_f(&mut b, 0.25);
    put(&mut b, u32::MAX);
    put(&mut b, 0);
    put(&mut b, 0);
    put(&mut b, 42);
    b
}

/// A record as a client older than every optional field writes it.
fn early_record(entry: u32) -> Vec<u8> {
    let mut b = Vec::new();
    put(&mut b, entry);
    put(&mut b, 0);
    put(&mut b, 4);
    put(&mut b, 1);
    for s in [&b"Old Cloth"[..], b"", b"", b""] {
        put_s(&mut b, s);
    }
    for v in [9u32, 1, 0, 10, 2, 16] {
        put(&mut b, v);
    }
    put_i(&mut b, -1);
    put_i(&mut b, -1);
    put(&mut b, 5);
    put_i(&mut b, 1);
    put(&mut b, 0);
    put(&mut b, 0);
    for v in [1u32, 1, 0] {
        put(&mut b, v);
    }
    for _ in 0..20 {
        put_i(&mut b, 0);
    }
    for _ in 0..5 {
        put_f(&mut b, 0.0);
        put_f(&mut b, 0.0);
        put(&mut b, 0);
    }
    for v in [15i32, 0, 0, 0, 0, 0] {
        put_i(&mut b, v);
    }
    put(&mut b, 0);
    put(&mut b, 0);
    for _ in 0..5 {
        for _ in 0..6 {
            put(&mut b, 0);
        }
    }
    put(&mut b, 0);
    put_s(&mut b, b"plain");
    for _ in 0..7 {
        put(&mut b, 0);
    }
    for _ in 0..14 {
        put(&mut b, 6);
    }
    b
}

fn parse_at(data: &[u8], pos: &mut usize, build: u32) -> ItemEntry {
    match parse_item_entry(data, pos, build) {
        Ok(Some(it)) => it,
        other => panic!("expected an item, got {:?}", other.map(|o| o.map(|it| it.fields.entry))),
    }
}

#[test]
fn layout_has_every_field_for_tbc() {
    let layout = item_layout(8606);
    assert_eq!(layout.len(), 132);
    assert!(!layout.iter().any(|k| matches!(k, FieldKind::AbsentU32 | FieldKind::AbsentI32 | FieldKind::AbsentF32)));
    assert_eq!(layout.iter().filter(|k| matches!(k, FieldKind::CStr)).count(), 5);
    assert_eq!(layout.iter().filter(|k| matches!(k, FieldKind::F32)).count(), 11);
}

#[test]
fn layout_of_an_early_build_skips_later_fields() {
    let layout = item_layout(3000);
    assert_eq!(layout.len(), 132);
    let absent = layout
        .iter()
        .filter(|k| matches!(k, FieldKind::AbsentU32 | FieldKind::AbsentI32 | FieldKind::AbsentF32))
        .count();
    assert_eq!(absent, 14);
    let mid = item_layout(4700);
    let absent_mid = mid
        .iter()
        .filter(|k| matches!(k, FieldKind::AbsentU32 | FieldKind::AbsentI32 | FieldKind::AbsentF32))
        .count();
    assert_eq!(absent_mid, 3);
}

#[test]
fn parses_a_tbc_record() {
    let data = tbc_record(19019, b"Thunderfury, Blessed Blade", b"Kel'Thuzad's \\ blade", 13);
    let mut pos = 0usize;
    let it = parse_at(&data, &mut pos, 8606);
    assert_eq!(pos, data.len());
    assert_eq!(it.name, "Thunderfury, Blessed Blade");
    assert_eq!(it.description, "Kel'Thuzad's \\ blade");
    let f = &it.fields;
    assert_eq!(f.entry, 19019);
    assert_eq!(f.class, 2);
    assert_eq!(f.subclass, 7);
    assert_eq!(f.displayid, 1234);
    assert_eq!(f.quality, 4);
    assert_eq!(f.flags, 0x40);
    assert_eq!(f.buy_price, 0);
    assert_eq!(f.sell_price, 5000);
    assert_eq!(f.inventory_type, 13);
    assert_eq!(f.allowable_class, -1);
    assert_eq!(f.item_level, 300);
    assert_eq!(f.required_level, 70);
    assert_eq!(f.required_skill, 0);
    assert_eq!(f.required_skill_rank, 75);
    assert_eq!(f.required_spell, u32::MAX);
    assert_eq!(f.required_honor_rank, 3);
    assert_eq!(f.required_reputation_faction, 942);
    assert_eq!(f.required_reputation_rank, 5);
    assert_eq!(f.stackable, 20);
    assert_eq!(f.stats[0].stat_type, 3);
    assert_eq!(f.stats[0].stat_value, 40000);
    assert_eq!(f.stats[9].stat_type, 12);
    assert_eq!(f.stats[9].stat_value, -9);
    assert_eq!(f.damages[0].min_bits, 10.5f32.to_bits());
    assert_eq!(f.damages[4].max_bits, 24.25f32.to_bits());
    assert_eq!(f.damages[3].dmg_type, 3);
    assert_eq!(f.armor, 70000);
    assert_eq!(f.holy_res, -5);
    assert_eq!(f.arcane_res, 7);
    assert_eq!(f.delay, 2600);
    assert_eq!(f.ranged_mod_range_bits, 100.0f32.to_bits());
    assert_eq!(f.spells[0].spell_id, 1000);
    assert_eq!(f.spells[0].charges, -1);
    assert_eq!(f.spells[4].trigger, 4);
    assert_eq!(f.spells[2].category, 70000);
    assert_eq!(f.spells[1].category_cooldown, 3000);
    assert_eq!(f.bonding, 1);
    assert_eq!(f.language_id, 300);
    assert_eq!(f.material, -1);
    assert_eq!(f.sheath, 3);
    assert_eq!(f.random_property, -5);
    assert_eq!(f.max_durability, 120);
    assert_eq!(f.totem_category, 300);
    assert_eq!(f.socket_colors, [2, 4, 8]);
    assert_eq!(f.socket_contents, [20_000_000, 0, 0]);
    assert_eq!(f.socket_bonus, 2900);
    assert_eq!(f.armor_damage_modifier_bits, 0.25f32.to_bits());
    assert_eq!(f.required_disenchant_skill, u32::MAX);
    assert_eq!(f.disenchant_id, 42);
}

#[test]
fn parses_consecutive_records() {
    let mut data = tbc_record(1, b"First", b"", 1);
    let first_len = data.len();
    data.extend(tbc_record(2, b"Second", b"", 2));
    let mut pos = 0usize;
    assert_eq!(parse_at(&data, &mut pos, 8606).name, "First");
    assert_eq!(pos, first_len);
    assert_eq!(parse_at(&data, &mut pos, 8606).fields.entry, 2);
    assert_eq!(pos, data.len());
}

#[test]
fn long_names_keep_255_characters() {
    let name = vec![b'n'; 300];
    let description = vec![b'd'; 256];
    let data = tbc_record(5, &name, &description, 1);
    let mut pos = 0usize;
    let it = parse_at(&data, &mut pos, 8606);
    assert_eq!(it.name.chars().count(), 255);
    assert_eq!(it.description.chars().count(), 255);
}

#[test]
fn parses_an_early_build_record() {
    let data = early_record(77);
    let mut pos = 0usize;
    let it = parse_at(&data, &mut pos, 3000);
    assert_eq!(pos, data.len());
    assert_eq!(it.name, "Old Cloth");
    assert_eq!(it.description, "plain");
    let f = &it.fields;
    assert_eq!(f.class, 4);
    assert_eq!(f.inventory_type, 16);
    assert_eq!(f.required_spell, 0);
    assert_eq!(f.required_reputation_rank, 0);
    assert_eq!(f.arcane_res, 0);
    assert_eq!(f.ranged_mod_range_bits, 0);
    assert_eq!(f.random_property, 0);
    assert_eq!(f.bag_family, 0);
    assert_eq!(f.armor, 15);
    assert_eq!(f.totem_category, 6);
    assert_eq!(f.disenchant_id, 6);
}

#[test]
fn fewer_than_eight_bytes_end_the_records() {
    let data = [1u8, 0, 0, 0, 0, 0, 0];
    let mut pos = 0usize;
    assert!(matches!(parse_item_entry(&data, &mut pos, 8606), Ok(None)));
    assert_eq!(pos, 0);
    let mut far = 50usize;
    assert!(matches!(parse_item_entry(&data, &mut far, 8606), Ok(None)));
    assert_eq!(far, 50);
}

#[test]
fn entry_zero_ends_the_records() {
    let data = [0u8; 12];
    let mut pos = 0usize;
    assert!(matches!(parse_item_entry(&data, &mut pos, 8606), Ok(None)));
    assert_eq!(pos, 4);
}

fn error_of(data: &[u8], build: u32) -> String {
    let mut pos = 0usize;
    match parse_item_entry(data, &mut pos, build) {
        Err(e) => e,
        _ => panic!("expected an error"),
    }
}

#[test]
fn truncated_records_report_the_failed_read() {
    let data = tbc_record(9, b"Cut", b"text", 1);
    // inside the name slots: no terminating NUL
    assert_eq!(error_of(&data[..18], 8606), "unterminated C-string");
    // inside the words after the names
    let names_end = 16 + 4 + 12 + 1 + 1;
    assert_eq!(error_of(&data[..names_end + 6], 8606), "unexpected EOF while reading u32");
    // inside the first damage range (floats)
    let damage_start = names_end + 4 * 20 + 4 * 20;
    assert_eq!(error_of(&data[..damage_start + 2], 8606), "unexpected EOF while reading f32");
    // the last word cut short
    assert_eq!(error_of(&data[..data.len() - 1], 8606), "unexpected EOF while reading u32");
}

#[test]
fn a_failed_record_leaves_the_cursor_past_the_first_two_words() {
    let data = tbc_record(9, b"Cut", b"text", 1);
    let cut = &data[..20];
    let mut pos = 0usize;
    assert_eq!(parse_item_entry(cut, &mut pos, 8606).err(), Some("unterminated C-string".to_string()));
    assert_eq!(pos, 20);
    let cut = &data[..40];
    let mut pos = 0usize;
    assert_eq!(parse_item_entry(cut, &mut pos, 8606).err(), Some("unexpected EOF while reading u32".to_string()));
    // the first word after the names (offset 34) was read; the next one does not fit
    assert_eq!(pos, 38);
}
