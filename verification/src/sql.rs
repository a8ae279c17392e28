//! The `item_template` table: its columns, the column values of an item and
//! the text of the `REPLACE INTO` statement.
use vstd::prelude::*;
use vstd::string::*;

use crate::clamp::{
    i16_clamp_from_i32, min_u32, spec_clamp, spec_min, u16_clamp_from_i32, u8_clamp_from_i32,
};
use crate::item::{unset_to_zero, unset_to_zero_exec, ItemEntry, ItemFields, SpecItem};
use crate::text::{
    decimal, int_to_string, join, join_strings, push_char, signed_decimal, spec_sql_escape,
    sql_escape_str, strings_view, uint_to_string,
};

verus! {

/// One column value of a row. Floating-point columns are handed out as the
/// bit pattern of the `f32`, to be written in SQL by the caller.
pub enum SqlValue {
    Text(String),
    Float(u32),
}

/// The mathematical value of a column value.
pub enum SpecSqlValue {
    Text(Seq<char>),
    Float(u32),
}

impl View for SqlValue {
    type V = SpecSqlValue;

    open spec fn view(&self) -> SpecSqlValue {
        match self {
            SqlValue::Text(s) => SpecSqlValue::Text(s@),
            SqlValue::Float(b) => SpecSqlValue::Float(*b),
        }
    }
}

/// The values of a row.
pub open spec fn row_view(row: Seq<SqlValue>) -> Seq<SpecSqlValue> {
    Seq::new(row.len(), |i: int| row[i]@)
}

/// A number written in decimal.
pub open spec fn num(n: int) -> SpecSqlValue {
    SpecSqlValue::Text(signed_decimal(n))
}

/// A string written as a single-quoted SQL literal.
pub open spec fn quoted(s: Seq<char>) -> SpecSqlValue {
    SpecSqlValue::Text(seq!['\''] + spec_sql_escape(s) + seq!['\''])
}

/// A word capped at `cap`, where all bits set means "unset" and is written as 0.
pub open spec fn capped_or_zero(w: u32, cap: u32) -> int {
    if w == u32::MAX {
        0
    } else {
        spec_min(w, cap) as int
    }
}

/// The first 24 values of a row: identity, price and requirements.
pub open spec fn spec_head_values(it: SpecItem) -> Seq<SpecSqlValue> {
    let f = it.fields;
    seq![
        num(f.entry as int),
        num(capped_or_zero(f.class, 255)),
        num(capped_or_zero(f.subclass, 255)),
        quoted(it.name),
        num(f.displayid as int),
        num(capped_or_zero(f.quality, 255)),
        num(f.flags as int),
        num(f.buy_price as int),
        num(f.sell_price as int),
        num(capped_or_zero(f.inventory_type, 255)),
        num(f.allowable_class as int),
        num(f.allowable_race as int),
        num(capped_or_zero(f.item_level, 255)),
        num(spec_clamp(f.required_level as int, 0, 255)),
        num(spec_min(f.required_skill, 65535) as int),
        num(spec_min(f.required_skill_rank, 65535) as int),
        num(unset_to_zero(f.required_spell) as int),
        num(unset_to_zero(f.required_honor_rank) as int),
        num(unset_to_zero(f.required_city_rank) as int),
        num(unset_to_zero(f.required_reputation_faction) as int),
        num(unset_to_zero(f.required_reputation_rank) as int),
        num(spec_min(f.maxcount, 65535) as int),
        num(capped_or_zero(f.stackable, 65535)),
        num(capped_or_zero(f.container_slots, 255)),
    ]
}

/// Type and value of the first `n` statistics.
pub open spec fn spec_stat_values(f: ItemFields, n: int) -> Seq<SpecSqlValue>
    decreases n,
{
    if n <= 0 {
        seq![]
    } else {
        let s = f.stats[n - 1];
        spec_stat_values(f, n - 1) + seq![
            num(spec_clamp(s.stat_type as int, 0, 255)),
            num(spec_clamp(s.stat_value as int, -32768, 32767)),
        ]
    }
}

/// Minimum, maximum and type of the first `n` damage ranges.
pub open spec fn spec_damage_values(f: ItemFields, n: int) -> Seq<SpecSqlValue>
    decreases n,
{
    if n <= 0 {
        seq![]
    } else {
        let d = f.damages[n - 1];
        spec_damage_values(f, n - 1) + seq![
            SpecSqlValue::Float(d.min_bits),
            SpecSqlValue::Float(d.max_bits),
            num(spec_clamp((d.dmg_type as i32) as int, 0, 255)),
        ]
    }
}

/// Armor, resistances and weapon parameters.
pub open spec fn spec_defense_values(f: ItemFields) -> Seq<SpecSqlValue> {
    seq![
        num(spec_clamp(f.armor as int, 0, 65535)),
        num(spec_clamp(f.holy_res as int, 0, 255)),
        num(spec_clamp(f.fire_res as int, 0, 255)),
        num(spec_clamp(f.nature_res as int, 0, 255)),
        num(spec_clamp(f.frost_res as int, 0, 255)),
        num(spec_clamp(f.shadow_res as int, 0, 255)),
        num(spec_clamp(f.arcane_res as int, 0, 255)),
        num(f.delay as int),
        num(f.ammo_type as int),
        SpecSqlValue::Float(f.ranged_mod_range_bits),
    ]
}

/// The six values of each of the first `n` spells.
pub open spec fn spec_spell_values(f: ItemFields, n: int) -> Seq<SpecSqlValue>
    decreases n,
{
    if n <= 0 {
        seq![]
    } else {
        let s = f.spells[n - 1];
        spec_spell_values(f, n - 1) + seq![
            num(s.spell_id as int),
            num(spec_clamp((s.trigger as i32) as int, 0, 255)),
            num(if s.charges < 0 { 0 } else { s.charges as int }),
            num(s.cooldown as int),
            num(spec_clamp((s.category as i32) as int, 0, 65535)),
            num(s.category_cooldown as int),
        ]
    }
}

/// Values 100 to 115 of a row: bonding, description, page, quest, lock,
/// material, set, durability, zone and bag.
pub open spec fn spec_misc_values(it: SpecItem) -> Seq<SpecSqlValue> {
    let f = it.fields;
    seq![
        num(f.bonding as int),
        quoted(it.description),
        num(f.page_text as int),
        num(spec_min(f.language_id, 255) as int),
        num(spec_min(f.page_material, 255) as int),
        num(f.startquest as int),
        num(f.lockid as int),
        num(spec_clamp(f.material as int, 0, 255)),
        num(f.sheath as int),
        num(if f.random_property < 0 { 0 } else { f.random_property as int }),
        num(f.block as int),
        num(f.itemset as int),
        num(f.max_durability as int),
        num(f.area as int),
        num(f.map as int),
        num(f.bag_family as int),
    ]
}

/// The last 14 values of a row: totem, sockets, gems, disenchanting,
/// armor modifier, duration and extra flags.
pub open spec fn spec_socket_values(f: ItemFields) -> Seq<SpecSqlValue> {
    seq![
        num(spec_min(f.totem_category, 255) as int),
        num(spec_min(f.socket_colors[0], 255) as int),
        num(spec_min(f.socket_contents[0], 16777215) as int),
        num(spec_min(f.socket_colors[1], 255) as int),
        num(spec_min(f.socket_contents[1], 16777215) as int),
        num(spec_min(f.socket_colors[2], 255) as int),
        num(spec_min(f.socket_contents[2], 16777215) as int),
        num(spec_min(f.socket_bonus, 16777215) as int),
        num(spec_min(f.gem_properties, 16777215) as int),
        num(
            if f.required_disenchant_skill == u32::MAX {
                -1
            } else {
                spec_min(f.required_disenchant_skill, 32767) as int
            },
        ),
        SpecSqlValue::Float(f.armor_damage_modifier_bits),
        num(f.disenchant_id as int),
        num(f.duration as int),
        num(spec_min(f.extra_flags, 255) as int),
    ]
}

/// The `item_template` row of an item, column by column.
pub open spec fn spec_sql_row(it: SpecItem) -> Seq<SpecSqlValue> {
    spec_head_values(it) + spec_stat_values(it.fields, 10) + spec_damage_values(it.fields, 5)
        + spec_defense_values(it.fields) + spec_spell_values(it.fields, 5) + spec_misc_values(it) + spec_socket_values(it.fields)
}

fn num_value(n: u64) -> (v: SqlValue)
    ensures
        v@ == num(n as int),
{
    SqlValue::Text(uint_to_string(n))
}

fn int_value(n: i64) -> (v: SqlValue)
    ensures
        v@ == num(n as int),
{
    SqlValue::Text(int_to_string(n))
}

fn quoted_value(text: &str) -> (v: SqlValue)
    ensures
        v@ == quoted(text@),
{
    let mut s = String::new();
    push_char(&mut s, '\'');
    let escaped = sql_escape_str(text);
    s.append(escaped.as_str());
    push_char(&mut s, '\'');
    assert(s@ =~= seq!['\''] + spec_sql_escape(text@) + seq!['\'']);
    SqlValue::Text(s)
}

fn push_uint(row: &mut Vec<SqlValue>, n: u64)
    ensures
        row_view(final(row)@) == row_view(old(row)@).push(num(n as int)),
{
    let s = uint_to_string(n);
    row.push(SqlValue::Text(s));
    assert(row_view(row@) =~= row_view(old(row)@).push(num(n as int)));
}

fn push_int(row: &mut Vec<SqlValue>, v: i64)
    ensures
        row_view(final(row)@) == row_view(old(row)@).push(num(v as int)),
{
    let s = int_to_string(v);
    row.push(SqlValue::Text(s));
    assert(row_view(row@) =~= row_view(old(row)@).push(num(v as int)));
}

fn push_float(row: &mut Vec<SqlValue>, bits: u32)
    ensures
        row_view(final(row)@) == row_view(old(row)@).push(SpecSqlValue::Float(bits)),
{
    row.push(SqlValue::Float(bits));
    assert(row_view(row@) =~= row_view(old(row)@).push(SpecSqlValue::Float(bits)));
}

fn capped_or_zero_exec(w: u32, cap: u32) -> (r: u32)
    ensures
        r as int == capped_or_zero(w, cap),
{
    if w == u32::MAX {
        0
    } else {
        min_u32(w, cap)
    }
}

fn head_values(it: &ItemEntry) -> (v: Vec<SqlValue>)
    ensures
        row_view(v@) == spec_head_values(it@),
{
    let f = &it.fields;
    let v = vec![
        num_value(f.entry as u64),
        num_value(capped_or_zero_exec(f.class, 255) as u64),
        num_value(capped_or_zero_exec(f.subclass, 255) as u64),
        quoted_value(it.name.as_str()),
        num_value(f.displayid as u64),
        num_value(capped_or_zero_exec(f.quality, 255) as u64),
        num_value(f.flags as u64),
        num_value(f.buy_price as u64),
        num_value(f.sell_price as u64),
        num_value(capped_or_zero_exec(f.inventory_type, 255) as u64),
        int_value(f.allowable_class as i64),
        int_value(f.allowable_race as i64),
        num_value(capped_or_zero_exec(f.item_level, 255) as u64),
        num_value(u8_clamp_from_i32(f.required_level) as u64),
        num_value(min_u32(f.required_skill, 65535) as u64),
        num_value(min_u32(f.required_skill_rank, 65535) as u64),
        num_value(unset_to_zero_exec(f.required_spell) as u64),
        num_value(unset_to_zero_exec(f.required_honor_rank) as u64),
        num_value(unset_to_zero_exec(f.required_city_rank) as u64),
        num_value(unset_to_zero_exec(f.required_reputation_faction) as u64),
        num_value(unset_to_zero_exec(f.required_reputation_rank) as u64),
        num_value(min_u32(f.maxcount, 65535) as u64),
        num_value(capped_or_zero_exec(f.stackable, 65535) as u64),
        num_value(capped_or_zero_exec(f.container_slots, 255) as u64),
    ];
    assert(row_view(v@) =~= spec_head_values(it@));
    v
}

fn push_stat_values(row: &mut Vec<SqlValue>, f: &ItemFields)
    ensures
        row_view(final(row)@) == row_view(old(row)@) + spec_stat_values(*f, 10),
{
    let mut i: usize = 0;
    assert(row_view(row@) =~= row_view(old(row)@) + spec_stat_values(*f, 0));
    while i < 10
        invariant
            i <= 10,
            row_view(row@) == row_view(old(row)@) + spec_stat_values(*f, i as int),
        decreases 10 - i,
    {
        let s = f.stats[i];
        push_uint(row, u8_clamp_from_i32(s.stat_type) as u64);
        push_int(row, i16_clamp_from_i32(s.stat_value) as i64);
        i = i + 1;
        assert(row_view(row@) =~= row_view(old(row)@) + spec_stat_values(*f, i as int));
    }
}

fn push_damage_values(row: &mut Vec<SqlValue>, f: &ItemFields)
    ensures
        row_view(final(row)@) == row_view(old(row)@) + spec_damage_values(*f, 5),
{
    let mut i: usize = 0;
    assert(row_view(row@) =~= row_view(old(row)@) + spec_damage_values(*f, 0));
    while i < 5
        invariant
            i <= 5,
            row_view(row@) == row_view(old(row)@) + spec_damage_values(*f, i as int),
        decreases 5 - i,
    {
        let d = f.damages[i];
        push_float(row, d.min_bits);
        push_float(row, d.max_bits);
        push_uint(row, u8_clamp_from_i32(d.dmg_type as i32) as u64);
        i = i + 1;
        assert(row_view(row@) =~= row_view(old(row)@) + spec_damage_values(*f, i as int));
    }
}

fn defense_values(f: &ItemFields) -> (v: Vec<SqlValue>)
    ensures
        row_view(v@) == spec_defense_values(*f),
{
    let v = vec![
        num_value(u16_clamp_from_i32(f.armor) as u64),
        num_value(u8_clamp_from_i32(f.holy_res) as u64),
        num_value(u8_clamp_from_i32(f.fire_res) as u64),
        num_value(u8_clamp_from_i32(f.nature_res) as u64),
        num_value(u8_clamp_from_i32(f.frost_res) as u64),
        num_value(u8_clamp_from_i32(f.shadow_res) as u64),
        num_value(u8_clamp_from_i32(f.arcane_res) as u64),
        num_value(f.delay as u64),
        num_value(f.ammo_type as u64),
        SqlValue::Float(f.ranged_mod_range_bits),
    ];
    assert(row_view(v@) =~= spec_defense_values(*f));
    v
}

fn push_spell_values(row: &mut Vec<SqlValue>, f: &ItemFields)
    ensures
        row_view(final(row)@) == row_view(old(row)@) + spec_spell_values(*f, 5),
{
    let mut i: usize = 0;
    assert(row_view(row@) =~= row_view(old(row)@) + spec_spell_values(*f, 0));
    while i < 5
        invariant
            i <= 5,
            row_view(row@) == row_view(old(row)@) + spec_spell_values(*f, i as int),
        decreases 5 - i,
    {
        let s = f.spells[i];
        push_uint(row, s.spell_id as u64);
        push_uint(row, u8_clamp_from_i32(s.trigger as i32) as u64);
        let charges: u64 = if s.charges < 0 {
            0
        } else {
            s.charges as u64
        };
        push_uint(row, charges);
        push_int(row, s.cooldown as i64);
        push_uint(row, u16_clamp_from_i32(s.category as i32) as u64);
        push_int(row, s.category_cooldown as i64);
        i = i + 1;
        assert(row_view(row@) =~= row_view(old(row)@) + spec_spell_values(*f, i as int));
    }
}

fn misc_values(it: &ItemEntry) -> (v: Vec<SqlValue>)
    ensures
        row_view(v@) == spec_misc_values(it@),
{
    let f = &it.fields;
    let random_property: u64 = if f.random_property < 0 {
        0
    } else {
        f.random_property as u64
    };
    let v = vec![
        num_value(f.bonding as u64),
        quoted_value(it.description.as_str()),
        num_value(f.page_text as u64),
        num_value(min_u32(f.language_id, 255) as u64),
        num_value(min_u32(f.page_material, 255) as u64),
        num_value(f.startquest as u64),
        num_value(f.lockid as u64),
        num_value(u8_clamp_from_i32(f.material) as u64),
        num_value(f.sheath as u64),
        num_value(random_property),
        num_value(f.block as u64),
        num_value(f.itemset as u64),
        num_value(f.max_durability as u64),
        num_value(f.area as u64),
        num_value(f.map as u64),
        num_value(f.bag_family as u64),
    ];
    assert(row_view(v@) =~= spec_misc_values(it@));
    v
}

fn socket_values(f: &ItemFields) -> (v: Vec<SqlValue>)
    ensures
        row_view(v@) == spec_socket_values(*f),
{
    let disenchant: i64 = if f.required_disenchant_skill == u32::MAX {
        -1
    } else {
        min_u32(f.required_disenchant_skill, 32767) as i64
    };
    let v = vec![
        num_value(min_u32(f.totem_category, 255) as u64),
        num_value(min_u32(f.socket_colors[0], 255) as u64),
        num_value(min_u32(f.socket_contents[0], 16777215) as u64),
        num_value(min_u32(f.socket_colors[1], 255) as u64),
        num_value(min_u32(f.socket_contents[1], 16777215) as u64),
        num_value(min_u32(f.socket_colors[2], 255) as u64),
        num_value(min_u32(f.socket_contents[2], 16777215) as u64),
        num_value(min_u32(f.socket_bonus, 16777215) as u64),
        num_value(min_u32(f.gem_properties, 16777215) as u64),
        int_value(disenchant),
        SqlValue::Float(f.armor_damage_modifier_bits),
        num_value(f.disenchant_id as u64),
        num_value(f.duration as u64),
        num_value(min_u32(f.extra_flags, 255) as u64),
    ];
    assert(row_view(v@) =~= spec_socket_values(*f));
    v
}

fn append_values(row: &mut Vec<SqlValue>, more: Vec<SqlValue>)
    ensures
        row_view(final(row)@) == row_view(old(row)@) + row_view(more@),
{
    let ghost added = more@;
    let mut more = more;
    row.append(&mut more);
    assert(row_view(row@) =~= row_view(old(row)@) + row_view(added));
}

/// The `item_template` column values of an item, in column order.
pub fn sql_row_values(it: &ItemEntry) -> (row: Vec<SqlValue>)
    ensures
        row_view(row@) == spec_sql_row(it@),
{
    let mut row = head_values(it);
    push_stat_values(&mut row, &it.fields);
    push_damage_values(&mut row, &it.fields);
    append_values(&mut row, defense_values(&it.fields));
    push_spell_values(&mut row, &it.fields);
    append_values(&mut row, misc_values(it));
    append_values(&mut row, socket_values(&it.fields));
    row
}


// ---------------------------------------------------------------------------
// Columns
// ---------------------------------------------------------------------------

/// A numbered column name: the prefix (holding the opening backquote), the
/// number in decimal and the closing backquote.
pub open spec fn numbered_column(prefix: Seq<char>, n: nat) -> Seq<char> {
    prefix + decimal(n) + "`"@
}

fn numbered_column_text(prefix: &str, n: u64) -> (s: String)
    ensures
        s@ == numbered_column(prefix@, n as nat),
{
    let mut s = prefix.to_string();
    let digits = uint_to_string(n);
    s.append(digits.as_str());
    s.append("`");
    s
}

/// Identity, price and requirement columns.
pub open spec fn spec_head_columns() -> Seq<Seq<char>> {
    seq![
        "`entry`"@,
        "`class`"@,
        "`subclass`"@,
        "`name`"@,
        "`displayid`"@,
        "`Quality`"@,
        "`Flags`"@,
        "`BuyPrice`"@,
        "`SellPrice`"@,
        "`InventoryType`"@,
        "`AllowableClass`"@,
        "`AllowableRace`"@,
        "`ItemLevel`"@,
        "`RequiredLevel`"@,
        "`RequiredSkill`"@,
        "`RequiredSkillRank`"@,
        "`requiredspell`"@,
        "`requiredhonorrank`"@,
        "`RequiredCityRank`"@,
        "`RequiredReputationFaction`"@,
        "`RequiredReputationRank`"@,
        "`maxcount`"@,
        "`stackable`"@,
        "`ContainerSlots`"@,
    ]
}

fn head_columns() -> (v: Vec<String>)
    ensures
        strings_view(v@) == spec_head_columns(),
{
    let v = vec![
        "`entry`".to_string(),
        "`class`".to_string(),
        "`subclass`".to_string(),
        "`name`".to_string(),
        "`displayid`".to_string(),
        "`Quality`".to_string(),
        "`Flags`".to_string(),
        "`BuyPrice`".to_string(),
        "`SellPrice`".to_string(),
        "`InventoryType`".to_string(),
        "`AllowableClass`".to_string(),
        "`AllowableRace`".to_string(),
        "`ItemLevel`".to_string(),
        "`RequiredLevel`".to_string(),
        "`RequiredSkill`".to_string(),
        "`RequiredSkillRank`".to_string(),
        "`requiredspell`".to_string(),
        "`requiredhonorrank`".to_string(),
        "`RequiredCityRank`".to_string(),
        "`RequiredReputationFaction`".to_string(),
        "`RequiredReputationRank`".to_string(),
        "`maxcount`".to_string(),
        "`stackable`".to_string(),
        "`ContainerSlots`".to_string(),
    ];
    assert(strings_view(v@) =~= spec_head_columns());
    v
}

/// Type and value columns of the first `n` statistics.
pub open spec fn spec_stat_columns(n: int) -> Seq<Seq<char>>
    decreases n,
{
    if n <= 0 {
        seq![]
    } else {
        spec_stat_columns(n - 1) + seq![
            numbered_column("`stat_type"@, n as nat),
            numbered_column("`stat_value"@, n as nat),
        ]
    }
}

fn push_stat_columns(cols: &mut Vec<String>)
    ensures
        strings_view(final(cols)@) == strings_view(old(cols)@) + spec_stat_columns(10),
{
    let mut i: u64 = 1;
    assert(strings_view(cols@) =~= strings_view(old(cols)@) + spec_stat_columns(0));
    while i <= 10
        invariant
            1 <= i <= 11,
            strings_view(cols@) == strings_view(old(cols)@) + spec_stat_columns(i - 1),
        decreases 11 - i,
    {
        let ghost before = strings_view(cols@);
        cols.push(numbered_column_text("`stat_type", i));
        cols.push(numbered_column_text("`stat_value", i));
        assert(strings_view(cols@) =~= before + seq![numbered_column("`stat_type"@, i as nat), numbered_column("`stat_value"@, i as nat)]);
        assert(strings_view(cols@) =~= strings_view(old(cols)@) + spec_stat_columns(i as int));
        i = i + 1;
    }
}

/// Minimum, maximum and type columns of the first `n` damage ranges.
pub open spec fn spec_damage_columns(n: int) -> Seq<Seq<char>>
    decreases n,
{
    if n <= 0 {
        seq![]
    } else {
        spec_damage_columns(n - 1) + seq![
            numbered_column("`dmg_min"@, n as nat),
            numbered_column("`dmg_max"@, n as nat),
            numbered_column("`dmg_type"@, n as nat),
        ]
    }
}

fn push_damage_columns(cols: &mut Vec<String>)
    ensures
        strings_view(final(cols)@) == strings_view(old(cols)@) + spec_damage_columns(5),
{
    let mut i: u64 = 1;
    assert(strings_view(cols@) =~= strings_view(old(cols)@) + spec_damage_columns(0));
    while i <= 5
        invariant
            1 <= i <= 6,
            strings_view(cols@) == strings_view(old(cols)@) + spec_damage_columns(i - 1),
        decreases 6 - i,
    {
        let ghost before = strings_view(cols@);
        cols.push(numbered_column_text("`dmg_min", i));
        cols.push(numbered_column_text("`dmg_max", i));
        cols.push(numbered_column_text("`dmg_type", i));
        assert(strings_view(cols@) =~= before + seq![numbered_column("`dmg_min"@, i as nat), numbered_column("`dmg_max"@, i as nat), numbered_column("`dmg_type"@, i as nat)]);
        assert(strings_view(cols@) =~= strings_view(old(cols)@) + spec_damage_columns(i as int));
        i = i + 1;
    }
}

/// Armor, resistance and weapon parameter columns.
pub open spec fn spec_defense_columns() -> Seq<Seq<char>> {
    seq![
        "`armor`"@,
        "`holy_res`"@,
        "`fire_res`"@,
        "`nature_res`"@,
        "`frost_res`"@,
        "`shadow_res`"@,
        "`arcane_res`"@,
        "`delay`"@,
        "`ammo_type`"@,
        "`RangedModRange`"@,
    ]
}

fn defense_columns() -> (v: Vec<String>)
    ensures
        strings_view(v@) == spec_defense_columns(),
{
    let v = vec![
        "`armor`".to_string(),
        "`holy_res`".to_string(),
        "`fire_res`".to_string(),
        "`nature_res`".to_string(),
        "`frost_res`".to_string(),
        "`shadow_res`".to_string(),
        "`arcane_res`".to_string(),
        "`delay`".to_string(),
        "`ammo_type`".to_string(),
        "`RangedModRange`".to_string(),
    ];
    assert(strings_view(v@) =~= spec_defense_columns());
    v
}

/// The six columns of each of the first `n` spells.
pub open spec fn spec_spell_columns(n: int) -> Seq<Seq<char>>
    decreases n,
{
    if n <= 0 {
        seq![]
    } else {
        spec_spell_columns(n - 1) + seq![
            numbered_column("`spellid_"@, n as nat),
            numbered_column("`spelltrigger_"@, n as nat),
            numbered_column("`spellcharges_"@, n as nat),
            numbered_column("`spellcooldown_"@, n as nat),
            numbered_column("`spellcategory_"@, n as nat),
            numbered_column("`spellcategorycooldown_"@, n as nat),
        ]
    }
}

fn push_spell_columns(cols: &mut Vec<String>)
    ensures
        strings_view(final(cols)@) == strings_view(old(cols)@) + spec_spell_columns(5),
{
    let mut i: u64 = 1;
    assert(strings_view(cols@) =~= strings_view(old(cols)@) + spec_spell_columns(0));
    while i <= 5
        invariant
            1 <= i <= 6,
            strings_view(cols@) == strings_view(old(cols)@) + spec_spell_columns(i - 1),
        decreases 6 - i,
    {
        let ghost before = strings_view(cols@);
        cols.push(numbered_column_text("`spellid_", i));
        cols.push(numbered_column_text("`spelltrigger_", i));
        cols.push(numbered_column_text("`spellcharges_", i));
        cols.push(numbered_column_text("`spellcooldown_", i));
        cols.push(numbered_column_text("`spellcategory_", i));
        cols.push(numbered_column_text("`spellcategorycooldown_", i));
        assert(strings_view(cols@) =~= before + seq![numbered_column("`spellid_"@, i as nat), numbered_column("`spelltrigger_"@, i as nat), numbered_column("`spellcharges_"@, i as nat), numbered_column("`spellcooldown_"@, i as nat), numbered_column("`spellcategory_"@, i as nat), numbered_column("`spellcategorycooldown_"@, i as nat)]);
        assert(strings_view(cols@) =~= strings_view(old(cols)@) + spec_spell_columns(i as int));
        i = i + 1;
    }
}

/// Text, page, quest, lock, material, set, durability, zone and bag columns.
pub open spec fn spec_misc_columns() -> Seq<Seq<char>> {
    seq![
        "`bonding`"@,
        "`description`"@,
        "`PageText`"@,
        "`LanguageID`"@,
        "`PageMaterial`"@,
        "`startquest`"@,
        "`lockid`"@,
        "`Material`"@,
        "`sheath`"@,
        "`RandomProperty`"@,
        "`block`"@,
        "`itemset`"@,
        "`MaxDurability`"@,
        "`area`"@,
        "`Map`"@,
        "`BagFamily`"@,
    ]
}

fn misc_columns() -> (v: Vec<String>)
    ensures
        strings_view(v@) == spec_misc_columns(),
{
    let v = vec![
        "`bonding`".to_string(),
        "`description`".to_string(),
        "`PageText`".to_string(),
        "`LanguageID`".to_string(),
        "`PageMaterial`".to_string(),
        "`startquest`".to_string(),
        "`lockid`".to_string(),
        "`Material`".to_string(),
        "`sheath`".to_string(),
        "`RandomProperty`".to_string(),
        "`block`".to_string(),
        "`itemset`".to_string(),
        "`MaxDurability`".to_string(),
        "`area`".to_string(),
        "`Map`".to_string(),
        "`BagFamily`".to_string(),
    ];
    assert(strings_view(v@) =~= spec_misc_columns());
    v
}

/// Totem, socket, gem, disenchant, modifier, duration and flag columns.
pub open spec fn spec_socket_columns() -> Seq<Seq<char>> {
    seq![
        "`TotemCategory`"@,
        "`socketColor_1`"@,
        "`socketContent_1`"@,
        "`socketColor_2`"@,
        "`socketContent_2`"@,
        "`socketColor_3`"@,
        "`socketContent_3`"@,
        "`socketBonus`"@,
        "`GemProperties`"@,
        "`RequiredDisenchantSkill`"@,
        "`ArmorDamageModifier`"@,
        "`DisenchantID`"@,
        "`Duration`"@,
        "`ExtraFlags`"@,
    ]
}

fn socket_columns() -> (v: Vec<String>)
    ensures
        strings_view(v@) == spec_socket_columns(),
{
    let v = vec![
        "`TotemCategory`".to_string(),
        "`socketColor_1`".to_string(),
        "`socketContent_1`".to_string(),
        "`socketColor_2`".to_string(),
        "`socketContent_2`".to_string(),
        "`socketColor_3`".to_string(),
        "`socketContent_3`".to_string(),
        "`socketBonus`".to_string(),
        "`GemProperties`".to_string(),
        "`RequiredDisenchantSkill`".to_string(),
        "`ArmorDamageModifier`".to_string(),
        "`DisenchantID`".to_string(),
        "`Duration`".to_string(),
        "`ExtraFlags`".to_string(),
    ];
    assert(strings_view(v@) =~= spec_socket_columns());
    v
}

/// The columns of `item_template` that the export fills, in order.
pub open spec fn spec_item_template_columns() -> Seq<Seq<char>> {
    spec_head_columns() + spec_stat_columns(10) + spec_damage_columns(5) + spec_defense_columns()
        + spec_spell_columns(5) + spec_misc_columns() + spec_socket_columns()
}

fn append_strings(v: &mut Vec<String>, more: Vec<String>)
    ensures
        strings_view(final(v)@) == strings_view(old(v)@) + strings_view(more@),
{
    let ghost added = more@;
    let mut more = more;
    v.append(&mut more);
    assert(strings_view(v@) =~= strings_view(old(v)@) + strings_view(added));
}

/// The backquoted names of the `item_template` columns, in row order.
pub fn item_template_columns() -> (cols: Vec<String>)
    ensures
        strings_view(cols@) == spec_item_template_columns(),
{
    let mut cols = head_columns();
    push_stat_columns(&mut cols);
    push_damage_columns(&mut cols);
    append_strings(&mut cols, defense_columns());
    push_spell_columns(&mut cols);
    append_strings(&mut cols, misc_columns());
    append_strings(&mut cols, socket_columns());
    cols
}


// ---------------------------------------------------------------------------
// Rows against columns
// ---------------------------------------------------------------------------

proof fn lemma_group_lengths(f: ItemFields, n: int)
    requires
        n >= 0,
    ensures
        spec_stat_values(f, n).len() == 2 * n,
        spec_stat_columns(n).len() == 2 * n,
        spec_damage_values(f, n).len() == 3 * n,
        spec_damage_columns(n).len() == 3 * n,
        spec_spell_values(f, n).len() == 6 * n,
        spec_spell_columns(n).len() == 6 * n,
    decreases n,
{
    if n > 0 {
        lemma_group_lengths(f, n - 1);
    }
}

/// The number of table columns.
pub const ITEM_TEMPLATE_COLUMN_COUNT: usize = 129;

/// Every item gives exactly one value per column of `item_template`, so the
/// statement never pairs values with the wrong columns.
pub proof fn lemma_row_fits_columns(it: SpecItem)
    ensures
        spec_sql_row(it).len() == spec_item_template_columns().len(),
        spec_item_template_columns().len() == ITEM_TEMPLATE_COLUMN_COUNT,
{
    lemma_group_lengths(it.fields, 10);
    lemma_group_lengths(it.fields, 5);
}

// ---------------------------------------------------------------------------
// Statement text
// ---------------------------------------------------------------------------

/// One row of values in the statement: `(v1, v2, ...)`.
pub open spec fn spec_row_text(values: Seq<Seq<char>>) -> Seq<char> {
    "("@ + join(values, ", "@) + ")"@
}

/// The start of the statement, naming the columns.
pub open spec fn spec_insert_header(columns: Seq<Seq<char>>) -> Seq<char> {
    "REPLACE INTO `item_template` ("@ + join(columns, ", "@) + ") VALUES\n"@
}

/// The values of a vector of rows of strings.
pub open spec fn rows_view(rows: Seq<Vec<String>>) -> Seq<Seq<Seq<char>>> {
    Seq::new(rows.len(), |i: int| strings_view(rows[i]@))
}

/// The whole statement: the header, the rows separated by `,\n`, and, when
/// the export ran to the end of the records, the closing `;\n`.
pub open spec fn spec_insert_sql(
    columns: Seq<Seq<char>>,
    rows: Seq<Seq<Seq<char>>>,
    complete: bool,
) -> Seq<char> {
    spec_insert_header(columns) + join(
        Seq::new(rows.len(), |i: int| spec_row_text(rows[i])),
        ",\n"@,
    ) + if complete {
        ";\n"@
    } else {
        seq![]
    }
}

/// Writes one row of values: `(v1, v2, ...)`.
pub fn render_row(values: &Vec<String>) -> (s: String)
    ensures
        s@ == spec_row_text(strings_view(values@)),
{
    let mut s = "(".to_string();
    let inner = join_strings(values, ", ");
    s.append(inner.as_str());
    s.append(")");
    s
}

/// Writes the `REPLACE INTO` statement for the given columns and rows of
/// value texts; `complete` adds the closing `;` line.
pub fn render_insert_sql(columns: &Vec<String>, rows: &Vec<Vec<String>>, complete: bool) -> (s:
    String)
    ensures
        s@ == spec_insert_sql(strings_view(columns@), rows_view(rows@), complete),
{
    let mut s = "REPLACE INTO `item_template` (".to_string();
    let cols = join_strings(columns, ", ");
    s.append(cols.as_str());
    s.append(") VALUES\n");
    let ghost all = Seq::new(rows@.len(), |i: int| spec_row_text(rows_view(rows@)[i]));
    let mut rendered: Vec<String> = Vec::new();
    let mut i: usize = 0;
    while i < rows.len()
        invariant
            i <= rows.len(),
            rendered.len() == i,
            all == Seq::new(rows@.len(), |i: int| spec_row_text(rows_view(rows@)[i])),
            forall|k: int| 0 <= k < i ==> #[trigger] rendered@[k]@ == all[k],
        decreases rows.len() - i,
    {
        rendered.push(render_row(&rows[i]));
        i = i + 1;
    }
    assert(strings_view(rendered@) =~= all);
    let body = join_strings(&rendered, ",\n");
    s.append(body.as_str());
    if complete {
        s.append(";\n");
    }
    proof {
        if !complete {
            assert(s@ =~= s@ + Seq::<char>::empty());
        }
    }
    s
}


// ---------------------------------------------------------------------------
// What each column holds
// ---------------------------------------------------------------------------

proof fn lemma_stat_at(f: ItemFields, n: int, j: int)
    requires
        0 <= j < n,
    ensures
        spec_stat_values(f, n)[2 * j] == num(spec_clamp(f.stats[j].stat_type as int, 0, 255)),
        spec_stat_values(f, n)[2 * j + 1] == num(
            spec_clamp(f.stats[j].stat_value as int, -32768, 32767),
        ),
        spec_stat_columns(n)[2 * j] == numbered_column("`stat_type"@, (j + 1) as nat),
        spec_stat_columns(n)[2 * j + 1] == numbered_column("`stat_value"@, (j + 1) as nat),
    decreases n,
{
    lemma_group_lengths(f, n - 1);
    if j < n - 1 {
        lemma_stat_at(f, n - 1, j);
    }
}

proof fn lemma_damage_at(f: ItemFields, n: int, j: int)
    requires
        0 <= j < n,
    ensures
        spec_damage_values(f, n)[3 * j] == SpecSqlValue::Float(f.damages[j].min_bits),
        spec_damage_values(f, n)[3 * j + 1] == SpecSqlValue::Float(f.damages[j].max_bits),
        spec_damage_values(f, n)[3 * j + 2] == num(
            spec_clamp((f.damages[j].dmg_type as i32) as int, 0, 255),
        ),
        spec_damage_columns(n)[3 * j] == numbered_column("`dmg_min"@, (j + 1) as nat),
        spec_damage_columns(n)[3 * j + 1] == numbered_column("`dmg_max"@, (j + 1) as nat),
        spec_damage_columns(n)[3 * j + 2] == numbered_column("`dmg_type"@, (j + 1) as nat),
    decreases n,
{
    lemma_group_lengths(f, n - 1);
    if j < n - 1 {
        lemma_damage_at(f, n - 1, j);
    }
}

proof fn lemma_spell_at(f: ItemFields, n: int, j: int)
    requires
        0 <= j < n,
    ensures
        spec_spell_values(f, n)[6 * j] == num(f.spells[j].spell_id as int),
        spec_spell_values(f, n)[6 * j + 1] == num(
            spec_clamp((f.spells[j].trigger as i32) as int, 0, 255),
        ),
        spec_spell_values(f, n)[6 * j + 2] == num(
            if f.spells[j].charges < 0 {
                0
            } else {
                f.spells[j].charges as int
            },
        ),
        spec_spell_values(f, n)[6 * j + 3] == num(f.spells[j].cooldown as int),
        spec_spell_values(f, n)[6 * j + 4] == num(
            spec_clamp((f.spells[j].category as i32) as int, 0, 65535),
        ),
        spec_spell_values(f, n)[6 * j + 5] == num(f.spells[j].category_cooldown as int),
        spec_spell_columns(n)[6 * j] == numbered_column("`spellid_"@, (j + 1) as nat),
        spec_spell_columns(n)[6 * j + 1] == numbered_column("`spelltrigger_"@, (j + 1) as nat),
        spec_spell_columns(n)[6 * j + 2] == numbered_column("`spellcharges_"@, (j + 1) as nat),
        spec_spell_columns(n)[6 * j + 3] == numbered_column("`spellcooldown_"@, (j + 1) as nat),
        spec_spell_columns(n)[6 * j + 4] == numbered_column("`spellcategory_"@, (j + 1) as nat),
        spec_spell_columns(n)[6 * j + 5] == numbered_column(
            "`spellcategorycooldown_"@,
            (j + 1) as nat,
        ),
    decreases n,
{
    lemma_group_lengths(f, n - 1);
    if j < n - 1 {
        lemma_spell_at(f, n - 1, j);
    }
}

proof fn lemma_row_parts(it: SpecItem)
    ensures
        spec_head_values(it).len() == 24,
        spec_head_columns().len() == 24,
        spec_stat_values(it.fields, 10).len() == 20,
        spec_stat_columns(10).len() == 20,
        spec_damage_values(it.fields, 5).len() == 15,
        spec_damage_columns(5).len() == 15,
        spec_defense_values(it.fields).len() == 10,
        spec_defense_columns().len() == 10,
        spec_spell_values(it.fields, 5).len() == 30,
        spec_spell_columns(5).len() == 30,
        spec_misc_values(it).len() == 16,
        spec_misc_columns().len() == 16,
        spec_socket_values(it.fields).len() == 14,
        spec_socket_columns().len() == 14,
{
    lemma_group_lengths(it.fields, 10);
    lemma_group_lengths(it.fields, 5);
}

/// The identity and price columns hold the item fields of the same names:
/// ids, flags, prices and class and race masks as they are, small columns
/// capped.
pub proof fn lemma_head_columns_hold(it: SpecItem)
    ensures
        spec_item_template_columns()[0] == "`entry`"@,
        spec_sql_row(it)[0] == num(it.fields.entry as int),
        spec_item_template_columns()[1] == "`class`"@,
        spec_sql_row(it)[1] == num(if it.fields.class == u32::MAX { 0 } else { spec_min(it.fields.class, 255) as int }),
        spec_item_template_columns()[2] == "`subclass`"@,
        spec_sql_row(it)[2] == num(if it.fields.subclass == u32::MAX { 0 } else { spec_min(it.fields.subclass, 255) as int }),
        spec_item_template_columns()[3] == "`name`"@,
        spec_sql_row(it)[3] == quoted(it.name),
        spec_item_template_columns()[4] == "`displayid`"@,
        spec_sql_row(it)[4] == num(it.fields.displayid as int),
        spec_item_template_columns()[5] == "`Quality`"@,
        spec_sql_row(it)[5] == num(if it.fields.quality == u32::MAX { 0 } else { spec_min(it.fields.quality, 255) as int }),
        spec_item_template_columns()[6] == "`Flags`"@,
        spec_sql_row(it)[6] == num(it.fields.flags as int),
        spec_item_template_columns()[7] == "`BuyPrice`"@,
        spec_sql_row(it)[7] == num(it.fields.buy_price as int),
        spec_item_template_columns()[8] == "`SellPrice`"@,
        spec_sql_row(it)[8] == num(it.fields.sell_price as int),
        spec_item_template_columns()[9] == "`InventoryType`"@,
        spec_sql_row(it)[9] == num(if it.fields.inventory_type == u32::MAX { 0 } else { spec_min(it.fields.inventory_type, 255) as int }),
        spec_item_template_columns()[10] == "`AllowableClass`"@,
        spec_sql_row(it)[10] == num(it.fields.allowable_class as int),
        spec_item_template_columns()[11] == "`AllowableRace`"@,
        spec_sql_row(it)[11] == num(it.fields.allowable_race as int),
{
    lemma_row_parts(it);
    assert(spec_sql_row(it)[0] == spec_head_values(it)[0]);
    assert(spec_item_template_columns()[0] == spec_head_columns()[0]);
    assert(spec_sql_row(it)[1] == spec_head_values(it)[1]);
    assert(spec_item_template_columns()[1] == spec_head_columns()[1]);
    assert(spec_sql_row(it)[2] == spec_head_values(it)[2]);
    assert(spec_item_template_columns()[2] == spec_head_columns()[2]);
    assert(spec_sql_row(it)[3] == spec_head_values(it)[3]);
    assert(spec_item_template_columns()[3] == spec_head_columns()[3]);
    assert(spec_sql_row(it)[4] == spec_head_values(it)[4]);
    assert(spec_item_template_columns()[4] == spec_head_columns()[4]);
    assert(spec_sql_row(it)[5] == spec_head_values(it)[5]);
    assert(spec_item_template_columns()[5] == spec_head_columns()[5]);
    assert(spec_sql_row(it)[6] == spec_head_values(it)[6]);
    assert(spec_item_template_columns()[6] == spec_head_columns()[6]);
    assert(spec_sql_row(it)[7] == spec_head_values(it)[7]);
    assert(spec_item_template_columns()[7] == spec_head_columns()[7]);
    assert(spec_sql_row(it)[8] == spec_head_values(it)[8]);
    assert(spec_item_template_columns()[8] == spec_head_columns()[8]);
    assert(spec_sql_row(it)[9] == spec_head_values(it)[9]);
    assert(spec_item_template_columns()[9] == spec_head_columns()[9]);
    assert(spec_sql_row(it)[10] == spec_head_values(it)[10]);
    assert(spec_item_template_columns()[10] == spec_head_columns()[10]);
    assert(spec_sql_row(it)[11] == spec_head_values(it)[11]);
    assert(spec_item_template_columns()[11] == spec_head_columns()[11]);
}


/// (second half: level, skill, spell, rank, reputation and stack requirements)
pub proof fn lemma_requirement_columns_hold(it: SpecItem)
    ensures
        spec_item_template_columns()[12] == "`ItemLevel`"@,
        spec_sql_row(it)[12] == num(if it.fields.item_level == u32::MAX { 0 } else { spec_min(it.fields.item_level, 255) as int }),
        spec_item_template_columns()[13] == "`RequiredLevel`"@,
        spec_sql_row(it)[13] == num(spec_clamp(it.fields.required_level as int, 0, 255)),
        spec_item_template_columns()[14] == "`RequiredSkill`"@,
        spec_sql_row(it)[14] == num(spec_min(it.fields.required_skill, 65535) as int),
        spec_item_template_columns()[15] == "`RequiredSkillRank`"@,
        spec_sql_row(it)[15] == num(spec_min(it.fields.required_skill_rank, 65535) as int),
        spec_item_template_columns()[16] == "`requiredspell`"@,
        spec_sql_row(it)[16] == num(if it.fields.required_spell == u32::MAX { 0 } else { it.fields.required_spell as int }),
        spec_item_template_columns()[17] == "`requiredhonorrank`"@,
        spec_sql_row(it)[17] == num(if it.fields.required_honor_rank == u32::MAX { 0 } else { it.fields.required_honor_rank as int }),
        spec_item_template_columns()[18] == "`RequiredCityRank`"@,
        spec_sql_row(it)[18] == num(if it.fields.required_city_rank == u32::MAX { 0 } else { it.fields.required_city_rank as int }),
        spec_item_template_columns()[19] == "`RequiredReputationFaction`"@,
        spec_sql_row(it)[19] == num(if it.fields.required_reputation_faction == u32::MAX { 0 } else { it.fields.required_reputation_faction as int }),
        spec_item_template_columns()[20] == "`RequiredReputationRank`"@,
        spec_sql_row(it)[20] == num(if it.fields.required_reputation_rank == u32::MAX { 0 } else { it.fields.required_reputation_rank as int }),
        spec_item_template_columns()[21] == "`maxcount`"@,
        spec_sql_row(it)[21] == num(spec_min(it.fields.maxcount, 65535) as int),
        spec_item_template_columns()[22] == "`stackable`"@,
        spec_sql_row(it)[22] == num(if it.fields.stackable == u32::MAX { 0 } else { spec_min(it.fields.stackable, 65535) as int }),
        spec_item_template_columns()[23] == "`ContainerSlots`"@,
        spec_sql_row(it)[23] == num(if it.fields.container_slots == u32::MAX { 0 } else { spec_min(it.fields.container_slots, 255) as int }),
{
    lemma_row_parts(it);
    assert(spec_sql_row(it)[12] == spec_head_values(it)[12]);
    assert(spec_item_template_columns()[12] == spec_head_columns()[12]);
    assert(spec_sql_row(it)[13] == spec_head_values(it)[13]);
    assert(spec_item_template_columns()[13] == spec_head_columns()[13]);
    assert(spec_sql_row(it)[14] == spec_head_values(it)[14]);
    assert(spec_item_template_columns()[14] == spec_head_columns()[14]);
    assert(spec_sql_row(it)[15] == spec_head_values(it)[15]);
    assert(spec_item_template_columns()[15] == spec_head_columns()[15]);
    assert(spec_sql_row(it)[16] == spec_head_values(it)[16]);
    assert(spec_item_template_columns()[16] == spec_head_columns()[16]);
    assert(spec_sql_row(it)[17] == spec_head_values(it)[17]);
    assert(spec_item_template_columns()[17] == spec_head_columns()[17]);
    assert(spec_sql_row(it)[18] == spec_head_values(it)[18]);
    assert(spec_item_template_columns()[18] == spec_head_columns()[18]);
    assert(spec_sql_row(it)[19] == spec_head_values(it)[19]);
    assert(spec_item_template_columns()[19] == spec_head_columns()[19]);
    assert(spec_sql_row(it)[20] == spec_head_values(it)[20]);
    assert(spec_item_template_columns()[20] == spec_head_columns()[20]);
    assert(spec_sql_row(it)[21] == spec_head_values(it)[21]);
    assert(spec_item_template_columns()[21] == spec_head_columns()[21]);
    assert(spec_sql_row(it)[22] == spec_head_values(it)[22]);
    assert(spec_item_template_columns()[22] == spec_head_columns()[22]);
    assert(spec_sql_row(it)[23] == spec_head_values(it)[23]);
    assert(spec_item_template_columns()[23] == spec_head_columns()[23]);
}

/// Each `stat_typeN` / `stat_valueN` column holds the type and value of
/// statistic `N`, fitted to its column type.
pub proof fn lemma_stat_columns_hold(it: SpecItem)
    ensures
        forall|j: int|
            #![trigger it.fields.stats[j]]
            0 <= j < 10 ==> spec_item_template_columns()[24 + 2 * j] == numbered_column(
                "`stat_type"@,
                (j + 1) as nat,
            ) && spec_sql_row(it)[24 + 2 * j] == num(
                spec_clamp(it.fields.stats[j].stat_type as int, 0, 255),
            ) && spec_item_template_columns()[25 + 2 * j] == numbered_column(
                "`stat_value"@,
                (j + 1) as nat,
            ) && spec_sql_row(it)[25 + 2 * j] == num(
                spec_clamp(it.fields.stats[j].stat_value as int, -32768, 32767),
            ),
{
    lemma_row_parts(it);
    assert forall|j: int| 0 <= j < 10 implies spec_item_template_columns()[24 + 2 * j] == numbered_column(
        "`stat_type"@,
        (j + 1) as nat,
    ) && spec_sql_row(it)[24 + 2 * j] == num(
        spec_clamp(it.fields.stats[j].stat_type as int, 0, 255),
    ) && spec_item_template_columns()[25 + 2 * j] == numbered_column(
        "`stat_value"@,
        (j + 1) as nat,
    ) && spec_sql_row(it)[25 + 2 * j] == num(
        spec_clamp(it.fields.stats[j].stat_value as int, -32768, 32767),
    ) by {
        lemma_stat_at(it.fields, 10, j);
        assert(spec_stat_values(it.fields, 10)[2 * j] == spec_sql_row(it)[24 + 2 * j]);
        assert(spec_stat_values(it.fields, 10)[2 * j + 1] == spec_sql_row(it)[24 + (2 * j + 1)]);
        assert(spec_stat_columns(10)[2 * j] == spec_item_template_columns()[24 + 2 * j]);
        assert(spec_stat_columns(10)[2 * j + 1] == spec_item_template_columns()[24 + (2 * j + 1)]);
    }
}

/// Each `dmg_minN` / `dmg_maxN` / `dmg_typeN` column holds damage range `N`:
/// the bounds as floats and the type fitted to its column.
pub proof fn lemma_damage_columns_hold(it: SpecItem)
    ensures
        forall|j: int|
            #![trigger it.fields.damages[j]]
            0 <= j < 5 ==> spec_item_template_columns()[44 + 3 * j] == numbered_column(
                "`dmg_min"@,
                (j + 1) as nat,
            ) && spec_sql_row(it)[44 + 3 * j] == SpecSqlValue::Float(it.fields.damages[j].min_bits)
                && spec_item_template_columns()[45 + 3 * j] == numbered_column(
                "`dmg_max"@,
                (j + 1) as nat,
            ) && spec_sql_row(it)[45 + 3 * j] == SpecSqlValue::Float(it.fields.damages[j].max_bits)
                && spec_item_template_columns()[46 + 3 * j] == numbered_column(
                "`dmg_type"@,
                (j + 1) as nat,
            ) && spec_sql_row(it)[46 + 3 * j] == num(
                spec_clamp((it.fields.damages[j].dmg_type as i32) as int, 0, 255),
            ),
{
    lemma_row_parts(it);
    assert forall|j: int| 0 <= j < 5 implies spec_item_template_columns()[44 + 3 * j] == numbered_column(
        "`dmg_min"@,
        (j + 1) as nat,
    ) && spec_sql_row(it)[44 + 3 * j] == SpecSqlValue::Float(it.fields.damages[j].min_bits)
        && spec_item_template_columns()[45 + 3 * j] == numbered_column(
        "`dmg_max"@,
        (j + 1) as nat,
    ) && spec_sql_row(it)[45 + 3 * j] == SpecSqlValue::Float(it.fields.damages[j].max_bits)
        && spec_item_template_columns()[46 + 3 * j] == numbered_column(
        "`dmg_type"@,
        (j + 1) as nat,
    ) && spec_sql_row(it)[46 + 3 * j] == num(
        spec_clamp((it.fields.damages[j].dmg_type as i32) as int, 0, 255),
    ) by {
        lemma_damage_at(it.fields, 5, j);
        assert(spec_damage_values(it.fields, 5)[3 * j] == spec_sql_row(it)[44 + 3 * j]);
        assert(spec_damage_values(it.fields, 5)[3 * j + 1] == spec_sql_row(it)[44 + (3 * j + 1)]);
        assert(spec_damage_values(it.fields, 5)[3 * j + 2] == spec_sql_row(it)[44 + (3 * j + 2)]);
        assert(spec_damage_columns(5)[3 * j] == spec_item_template_columns()[44 + 3 * j]);
        assert(spec_damage_columns(5)[3 * j + 1] == spec_item_template_columns()[44 + (3 * j + 1)]);
        assert(spec_damage_columns(5)[3 * j + 2] == spec_item_template_columns()[44 + (3 * j + 2)]);
    }
}

/// The armor, resistance and weapon columns hold the item fields of the same names, fitted to their column types.
pub proof fn lemma_defense_columns_hold(it: SpecItem)
    ensures
        spec_item_template_columns()[59] == "`armor`"@,
        spec_sql_row(it)[59] == num(spec_clamp(it.fields.armor as int, 0, 65535)),
        spec_item_template_columns()[60] == "`holy_res`"@,
        spec_sql_row(it)[60] == num(spec_clamp(it.fields.holy_res as int, 0, 255)),
        spec_item_template_columns()[61] == "`fire_res`"@,
        spec_sql_row(it)[61] == num(spec_clamp(it.fields.fire_res as int, 0, 255)),
        spec_item_template_columns()[62] == "`nature_res`"@,
        spec_sql_row(it)[62] == num(spec_clamp(it.fields.nature_res as int, 0, 255)),
        spec_item_template_columns()[63] == "`frost_res`"@,
        spec_sql_row(it)[63] == num(spec_clamp(it.fields.frost_res as int, 0, 255)),
        spec_item_template_columns()[64] == "`shadow_res`"@,
        spec_sql_row(it)[64] == num(spec_clamp(it.fields.shadow_res as int, 0, 255)),
        spec_item_template_columns()[65] == "`arcane_res`"@,
        spec_sql_row(it)[65] == num(spec_clamp(it.fields.arcane_res as int, 0, 255)),
        spec_item_template_columns()[66] == "`delay`"@,
        spec_sql_row(it)[66] == num(it.fields.delay as int),
        spec_item_template_columns()[67] == "`ammo_type`"@,
        spec_sql_row(it)[67] == num(it.fields.ammo_type as int),
        spec_item_template_columns()[68] == "`RangedModRange`"@,
        spec_sql_row(it)[68] == SpecSqlValue::Float(it.fields.ranged_mod_range_bits),
{
    lemma_row_parts(it);
    assert(spec_sql_row(it)[59] == spec_defense_values(it.fields)[0]);
    assert(spec_item_template_columns()[59] == spec_defense_columns()[0]);
    assert(spec_sql_row(it)[60] == spec_defense_values(it.fields)[1]);
    assert(spec_item_template_columns()[60] == spec_defense_columns()[1]);
    assert(spec_sql_row(it)[61] == spec_defense_values(it.fields)[2]);
    assert(spec_item_template_columns()[61] == spec_defense_columns()[2]);
    assert(spec_sql_row(it)[62] == spec_defense_values(it.fields)[3]);
    assert(spec_item_template_columns()[62] == spec_defense_columns()[3]);
    assert(spec_sql_row(it)[63] == spec_defense_values(it.fields)[4]);
    assert(spec_item_template_columns()[63] == spec_defense_columns()[4]);
    assert(spec_sql_row(it)[64] == spec_defense_values(it.fields)[5]);
    assert(spec_item_template_columns()[64] == spec_defense_columns()[5]);
    assert(spec_sql_row(it)[65] == spec_defense_values(it.fields)[6]);
    assert(spec_item_template_columns()[65] == spec_defense_columns()[6]);
    assert(spec_sql_row(it)[66] == spec_defense_values(it.fields)[7]);
    assert(spec_item_template_columns()[66] == spec_defense_columns()[7]);
    assert(spec_sql_row(it)[67] == spec_defense_values(it.fields)[8]);
    assert(spec_item_template_columns()[67] == spec_defense_columns()[8]);
    assert(spec_sql_row(it)[68] == spec_defense_values(it.fields)[9]);
    assert(spec_item_template_columns()[68] == spec_defense_columns()[9]);
}

/// The six columns of spell `N` hold its id, trigger, charges (negative
/// charges as 0), cooldown, category and category cooldown; the id and both
/// cooldowns are written as they are, unclamped.
pub proof fn lemma_spell_columns_hold(it: SpecItem)
    ensures
        forall|j: int|
            #![trigger it.fields.spells[j]]
            0 <= j < 5 ==> spec_item_template_columns()[69 + 6 * j] == numbered_column("`spellid_"@, (j + 1) as nat)
            && spec_sql_row(it)[69 + 6 * j] == num(it.fields.spells[j].spell_id as int)
            && spec_item_template_columns()[70 + 6 * j] == numbered_column("`spelltrigger_"@, (j + 1) as nat)
            && spec_sql_row(it)[70 + 6 * j] == num(spec_clamp((it.fields.spells[j].trigger as i32) as int, 0, 255))
            && spec_item_template_columns()[71 + 6 * j] == numbered_column("`spellcharges_"@, (j + 1) as nat)
            && spec_sql_row(it)[71 + 6 * j] == num(
                if it.fields.spells[j].charges < 0 { 0 } else { it.fields.spells[j].charges as int },
            )
            && spec_item_template_columns()[72 + 6 * j] == numbered_column("`spellcooldown_"@, (j + 1) as nat)
            && spec_sql_row(it)[72 + 6 * j] == num(it.fields.spells[j].cooldown as int)
            && spec_item_template_columns()[73 + 6 * j] == numbered_column("`spellcategory_"@, (j + 1) as nat)
            && spec_sql_row(it)[73 + 6 * j] == num(spec_clamp((it.fields.spells[j].category as i32) as int, 0, 65535))
            && spec_item_template_columns()[74 + 6 * j] == numbered_column("`spellcategorycooldown_"@, (j + 1) as nat)
            && spec_sql_row(it)[74 + 6 * j] == num(it.fields.spells[j].category_cooldown as int),
{
    lemma_row_parts(it);
    assert forall|j: int| 0 <= j < 5 implies spec_item_template_columns()[69 + 6 * j] == numbered_column("`spellid_"@, (j + 1) as nat)
            && spec_sql_row(it)[69 + 6 * j] == num(it.fields.spells[j].spell_id as int)
            && spec_item_template_columns()[70 + 6 * j] == numbered_column("`spelltrigger_"@, (j + 1) as nat)
            && spec_sql_row(it)[70 + 6 * j] == num(spec_clamp((it.fields.spells[j].trigger as i32) as int, 0, 255))
            && spec_item_template_columns()[71 + 6 * j] == numbered_column("`spellcharges_"@, (j + 1) as nat)
            && spec_sql_row(it)[71 + 6 * j] == num(
                if it.fields.spells[j].charges < 0 { 0 } else { it.fields.spells[j].charges as int },
            )
            && spec_item_template_columns()[72 + 6 * j] == numbered_column("`spellcooldown_"@, (j + 1) as nat)
            && spec_sql_row(it)[72 + 6 * j] == num(it.fields.spells[j].cooldown as int)
            && spec_item_template_columns()[73 + 6 * j] == numbered_column("`spellcategory_"@, (j + 1) as nat)
            && spec_sql_row(it)[73 + 6 * j] == num(spec_clamp((it.fields.spells[j].category as i32) as int, 0, 65535))
            && spec_item_template_columns()[74 + 6 * j] == numbered_column("`spellcategorycooldown_"@, (j + 1) as nat)
            && spec_sql_row(it)[74 + 6 * j] == num(it.fields.spells[j].category_cooldown as int) by {
        lemma_spell_at(it.fields, 5, j);
        assert(spec_spell_values(it.fields, 5)[6 * j + 0] == spec_sql_row(it)[69 + (6 * j + 0)]);
        assert(spec_spell_columns(5)[6 * j + 0] == spec_item_template_columns()[69 + (6 * j + 0)]);
        assert(spec_spell_values(it.fields, 5)[6 * j + 1] == spec_sql_row(it)[69 + (6 * j + 1)]);
        assert(spec_spell_columns(5)[6 * j + 1] == spec_item_template_columns()[69 + (6 * j + 1)]);
        assert(spec_spell_values(it.fields, 5)[6 * j + 2] == spec_sql_row(it)[69 + (6 * j + 2)]);
        assert(spec_spell_columns(5)[6 * j + 2] == spec_item_template_columns()[69 + (6 * j + 2)]);
        assert(spec_spell_values(it.fields, 5)[6 * j + 3] == spec_sql_row(it)[69 + (6 * j + 3)]);
        assert(spec_spell_columns(5)[6 * j + 3] == spec_item_template_columns()[69 + (6 * j + 3)]);
        assert(spec_spell_values(it.fields, 5)[6 * j + 4] == spec_sql_row(it)[69 + (6 * j + 4)]);
        assert(spec_spell_columns(5)[6 * j + 4] == spec_item_template_columns()[69 + (6 * j + 4)]);
        assert(spec_spell_values(it.fields, 5)[6 * j + 5] == spec_sql_row(it)[69 + (6 * j + 5)]);
        assert(spec_spell_columns(5)[6 * j + 5] == spec_item_template_columns()[69 + (6 * j + 5)]);
    }
}

/// The text, page, quest, lock, material, set, durability, zone and bag columns hold the item fields of the same names.
pub proof fn lemma_misc_columns_hold(it: SpecItem)
    ensures
        spec_item_template_columns()[99] == "`bonding`"@,
        spec_sql_row(it)[99] == num(it.fields.bonding as int),
        spec_item_template_columns()[100] == "`description`"@,
        spec_sql_row(it)[100] == quoted(it.description),
        spec_item_template_columns()[101] == "`PageText`"@,
        spec_sql_row(it)[101] == num(it.fields.page_text as int),
        spec_item_template_columns()[102] == "`LanguageID`"@,
        spec_sql_row(it)[102] == num(spec_min(it.fields.language_id, 255) as int),
        spec_item_template_columns()[103] == "`PageMaterial`"@,
        spec_sql_row(it)[103] == num(spec_min(it.fields.page_material, 255) as int),
        spec_item_template_columns()[104] == "`startquest`"@,
        spec_sql_row(it)[104] == num(it.fields.startquest as int),
        spec_item_template_columns()[105] == "`lockid`"@,
        spec_sql_row(it)[105] == num(it.fields.lockid as int),
        spec_item_template_columns()[106] == "`Material`"@,
        spec_sql_row(it)[106] == num(spec_clamp(it.fields.material as int, 0, 255)),
        spec_item_template_columns()[107] == "`sheath`"@,
        spec_sql_row(it)[107] == num(it.fields.sheath as int),
        spec_item_template_columns()[108] == "`RandomProperty`"@,
        spec_sql_row(it)[108] == num(if it.fields.random_property < 0 { 0 } else { it.fields.random_property as int }),
        spec_item_template_columns()[109] == "`block`"@,
        spec_sql_row(it)[109] == num(it.fields.block as int),
        spec_item_template_columns()[110] == "`itemset`"@,
        spec_sql_row(it)[110] == num(it.fields.itemset as int),
        spec_item_template_columns()[111] == "`MaxDurability`"@,
        spec_sql_row(it)[111] == num(it.fields.max_durability as int),
        spec_item_template_columns()[112] == "`area`"@,
        spec_sql_row(it)[112] == num(it.fields.area as int),
        spec_item_template_columns()[113] == "`Map`"@,
        spec_sql_row(it)[113] == num(it.fields.map as int),
        spec_item_template_columns()[114] == "`BagFamily`"@,
        spec_sql_row(it)[114] == num(it.fields.bag_family as int),
{
    lemma_row_parts(it);
    assert(spec_sql_row(it)[99] == spec_misc_values(it)[0]);
    assert(spec_item_template_columns()[99] == spec_misc_columns()[0]);
    assert(spec_sql_row(it)[100] == spec_misc_values(it)[1]);
    assert(spec_item_template_columns()[100] == spec_misc_columns()[1]);
    assert(spec_sql_row(it)[101] == spec_misc_values(it)[2]);
    assert(spec_item_template_columns()[101] == spec_misc_columns()[2]);
    assert(spec_sql_row(it)[102] == spec_misc_values(it)[3]);
    assert(spec_item_template_columns()[102] == spec_misc_columns()[3]);
    assert(spec_sql_row(it)[103] == spec_misc_values(it)[4]);
    assert(spec_item_template_columns()[103] == spec_misc_columns()[4]);
    assert(spec_sql_row(it)[104] == spec_misc_values(it)[5]);
    assert(spec_item_template_columns()[104] == spec_misc_columns()[5]);
    assert(spec_sql_row(it)[105] == spec_misc_values(it)[6]);
    assert(spec_item_template_columns()[105] == spec_misc_columns()[6]);
    assert(spec_sql_row(it)[106] == spec_misc_values(it)[7]);
    assert(spec_item_template_columns()[106] == spec_misc_columns()[7]);
    assert(spec_sql_row(it)[107] == spec_misc_values(it)[8]);
    assert(spec_item_template_columns()[107] == spec_misc_columns()[8]);
    assert(spec_sql_row(it)[108] == spec_misc_values(it)[9]);
    assert(spec_item_template_columns()[108] == spec_misc_columns()[9]);
    assert(spec_sql_row(it)[109] == spec_misc_values(it)[10]);
    assert(spec_item_template_columns()[109] == spec_misc_columns()[10]);
    assert(spec_sql_row(it)[110] == spec_misc_values(it)[11]);
    assert(spec_item_template_columns()[110] == spec_misc_columns()[11]);
    assert(spec_sql_row(it)[111] == spec_misc_values(it)[12]);
    assert(spec_item_template_columns()[111] == spec_misc_columns()[12]);
    assert(spec_sql_row(it)[112] == spec_misc_values(it)[13]);
    assert(spec_item_template_columns()[112] == spec_misc_columns()[13]);
    assert(spec_sql_row(it)[113] == spec_misc_values(it)[14]);
    assert(spec_item_template_columns()[113] == spec_misc_columns()[14]);
    assert(spec_sql_row(it)[114] == spec_misc_values(it)[15]);
    assert(spec_item_template_columns()[114] == spec_misc_columns()[15]);
}

/// The totem, socket, gem, disenchant, modifier, duration and flag columns hold the item fields of the same names, fitted to their column types; an unset disenchant skill is written as -1.
pub proof fn lemma_socket_columns_hold(it: SpecItem)
    ensures
        spec_item_template_columns()[115] == "`TotemCategory`"@,
        spec_sql_row(it)[115] == num(spec_min(it.fields.totem_category, 255) as int),
        spec_item_template_columns()[116] == "`socketColor_1`"@,
        spec_sql_row(it)[116] == num(spec_min(it.fields.socket_colors[0], 255) as int),
        spec_item_template_columns()[117] == "`socketContent_1`"@,
        spec_sql_row(it)[117] == num(spec_min(it.fields.socket_contents[0], 16777215) as int),
        spec_item_template_columns()[118] == "`socketColor_2`"@,
        spec_sql_row(it)[118] == num(spec_min(it.fields.socket_colors[1], 255) as int),
        spec_item_template_columns()[119] == "`socketContent_2`"@,
        spec_sql_row(it)[119] == num(spec_min(it.fields.socket_contents[1], 16777215) as int),
        spec_item_template_columns()[120] == "`socketColor_3`"@,
        spec_sql_row(it)[120] == num(spec_min(it.fields.socket_colors[2], 255) as int),
        spec_item_template_columns()[121] == "`socketContent_3`"@,
        spec_sql_row(it)[121] == num(spec_min(it.fields.socket_contents[2], 16777215) as int),
        spec_item_template_columns()[122] == "`socketBonus`"@,
        spec_sql_row(it)[122] == num(spec_min(it.fields.socket_bonus, 16777215) as int),
        spec_item_template_columns()[123] == "`GemProperties`"@,
        spec_sql_row(it)[123] == num(spec_min(it.fields.gem_properties, 16777215) as int),
        spec_item_template_columns()[124] == "`RequiredDisenchantSkill`"@,
        spec_sql_row(it)[124] == num(if it.fields.required_disenchant_skill == u32::MAX { -1 } else { spec_min(it.fields.required_disenchant_skill, 32767) as int }),
        spec_item_template_columns()[125] == "`ArmorDamageModifier`"@,
        spec_sql_row(it)[125] == SpecSqlValue::Float(it.fields.armor_damage_modifier_bits),
        spec_item_template_columns()[126] == "`DisenchantID`"@,
        spec_sql_row(it)[126] == num(it.fields.disenchant_id as int),
        spec_item_template_columns()[127] == "`Duration`"@,
        spec_sql_row(it)[127] == num(it.fields.duration as int),
        spec_item_template_columns()[128] == "`ExtraFlags`"@,
        spec_sql_row(it)[128] == num(spec_min(it.fields.extra_flags, 255) as int),
{
    lemma_row_parts(it);
    assert(spec_sql_row(it)[115] == spec_socket_values(it.fields)[0]);
    assert(spec_item_template_columns()[115] == spec_socket_columns()[0]);
    assert(spec_sql_row(it)[116] == spec_socket_values(it.fields)[1]);
    assert(spec_item_template_columns()[116] == spec_socket_columns()[1]);
    assert(spec_sql_row(it)[117] == spec_socket_values(it.fields)[2]);
    assert(spec_item_template_columns()[117] == spec_socket_columns()[2]);
    assert(spec_sql_row(it)[118] == spec_socket_values(it.fields)[3]);
    assert(spec_item_template_columns()[118] == spec_socket_columns()[3]);
    assert(spec_sql_row(it)[119] == spec_socket_values(it.fields)[4]);
    assert(spec_item_template_columns()[119] == spec_socket_columns()[4]);
    assert(spec_sql_row(it)[120] == spec_socket_values(it.fields)[5]);
    assert(spec_item_template_columns()[120] == spec_socket_columns()[5]);
    assert(spec_sql_row(it)[121] == spec_socket_values(it.fields)[6]);
    assert(spec_item_template_columns()[121] == spec_socket_columns()[6]);
    assert(spec_sql_row(it)[122] == spec_socket_values(it.fields)[7]);
    assert(spec_item_template_columns()[122] == spec_socket_columns()[7]);
    assert(spec_sql_row(it)[123] == spec_socket_values(it.fields)[8]);
    assert(spec_item_template_columns()[123] == spec_socket_columns()[8]);
    assert(spec_sql_row(it)[124] == spec_socket_values(it.fields)[9]);
    assert(spec_item_template_columns()[124] == spec_socket_columns()[9]);
    assert(spec_sql_row(it)[125] == spec_socket_values(it.fields)[10]);
    assert(spec_item_template_columns()[125] == spec_socket_columns()[10]);
    assert(spec_sql_row(it)[126] == spec_socket_values(it.fields)[11]);
    assert(spec_item_template_columns()[126] == spec_socket_columns()[11]);
    assert(spec_sql_row(it)[127] == spec_socket_values(it.fields)[12]);
    assert(spec_item_template_columns()[127] == spec_socket_columns()[12]);
    assert(spec_sql_row(it)[128] == spec_socket_values(it.fields)[13]);
    assert(spec_item_template_columns()[128] == spec_socket_columns()[13]);
}

} // verus!
