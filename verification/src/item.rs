//! One record of the item cache: its field layout, which depends on the
//! client build, and the parse of a record into an [`ItemEntry`].
use vstd::prelude::*;

use crate::reader::{
    eof_f32_message, eof_u32_message, lemma_nul_index_bounds, nul_index, read_cstring_utf8_lossy,
    read_f32_bits_le, read_i32_le, read_u32_le, u32_le_at, unterminated_message, cstring_text,
};
use crate::text::truncate_chars;

verus! {

pub const CLIENT_BUILD_0_5_5: u32 = 3494;

pub const CLIENT_BUILD_0_6_0: u32 = 3592;

pub const CLIENT_BUILD_0_9_0: u32 = 3807;

pub const CLIENT_BUILD_0_10_0: u32 = 3892;

pub const CLIENT_BUILD_0_12_0: u32 = 3988;

pub const CLIENT_BUILD_1_7_0: u32 = 4671;

pub const CLIENT_BUILD_1_9_0: u32 = 4937;

pub const CLIENT_BUILD_1_10_0: u32 = 5195;

pub const CLIENT_BUILD_1_11_0: u32 = 5428;

/// Number of fields that follow the entry id in a record.
pub const ITEM_FIELD_COUNT: usize = 132;

/// Longest name or description kept, in characters.
pub const MAX_TEXT_CHARS: usize = 255;

/// How one field of a record is stored. The `Absent` kinds stand for fields
/// that the client build does not write: they take no bytes and read as zero.
#[derive(Clone, Copy, PartialEq, Eq, Structural)]
pub enum FieldKind {
    U32,
    I32,
    F32,
    CStr,
    AbsentU32,
    AbsentI32,
    AbsentF32,
}

/// A field as read from the data.
pub enum FieldValue {
    Unsigned(u32),
    Signed(i32),
    /// The bit pattern of a little-endian `f32`.
    FloatBits(u32),
    Text(String),
}

/// The mathematical value of a field.
pub enum SpecField {
    Unsigned(u32),
    Signed(i32),
    FloatBits(u32),
    Text(Seq<char>),
}

impl View for FieldValue {
    type V = SpecField;

    open spec fn view(&self) -> SpecField {
        match self {
            FieldValue::Unsigned(w) => SpecField::Unsigned(*w),
            FieldValue::Signed(v) => SpecField::Signed(*v),
            FieldValue::FloatBits(b) => SpecField::FloatBits(*b),
            FieldValue::Text(s) => SpecField::Text(s@),
        }
    }
}

/// The kind of a field that a client build writes only from `first_build` on.
pub open spec fn spec_gated(build: u32, first_build: u32, kind: FieldKind) -> FieldKind {
    if build >= first_build {
        kind
    } else {
        match kind {
            FieldKind::I32 => FieldKind::AbsentI32,
            FieldKind::F32 => FieldKind::AbsentF32,
            _ => FieldKind::AbsentU32,
        }
    }
}

fn gated(build: u32, first_build: u32, kind: FieldKind) -> (k: FieldKind)
    ensures
        k == spec_gated(build, first_build, kind),
{
    if build >= first_build {
        kind
    } else {
        match kind {
            FieldKind::I32 => FieldKind::AbsentI32,
            FieldKind::F32 => FieldKind::AbsentF32,
            _ => FieldKind::AbsentU32,
        }
    }
}

/// The fields of a record after its entry id, in the order the client
/// writes them, for a given client build.
pub open spec fn spec_item_layout(build: u32) -> Seq<FieldKind> {
    seq![
        FieldKind::U32,  // 0: entry_size
        FieldKind::U32,  // 1: class
        FieldKind::U32,  // 2: subclass
        FieldKind::CStr,  // 3: name_slot1
        FieldKind::CStr,  // 4: name_slot2
        FieldKind::CStr,  // 5: name_slot3
        FieldKind::CStr,  // 6: name_slot4
        FieldKind::U32,  // 7: displayid
        FieldKind::U32,  // 8: quality
        FieldKind::U32,  // 9: flags
        FieldKind::U32,  // 10: buy_price
        FieldKind::U32,  // 11: sell_price
        FieldKind::U32,  // 12: inventory_type
        FieldKind::I32,  // 13: allowable_class
        FieldKind::I32,  // 14: allowable_race
        FieldKind::U32,  // 15: item_level
        FieldKind::I32,  // 16: required_level
        FieldKind::U32,  // 17: required_skill
        FieldKind::U32,  // 18: required_skill_rank
        spec_gated(build, CLIENT_BUILD_0_10_0, FieldKind::U32),  // 19: required_spell
        spec_gated(build, CLIENT_BUILD_0_10_0, FieldKind::U32),  // 20: required_honor_rank
        spec_gated(build, CLIENT_BUILD_0_10_0, FieldKind::U32),  // 21: required_city_rank
        spec_gated(build, CLIENT_BUILD_1_7_0, FieldKind::U32),  // 22: required_reputation_faction
        spec_gated(build, CLIENT_BUILD_1_7_0, FieldKind::U32),  // 23: required_reputation_rank
        FieldKind::U32,  // 24: maxcount
        FieldKind::U32,  // 25: stackable
        FieldKind::U32,  // 26: container_slots
        FieldKind::I32,  // 27: stat_type1
        FieldKind::I32,  // 28: stat_value1
        FieldKind::I32,  // 29: stat_type2
        FieldKind::I32,  // 30: stat_value2
        FieldKind::I32,  // 31: stat_type3
        FieldKind::I32,  // 32: stat_value3
        FieldKind::I32,  // 33: stat_type4
        FieldKind::I32,  // 34: stat_value4
        FieldKind::I32,  // 35: stat_type5
        FieldKind::I32,  // 36: stat_value5
        FieldKind::I32,  // 37: stat_type6
        FieldKind::I32,  // 38: stat_value6
        FieldKind::I32,  // 39: stat_type7
        FieldKind::I32,  // 40: stat_value7
        FieldKind::I32,  // 41: stat_type8
        FieldKind::I32,  // 42: stat_value8
        FieldKind::I32,  // 43: stat_type9
        FieldKind::I32,  // 44: stat_value9
        FieldKind::I32,  // 45: stat_type10
        FieldKind::I32,  // 46: stat_value10
        FieldKind::F32,  // 47: dmg_min1
        FieldKind::F32,  // 48: dmg_max1
        FieldKind::U32,  // 49: dmg_type1
        FieldKind::F32,  // 50: dmg_min2
        FieldKind::F32,  // 51: dmg_max2
        FieldKind::U32,  // 52: dmg_type2
        FieldKind::F32,  // 53: dmg_min3
        FieldKind::F32,  // 54: dmg_max3
        FieldKind::U32,  // 55: dmg_type3
        FieldKind::F32,  // 56: dmg_min4
        FieldKind::F32,  // 57: dmg_max4
        FieldKind::U32,  // 58: dmg_type4
        FieldKind::F32,  // 59: dmg_min5
        FieldKind::F32,  // 60: dmg_max5
        FieldKind::U32,  // 61: dmg_type5
        FieldKind::I32,  // 62: armor
        FieldKind::I32,  // 63: holy_res
        FieldKind::I32,  // 64: fire_res
        FieldKind::I32,  // 65: nature_res
        FieldKind::I32,  // 66: frost_res
        FieldKind::I32,  // 67: shadow_res
        spec_gated(build, CLIENT_BUILD_0_9_0, FieldKind::I32),  // 68: arcane_res
        FieldKind::U32,  // 69: delay
        FieldKind::U32,  // 70: ammo_type
        spec_gated(build, CLIENT_BUILD_1_10_0, FieldKind::F32),  // 71: ranged_mod_range
        FieldKind::U32,  // 72: spell_id1
        FieldKind::U32,  // 73: spell_trigger1
        FieldKind::I32,  // 74: spell_charges1
        FieldKind::I32,  // 75: spell_cooldown1
        FieldKind::U32,  // 76: spell_category1
        FieldKind::I32,  // 77: spell_category_cooldown1
        FieldKind::U32,  // 78: spell_id2
        FieldKind::U32,  // 79: spell_trigger2
        FieldKind::I32,  // 80: spell_charges2
        FieldKind::I32,  // 81: spell_cooldown2
        FieldKind::U32,  // 82: spell_category2
        FieldKind::I32,  // 83: spell_category_cooldown2
        FieldKind::U32,  // 84: spell_id3
        FieldKind::U32,  // 85: spell_trigger3
        FieldKind::I32,  // 86: spell_charges3
        FieldKind::I32,  // 87: spell_cooldown3
        FieldKind::U32,  // 88: spell_category3
        FieldKind::I32,  // 89: spell_category_cooldown3
        FieldKind::U32,  // 90: spell_id4
        FieldKind::U32,  // 91: spell_trigger4
        FieldKind::I32,  // 92: spell_charges4
        FieldKind::I32,  // 93: spell_cooldown4
        FieldKind::U32,  // 94: spell_category4
        FieldKind::I32,  // 95: spell_category_cooldown4
        FieldKind::U32,  // 96: spell_id5
        FieldKind::U32,  // 97: spell_trigger5
        FieldKind::I32,  // 98: spell_charges5
        FieldKind::I32,  // 99: spell_cooldown5
        FieldKind::U32,  // 100: spell_category5
        FieldKind::I32,  // 101: spell_category_cooldown5
        FieldKind::U32,  // 102: bonding
        FieldKind::CStr,  // 103: description
        FieldKind::U32,  // 104: page_text
        FieldKind::U32,  // 105: language_id
        FieldKind::U32,  // 106: page_material
        FieldKind::U32,  // 107: startquest
        FieldKind::U32,  // 108: lockid
        FieldKind::I32,  // 109: material
        FieldKind::U32,  // 110: sheath
        spec_gated(build, CLIENT_BUILD_0_5_5, FieldKind::I32),  // 111: random_property
        spec_gated(build, CLIENT_BUILD_0_6_0, FieldKind::U32),  // 112: block
        spec_gated(build, CLIENT_BUILD_0_10_0, FieldKind::U32),  // 113: itemset
        spec_gated(build, CLIENT_BUILD_0_12_0, FieldKind::U32),  // 114: max_durability
        spec_gated(build, CLIENT_BUILD_1_7_0, FieldKind::U32),  // 115: area
        spec_gated(build, CLIENT_BUILD_1_11_0, FieldKind::U32),  // 116: map
        spec_gated(build, CLIENT_BUILD_1_9_0, FieldKind::U32),  // 117: bag_family
        FieldKind::U32,  // 118: totem_category
        FieldKind::U32,  // 119: socket_color1
        FieldKind::U32,  // 120: socket_content1
        FieldKind::U32,  // 121: socket_color2
        FieldKind::U32,  // 122: socket_content2
        FieldKind::U32,  // 123: socket_color3
        FieldKind::U32,  // 124: socket_content3
        FieldKind::U32,  // 125: socket_bonus
        FieldKind::U32,  // 126: gem_properties
        FieldKind::U32,  // 127: armor_damage_modifier
        FieldKind::U32,  // 128: required_disenchant_skill
        FieldKind::U32,  // 129: duration
        FieldKind::U32,  // 130: extra_flags
        FieldKind::U32,  // 131: disenchant_id
    ]
}

/// The record layout of a client build.
pub fn item_layout(build: u32) -> (layout: Vec<FieldKind>)
    ensures
        layout@ == spec_item_layout(build),
{
    vec![
        FieldKind::U32,  // 0: entry_size
        FieldKind::U32,  // 1: class
        FieldKind::U32,  // 2: subclass
        FieldKind::CStr,  // 3: name_slot1
        FieldKind::CStr,  // 4: name_slot2
        FieldKind::CStr,  // 5: name_slot3
        FieldKind::CStr,  // 6: name_slot4
        FieldKind::U32,  // 7: displayid
        FieldKind::U32,  // 8: quality
        FieldKind::U32,  // 9: flags
        FieldKind::U32,  // 10: buy_price
        FieldKind::U32,  // 11: sell_price
        FieldKind::U32,  // 12: inventory_type
        FieldKind::I32,  // 13: allowable_class
        FieldKind::I32,  // 14: allowable_race
        FieldKind::U32,  // 15: item_level
        FieldKind::I32,  // 16: required_level
        FieldKind::U32,  // 17: required_skill
        FieldKind::U32,  // 18: required_skill_rank
        gated(build, CLIENT_BUILD_0_10_0, FieldKind::U32),  // 19: required_spell
        gated(build, CLIENT_BUILD_0_10_0, FieldKind::U32),  // 20: required_honor_rank
        gated(build, CLIENT_BUILD_0_10_0, FieldKind::U32),  // 21: required_city_rank
        gated(build, CLIENT_BUILD_1_7_0, FieldKind::U32),  // 22: required_reputation_faction
        gated(build, CLIENT_BUILD_1_7_0, FieldKind::U32),  // 23: required_reputation_rank
        FieldKind::U32,  // 24: maxcount
        FieldKind::U32,  // 25: stackable
        FieldKind::U32,  // 26: container_slots
        FieldKind::I32,  // 27: stat_type1
        FieldKind::I32,  // 28: stat_value1
        FieldKind::I32,  // 29: stat_type2
        FieldKind::I32,  // 30: stat_value2
        FieldKind::I32,  // 31: stat_type3
        FieldKind::I32,  // 32: stat_value3
        FieldKind::I32,  // 33: stat_type4
        FieldKind::I32,  // 34: stat_value4
        FieldKind::I32,  // 35: stat_type5
        FieldKind::I32,  // 36: stat_value5
        FieldKind::I32,  // 37: stat_type6
        FieldKind::I32,  // 38: stat_value6
        FieldKind::I32,  // 39: stat_type7
        FieldKind::I32,  // 40: stat_value7
        FieldKind::I32,  // 41: stat_type8
        FieldKind::I32,  // 42: stat_value8
        FieldKind::I32,  // 43: stat_type9
        FieldKind::I32,  // 44: stat_value9
        FieldKind::I32,  // 45: stat_type10
        FieldKind::I32,  // 46: stat_value10
        FieldKind::F32,  // 47: dmg_min1
        FieldKind::F32,  // 48: dmg_max1
        FieldKind::U32,  // 49: dmg_type1
        FieldKind::F32,  // 50: dmg_min2
        FieldKind::F32,  // 51: dmg_max2
        FieldKind::U32,  // 52: dmg_type2
        FieldKind::F32,  // 53: dmg_min3
        FieldKind::F32,  // 54: dmg_max3
        FieldKind::U32,  // 55: dmg_type3
        FieldKind::F32,  // 56: dmg_min4
        FieldKind::F32,  // 57: dmg_max4
        FieldKind::U32,  // 58: dmg_type4
        FieldKind::F32,  // 59: dmg_min5
        FieldKind::F32,  // 60: dmg_max5
        FieldKind::U32,  // 61: dmg_type5
        FieldKind::I32,  // 62: armor
        FieldKind::I32,  // 63: holy_res
        FieldKind::I32,  // 64: fire_res
        FieldKind::I32,  // 65: nature_res
        FieldKind::I32,  // 66: frost_res
        FieldKind::I32,  // 67: shadow_res
        gated(build, CLIENT_BUILD_0_9_0, FieldKind::I32),  // 68: arcane_res
        FieldKind::U32,  // 69: delay
        FieldKind::U32,  // 70: ammo_type
        gated(build, CLIENT_BUILD_1_10_0, FieldKind::F32),  // 71: ranged_mod_range
        FieldKind::U32,  // 72: spell_id1
        FieldKind::U32,  // 73: spell_trigger1
        FieldKind::I32,  // 74: spell_charges1
        FieldKind::I32,  // 75: spell_cooldown1
        FieldKind::U32,  // 76: spell_category1
        FieldKind::I32,  // 77: spell_category_cooldown1
        FieldKind::U32,  // 78: spell_id2
        FieldKind::U32,  // 79: spell_trigger2
        FieldKind::I32,  // 80: spell_charges2
        FieldKind::I32,  // 81: spell_cooldown2
        FieldKind::U32,  // 82: spell_category2
        FieldKind::I32,  // 83: spell_category_cooldown2
        FieldKind::U32,  // 84: spell_id3
        FieldKind::U32,  // 85: spell_trigger3
        FieldKind::I32,  // 86: spell_charges3
        FieldKind::I32,  // 87: spell_cooldown3
        FieldKind::U32,  // 88: spell_category3
        FieldKind::I32,  // 89: spell_category_cooldown3
        FieldKind::U32,  // 90: spell_id4
        FieldKind::U32,  // 91: spell_trigger4
        FieldKind::I32,  // 92: spell_charges4
        FieldKind::I32,  // 93: spell_cooldown4
        FieldKind::U32,  // 94: spell_category4
        FieldKind::I32,  // 95: spell_category_cooldown4
        FieldKind::U32,  // 96: spell_id5
        FieldKind::U32,  // 97: spell_trigger5
        FieldKind::I32,  // 98: spell_charges5
        FieldKind::I32,  // 99: spell_cooldown5
        FieldKind::U32,  // 100: spell_category5
        FieldKind::I32,  // 101: spell_category_cooldown5
        FieldKind::U32,  // 102: bonding
        FieldKind::CStr,  // 103: description
        FieldKind::U32,  // 104: page_text
        FieldKind::U32,  // 105: language_id
        FieldKind::U32,  // 106: page_material
        FieldKind::U32,  // 107: startquest
        FieldKind::U32,  // 108: lockid
        FieldKind::I32,  // 109: material
        FieldKind::U32,  // 110: sheath
        gated(build, CLIENT_BUILD_0_5_5, FieldKind::I32),  // 111: random_property
        gated(build, CLIENT_BUILD_0_6_0, FieldKind::U32),  // 112: block
        gated(build, CLIENT_BUILD_0_10_0, FieldKind::U32),  // 113: itemset
        gated(build, CLIENT_BUILD_0_12_0, FieldKind::U32),  // 114: max_durability
        gated(build, CLIENT_BUILD_1_7_0, FieldKind::U32),  // 115: area
        gated(build, CLIENT_BUILD_1_11_0, FieldKind::U32),  // 116: map
        gated(build, CLIENT_BUILD_1_9_0, FieldKind::U32),  // 117: bag_family
        FieldKind::U32,  // 118: totem_category
        FieldKind::U32,  // 119: socket_color1
        FieldKind::U32,  // 120: socket_content1
        FieldKind::U32,  // 121: socket_color2
        FieldKind::U32,  // 122: socket_content2
        FieldKind::U32,  // 123: socket_color3
        FieldKind::U32,  // 124: socket_content3
        FieldKind::U32,  // 125: socket_bonus
        FieldKind::U32,  // 126: gem_properties
        FieldKind::U32,  // 127: armor_damage_modifier
        FieldKind::U32,  // 128: required_disenchant_skill
        FieldKind::U32,  // 129: duration
        FieldKind::U32,  // 130: extra_flags
        FieldKind::U32,  // 131: disenchant_id
    ]
}

/// Where the cursor stands after a string read at `p` that finds no NUL:
/// the end of the data, or `p` when it already stands beyond it.
pub open spec fn unterminated_cursor(d: Seq<u8>, p: int) -> int {
    if p < d.len() {
        d.len() as int
    } else {
        p
    }
}

/// What reading one field at offset `p` gives: the value and the offset
/// after it, or the error message and where the failed read leaves the
/// cursor.
pub open spec fn spec_read_field(d: Seq<u8>, p: int, kind: FieldKind) -> Result<
    (SpecField, int),
    (Seq<char>, int),
> {
    match kind {
        FieldKind::U32 => if p + 4 <= d.len() {
            Ok((SpecField::Unsigned(u32_le_at(d, p)), p + 4))
        } else {
            Err((eof_u32_message(), p))
        },
        FieldKind::I32 => if p + 4 <= d.len() {
            Ok((SpecField::Signed(u32_le_at(d, p) as i32), p + 4))
        } else {
            Err((eof_u32_message(), p))
        },
        FieldKind::F32 => if p + 4 <= d.len() {
            Ok((SpecField::FloatBits(u32_le_at(d, p)), p + 4))
        } else {
            Err((eof_f32_message(), p))
        },
        FieldKind::CStr => match nul_index(d, p) {
            Some(e) => Ok((SpecField::Text(cstring_text(d.subrange(p, e))), e + 1)),
            None => Err((unterminated_message(), unterminated_cursor(d, p))),
        },
        FieldKind::AbsentU32 => Ok((SpecField::Unsigned(0), p)),
        FieldKind::AbsentI32 => Ok((SpecField::Signed(0), p)),
        FieldKind::AbsentF32 => Ok((SpecField::FloatBits(0), p)),
    }
}

/// What reading the fields of `layout` one after the other from offset `p`
/// gives: the values and the offset after the last one, or the first error
/// with the cursor where that read left it.
pub open spec fn spec_read_fields(d: Seq<u8>, p: int, layout: Seq<FieldKind>) -> Result<
    (Seq<SpecField>, int),
    (Seq<char>, int),
>
    decreases layout.len(),
{
    if layout.len() == 0 {
        Ok((seq![], p))
    } else {
        match spec_read_fields(d, p, layout.drop_last()) {
            Ok((vals, q)) => match spec_read_field(d, q, layout.last()) {
                Ok((v, r)) => Ok((vals.push(v), r)),
                Err(e) => Err(e),
            },
            Err(e) => Err(e),
        }
    }
}

/// Reads one field of the given kind at `*pos`.
fn read_field(data: &[u8], pos: &mut usize, kind: FieldKind) -> (res: Result<FieldValue, String>)
    ensures
        spec_read_field(data@, *old(pos) as int, kind) matches Ok((v, q)) ==> (res matches Ok(x)
            && x@ == v && *final(pos) == q),
        spec_read_field(data@, *old(pos) as int, kind) matches Err((e, q)) ==> (res matches Err(x)
            && x@ == e && *final(pos) == q),
        res matches Ok(x) ==> !spec_text(x@).contains('\0'),
        res is Err ==> *old(pos) <= *final(pos),
        res is Err && *old(pos) <= data@.len() ==> *final(pos) <= data@.len(),
{
    match kind {
        FieldKind::U32 => {
            let v = read_u32_le(data, pos)?;
            Ok(FieldValue::Unsigned(v))
        },
        FieldKind::I32 => {
            let v = read_i32_le(data, pos)?;
            Ok(FieldValue::Signed(v))
        },
        FieldKind::F32 => {
            let v = read_f32_bits_le(data, pos)?;
            Ok(FieldValue::FloatBits(v))
        },
        FieldKind::CStr => {
            let s = read_cstring_utf8_lossy(data, pos)?;
            Ok(FieldValue::Text(s))
        },
        FieldKind::AbsentU32 => Ok(FieldValue::Unsigned(0)),
        FieldKind::AbsentI32 => Ok(FieldValue::Signed(0)),
        FieldKind::AbsentF32 => Ok(FieldValue::FloatBits(0)),
    }
}

/// The values of a vector of fields.
pub open spec fn fields_view(vals: Seq<FieldValue>) -> Seq<SpecField> {
    Seq::new(vals.len(), |i: int| vals[i]@)
}

pub proof fn lemma_read_fields_bounds(d: Seq<u8>, p: int, layout: Seq<FieldKind>)
    requires
        0 <= p <= d.len(),
    ensures
        spec_read_fields(d, p, layout) matches Ok((vals, q)) ==> p <= q <= d.len() && vals.len()
            == layout.len(),
    decreases layout.len(),
{
    if layout.len() > 0 {
        lemma_read_fields_bounds(d, p, layout.drop_last());
        if let Ok((vals, q)) = spec_read_fields(d, p, layout.drop_last()) {
            if layout.last() == FieldKind::CStr {
                lemma_nul_index_bounds(d, q);
            }
        }
    }
}

proof fn lemma_read_fields_error_persists(d: Seq<u8>, p: int, layout: Seq<FieldKind>, k: int)
    requires
        0 <= k <= layout.len(),
        spec_read_fields(d, p, layout.take(k)) is Err,
    ensures
        spec_read_fields(d, p, layout) == spec_read_fields(d, p, layout.take(k)),
    decreases layout.len() - k,
{
    if k < layout.len() {
        assert(layout.take(k + 1).drop_last() =~= layout.take(k));
        lemma_read_fields_error_persists(d, p, layout, k + 1);
    } else {
        assert(layout.take(k) =~= layout);
    }
}

/// A statistic bonus of an item.
#[derive(Clone, Copy)]
pub struct ItemStat {
    pub stat_type: i32,
    pub stat_value: i32,
}

/// A damage range of a weapon; the bounds are kept as `f32` bit patterns.
#[derive(Clone, Copy)]
pub struct ItemDamage {
    pub min_bits: u32,
    pub max_bits: u32,
    pub dmg_type: u32,
}

/// A spell an item can cast.
#[derive(Clone, Copy)]
pub struct ItemSpell {
    pub spell_id: u32,
    pub trigger: u32,
    pub charges: i32,
    pub cooldown: i32,
    pub category: u32,
    pub category_cooldown: i32,
}

/// The numeric fields of an item record.
#[derive(Clone, Copy)]
pub struct ItemFields {
    pub entry: u32,
    pub class: u32,
    pub subclass: u32,
    pub displayid: u32,
    pub quality: u32,
    pub flags: u32,
    pub buy_price: u32,
    pub sell_price: u32,
    pub inventory_type: u32,
    pub allowable_class: i32,
    pub allowable_race: i32,
    pub item_level: u32,
    pub required_level: i32,
    pub required_skill: u32,
    pub required_skill_rank: u32,
    pub required_spell: u32,
    pub required_honor_rank: u32,
    pub required_city_rank: u32,
    pub required_reputation_faction: u32,
    pub required_reputation_rank: u32,
    pub maxcount: u32,
    pub stackable: u32,
    pub container_slots: u32,
    pub stats: [ItemStat; 10],
    pub damages: [ItemDamage; 5],
    pub armor: i32,
    pub holy_res: i32,
    pub fire_res: i32,
    pub nature_res: i32,
    pub frost_res: i32,
    pub shadow_res: i32,
    pub arcane_res: i32,
    pub delay: u32,
    pub ammo_type: u32,
    pub ranged_mod_range_bits: u32,
    pub spells: [ItemSpell; 5],
    pub bonding: u32,
    pub page_text: u32,
    pub language_id: u32,
    pub page_material: u32,
    pub startquest: u32,
    pub lockid: u32,
    pub material: i32,
    pub sheath: u32,
    pub random_property: i32,
    pub block: u32,
    pub itemset: u32,
    pub max_durability: u32,
    pub area: u32,
    pub map: u32,
    pub bag_family: u32,
    pub totem_category: u32,
    pub socket_colors: [u32; 3],
    pub socket_contents: [u32; 3],
    pub socket_bonus: u32,
    pub gem_properties: u32,
    pub required_disenchant_skill: u32,
    pub armor_damage_modifier_bits: u32,
    pub disenchant_id: u32,
    pub duration: u32,
    pub extra_flags: u32,
}

/// An item record: its name and description and its numeric fields.
pub struct ItemEntry {
    pub name: String,
    pub description: String,
    pub fields: ItemFields,
}

/// The mathematical value of an item record.
pub struct SpecItem {
    pub name: Seq<char>,
    pub description: Seq<char>,
    pub fields: ItemFields,
}

impl View for ItemEntry {
    type V = SpecItem;

    open spec fn view(&self) -> SpecItem {
        SpecItem { name: self.name@, description: self.description@, fields: self.fields }
    }
}

/// The word a field holds (zero for a field of another kind).
pub open spec fn spec_word(f: SpecField) -> u32 {
    match f {
        SpecField::Unsigned(w) => w,
        _ => 0,
    }
}

/// The signed number a field holds (zero for a field of another kind).
pub open spec fn spec_signed(f: SpecField) -> i32 {
    match f {
        SpecField::Signed(v) => v,
        _ => 0,
    }
}

/// The float bit pattern a field holds (zero for a field of another kind).
pub open spec fn spec_bits(f: SpecField) -> u32 {
    match f {
        SpecField::FloatBits(b) => b,
        _ => 0,
    }
}

/// The text a field holds (empty for a field of another kind).
pub open spec fn spec_text(f: SpecField) -> Seq<char> {
    match f {
        SpecField::Text(t) => t,
        _ => seq![],
    }
}

/// A word where all bits set means "unset": read as zero.
pub open spec fn unset_to_zero(w: u32) -> u32 {
    if w == u32::MAX {
        0
    } else {
        w
    }
}

/// At most the first `n` characters of `s`.
pub open spec fn take_chars(s: Seq<char>, n: int) -> Seq<char> {
    s.take(if n < s.len() { n } else { s.len() as int })
}

pub open spec fn spec_stat(vals: Seq<SpecField>, j: int) -> ItemStat {
    ItemStat {
        stat_type: spec_signed(vals[27 + 2 * j]),
        stat_value: spec_signed(vals[28 + 2 * j]),
    }
}

pub open spec fn spec_damage(vals: Seq<SpecField>, j: int) -> ItemDamage {
    ItemDamage {
        min_bits: spec_bits(vals[47 + 3 * j]),
        max_bits: spec_bits(vals[48 + 3 * j]),
        dmg_type: spec_word(vals[49 + 3 * j]),
    }
}

pub open spec fn spec_spell(vals: Seq<SpecField>, j: int) -> ItemSpell {
    ItemSpell {
        spell_id: spec_word(vals[72 + 6 * j]),
        trigger: spec_word(vals[73 + 6 * j]),
        charges: spec_signed(vals[74 + 6 * j]),
        cooldown: spec_signed(vals[75 + 6 * j]),
        category: spec_word(vals[76 + 6 * j]),
        category_cooldown: spec_signed(vals[77 + 6 * j]),
    }
}

/// The item that a record with entry id `entry` and field values `vals`
/// (laid out as [`spec_item_layout`] says) describes. Of the four name slots
/// the first is the name; name and description keep at most 255 characters;
/// an all-ones buy price or skill requirement counts as unset. `vals[k]` is
/// the field numbered `k` in [`spec_item_layout`].
pub open spec fn spec_item_of(entry: u32, vals: Seq<SpecField>) -> SpecItem {
    SpecItem {
        name: take_chars(spec_text(vals[3]), MAX_TEXT_CHARS as int),
        description: take_chars(spec_text(vals[103]), MAX_TEXT_CHARS as int),
        fields: ItemFields {
            entry,
            class: spec_word(vals[1]),
            subclass: spec_word(vals[2]),
            displayid: spec_word(vals[7]),
            quality: spec_word(vals[8]),
            flags: spec_word(vals[9]),
            buy_price: unset_to_zero(spec_word(vals[10])),
            sell_price: spec_word(vals[11]),
            inventory_type: spec_word(vals[12]),
            allowable_class: spec_signed(vals[13]),
            allowable_race: spec_signed(vals[14]),
            item_level: spec_word(vals[15]),
            required_level: spec_signed(vals[16]),
            required_skill: unset_to_zero(spec_word(vals[17])),
            required_skill_rank: unset_to_zero(spec_word(vals[18])),
            required_spell: spec_word(vals[19]),
            required_honor_rank: spec_word(vals[20]),
            required_city_rank: spec_word(vals[21]),
            required_reputation_faction: spec_word(vals[22]),
            required_reputation_rank: spec_word(vals[23]),
            maxcount: spec_word(vals[24]),
            stackable: spec_word(vals[25]),
            container_slots: spec_word(vals[26]),
            stats: [spec_stat(vals, 0), spec_stat(vals, 1), spec_stat(vals, 2), spec_stat(vals, 3), spec_stat(vals, 4), spec_stat(vals, 5), spec_stat(vals, 6), spec_stat(vals, 7), spec_stat(vals, 8), spec_stat(vals, 9)],
            damages: [spec_damage(vals, 0), spec_damage(vals, 1), spec_damage(vals, 2), spec_damage(vals, 3), spec_damage(vals, 4)],
            armor: spec_signed(vals[62]),
            holy_res: spec_signed(vals[63]),
            fire_res: spec_signed(vals[64]),
            nature_res: spec_signed(vals[65]),
            frost_res: spec_signed(vals[66]),
            shadow_res: spec_signed(vals[67]),
            arcane_res: spec_signed(vals[68]),
            delay: spec_word(vals[69]),
            ammo_type: spec_word(vals[70]),
            ranged_mod_range_bits: spec_bits(vals[71]),
            spells: [spec_spell(vals, 0), spec_spell(vals, 1), spec_spell(vals, 2), spec_spell(vals, 3), spec_spell(vals, 4)],
            bonding: spec_word(vals[102]),
            page_text: spec_word(vals[104]),
            language_id: spec_word(vals[105]),
            page_material: spec_word(vals[106]),
            startquest: spec_word(vals[107]),
            lockid: spec_word(vals[108]),
            material: spec_signed(vals[109]),
            sheath: spec_word(vals[110]),
            random_property: spec_signed(vals[111]),
            block: spec_word(vals[112]),
            itemset: spec_word(vals[113]),
            max_durability: spec_word(vals[114]),
            area: spec_word(vals[115]),
            map: spec_word(vals[116]),
            bag_family: spec_word(vals[117]),
            totem_category: spec_word(vals[118]),
            socket_colors: [spec_word(vals[119]), spec_word(vals[121]), spec_word(vals[123])],
            socket_contents: [spec_word(vals[120]), spec_word(vals[122]), spec_word(vals[124])],
            socket_bonus: spec_word(vals[125]),
            gem_properties: spec_word(vals[126]),
            required_disenchant_skill: spec_word(vals[128]),
            armor_damage_modifier_bits: spec_word(vals[127]),
            disenchant_id: spec_word(vals[131]),
            duration: spec_word(vals[129]),
            extra_flags: spec_word(vals[130]),
        },
    }
}

fn word_at(vals: &Vec<FieldValue>, k: usize) -> (w: u32)
    requires
        k < vals.len(),
    ensures
        w == spec_word(vals@[k as int]@),
{
    match &vals[k] {
        FieldValue::Unsigned(w) => *w,
        _ => 0,
    }
}

fn signed_at(vals: &Vec<FieldValue>, k: usize) -> (v: i32)
    requires
        k < vals.len(),
    ensures
        v == spec_signed(vals@[k as int]@),
{
    match &vals[k] {
        FieldValue::Signed(v) => *v,
        _ => 0,
    }
}

fn bits_at(vals: &Vec<FieldValue>, k: usize) -> (b: u32)
    requires
        k < vals.len(),
    ensures
        b == spec_bits(vals@[k as int]@),
{
    match &vals[k] {
        FieldValue::FloatBits(b) => *b,
        _ => 0,
    }
}

fn text_at(vals: &Vec<FieldValue>, k: usize) -> (t: String)
    requires
        k < vals.len(),
    ensures
        t@ == spec_text(vals@[k as int]@),
{
    match &vals[k] {
        FieldValue::Text(t) => t.clone(),
        _ => String::new(),
    }
}

/// `unset_to_zero`: an all-ones word reads as zero.
pub(crate) fn unset_to_zero_exec(w: u32) -> (r: u32)
    ensures
        r == unset_to_zero(w),
{
    if w == u32::MAX {
        0
    } else {
        w
    }
}

fn stat_at(vals: &Vec<FieldValue>, j: usize) -> (s: ItemStat)
    requires
        vals.len() == ITEM_FIELD_COUNT,
        j < 10,
    ensures
        s == spec_stat(fields_view(vals@), j as int),
{
    ItemStat { stat_type: signed_at(vals, 27 + 2 * j), stat_value: signed_at(vals, 28 + 2 * j) }
}

fn damage_at(vals: &Vec<FieldValue>, j: usize) -> (d: ItemDamage)
    requires
        vals.len() == ITEM_FIELD_COUNT,
        j < 5,
    ensures
        d == spec_damage(fields_view(vals@), j as int),
{
    ItemDamage {
        min_bits: bits_at(vals, 47 + 3 * j),
        max_bits: bits_at(vals, 48 + 3 * j),
        dmg_type: word_at(vals, 49 + 3 * j),
    }
}

fn spell_at(vals: &Vec<FieldValue>, j: usize) -> (s: ItemSpell)
    requires
        vals.len() == ITEM_FIELD_COUNT,
        j < 5,
    ensures
        s == spec_spell(fields_view(vals@), j as int),
{
    ItemSpell {
        spell_id: word_at(vals, 72 + 6 * j),
        trigger: word_at(vals, 73 + 6 * j),
        charges: signed_at(vals, 74 + 6 * j),
        cooldown: signed_at(vals, 75 + 6 * j),
        category: word_at(vals, 76 + 6 * j),
        category_cooldown: signed_at(vals, 77 + 6 * j),
    }
}

proof fn lemma_prefix_keeps_no_nul(s: Seq<char>, t: Seq<char>)
    requires
        !s.contains('\0'),
        t.len() <= s.len(),
        forall|i: int| 0 <= i < t.len() ==> t[i] == s[i],
    ensures
        !t.contains('\0'),
{
    if t.contains('\0') {
        let j = choose|j: int| 0 <= j < t.len() && t[j] == '\0';
        assert(s[j] == '\0');
    }
}

/// Builds the item of a record from its entry id and field values.
fn build_item(entry: u32, vals: &Vec<FieldValue>) -> (it: ItemEntry)
    requires
        vals.len() == ITEM_FIELD_COUNT,
        forall|k: int| 0 <= k < vals.len() ==> !#[trigger] spec_text(vals@[k]@).contains('\0'),
    ensures
        it@ == spec_item_of(entry, fields_view(vals@)),
        !it.name@.contains('\0'),
        !it.description@.contains('\0'),
{
    let name_slot = text_at(vals, 3);
    let name = truncate_chars(name_slot.as_str(), MAX_TEXT_CHARS);
    let description_text = text_at(vals, 103);
    let description = truncate_chars(description_text.as_str(), MAX_TEXT_CHARS);
    proof {
        lemma_prefix_keeps_no_nul(name_slot@, name@);
        lemma_prefix_keeps_no_nul(description_text@, description@);
    }
    let fields = ItemFields {
            entry,
            class: word_at(vals, 1),
            subclass: word_at(vals, 2),
            displayid: word_at(vals, 7),
            quality: word_at(vals, 8),
            flags: word_at(vals, 9),
            buy_price: unset_to_zero_exec(word_at(vals, 10)),
            sell_price: word_at(vals, 11),
            inventory_type: word_at(vals, 12),
            allowable_class: signed_at(vals, 13),
            allowable_race: signed_at(vals, 14),
            item_level: word_at(vals, 15),
            required_level: signed_at(vals, 16),
            required_skill: unset_to_zero_exec(word_at(vals, 17)),
            required_skill_rank: unset_to_zero_exec(word_at(vals, 18)),
            required_spell: word_at(vals, 19),
            required_honor_rank: word_at(vals, 20),
            required_city_rank: word_at(vals, 21),
            required_reputation_faction: word_at(vals, 22),
            required_reputation_rank: word_at(vals, 23),
            maxcount: word_at(vals, 24),
            stackable: word_at(vals, 25),
            container_slots: word_at(vals, 26),
            stats: [stat_at(vals, 0), stat_at(vals, 1), stat_at(vals, 2), stat_at(vals, 3), stat_at(vals, 4), stat_at(vals, 5), stat_at(vals, 6), stat_at(vals, 7), stat_at(vals, 8), stat_at(vals, 9)],
            damages: [damage_at(vals, 0), damage_at(vals, 1), damage_at(vals, 2), damage_at(vals, 3), damage_at(vals, 4)],
            armor: signed_at(vals, 62),
            holy_res: signed_at(vals, 63),
            fire_res: signed_at(vals, 64),
            nature_res: signed_at(vals, 65),
            frost_res: signed_at(vals, 66),
            shadow_res: signed_at(vals, 67),
            arcane_res: signed_at(vals, 68),
            delay: word_at(vals, 69),
            ammo_type: word_at(vals, 70),
            ranged_mod_range_bits: bits_at(vals, 71),
            spells: [spell_at(vals, 0), spell_at(vals, 1), spell_at(vals, 2), spell_at(vals, 3), spell_at(vals, 4)],
            bonding: word_at(vals, 102),
            page_text: word_at(vals, 104),
            language_id: word_at(vals, 105),
            page_material: word_at(vals, 106),
            startquest: word_at(vals, 107),
            lockid: word_at(vals, 108),
            material: signed_at(vals, 109),
            sheath: word_at(vals, 110),
            random_property: signed_at(vals, 111),
            block: word_at(vals, 112),
            itemset: word_at(vals, 113),
            max_durability: word_at(vals, 114),
            area: word_at(vals, 115),
            map: word_at(vals, 116),
            bag_family: word_at(vals, 117),
            totem_category: word_at(vals, 118),
            socket_colors: [word_at(vals, 119), word_at(vals, 121), word_at(vals, 123)],
            socket_contents: [word_at(vals, 120), word_at(vals, 122), word_at(vals, 124)],
            socket_bonus: word_at(vals, 125),
            gem_properties: word_at(vals, 126),
            required_disenchant_skill: word_at(vals, 128),
            armor_damage_modifier_bits: word_at(vals, 127),
            disenchant_id: word_at(vals, 131),
            duration: word_at(vals, 129),
            extra_flags: word_at(vals, 130),
    };
    let it = ItemEntry { name, description, fields };
    assert(it@.fields == spec_item_of(entry, fields_view(vals@)).fields);
    it
}

/// What parsing a record at offset `p` gives: nothing when fewer than eight
/// bytes are left or the entry id is zero (the end of the records), else the
/// item and the offset after the record, or the first read error.
pub open spec fn spec_parse_entry(d: Seq<u8>, p: int, build: u32) -> Result<
    Option<(SpecItem, int)>,
    Seq<char>,
> {
    if p + 8 > d.len() {
        Ok(None)
    } else if u32_le_at(d, p) == 0 {
        Ok(None)
    } else {
        match spec_read_fields(d, p + 4, spec_item_layout(build)) {
            Ok((vals, q)) => Ok(Some((spec_item_of(u32_le_at(d, p), vals), q))),
            Err((e, _)) => Err(e),
        }
    }
}

/// Where the cursor stands after a record at `p` whose read fails: where the
/// failed field read left it.
pub open spec fn spec_failed_cursor(d: Seq<u8>, p: int, build: u32) -> int {
    match spec_read_fields(d, p + 4, spec_item_layout(build)) {
        Err((_, q)) => q,
        Ok(_) => p,
    }
}

/// Where the cursor stands after a record at `p` that parsed to nothing.
pub open spec fn spec_end_cursor(d: Seq<u8>, p: int) -> int {
    if p + 8 > d.len() {
        p
    } else {
        p + 4
    }
}

/// Parsing a record that gives an item moves the cursor forward and keeps it
/// inside the data.
pub proof fn lemma_parse_entry_advances(d: Seq<u8>, p: int, build: u32)
    requires
        0 <= p,
    ensures
        spec_parse_entry(d, p, build) matches Ok(Some((item, q))) ==> p < q <= d.len(),
{
    if p + 8 <= d.len() && u32_le_at(d, p) != 0 {
        lemma_read_fields_bounds(d, p + 4, spec_item_layout(build));
    }
}

/// Parses the record at `*pos` of the item cache written by client `build`.
pub fn parse_item_entry(data: &[u8], pos: &mut usize, build: u32) -> (res: Result<
    Option<ItemEntry>,
    String,
>)
    ensures
        spec_parse_entry(data@, *old(pos) as int, build) matches Ok(None) ==> (res matches Ok(None)
            && *final(pos) == spec_end_cursor(data@, *old(pos) as int)),
        spec_parse_entry(data@, *old(pos) as int, build) matches Ok(Some((item, q))) ==> (res matches Ok(
            Some(it),
        ) && it@ == item && *final(pos) == q),
        spec_parse_entry(data@, *old(pos) as int, build) matches Err(e) ==> (res matches Err(x) && x@
            == e),
        res matches Ok(Some(_)) ==> *old(pos) < *final(pos) <= data@.len(),
        res matches Ok(Some(it)) ==> !it.name@.contains('\0') && !it.description@.contains('\0'),
        spec_parse_entry(data@, *old(pos) as int, build) is Err ==> *final(pos)
            == spec_failed_cursor(data@, *old(pos) as int, build),
        res is Err ==> *old(pos) + 8 <= *final(pos) <= data@.len(),
{
    if *pos > data.len() || data.len() - *pos < 8 {
        return Ok(None);
    }
    let start = *pos;
    let entry = read_u32_le(data, pos)?;
    if entry == 0 {
        return Ok(None);
    }
    let layout = item_layout(build);
    let ghost d = data@;
    let ghost all = layout@;
    let mut vals: Vec<FieldValue> = Vec::new();
    let mut i: usize = 0;
    proof {
        assert(all.take(0) =~= Seq::<FieldKind>::empty());
        assert(fields_view(vals@) =~= Seq::<SpecField>::empty());
    }
    while i < layout.len()
        invariant
            d == data@,
            all == layout@,
            all == spec_item_layout(build),
            i <= layout.len(),
            vals.len() == i,
            *pos <= data@.len(),
            start + 8 <= data@.len(),
            start == *old(pos),
            start <= *pos,
            i == 0 ==> *pos == start + 4,
            i > 0 ==> start + 8 <= *pos,
            all[0] == FieldKind::U32,
            forall|k: int| 0 <= k < vals.len() ==> !#[trigger] spec_text(vals@[k]@).contains('\0'),
            entry == u32_le_at(d, start as int),
            entry != 0,
            spec_read_fields(d, start + 4, all.take(i as int)) == Ok::<(Seq<SpecField>, int), (Seq<char>, int)>(
                (fields_view(vals@), *pos as int),
            ),
        decreases layout.len() - i,
    {
        let ghost before = *pos;
        let ghost prev_vals = fields_view(vals@);
        proof {
            assert(all.take(i + 1).drop_last() =~= all.take(i as int));
            assert(all.take(i + 1).last() == all[i as int]);
        }
        match read_field(data, pos, layout[i]) {
            Ok(v) => {
                vals.push(v);
                proof {
                    assert(fields_view(vals@) =~= prev_vals.push(vals@[i as int]@));
                    if layout@[i as int] == FieldKind::CStr {
                        lemma_nul_index_bounds(d, before as int);
                    }
                }
            },
            Err(e) => {
                proof {
                    lemma_read_fields_error_persists(d, start + 4, all, i + 1);
                }
                return Err(e);
            },
        }
        i = i + 1;
    }
    proof {
        assert(all.take(i as int) =~= all);
        lemma_read_fields_bounds(d, start + 4, all);
    }
    let item = build_item(entry, &vals);
    Ok(Some(item))
}

} // verus!
