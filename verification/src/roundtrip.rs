//! What reading gives back of a record written field by field: the bytes a
//! client writes for each value, and the laws that the parse recovers the
//! written values, each under its own name.
use vstd::prelude::*;

use crate::item::{
    spec_item_layout, spec_item_of, spec_parse_entry, spec_read_fields, FieldKind, ItemFields,
    SpecField, SpecItem, CLIENT_BUILD_0_10_0, CLIENT_BUILD_0_12_0, CLIENT_BUILD_0_5_5,
    CLIENT_BUILD_0_6_0, CLIENT_BUILD_0_9_0, CLIENT_BUILD_1_10_0, CLIENT_BUILD_1_11_0,
    CLIENT_BUILD_1_7_0, CLIENT_BUILD_1_9_0, MAX_TEXT_CHARS,
};
use vstd::utf8::char_u32_cast;

use crate::reader::{cstring_text, lemma_ascii_cstring_text, nul_index, u32_le, u32_le_at};

verus! {

/// The little-endian bytes of a word.
pub open spec fn le_bytes(w: u32) -> Seq<u8> {
    seq![
        (w & 0xff) as u8,
        ((w >> 8u32) & 0xff) as u8,
        ((w >> 16u32) & 0xff) as u8,
        ((w >> 24u32) & 0xff) as u8,
    ]
}

/// Text made of ASCII characters other than NUL.
pub open spec fn is_plain_text(t: Seq<char>) -> bool {
    forall|i: int| 0 <= i < t.len() ==> 0 < #[trigger] (t[i] as u32) < 128
}

/// The bytes of plain text.
pub open spec fn ascii_bytes(t: Seq<char>) -> Seq<u8> {
    Seq::new(t.len(), |i: int| (t[i] as u32) as u8)
}

/// The bytes a client writes for a field value; `None` is a field the
/// client does not write.
pub open spec fn written_bytes(v: Option<SpecField>) -> Seq<u8> {
    match v {
        None => seq![],
        Some(SpecField::Unsigned(w)) => le_bytes(w),
        Some(SpecField::Signed(s)) => le_bytes(s as u32),
        Some(SpecField::FloatBits(b)) => le_bytes(b),
        Some(SpecField::Text(t)) => ascii_bytes(t).push(0u8),
    }
}

/// The bytes of a run of field values, one after the other.
pub open spec fn written_fields(vs: Seq<Option<SpecField>>) -> Seq<u8>
    decreases vs.len(),
{
    if vs.len() == 0 {
        seq![]
    } else {
        written_fields(vs.drop_last()) + written_bytes(vs.last())
    }
}

/// A written value agrees with how the layout stores the field: a word, a
/// signed word, a float or plain text where the field is present, nothing
/// where the build does not write it.
pub open spec fn fits_kind(kind: FieldKind, v: Option<SpecField>) -> bool {
    match kind {
        FieldKind::U32 => v matches Some(SpecField::Unsigned(_)),
        FieldKind::I32 => v matches Some(SpecField::Signed(_)),
        FieldKind::F32 => v matches Some(SpecField::FloatBits(_)),
        FieldKind::CStr => v matches Some(SpecField::Text(t)) && is_plain_text(t),
        _ => v is None,
    }
}

/// The value read back for a written value: the value itself, or zero for a
/// field the build does not write.
pub open spec fn read_back(kind: FieldKind, v: Option<SpecField>) -> SpecField {
    match v {
        Some(x) => x,
        None => match kind {
            FieldKind::AbsentI32 => SpecField::Signed(0),
            FieldKind::AbsentF32 => SpecField::FloatBits(0),
            _ => SpecField::Unsigned(0),
        },
    }
}

/// Reading a little-endian word gives back the word that was written.
pub proof fn lemma_le_bytes_read_back(w: u32)
    ensures
        u32_le(le_bytes(w)[0], le_bytes(w)[1], le_bytes(w)[2], le_bytes(w)[3]) == w,
{
    let b0 = (w & 0xff) as u8;
    let b1 = ((w >> 8u32) & 0xff) as u8;
    let b2 = ((w >> 16u32) & 0xff) as u8;
    let b3 = ((w >> 24u32) & 0xff) as u8;
    assert(((b0 + 256 * b1 + 65536 * b2 + 16777216 * b3) as u32) == w) by (bit_vector)
        requires
            b0 == (w & 0xff) as u8,
            b1 == ((w >> 8u32) & 0xff) as u8,
            b2 == ((w >> 16u32) & 0xff) as u8,
            b3 == ((w >> 24u32) & 0xff) as u8,
    ;
}

proof fn lemma_signed_read_back(s: i32)
    ensures
        (s as u32) as i32 == s,
{
    assert((s as u32) as i32 == s) by (bit_vector);
}

proof fn lemma_plain_text_read_back(d: Seq<u8>, q: int, t: Seq<char>)
    requires
        0 <= q,
        is_plain_text(t),
        q + t.len() + 1 <= d.len(),
        d.subrange(q, q + t.len() + 1) == ascii_bytes(t).push(0u8),
    ensures
        nul_index(d, q) == Some(q + t.len()),
        cstring_text(d.subrange(q, q + t.len())) == t,
    decreases t.len(),
{
    let bytes = ascii_bytes(t).push(0u8);
    assert forall|i: int| 0 <= i < t.len() implies d[q + i] != 0u8 && d[q + i] == (t[i] as u32) as u8 by {
        assert(d[q + i] == d.subrange(q, q + t.len() + 1)[i]);
        assert(bytes[i] == (t[i] as u32) as u8);
        assert(0 < t[i] as u32);
    }
    assert(d[q + t.len()] == d.subrange(q, q + t.len() + 1)[t.len() as int]);
    assert forall|i: int| q <= i < q + t.len() implies d[i] != 0u8 by {
        let j = i - q;
        assert(d[i] == d.subrange(q, q + t.len() + 1)[j]);
        assert(bytes[j] == (t[j] as u32) as u8);
        assert(0 < t[j] as u32);
    }
    lemma_nul_index_walk(d, q, q + t.len());
    let sub = d.subrange(q, q + t.len());
    assert forall|i: int| 0 <= i < sub.len() implies #[trigger] sub[i] < 0x80u8 by {
        assert(sub[i] == d[q + i]);
        assert((t[i] as u32) < 128);
    }
    lemma_ascii_cstring_text(sub);
    assert forall|i: int| 0 <= i < t.len() implies (sub[i] as char) == t[i] by {
        assert(sub[i] == (t[i] as u32) as u8);
        let c = t[i];
        let x = c as u32;
        assert(x < 128);
        let b = x as u8;
        assert(b as u32 == x);
        assert(b as char == x as char);
        char_u32_cast(c, x);
    }
    assert(Seq::new(sub.len(), |i: int| sub[i] as char) =~= t);
}

proof fn lemma_nul_index_walk(d: Seq<u8>, q: int, e: int)
    requires
        0 <= q <= e < d.len(),
        d[e] == 0u8,
        forall|i: int| q <= i < e ==> d[i] != 0u8,
    ensures
        nul_index(d, q) == Some(e),
    decreases e - q,
{
    if q < e {
        lemma_nul_index_walk(d, q + 1, e);
    }
}

proof fn lemma_word_read_back(d: Seq<u8>, q: int, w: u32)
    requires
        0 <= q,
        q + 4 <= d.len(),
        d.subrange(q, q + 4) == le_bytes(w),
    ensures
        u32_le_at(d, q) == w,
{
    let s = d.subrange(q, q + 4);
    assert(d[q] == s[0] && d[q + 1] == s[1] && d[q + 2] == s[2] && d[q + 3] == s[3]);
    lemma_le_bytes_read_back(w);
}

/// Reading a layout over the bytes of values written to fit it gives back
/// every value, zero for the fields the build does not write, and stops
/// right after the written bytes.
pub proof fn lemma_read_written_fields(
    d: Seq<u8>,
    p: int,
    layout: Seq<FieldKind>,
    vs: Seq<Option<SpecField>>,
)
    requires
        0 <= p,
        layout.len() == vs.len(),
        forall|k: int| 0 <= k < vs.len() ==> #[trigger] fits_kind(layout[k], vs[k]),
        p + written_fields(vs).len() <= d.len(),
        d.subrange(p, p + written_fields(vs).len()) == written_fields(vs),
    ensures
        spec_read_fields(d, p, layout) == Ok::<(Seq<SpecField>, int), (Seq<char>, int)>(
            (
                Seq::new(vs.len(), |k: int| read_back(layout[k], vs[k])),
                p + written_fields(vs).len(),
            ),
        ),
    decreases vs.len(),
{
    if vs.len() == 0 {
        assert(Seq::new(vs.len(), |k: int| read_back(layout[k], vs[k])) =~= Seq::<
            SpecField,
        >::empty());
    } else {
        let vs0 = vs.drop_last();
        let l0 = layout.drop_last();
        let w0 = written_fields(vs0);
        let last = written_bytes(vs.last());
        assert(written_fields(vs) == w0 + last);
        assert forall|k: int| 0 <= k < vs0.len() implies #[trigger] fits_kind(l0[k], vs0[k]) by {
            assert(fits_kind(layout[k], vs[k]));
        }
        assert(d.subrange(p, p + w0.len()) =~= d.subrange(p, p + written_fields(vs).len()).subrange(
            0,
            w0.len() as int,
        ));
        assert((w0 + last).subrange(0, w0.len() as int) =~= w0);
        assert((w0 + last).subrange(w0.len() as int, (w0.len() + last.len()) as int) =~= last);
        lemma_read_written_fields(d, p, l0, vs0);
        let q = p + w0.len();
        let tail = d.subrange(q, q + last.len());
        assert(tail =~= d.subrange(p, p + written_fields(vs).len()).subrange(
            w0.len() as int,
            (w0.len() + last.len()) as int,
        ));
        assert(tail == last);
        assert(fits_kind(layout[vs.len() - 1], vs[vs.len() - 1]));
        let kind = layout.last();
        match vs.last() {
            Some(SpecField::Unsigned(w)) => {
                lemma_word_read_back(d, q, w);
            },
            Some(SpecField::Signed(s)) => {
                lemma_word_read_back(d, q, s as u32);
                lemma_signed_read_back(s);
            },
            Some(SpecField::FloatBits(b)) => {
                lemma_word_read_back(d, q, b);
            },
            Some(SpecField::Text(t)) => {
                assert(ascii_bytes(t).push(0u8).len() == t.len() + 1);
                lemma_plain_text_read_back(d, q, t);
            },
            None => {},
        }
        let prev = Seq::new(vs0.len(), |k: int| read_back(l0[k], vs0[k]));
        assert(Seq::new(vs.len(), |k: int| read_back(layout[k], vs[k])) =~= prev.push(
            read_back(kind, vs.last()),
        ));
    }
}

/// A value written only by clients from `first_build` on.
pub open spec fn written_since(build: u32, first_build: u32, v: SpecField) -> Option<SpecField> {
    if build >= first_build {
        Some(v)
    } else {
        None
    }
}

/// The values a client of `build` writes after the entry id for an item,
/// each taken from the item field of the same name, in the order of the
/// cache: the four name slots hold the name and three empty strings.
pub open spec fn written_item_values(build: u32, entry_size: u32, it: SpecItem) -> Seq<
    Option<SpecField>,
> {
    let f = it.fields;
    seq![
        Some(SpecField::Unsigned(entry_size)),
        Some(SpecField::Unsigned(f.class)),
        Some(SpecField::Unsigned(f.subclass)),
        Some(SpecField::Text(it.name)),
        Some(SpecField::Text(seq![])),
        Some(SpecField::Text(seq![])),
        Some(SpecField::Text(seq![])),
        Some(SpecField::Unsigned(f.displayid)),
        Some(SpecField::Unsigned(f.quality)),
        Some(SpecField::Unsigned(f.flags)),
        Some(SpecField::Unsigned(f.buy_price)),
        Some(SpecField::Unsigned(f.sell_price)),
        Some(SpecField::Unsigned(f.inventory_type)),
        Some(SpecField::Signed(f.allowable_class)),
        Some(SpecField::Signed(f.allowable_race)),
        Some(SpecField::Unsigned(f.item_level)),
        Some(SpecField::Signed(f.required_level)),
        Some(SpecField::Unsigned(f.required_skill)),
        Some(SpecField::Unsigned(f.required_skill_rank)),
        written_since(build, CLIENT_BUILD_0_10_0, SpecField::Unsigned(f.required_spell)),
        written_since(build, CLIENT_BUILD_0_10_0, SpecField::Unsigned(f.required_honor_rank)),
        written_since(build, CLIENT_BUILD_0_10_0, SpecField::Unsigned(f.required_city_rank)),
        written_since(build, CLIENT_BUILD_1_7_0, SpecField::Unsigned(f.required_reputation_faction)),
        written_since(build, CLIENT_BUILD_1_7_0, SpecField::Unsigned(f.required_reputation_rank)),
        Some(SpecField::Unsigned(f.maxcount)),
        Some(SpecField::Unsigned(f.stackable)),
        Some(SpecField::Unsigned(f.container_slots)),
        Some(SpecField::Signed(f.stats[0].stat_type)),
        Some(SpecField::Signed(f.stats[0].stat_value)),
        Some(SpecField::Signed(f.stats[1].stat_type)),
        Some(SpecField::Signed(f.stats[1].stat_value)),
        Some(SpecField::Signed(f.stats[2].stat_type)),
        Some(SpecField::Signed(f.stats[2].stat_value)),
        Some(SpecField::Signed(f.stats[3].stat_type)),
        Some(SpecField::Signed(f.stats[3].stat_value)),
        Some(SpecField::Signed(f.stats[4].stat_type)),
        Some(SpecField::Signed(f.stats[4].stat_value)),
        Some(SpecField::Signed(f.stats[5].stat_type)),
        Some(SpecField::Signed(f.stats[5].stat_value)),
        Some(SpecField::Signed(f.stats[6].stat_type)),
        Some(SpecField::Signed(f.stats[6].stat_value)),
        Some(SpecField::Signed(f.stats[7].stat_type)),
        Some(SpecField::Signed(f.stats[7].stat_value)),
        Some(SpecField::Signed(f.stats[8].stat_type)),
        Some(SpecField::Signed(f.stats[8].stat_value)),
        Some(SpecField::Signed(f.stats[9].stat_type)),
        Some(SpecField::Signed(f.stats[9].stat_value)),
        Some(SpecField::FloatBits(f.damages[0].min_bits)),
        Some(SpecField::FloatBits(f.damages[0].max_bits)),
        Some(SpecField::Unsigned(f.damages[0].dmg_type)),
        Some(SpecField::FloatBits(f.damages[1].min_bits)),
        Some(SpecField::FloatBits(f.damages[1].max_bits)),
        Some(SpecField::Unsigned(f.damages[1].dmg_type)),
        Some(SpecField::FloatBits(f.damages[2].min_bits)),
        Some(SpecField::FloatBits(f.damages[2].max_bits)),
        Some(SpecField::Unsigned(f.damages[2].dmg_type)),
        Some(SpecField::FloatBits(f.damages[3].min_bits)),
        Some(SpecField::FloatBits(f.damages[3].max_bits)),
        Some(SpecField::Unsigned(f.damages[3].dmg_type)),
        Some(SpecField::FloatBits(f.damages[4].min_bits)),
        Some(SpecField::FloatBits(f.damages[4].max_bits)),
        Some(SpecField::Unsigned(f.damages[4].dmg_type)),
        Some(SpecField::Signed(f.armor)),
        Some(SpecField::Signed(f.holy_res)),
        Some(SpecField::Signed(f.fire_res)),
        Some(SpecField::Signed(f.nature_res)),
        Some(SpecField::Signed(f.frost_res)),
        Some(SpecField::Signed(f.shadow_res)),
        written_since(build, CLIENT_BUILD_0_9_0, SpecField::Signed(f.arcane_res)),
        Some(SpecField::Unsigned(f.delay)),
        Some(SpecField::Unsigned(f.ammo_type)),
        written_since(build, CLIENT_BUILD_1_10_0, SpecField::FloatBits(f.ranged_mod_range_bits)),
        Some(SpecField::Unsigned(f.spells[0].spell_id)),
        Some(SpecField::Unsigned(f.spells[0].trigger)),
        Some(SpecField::Signed(f.spells[0].charges)),
        Some(SpecField::Signed(f.spells[0].cooldown)),
        Some(SpecField::Unsigned(f.spells[0].category)),
        Some(SpecField::Signed(f.spells[0].category_cooldown)),
        Some(SpecField::Unsigned(f.spells[1].spell_id)),
        Some(SpecField::Unsigned(f.spells[1].trigger)),
        Some(SpecField::Signed(f.spells[1].charges)),
        Some(SpecField::Signed(f.spells[1].cooldown)),
        Some(SpecField::Unsigned(f.spells[1].category)),
        Some(SpecField::Signed(f.spells[1].category_cooldown)),
        Some(SpecField::Unsigned(f.spells[2].spell_id)),
        Some(SpecField::Unsigned(f.spells[2].trigger)),
        Some(SpecField::Signed(f.spells[2].charges)),
        Some(SpecField::Signed(f.spells[2].cooldown)),
        Some(SpecField::Unsigned(f.spells[2].category)),
        Some(SpecField::Signed(f.spells[2].category_cooldown)),
        Some(SpecField::Unsigned(f.spells[3].spell_id)),
        Some(SpecField::Unsigned(f.spells[3].trigger)),
        Some(SpecField::Signed(f.spells[3].charges)),
        Some(SpecField::Signed(f.spells[3].cooldown)),
        Some(SpecField::Unsigned(f.spells[3].category)),
        Some(SpecField::Signed(f.spells[3].category_cooldown)),
        Some(SpecField::Unsigned(f.spells[4].spell_id)),
        Some(SpecField::Unsigned(f.spells[4].trigger)),
        Some(SpecField::Signed(f.spells[4].charges)),
        Some(SpecField::Signed(f.spells[4].cooldown)),
        Some(SpecField::Unsigned(f.spells[4].category)),
        Some(SpecField::Signed(f.spells[4].category_cooldown)),
        Some(SpecField::Unsigned(f.bonding)),
        Some(SpecField::Text(it.description)),
        Some(SpecField::Unsigned(f.page_text)),
        Some(SpecField::Unsigned(f.language_id)),
        Some(SpecField::Unsigned(f.page_material)),
        Some(SpecField::Unsigned(f.startquest)),
        Some(SpecField::Unsigned(f.lockid)),
        Some(SpecField::Signed(f.material)),
        Some(SpecField::Unsigned(f.sheath)),
        written_since(build, CLIENT_BUILD_0_5_5, SpecField::Signed(f.random_property)),
        written_since(build, CLIENT_BUILD_0_6_0, SpecField::Unsigned(f.block)),
        written_since(build, CLIENT_BUILD_0_10_0, SpecField::Unsigned(f.itemset)),
        written_since(build, CLIENT_BUILD_0_12_0, SpecField::Unsigned(f.max_durability)),
        written_since(build, CLIENT_BUILD_1_7_0, SpecField::Unsigned(f.area)),
        written_since(build, CLIENT_BUILD_1_11_0, SpecField::Unsigned(f.map)),
        written_since(build, CLIENT_BUILD_1_9_0, SpecField::Unsigned(f.bag_family)),
        Some(SpecField::Unsigned(f.totem_category)),
        Some(SpecField::Unsigned(f.socket_colors[0])),
        Some(SpecField::Unsigned(f.socket_contents[0])),
        Some(SpecField::Unsigned(f.socket_colors[1])),
        Some(SpecField::Unsigned(f.socket_contents[1])),
        Some(SpecField::Unsigned(f.socket_colors[2])),
        Some(SpecField::Unsigned(f.socket_contents[2])),
        Some(SpecField::Unsigned(f.socket_bonus)),
        Some(SpecField::Unsigned(f.gem_properties)),
        Some(SpecField::Unsigned(f.armor_damage_modifier_bits)),
        Some(SpecField::Unsigned(f.required_disenchant_skill)),
        Some(SpecField::Unsigned(f.duration)),
        Some(SpecField::Unsigned(f.extra_flags)),
        Some(SpecField::Unsigned(f.disenchant_id)),
    ]
}

/// The fields that a client of `build` does not write are zero in the item.
pub open spec fn item_fits_build(build: u32, f: ItemFields) -> bool {
    &&& build < CLIENT_BUILD_0_10_0 ==> f.required_spell == 0
    &&& build < CLIENT_BUILD_0_10_0 ==> f.required_honor_rank == 0
    &&& build < CLIENT_BUILD_0_10_0 ==> f.required_city_rank == 0
    &&& build < CLIENT_BUILD_1_7_0 ==> f.required_reputation_faction == 0
    &&& build < CLIENT_BUILD_1_7_0 ==> f.required_reputation_rank == 0
    &&& build < CLIENT_BUILD_0_9_0 ==> f.arcane_res == 0
    &&& build < CLIENT_BUILD_1_10_0 ==> f.ranged_mod_range_bits == 0
    &&& build < CLIENT_BUILD_0_5_5 ==> f.random_property == 0
    &&& build < CLIENT_BUILD_0_6_0 ==> f.block == 0
    &&& build < CLIENT_BUILD_0_10_0 ==> f.itemset == 0
    &&& build < CLIENT_BUILD_0_12_0 ==> f.max_durability == 0
    &&& build < CLIENT_BUILD_1_7_0 ==> f.area == 0
    &&& build < CLIENT_BUILD_1_11_0 ==> f.map == 0
    &&& build < CLIENT_BUILD_1_9_0 ==> f.bag_family == 0
}

/// An item a client can write and read back unchanged: a non-zero entry id,
/// plain ASCII name and description of at most 255 characters, and no
/// all-ones "unset" marker in the buy price or the skill requirements.
pub open spec fn is_writable_item(it: SpecItem) -> bool {
    &&& it.fields.entry != 0
    &&& is_plain_text(it.name)
    &&& it.name.len() <= MAX_TEXT_CHARS
    &&& is_plain_text(it.description)
    &&& it.description.len() <= MAX_TEXT_CHARS
    &&& it.fields.buy_price != u32::MAX
    &&& it.fields.required_skill != u32::MAX
    &&& it.fields.required_skill_rank != u32::MAX
}

/// The bytes of an item record: the entry id, then the written values.
pub open spec fn written_record(build: u32, entry_size: u32, it: SpecItem) -> Seq<u8> {
    le_bytes(it.fields.entry) + written_fields(written_item_values(build, entry_size, it))
}

/// Parsing a record that a client of `build` wrote for an item gives back
/// that item, every field under its own name, and stops right after the
/// record.
#[verifier::rlimit(100)]
pub proof fn lemma_parse_written_record(
    d: Seq<u8>,
    p: int,
    build: u32,
    entry_size: u32,
    it: SpecItem,
)
    requires
        0 <= p,
        is_writable_item(it),
        item_fits_build(build, it.fields),
        p + written_record(build, entry_size, it).len() <= d.len(),
        d.subrange(p, p + written_record(build, entry_size, it).len()) == written_record(
            build,
            entry_size,
            it,
        ),
    ensures
        spec_parse_entry(d, p, build) == Ok::<Option<(SpecItem, int)>, Seq<char>>(
            Some((it, p + written_record(build, entry_size, it).len())),
        ),
{
    let vs = written_item_values(build, entry_size, it);
    let layout = spec_item_layout(build);
    let body = written_fields(vs);
    let rec = written_record(build, entry_size, it);
    assert(rec == le_bytes(it.fields.entry) + body);
    assert(d.subrange(p, p + 4) =~= rec.subrange(0, 4));
    assert(rec.subrange(0, 4) =~= le_bytes(it.fields.entry));
    lemma_word_read_back(d, p, it.fields.entry);
    assert(d.subrange(p + 4, p + 4 + body.len()) =~= rec.subrange(4, rec.len() as int));
    assert(rec.subrange(4, rec.len() as int) =~= body);
    lemma_written_fields_len(vs, 4);
    assert forall|k: int| 0 <= k < vs.len() implies #[trigger] fits_kind(layout[k], vs[k]) by {
    }
    lemma_read_written_fields(d, p + 4, layout, vs);
    let vals = Seq::new(vs.len(), |k: int| read_back(layout[k], vs[k]));
    let got = spec_item_of(it.fields.entry, vals);
    assert(it.name.take(it.name.len() as int) =~= it.name);
    assert(it.description.take(it.description.len() as int) =~= it.description);
    assert(got.fields.stats =~= it.fields.stats);
    assert(got.fields.damages =~= it.fields.damages);
    assert(got.fields.spells =~= it.fields.spells);
    assert(got.fields.socket_colors =~= it.fields.socket_colors);
    assert(got.fields.socket_contents =~= it.fields.socket_contents);
    assert(got.fields == it.fields);
    assert(got == it);
}

/// The first `n` written values take at least four bytes when the first
/// one is a word.
proof fn lemma_written_fields_len(vs: Seq<Option<SpecField>>, n: int)
    requires
        vs.len() > 0,
        vs[0] matches Some(SpecField::Unsigned(_)),
        n == 4,
    ensures
        written_fields(vs).len() >= n,
    decreases vs.len(),
{
    if vs.len() == 1 {
        assert(written_fields(vs.drop_last()).len() == 0);
    } else {
        lemma_written_fields_len(vs.drop_last(), n);
    }
}

} // verus!
