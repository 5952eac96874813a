//! JSON rendering of loot tables.
//!
//! Every object lists its fields in the order the datapack format documents
//! them; optional fields are left out when unset, and list fields of entries,
//! pools and tables are left out when empty.

use vstd::prelude::*;

use super::{
    EnchantmentSelector, LootCondition, LootEntry, LootFunction, LootPool, LootPoolView,
    LootTableType, LootTableView, LootText, NumberProvider, spec_selector_text, spec_type_str,
};
use crate::float::F64Bits;
use crate::json::{
    Json, JsonValue, append_object_entries, clone_entries, lemma_view_entries_empty,
    lemma_view_values_empty, push_entry, push_opt, push_opt_entry, push_value, spec_object_entries,
    spec_string_array, string_array, view_entries, view_json, view_values,
};
use crate::text::owned;

verus! {

/// A JSON string.
pub open spec fn jstr(s: Seq<char>) -> Json {
    Json::Str(s)
}

/// The JSON of a number provider: a bare number for a constant, else an
/// object tagged with its `type`.
pub open spec fn spec_number_json(n: NumberProvider) -> Json {
    match n {
        NumberProvider::Constant(v) => Json::Float(v.bits),
        NumberProvider::Uniform { min, max } => Json::Object(
            seq![
                ("type"@, jstr("minecraft:uniform"@)),
                ("min"@, Json::Float(min.bits)),
                ("max"@, Json::Float(max.bits)),
            ],
        ),
        NumberProvider::Binomial { n, p } => Json::Object(
            seq![
                ("type"@, jstr("minecraft:binomial"@)),
                ("n"@, Json::Int(n as int)),
                ("p"@, Json::Float(p.bits)),
            ],
        ),
        NumberProvider::Score { target, score, scale } => Json::Object(
            push_opt(
                seq![
                    ("type"@, jstr("minecraft:score"@)),
                    ("target"@, view_json(target)),
                    ("score"@, jstr(score@)),
                ],
                "scale"@,
                match scale {
                    Some(s) => Some(Json::Float(s.bits)),
                    None => None,
                },
            ),
        ),
    }
}

/// A JSON array of numbers.
pub open spec fn spec_floats_json(s: Seq<F64Bits>) -> Json {
    Json::Array(s.map_values(|f: F64Bits| Json::Float(f.bits)))
}

/// The `properties` object of a block state condition.
pub open spec fn spec_properties_json(s: Seq<(String, String)>) -> Json {
    Json::Object(s.map_values(|p: (String, String)| (p.0@, Json::Str(p.1@))))
}

/// `{"condition": id}` followed by the given fields.
pub open spec fn condition_obj(id: Seq<char>, rest: Seq<(Seq<char>, Json)>) -> Json {
    Json::Object(seq![("condition"@, jstr(id))] + rest)
}

/// The JSON of a condition.
pub open spec fn spec_condition_json(c: LootCondition) -> Json
    decreases c,
{
    match c {
        LootCondition::AllOf { terms } => condition_obj(
            "minecraft:all_of"@,
            seq![("terms"@, Json::Array(spec_conditions_json(terms@)))],
        ),
        LootCondition::AnyOf { terms } => condition_obj(
            "minecraft:any_of"@,
            seq![("terms"@, Json::Array(spec_conditions_json(terms@)))],
        ),
        LootCondition::Inverted { term } => condition_obj(
            "minecraft:inverted"@,
            seq![("term"@, spec_condition_json(*term))],
        ),
        LootCondition::RandomChance { chance } => condition_obj(
            "minecraft:random_chance"@,
            seq![("chance"@, Json::Float(chance.bits))],
        ),
        LootCondition::KilledByPlayer => condition_obj("minecraft:killed_by_player"@, seq![]),
        LootCondition::EntityProperties { entity, predicate } => condition_obj(
            "minecraft:entity_properties"@,
            seq![("entity"@, jstr(entity@)), ("predicate"@, view_json(predicate))],
        ),
        LootCondition::EntityScores { entity, scores } => condition_obj(
            "minecraft:entity_scores"@,
            seq![("entity"@, jstr(entity@)), ("scores"@, Json::Object(view_entries(scores@)))],
        ),
        LootCondition::MatchTool { predicate } => condition_obj(
            "minecraft:match_tool"@,
            seq![("predicate"@, view_json(predicate))],
        ),
        LootCondition::SurvivesExplosion => condition_obj(
            "minecraft:survives_explosion"@,
            seq![],
        ),
        LootCondition::TableBonus { enchantment, chances } => condition_obj(
            "minecraft:table_bonus"@,
            seq![("enchantment"@, jstr(enchantment@)), ("chances"@, spec_floats_json(chances@))],
        ),
        LootCondition::TimeCheck { value, period } => condition_obj(
            "minecraft:time_check"@,
            push_opt(
                seq![("value"@, view_json(value))],
                "period"@,
                match period {
                    Some(p) => Some(Json::Int(p as int)),
                    None => None,
                },
            ),
        ),
        LootCondition::WeatherCheck { raining, thundering } => condition_obj(
            "minecraft:weather_check"@,
            push_opt(
                push_opt(
                    seq![],
                    "raining"@,
                    match raining {
                        Some(b) => Some(Json::Bool(b)),
                        None => None,
                    },
                ),
                "thundering"@,
                match thundering {
                    Some(b) => Some(Json::Bool(b)),
                    None => None,
                },
            ),
        ),
        LootCondition::BlockStateProperty { block, properties } => condition_obj(
            "minecraft:block_state_property"@,
            seq![("block"@, jstr(block@)), ("properties"@, spec_properties_json(properties@))],
        ),
        LootCondition::Reference { name } => condition_obj(
            "minecraft:reference"@,
            seq![("name"@, jstr(name@))],
        ),
        LootCondition::Custom { condition, data } => condition_obj(
            condition@,
            spec_object_entries(data.view()),
        ),
    }
}

/// The JSON of each condition, in order.
pub open spec fn spec_conditions_json(s: Seq<LootCondition>) -> Seq<Json>
    decreases s,
{
    if s.len() == 0 {
        Seq::empty()
    } else {
        spec_conditions_json(s.drop_last()).push(spec_condition_json(s.last()))
    }
}

/// The JSON of an enchantment selector: its written form.
pub open spec fn spec_selector_json(o: EnchantmentSelector) -> Json {
    jstr(spec_selector_text(o))
}

/// The JSON of loot text: `{"text": ..}` for a literal, the raw value otherwise.
pub open spec fn spec_text_json(t: LootText) -> Json {
    match t {
        LootText::Literal(s) => Json::Object(seq![("text"@, jstr(s@))]),
        LootText::Raw(r) => r.view(),
    }
}

/// `{"function": id}` followed by the given fields.
pub open spec fn function_obj(id: Seq<char>, rest: Seq<(Seq<char>, Json)>) -> Json {
    Json::Object(seq![("function"@, jstr(id))] + rest)
}

/// An optional string field.
pub open spec fn opt_str(o: Option<String>) -> Option<Json> {
    match o {
        Some(s) => Some(jstr(s@)),
        None => None,
    }
}

/// An optional integer field.
pub open spec fn opt_int(o: Option<i32>) -> Option<Json> {
    match o {
        Some(n) => Some(Json::Int(n as int)),
        None => None,
    }
}

/// A list field that is left out when empty.
pub open spec fn opt_list(s: Seq<Json>) -> Option<Json> {
    if s.len() == 0 {
        None
    } else {
        Some(Json::Array(s))
    }
}

/// The JSON of a loot function.
pub open spec fn spec_function_json(f: LootFunction) -> Json {
    match f {
        LootFunction::SetCount { count, add } => function_obj(
            "minecraft:set_count"@,
            seq![("count"@, spec_number_json(count)), ("add"@, Json::Bool(add))],
        ),
        LootFunction::SetDamage { damage, add } => function_obj(
            "minecraft:set_damage"@,
            seq![("damage"@, spec_number_json(damage)), ("add"@, Json::Bool(add))],
        ),
        LootFunction::EnchantWithLevels { levels, options } => function_obj(
            "minecraft:enchant_with_levels"@,
            push_opt(
                seq![("levels"@, spec_number_json(levels))],
                "options"@,
                match options {
                    Some(o) => Some(spec_selector_json(o)),
                    None => None,
                },
            ),
        ),
        LootFunction::EnchantRandomly { options, only_compatible } => function_obj(
            "minecraft:enchant_randomly"@,
            push_opt(
                seq![],
                "options"@,
                match options {
                    Some(o) => Some(
                        Json::Array(o@.map_values(|x: EnchantmentSelector| spec_selector_json(x))),
                    ),
                    None => None,
                },
            ).push(("only_compatible"@, Json::Bool(only_compatible))),
        ),
        LootFunction::SetName { name, entity } => function_obj(
            "minecraft:set_name"@,
            push_opt(seq![("name"@, spec_text_json(name))], "entity"@, opt_str(entity)),
        ),
        LootFunction::SetLore { lore, entity } => function_obj(
            "minecraft:set_lore"@,
            push_opt(
                seq![("lore"@, Json::Array(lore@.map_values(|t: LootText| spec_text_json(t))))],
                "entity"@,
                opt_str(entity),
            ),
        ),
        LootFunction::LootingEnchant { count, limit } => function_obj(
            "minecraft:looting_enchant"@,
            push_opt(seq![("count"@, spec_number_json(count))], "limit"@, opt_int(limit)),
        ),
        LootFunction::ExplosionDecay => function_obj("minecraft:explosion_decay"@, seq![]),
        LootFunction::FurnaceSmelt => function_obj("minecraft:furnace_smelt"@, seq![]),
        LootFunction::FillPlayerHead { entity } => function_obj(
            "minecraft:fill_player_head"@,
            seq![("entity"@, jstr(entity@))],
        ),
        LootFunction::CopyComponents { source, included, excluded } => function_obj(
            "minecraft:copy_components"@,
            push_opt(
                push_opt(
                    seq![("source"@, jstr(source@))],
                    "include"@,
                    if included@.len() == 0 {
                        None
                    } else {
                        Some(spec_string_array(included@.map_values(|s: String| s@)))
                    },
                ),
                "exclude"@,
                if excluded@.len() == 0 {
                    None
                } else {
                    Some(spec_string_array(excluded@.map_values(|s: String| s@)))
                },
            ),
        ),
        LootFunction::Reference { name } => function_obj(
            "minecraft:reference"@,
            seq![("name"@, jstr(name@))],
        ),
        LootFunction::Custom { function, data } => function_obj(
            function@,
            spec_object_entries(data.view()),
        ),
    }
}

/// The JSON of each loot function, in order.
pub open spec fn spec_functions_json(s: Seq<LootFunction>) -> Seq<Json> {
    s.map_values(|f: LootFunction| spec_function_json(f))
}

/// The fields shared by weighted entries: weight, quality, then the
/// non-empty function and condition lists.
pub open spec fn entry_tail_json(
    head: Seq<(Seq<char>, Json)>,
    weight: Option<i32>,
    quality: Option<i32>,
    functions: Seq<LootFunction>,
    conditions: Seq<LootCondition>,
) -> Seq<(Seq<char>, Json)> {
    push_opt(
        push_opt(
            push_opt(push_opt(head, "weight"@, opt_int(weight)), "quality"@, opt_int(quality)),
            "functions"@,
            opt_list(spec_functions_json(functions)),
        ),
        "conditions"@,
        opt_list(spec_conditions_json(conditions)),
    )
}

/// The JSON of a loot entry.
pub open spec fn spec_entry_json(e: LootEntry) -> Json
    decreases e,
{
    match e {
        LootEntry::Item { name, weight, quality, functions, conditions } => Json::Object(
            entry_tail_json(
                seq![("type"@, jstr("minecraft:item"@)), ("name"@, jstr(name@))],
                weight,
                quality,
                functions@,
                conditions@,
            ),
        ),
        LootEntry::Tag { name, expand, weight, quality, conditions } => Json::Object(
            entry_tail_json(
                push_opt(
                    seq![("type"@, jstr("minecraft:tag"@)), ("name"@, jstr(name@))],
                    "expand"@,
                    match expand {
                        Some(b) => Some(Json::Bool(b)),
                        None => None,
                    },
                ),
                weight,
                quality,
                seq![],
                conditions@,
            ),
        ),
        LootEntry::LootTable { value, weight, quality, conditions } => Json::Object(
            entry_tail_json(
                seq![("type"@, jstr("minecraft:loot_table"@)), ("value"@, jstr(value@))],
                weight,
                quality,
                seq![],
                conditions@,
            ),
        ),
        LootEntry::Group { children, conditions } => Json::Object(
            entry_tail_json(
                seq![
                    ("type"@, jstr("minecraft:group"@)),
                    ("children"@, Json::Array(spec_entries_json(children@))),
                ],
                None,
                None,
                seq![],
                conditions@,
            ),
        ),
        LootEntry::Alternatives { children, conditions } => Json::Object(
            entry_tail_json(
                seq![
                    ("type"@, jstr("minecraft:alternatives"@)),
                    ("children"@, Json::Array(spec_entries_json(children@))),
                ],
                None,
                None,
                seq![],
                conditions@,
            ),
        ),
        LootEntry::Sequence { children, conditions } => Json::Object(
            entry_tail_json(
                seq![
                    ("type"@, jstr("minecraft:sequence"@)),
                    ("children"@, Json::Array(spec_entries_json(children@))),
                ],
                None,
                None,
                seq![],
                conditions@,
            ),
        ),
        LootEntry::Dynamic { name, conditions } => Json::Object(
            entry_tail_json(
                seq![("type"@, jstr("minecraft:dynamic"@)), ("name"@, jstr(name@))],
                None,
                None,
                seq![],
                conditions@,
            ),
        ),
        LootEntry::Empty { weight, quality, conditions } => Json::Object(
            entry_tail_json(
                seq![("type"@, jstr("minecraft:empty"@))],
                weight,
                quality,
                seq![],
                conditions@,
            ),
        ),
    }
}

/// The JSON of each loot entry, in order.
pub open spec fn spec_entries_json(s: Seq<LootEntry>) -> Seq<Json>
    decreases s,
{
    if s.len() == 0 {
        Seq::empty()
    } else {
        spec_entries_json(s.drop_last()).push(spec_entry_json(s.last()))
    }
}

/// The JSON of a pool: rolls, bonus rolls, entries, then the non-empty
/// condition and function lists.
pub open spec fn spec_pool_json(p: LootPoolView) -> Json {
    Json::Object(
        push_opt(
            push_opt(
                push_opt(
                    seq![("rolls"@, spec_number_json(p.rolls))],
                    "bonus_rolls"@,
                    match p.bonus_rolls {
                        Some(b) => Some(spec_number_json(b)),
                        None => None,
                    },
                ).push(("entries"@, Json::Array(spec_entries_json(p.entries)))),
                "conditions"@,
                opt_list(spec_conditions_json(p.conditions)),
            ),
            "functions"@,
            opt_list(spec_functions_json(p.functions)),
        ),
    )
}

/// The JSON of a loot table: type, random sequence, then the non-empty pool,
/// function and condition lists.
pub open spec fn spec_table_json(t: LootTableView) -> Json {
    let with_type = push_opt(
        seq![],
        "type"@,
        match t.loot_type {
            Some(k) => Some(jstr(spec_type_str(k))),
            None => None,
        },
    );
    let with_sequence = push_opt(
        with_type,
        "random_sequence"@,
        match t.random_sequence {
            Some(s) => Some(jstr(s)),
            None => None,
        },
    );
    let with_pools = push_opt(
        with_sequence,
        "pools"@,
        opt_list(t.pools.map_values(|p: LootPool| spec_pool_json(p@))),
    );
    let with_functions = push_opt(
        with_pools,
        "functions"@,
        opt_list(spec_functions_json(t.functions)),
    );
    Json::Object(push_opt(with_functions, "conditions"@, opt_list(spec_conditions_json(t.conditions))))
}


/// The JSON of each condition keeps the length of the list.
pub proof fn lemma_conditions_json_len(s: Seq<LootCondition>)
    ensures
        spec_conditions_json(s).len() == s.len(),
    decreases s.len(),
{
    if s.len() > 0 {
        lemma_conditions_json_len(s.drop_last());
    }
}

/// The JSON of each entry keeps the length of the list.
pub proof fn lemma_entries_json_len(s: Seq<LootEntry>)
    ensures
        spec_entries_json(s).len() == s.len(),
    decreases s.len(),
{
    if s.len() > 0 {
        lemma_entries_json_len(s.drop_last());
    }
}

/// A new object holding `key: v`.
fn obj1(key: &str, v: JsonValue) -> (r: Vec<(String, JsonValue)>)
    ensures
        view_entries(r@) == seq![(key@, view_json(v))],
{
    let mut m: Vec<(String, JsonValue)> = Vec::new();
    proof {
        lemma_view_entries_empty();
    }
    push_entry(&mut m, key, v);
    m
}

impl NumberProvider {
    /// The JSON of this number provider.
    pub fn to_json(&self) -> (r: JsonValue)
        ensures
            view_json(r) == spec_number_json(*self),
    {
        match self {
            NumberProvider::Constant(v) => JsonValue::Float(*v),
            NumberProvider::Uniform { min, max } => {
                let mut m = obj1("type", JsonValue::string("minecraft:uniform"));
                push_entry(&mut m, "min", JsonValue::Float(*min));
                push_entry(&mut m, "max", JsonValue::Float(*max));
                assert(view_entries(m@) =~= seq![
                    ("type"@, jstr("minecraft:uniform"@)),
                    ("min"@, Json::Float(min.bits)),
                    ("max"@, Json::Float(max.bits)),
                ]);
                JsonValue::Object(m)
            },
            NumberProvider::Binomial { n, p } => {
                let mut m = obj1("type", JsonValue::string("minecraft:binomial"));
                push_entry(&mut m, "n", JsonValue::Int(*n as i64));
                push_entry(&mut m, "p", JsonValue::Float(*p));
                assert(view_entries(m@) =~= seq![
                    ("type"@, jstr("minecraft:binomial"@)),
                    ("n"@, Json::Int(*n as int)),
                    ("p"@, Json::Float(p.bits)),
                ]);
                JsonValue::Object(m)
            },
            NumberProvider::Score { target, score, scale } => {
                let mut m = obj1("type", JsonValue::string("minecraft:score"));
                push_entry(&mut m, "target", target.deep_clone());
                push_entry(&mut m, "score", JsonValue::Str(score.clone()));
                assert(view_entries(m@) =~= seq![
                    ("type"@, jstr("minecraft:score"@)),
                    ("target"@, view_json(*target)),
                    ("score"@, jstr(score@)),
                ]);
                let s = match scale {
                    Some(f) => Some(JsonValue::Float(*f)),
                    None => None,
                };
                push_opt_entry(&mut m, "scale", s);
                JsonValue::Object(m)
            },
        }
    }
}

/// A JSON array of numbers.
fn floats_json(s: &Vec<F64Bits>) -> (r: JsonValue)
    ensures
        view_json(r) == spec_floats_json(s@),
{
    let mut out: Vec<JsonValue> = Vec::new();
    let mut i: usize = 0;
    while i < s.len()
        invariant
            i <= s.len(),
            view_values(out@) == s@.subrange(0, i as int).map_values(
                |f: F64Bits| Json::Float(f.bits),
            ),
        decreases s.len() - i,
    {
        push_value(&mut out, JsonValue::Float(s[i]));
        assert(s@.subrange(0, i + 1).map_values(|f: F64Bits| Json::Float(f.bits)) =~= s@.subrange(
            0,
            i as int,
        ).map_values(|f: F64Bits| Json::Float(f.bits)).push(Json::Float(s@[i as int].bits)));
        i = i + 1;
    }
    assert(s@.subrange(0, s@.len() as int) =~= s@);
    JsonValue::Array(out)
}

/// The `properties` object of a block state condition.
fn properties_json(s: &Vec<(String, String)>) -> (r: JsonValue)
    ensures
        view_json(r) == spec_properties_json(s@),
{
    let mut out: Vec<(String, JsonValue)> = Vec::new();
    proof {
        lemma_view_entries_empty();
    }
    let mut i: usize = 0;
    while i < s.len()
        invariant
            i <= s.len(),
            view_entries(out@) == s@.subrange(0, i as int).map_values(
                |p: (String, String)| (p.0@, Json::Str(p.1@)),
            ),
        decreases s.len() - i,
    {
        push_entry(&mut out, s[i].0.as_str(), JsonValue::Str(s[i].1.clone()));
        assert(s@.subrange(0, i + 1).map_values(|p: (String, String)| (p.0@, Json::Str(p.1@)))
            =~= s@.subrange(0, i as int).map_values(
            |p: (String, String)| (p.0@, Json::Str(p.1@)),
        ).push((s@[i as int].0@, Json::Str(s@[i as int].1@))));
        i = i + 1;
    }
    assert(s@.subrange(0, s@.len() as int) =~= s@);
    JsonValue::Object(out)
}

impl LootCondition {
    /// The JSON of this condition.
    pub fn to_json(&self) -> (r: JsonValue)
        ensures
            view_json(r) == spec_condition_json(*self),
        decreases self,
    {
        match self {
            LootCondition::AllOf { terms } => {
                let mut m = obj1("condition", JsonValue::string("minecraft:all_of"));
                push_entry(&mut m, "terms", conditions_json(terms));
                assert(view_entries(m@) =~= seq![("condition"@, jstr("minecraft:all_of"@))] + seq![
                    ("terms"@, Json::Array(spec_conditions_json(terms@))),
                ]);
                JsonValue::Object(m)
            },
            LootCondition::AnyOf { terms } => {
                let mut m = obj1("condition", JsonValue::string("minecraft:any_of"));
                push_entry(&mut m, "terms", conditions_json(terms));
                assert(view_entries(m@) =~= seq![("condition"@, jstr("minecraft:any_of"@))] + seq![
                    ("terms"@, Json::Array(spec_conditions_json(terms@))),
                ]);
                JsonValue::Object(m)
            },
            LootCondition::Inverted { term } => {
                let mut m = obj1("condition", JsonValue::string("minecraft:inverted"));
                push_entry(&mut m, "term", term.to_json());
                assert(view_entries(m@) =~= seq![("condition"@, jstr("minecraft:inverted"@))] + seq![
                    ("term"@, spec_condition_json(**term)),
                ]);
                JsonValue::Object(m)
            },
            LootCondition::RandomChance { chance } => {
                let mut m = obj1("condition", JsonValue::string("minecraft:random_chance"));
                push_entry(&mut m, "chance", JsonValue::Float(*chance));
                assert(view_entries(m@) =~= seq![("condition"@, jstr("minecraft:random_chance"@))]
                    + seq![("chance"@, Json::Float(chance.bits))]);
                JsonValue::Object(m)
            },
            LootCondition::KilledByPlayer => {
                let m = obj1("condition", JsonValue::string("minecraft:killed_by_player"));
                assert(view_entries(m@) =~= seq![("condition"@, jstr("minecraft:killed_by_player"@))]
                    + Seq::<(Seq<char>, Json)>::empty());
                JsonValue::Object(m)
            },
            LootCondition::EntityProperties { entity, predicate } => {
                let mut m = obj1("condition", JsonValue::string("minecraft:entity_properties"));
                push_entry(&mut m, "entity", JsonValue::Str(entity.clone()));
                push_entry(&mut m, "predicate", predicate.deep_clone());
                assert(view_entries(m@) =~= seq![
                    ("condition"@, jstr("minecraft:entity_properties"@)),
                ] + seq![("entity"@, jstr(entity@)), ("predicate"@, view_json(*predicate))]);
                JsonValue::Object(m)
            },
            LootCondition::EntityScores { entity, scores } => {
                let mut m = obj1("condition", JsonValue::string("minecraft:entity_scores"));
                push_entry(&mut m, "entity", JsonValue::Str(entity.clone()));
                push_entry(&mut m, "scores", JsonValue::Object(clone_entries(scores)));
                assert(view_entries(m@) =~= seq![("condition"@, jstr("minecraft:entity_scores"@))]
                    + seq![
                    ("entity"@, jstr(entity@)),
                    ("scores"@, Json::Object(view_entries(scores@))),
                ]);
                JsonValue::Object(m)
            },
            LootCondition::MatchTool { predicate } => {
                let mut m = obj1("condition", JsonValue::string("minecraft:match_tool"));
                push_entry(&mut m, "predicate", predicate.deep_clone());
                assert(view_entries(m@) =~= seq![("condition"@, jstr("minecraft:match_tool"@))]
                    + seq![("predicate"@, view_json(*predicate))]);
                JsonValue::Object(m)
            },
            LootCondition::SurvivesExplosion => {
                let m = obj1("condition", JsonValue::string("minecraft:survives_explosion"));
                assert(view_entries(m@) =~= seq![
                    ("condition"@, jstr("minecraft:survives_explosion"@)),
                ] + Seq::<(Seq<char>, Json)>::empty());
                JsonValue::Object(m)
            },
            LootCondition::TableBonus { enchantment, chances } => {
                let mut m = obj1("condition", JsonValue::string("minecraft:table_bonus"));
                push_entry(&mut m, "enchantment", JsonValue::Str(enchantment.clone()));
                push_entry(&mut m, "chances", floats_json(chances));
                assert(view_entries(m@) =~= seq![("condition"@, jstr("minecraft:table_bonus"@))]
                    + seq![
                    ("enchantment"@, jstr(enchantment@)),
                    ("chances"@, spec_floats_json(chances@)),
                ]);
                JsonValue::Object(m)
            },
            LootCondition::TimeCheck { value, period } => {
                let mut m = obj1("condition", JsonValue::string("minecraft:time_check"));
                push_entry(&mut m, "value", value.deep_clone());
                let p = match period {
                    Some(n) => Some(JsonValue::Int(*n)),
                    None => None,
                };
                push_opt_entry(&mut m, "period", p);
                let ghost rest = push_opt(
                    seq![("value"@, view_json(*value))],
                    "period"@,
                    match *period {
                        Some(n) => Some(Json::Int(n as int)),
                        None => None,
                    },
                );
                assert(view_entries(m@) =~= seq![("condition"@, jstr("minecraft:time_check"@))]
                    + rest);
                JsonValue::Object(m)
            },
            LootCondition::WeatherCheck { raining, thundering } => {
                let mut m = obj1("condition", JsonValue::string("minecraft:weather_check"));
                let r = match raining {
                    Some(b) => Some(JsonValue::Bool(*b)),
                    None => None,
                };
                push_opt_entry(&mut m, "raining", r);
                let t = match thundering {
                    Some(b) => Some(JsonValue::Bool(*b)),
                    None => None,
                };
                push_opt_entry(&mut m, "thundering", t);
                let ghost rest = push_opt(
                    push_opt(
                        seq![],
                        "raining"@,
                        match *raining {
                            Some(b) => Some(Json::Bool(b)),
                            None => None,
                        },
                    ),
                    "thundering"@,
                    match *thundering {
                        Some(b) => Some(Json::Bool(b)),
                        None => None,
                    },
                );
                assert(view_entries(m@) =~= seq![("condition"@, jstr("minecraft:weather_check"@))]
                    + rest);
                JsonValue::Object(m)
            },
            LootCondition::BlockStateProperty { block, properties } => {
                let mut m = obj1("condition", JsonValue::string("minecraft:block_state_property"));
                push_entry(&mut m, "block", JsonValue::Str(block.clone()));
                push_entry(&mut m, "properties", properties_json(properties));
                assert(view_entries(m@) =~= seq![
                    ("condition"@, jstr("minecraft:block_state_property"@)),
                ] + seq![
                    ("block"@, jstr(block@)),
                    ("properties"@, spec_properties_json(properties@)),
                ]);
                JsonValue::Object(m)
            },
            LootCondition::Reference { name } => {
                let mut m = obj1("condition", JsonValue::string("minecraft:reference"));
                push_entry(&mut m, "name", JsonValue::Str(name.clone()));
                assert(view_entries(m@) =~= seq![("condition"@, jstr("minecraft:reference"@))]
                    + seq![("name"@, jstr(name@))]);
                JsonValue::Object(m)
            },
            LootCondition::Custom { condition, data } => {
                let mut m = obj1("condition", JsonValue::Str(condition.clone()));
                append_object_entries(&mut m, data.as_value());
                JsonValue::Object(m)
            },
        }
    }
}

/// A JSON array of conditions.
pub fn conditions_json(s: &Vec<LootCondition>) -> (r: JsonValue)
    ensures
        view_json(r) == Json::Array(spec_conditions_json(s@)),
    decreases s,
{
    let mut out: Vec<JsonValue> = Vec::new();
    proof {
        lemma_view_values_empty();
    }
    let mut i: usize = 0;
    assert(s@.subrange(0, 0) =~= Seq::<LootCondition>::empty());
    while i < s.len()
        invariant
            i <= s.len(),
            view_values(out@) == spec_conditions_json(s@.subrange(0, i as int)),
        decreases s.len() - i,
    {
        assert(decreases_to!(s => s@[i as int]));
        push_value(&mut out, s[i].to_json());
        assert(s@.subrange(0, i + 1).drop_last() =~= s@.subrange(0, i as int));
        i = i + 1;
    }
    assert(s@.subrange(0, s@.len() as int) =~= s@);
    JsonValue::Array(out)
}

impl EnchantmentSelector {
    /// The JSON of this selector: its written form.
    pub fn to_json(&self) -> (r: JsonValue)
        ensures
            view_json(r) == spec_selector_json(*self),
    {
        JsonValue::Str(self.to_string())
    }
}

/// A JSON array of enchantment selectors.
fn selectors_json(s: &Vec<EnchantmentSelector>) -> (r: JsonValue)
    ensures
        view_json(r) == Json::Array(s@.map_values(|x: EnchantmentSelector| spec_selector_json(x))),
{
    let mut out: Vec<JsonValue> = Vec::new();
    let mut i: usize = 0;
    while i < s.len()
        invariant
            i <= s.len(),
            view_values(out@) == s@.subrange(0, i as int).map_values(
                |x: EnchantmentSelector| spec_selector_json(x),
            ),
        decreases s.len() - i,
    {
        push_value(&mut out, s[i].to_json());
        assert(s@.subrange(0, i + 1).map_values(|x: EnchantmentSelector| spec_selector_json(x))
            =~= s@.subrange(0, i as int).map_values(
            |x: EnchantmentSelector| spec_selector_json(x),
        ).push(spec_selector_json(s@[i as int])));
        i = i + 1;
    }
    assert(s@.subrange(0, s@.len() as int) =~= s@);
    JsonValue::Array(out)
}

impl LootText {
    /// The JSON of this text.
    pub fn to_json(&self) -> (r: JsonValue)
        ensures
            view_json(r) == spec_text_json(*self),
    {
        match self {
            LootText::Literal(s) => JsonValue::Object(obj1("text", JsonValue::Str(s.clone()))),
            LootText::Raw(r) => r.as_value().deep_clone(),
        }
    }
}

/// A JSON array of loot text lines.
fn texts_json(s: &Vec<LootText>) -> (r: JsonValue)
    ensures
        view_json(r) == Json::Array(s@.map_values(|t: LootText| spec_text_json(t))),
{
    let mut out: Vec<JsonValue> = Vec::new();
    let mut i: usize = 0;
    while i < s.len()
        invariant
            i <= s.len(),
            view_values(out@) == s@.subrange(0, i as int).map_values(
                |t: LootText| spec_text_json(t),
            ),
        decreases s.len() - i,
    {
        push_value(&mut out, s[i].to_json());
        assert(s@.subrange(0, i + 1).map_values(|t: LootText| spec_text_json(t)) =~= s@.subrange(
            0,
            i as int,
        ).map_values(|t: LootText| spec_text_json(t)).push(spec_text_json(s@[i as int])));
        i = i + 1;
    }
    assert(s@.subrange(0, s@.len() as int) =~= s@);
    JsonValue::Array(out)
}


impl LootFunction {
    /// The JSON of this loot function.
    pub fn to_json(&self) -> (r: JsonValue)
        ensures
            view_json(r) == spec_function_json(*self),
    {
        match self {
            LootFunction::SetCount { count, add } => {
                let mut m = obj1("function", JsonValue::string("minecraft:set_count"));
                push_entry(&mut m, "count", count.to_json());
                push_entry(&mut m, "add", JsonValue::Bool(*add));
                assert(view_entries(m@) =~= seq![("function"@, jstr("minecraft:set_count"@))]
                    + seq![("count"@, spec_number_json(*count)), ("add"@, Json::Bool(*add))]);
                JsonValue::Object(m)
            },
            LootFunction::SetDamage { damage, add } => {
                let mut m = obj1("function", JsonValue::string("minecraft:set_damage"));
                push_entry(&mut m, "damage", damage.to_json());
                push_entry(&mut m, "add", JsonValue::Bool(*add));
                assert(view_entries(m@) =~= seq![("function"@, jstr("minecraft:set_damage"@))]
                    + seq![("damage"@, spec_number_json(*damage)), ("add"@, Json::Bool(*add))]);
                JsonValue::Object(m)
            },
            LootFunction::EnchantWithLevels { levels, options } => {
                let mut m = obj1("function", JsonValue::string("minecraft:enchant_with_levels"));
                push_entry(&mut m, "levels", levels.to_json());
                let o = match options {
                    Some(x) => Some(x.to_json()),
                    None => None,
                };
                push_opt_entry(&mut m, "options", o);
                let ghost rest = push_opt(
                    seq![("levels"@, spec_number_json(*levels))],
                    "options"@,
                    match options {
                        Some(x) => Some(spec_selector_json(*x)),
                        None => None,
                    },
                );
                assert(view_entries(m@) =~= seq![
                    ("function"@, jstr("minecraft:enchant_with_levels"@)),
                ] + rest);
                JsonValue::Object(m)
            },
            LootFunction::EnchantRandomly { options, only_compatible } => {
                let mut m = obj1("function", JsonValue::string("minecraft:enchant_randomly"));
                let o = match options {
                    Some(x) => Some(selectors_json(x)),
                    None => None,
                };
                push_opt_entry(&mut m, "options", o);
                push_entry(&mut m, "only_compatible", JsonValue::Bool(*only_compatible));
                let ghost rest = push_opt(
                    seq![],
                    "options"@,
                    match options {
                        Some(x) => Some(
                            Json::Array(
                                x@.map_values(|y: EnchantmentSelector| spec_selector_json(y)),
                            ),
                        ),
                        None => None,
                    },
                ).push(("only_compatible"@, Json::Bool(*only_compatible)));
                assert(view_entries(m@) =~= seq![
                    ("function"@, jstr("minecraft:enchant_randomly"@)),
                ] + rest);
                JsonValue::Object(m)
            },
            LootFunction::SetName { name, entity } => {
                let mut m = obj1("function", JsonValue::string("minecraft:set_name"));
                push_entry(&mut m, "name", name.to_json());
                let e = match entity {
                    Some(x) => Some(JsonValue::Str(x.clone())),
                    None => None,
                };
                push_opt_entry(&mut m, "entity", e);
                let ghost rest = push_opt(
                    seq![("name"@, spec_text_json(*name))],
                    "entity"@,
                    opt_str(*entity),
                );
                assert(view_entries(m@) =~= seq![("function"@, jstr("minecraft:set_name"@))]
                    + rest);
                JsonValue::Object(m)
            },
            LootFunction::SetLore { lore, entity } => {
                let mut m = obj1("function", JsonValue::string("minecraft:set_lore"));
                push_entry(&mut m, "lore", texts_json(lore));
                let e = match entity {
                    Some(x) => Some(JsonValue::Str(x.clone())),
                    None => None,
                };
                push_opt_entry(&mut m, "entity", e);
                let ghost rest = push_opt(
                    seq![("lore"@, Json::Array(lore@.map_values(|t: LootText| spec_text_json(t))))],
                    "entity"@,
                    opt_str(*entity),
                );
                assert(view_entries(m@) =~= seq![("function"@, jstr("minecraft:set_lore"@))]
                    + rest);
                JsonValue::Object(m)
            },
            LootFunction::LootingEnchant { count, limit } => {
                let mut m = obj1("function", JsonValue::string("minecraft:looting_enchant"));
                push_entry(&mut m, "count", count.to_json());
                let l = match limit {
                    Some(n) => Some(JsonValue::Int(*n as i64)),
                    None => None,
                };
                push_opt_entry(&mut m, "limit", l);
                let ghost rest = push_opt(
                    seq![("count"@, spec_number_json(*count))],
                    "limit"@,
                    opt_int(*limit),
                );
                assert(view_entries(m@) =~= seq![("function"@, jstr("minecraft:looting_enchant"@))]
                    + rest);
                JsonValue::Object(m)
            },
            LootFunction::ExplosionDecay => {
                let m = obj1("function", JsonValue::string("minecraft:explosion_decay"));
                assert(view_entries(m@) =~= seq![("function"@, jstr("minecraft:explosion_decay"@))]
                    + Seq::<(Seq<char>, Json)>::empty());
                JsonValue::Object(m)
            },
            LootFunction::FurnaceSmelt => {
                let m = obj1("function", JsonValue::string("minecraft:furnace_smelt"));
                assert(view_entries(m@) =~= seq![("function"@, jstr("minecraft:furnace_smelt"@))]
                    + Seq::<(Seq<char>, Json)>::empty());
                JsonValue::Object(m)
            },
            LootFunction::FillPlayerHead { entity } => {
                let mut m = obj1("function", JsonValue::string("minecraft:fill_player_head"));
                push_entry(&mut m, "entity", JsonValue::Str(entity.clone()));
                assert(view_entries(m@) =~= seq![
                    ("function"@, jstr("minecraft:fill_player_head"@)),
                ] + seq![("entity"@, jstr(entity@))]);
                JsonValue::Object(m)
            },
            LootFunction::CopyComponents { source, included, excluded } => {
                let mut m = obj1("function", JsonValue::string("minecraft:copy_components"));
                push_entry(&mut m, "source", JsonValue::Str(source.clone()));
                let inc = if included.len() == 0 {
                    None
                } else {
                    Some(string_array(included))
                };
                push_opt_entry(&mut m, "include", inc);
                let exc = if excluded.len() == 0 {
                    None
                } else {
                    Some(string_array(excluded))
                };
                push_opt_entry(&mut m, "exclude", exc);
                let ghost rest = push_opt(
                    push_opt(
                        seq![("source"@, jstr(source@))],
                        "include"@,
                        if included@.len() == 0 {
                            None
                        } else {
                            Some(spec_string_array(included@.map_values(|s: String| s@)))
                        },
                    ),
                    "exclude"@,
                    if excluded@.len() == 0 {
                        None
                    } else {
                        Some(spec_string_array(excluded@.map_values(|s: String| s@)))
                    },
                );
                assert(view_entries(m@) =~= seq![
                    ("function"@, jstr("minecraft:copy_components"@)),
                ] + rest);
                JsonValue::Object(m)
            },
            LootFunction::Reference { name } => {
                let mut m = obj1("function", JsonValue::string("minecraft:reference"));
                push_entry(&mut m, "name", JsonValue::Str(name.clone()));
                assert(view_entries(m@) =~= seq![("function"@, jstr("minecraft:reference"@))]
                    + seq![("name"@, jstr(name@))]);
                JsonValue::Object(m)
            },
            LootFunction::Custom { function, data } => {
                let mut m = obj1("function", JsonValue::Str(function.clone()));
                append_object_entries(&mut m, data.as_value());
                JsonValue::Object(m)
            },
        }
    }
}

/// A JSON array of loot functions.
pub fn functions_json(s: &Vec<LootFunction>) -> (r: JsonValue)
    ensures
        view_json(r) == Json::Array(spec_functions_json(s@)),
{
    let mut out: Vec<JsonValue> = Vec::new();
    let mut i: usize = 0;
    while i < s.len()
        invariant
            i <= s.len(),
            view_values(out@) == s@.subrange(0, i as int).map_values(
                |f: LootFunction| spec_function_json(f),
            ),
        decreases s.len() - i,
    {
        push_value(&mut out, s[i].to_json());
        assert(s@.subrange(0, i + 1).map_values(|f: LootFunction| spec_function_json(f))
            =~= s@.subrange(0, i as int).map_values(|f: LootFunction| spec_function_json(f)).push(
            spec_function_json(s@[i as int]),
        ));
        i = i + 1;
    }
    assert(s@.subrange(0, s@.len() as int) =~= s@);
    JsonValue::Array(out)
}

/// Appends weight, quality, and the non-empty function and condition lists.
fn push_entry_tail(
    m: &mut Vec<(String, JsonValue)>,
    weight: Option<i32>,
    quality: Option<i32>,
    functions: Option<&Vec<LootFunction>>,
    conditions: &Vec<LootCondition>,
)
    ensures
        view_entries(final(m)@) == entry_tail_json(
            view_entries(old(m)@),
            weight,
            quality,
            match functions {
                Some(f) => f@,
                None => Seq::empty(),
            },
            conditions@,
        ),
{
    let w = match weight {
        Some(n) => Some(JsonValue::Int(n as i64)),
        None => None,
    };
    push_opt_entry(m, "weight", w);
    let q = match quality {
        Some(n) => Some(JsonValue::Int(n as i64)),
        None => None,
    };
    push_opt_entry(m, "quality", q);
    let fs = match functions {
        Some(f) => if f.len() == 0 {
            None
        } else {
            Some(functions_json(f))
        },
        None => None,
    };
    push_opt_entry(m, "functions", fs);
    proof {
        lemma_conditions_json_len(conditions@);
    }
    let cs = if conditions.len() == 0 {
        None
    } else {
        Some(conditions_json(conditions))
    };
    push_opt_entry(m, "conditions", cs);
}

impl LootEntry {
    /// The JSON of this loot entry.
    pub fn to_json(&self) -> (r: JsonValue)
        ensures
            view_json(r) == spec_entry_json(*self),
        decreases self,
    {
        match self {
            LootEntry::Item { name, weight, quality, functions, conditions } => {
                let mut m = obj1("type", JsonValue::string("minecraft:item"));
                push_entry(&mut m, "name", JsonValue::Str(name.clone()));
                assert(view_entries(m@) =~= seq![
                    ("type"@, jstr("minecraft:item"@)),
                    ("name"@, jstr(name@)),
                ]);
                push_entry_tail(&mut m, *weight, *quality, Some(functions), conditions);
                JsonValue::Object(m)
            },
            LootEntry::Tag { name, expand, weight, quality, conditions } => {
                let mut m = obj1("type", JsonValue::string("minecraft:tag"));
                push_entry(&mut m, "name", JsonValue::Str(name.clone()));
                let e = match expand {
                    Some(b) => Some(JsonValue::Bool(*b)),
                    None => None,
                };
                assert(view_entries(m@) =~= seq![
                    ("type"@, jstr("minecraft:tag"@)),
                    ("name"@, jstr(name@)),
                ]);
                push_opt_entry(&mut m, "expand", e);
                push_entry_tail(&mut m, *weight, *quality, None, conditions);
                JsonValue::Object(m)
            },
            LootEntry::LootTable { value, weight, quality, conditions } => {
                let mut m = obj1("type", JsonValue::string("minecraft:loot_table"));
                push_entry(&mut m, "value", JsonValue::Str(value.clone()));
                assert(view_entries(m@) =~= seq![
                    ("type"@, jstr("minecraft:loot_table"@)),
                    ("value"@, jstr(value@)),
                ]);
                push_entry_tail(&mut m, *weight, *quality, None, conditions);
                JsonValue::Object(m)
            },
            LootEntry::Group { children, conditions } => {
                let mut m = obj1("type", JsonValue::string("minecraft:group"));
                push_entry(&mut m, "children", entries_json(children));
                assert(view_entries(m@) =~= seq![
                    ("type"@, jstr("minecraft:group"@)),
                    ("children"@, Json::Array(spec_entries_json(children@))),
                ]);
                push_entry_tail(&mut m, None, None, None, conditions);
                JsonValue::Object(m)
            },
            LootEntry::Alternatives { children, conditions } => {
                let mut m = obj1("type", JsonValue::string("minecraft:alternatives"));
                push_entry(&mut m, "children", entries_json(children));
                assert(view_entries(m@) =~= seq![
                    ("type"@, jstr("minecraft:alternatives"@)),
                    ("children"@, Json::Array(spec_entries_json(children@))),
                ]);
                push_entry_tail(&mut m, None, None, None, conditions);
                JsonValue::Object(m)
            },
            LootEntry::Sequence { children, conditions } => {
                let mut m = obj1("type", JsonValue::string("minecraft:sequence"));
                push_entry(&mut m, "children", entries_json(children));
                assert(view_entries(m@) =~= seq![
                    ("type"@, jstr("minecraft:sequence"@)),
                    ("children"@, Json::Array(spec_entries_json(children@))),
                ]);
                push_entry_tail(&mut m, None, None, None, conditions);
                JsonValue::Object(m)
            },
            LootEntry::Dynamic { name, conditions } => {
                let mut m = obj1("type", JsonValue::string("minecraft:dynamic"));
                push_entry(&mut m, "name", JsonValue::Str(name.clone()));
                assert(view_entries(m@) =~= seq![
                    ("type"@, jstr("minecraft:dynamic"@)),
                    ("name"@, jstr(name@)),
                ]);
                push_entry_tail(&mut m, None, None, None, conditions);
                JsonValue::Object(m)
            },
            LootEntry::Empty { weight, quality, conditions } => {
                let mut m = obj1("type", JsonValue::string("minecraft:empty"));
                assert(view_entries(m@) =~= seq![("type"@, jstr("minecraft:empty"@))]);
                push_entry_tail(&mut m, *weight, *quality, None, conditions);
                JsonValue::Object(m)
            },
        }
    }
}

/// A JSON array of loot entries.
pub fn entries_json(s: &Vec<LootEntry>) -> (r: JsonValue)
    ensures
        view_json(r) == Json::Array(spec_entries_json(s@)),
    decreases s,
{
    let mut out: Vec<JsonValue> = Vec::new();
    proof {
        lemma_view_values_empty();
    }
    let mut i: usize = 0;
    assert(s@.subrange(0, 0) =~= Seq::<LootEntry>::empty());
    while i < s.len()
        invariant
            i <= s.len(),
            view_values(out@) == spec_entries_json(s@.subrange(0, i as int)),
        decreases s.len() - i,
    {
        assert(decreases_to!(s => s@[i as int]));
        push_value(&mut out, s[i].to_json());
        assert(s@.subrange(0, i + 1).drop_last() =~= s@.subrange(0, i as int));
        i = i + 1;
    }
    assert(s@.subrange(0, s@.len() as int) =~= s@);
    JsonValue::Array(out)
}

} // verus!

verus! {

/// The keys of an object's entries, in order.
pub open spec fn spec_keys(es: Seq<(Seq<char>, Json)>) -> Seq<Seq<char>> {
    es.map_values(|p: (Seq<char>, Json)| p.0)
}

/// `k` when `present`, else nothing.
pub open spec fn opt_key(k: Seq<char>, present: bool) -> Seq<Seq<char>> {
    if present {
        seq![k]
    } else {
        Seq::empty()
    }
}

/// The keys that `push_opt` leaves.
proof fn lemma_push_opt_keys(es: Seq<(Seq<char>, Json)>, key: Seq<char>, o: Option<Json>)
    ensures
        spec_keys(push_opt(es, key, o)) == spec_keys(es) + opt_key(key, o is Some),
        push_opt(es, key, o).len() >= es.len(),
        forall|i: int| 0 <= i < es.len() ==> push_opt(es, key, o)[i] == es[i],
{
    assert(spec_keys(push_opt(es, key, o)) =~= spec_keys(es) + opt_key(key, o is Some));
}

/// A constant number provider is written as a bare number; a uniform or
/// binomial one as an object of `type` and its two parameters; a score as an
/// object of `type`, `target` and `score`, with `scale` exactly when a scale
/// is set.
pub proof fn law_number_json(n: NumberProvider)
    ensures
        n matches NumberProvider::Constant(v) ==> spec_number_json(n) == Json::Float(v.bits),
        n matches NumberProvider::Uniform { min, max } ==> spec_number_json(n) == Json::Object(
            seq![
                ("type"@, Json::Str("minecraft:uniform"@)),
                ("min"@, Json::Float(min.bits)),
                ("max"@, Json::Float(max.bits)),
            ],
        ),
        n matches NumberProvider::Binomial { n: trials, p } ==> spec_number_json(n) == Json::Object(
            seq![
                ("type"@, Json::Str("minecraft:binomial"@)),
                ("n"@, Json::Int(trials as int)),
                ("p"@, Json::Float(p.bits)),
            ],
        ),
        n matches NumberProvider::Score { target, score, scale } ==> {
            let es = spec_object_entries(spec_number_json(n));
            &&& spec_number_json(n) is Object
            &&& spec_keys(es) == seq!["type"@, "target"@, "score"@] + opt_key("scale"@, scale is Some)
            &&& es[0].1 == Json::Str("minecraft:score"@)
            &&& es[1].1 == view_json(target)
            &&& es[2].1 == Json::Str(score@)
            &&& (scale matches Some(s) ==> es[3].1 == Json::Float(s.bits))
        },
{
    if let NumberProvider::Score { target, score, scale } = n {
        let head = seq![
            ("type"@, jstr("minecraft:score"@)),
            ("target"@, view_json(target)),
            ("score"@, jstr(score@)),
        ];
        let o = match scale {
            Some(s) => Some(Json::Float(s.bits)),
            None => None,
        };
        lemma_push_opt_keys(head, "scale"@, o);
        assert(spec_keys(head) =~= seq!["type"@, "target"@, "score"@]);
    }
}

/// The JSON type written for a loot entry.
pub open spec fn spec_entry_type(e: LootEntry) -> Seq<char> {
    match e {
        LootEntry::Item { .. } => "minecraft:item"@,
        LootEntry::Tag { .. } => "minecraft:tag"@,
        LootEntry::LootTable { .. } => "minecraft:loot_table"@,
        LootEntry::Group { .. } => "minecraft:group"@,
        LootEntry::Alternatives { .. } => "minecraft:alternatives"@,
        LootEntry::Sequence { .. } => "minecraft:sequence"@,
        LootEntry::Dynamic { .. } => "minecraft:dynamic"@,
        LootEntry::Empty { .. } => "minecraft:empty"@,
    }
}

/// The keys written for a loot entry, in order: `type`; the entry's name
/// (`name`, `value` or `children`); `expand`, `weight` and `quality` when
/// set; `functions` and `conditions` when not empty.
pub open spec fn spec_entry_keys(e: LootEntry) -> Seq<Seq<char>> {
    match e {
        LootEntry::Item { weight, quality, functions, conditions, .. } => seq!["type"@, "name"@]
            + opt_key("weight"@, weight is Some) + opt_key("quality"@, quality is Some) + opt_key(
            "functions"@,
            functions@.len() > 0,
        ) + opt_key("conditions"@, conditions@.len() > 0),
        LootEntry::Tag { expand, weight, quality, conditions, .. } => seq!["type"@, "name"@]
            + opt_key("expand"@, expand is Some) + opt_key("weight"@, weight is Some) + opt_key(
            "quality"@,
            quality is Some,
        ) + opt_key("conditions"@, conditions@.len() > 0),
        LootEntry::LootTable { weight, quality, conditions, .. } => seq!["type"@, "value"@]
            + opt_key("weight"@, weight is Some) + opt_key("quality"@, quality is Some) + opt_key(
            "conditions"@,
            conditions@.len() > 0,
        ),
        LootEntry::Group { conditions, .. } => seq!["type"@, "children"@] + opt_key(
            "conditions"@,
            conditions@.len() > 0,
        ),
        LootEntry::Alternatives { conditions, .. } => seq!["type"@, "children"@] + opt_key(
            "conditions"@,
            conditions@.len() > 0,
        ),
        LootEntry::Sequence { conditions, .. } => seq!["type"@, "children"@] + opt_key(
            "conditions"@,
            conditions@.len() > 0,
        ),
        LootEntry::Dynamic { conditions, .. } => seq!["type"@, "name"@] + opt_key(
            "conditions"@,
            conditions@.len() > 0,
        ),
        LootEntry::Empty { weight, quality, conditions } => seq!["type"@] + opt_key(
            "weight"@,
            weight is Some,
        ) + opt_key("quality"@, quality is Some) + opt_key("conditions"@, conditions@.len() > 0),
    }
}

/// The JSON of each of `s`, one per entry and in order.
pub proof fn lemma_entries_json_index(s: Seq<LootEntry>)
    ensures
        spec_entries_json(s).len() == s.len(),
        forall|i: int| 0 <= i < s.len() ==> #[trigger] spec_entries_json(s)[i] == spec_entry_json(s[i]),
    decreases s.len(),
{
    if s.len() > 0 {
        lemma_entries_json_index(s.drop_last());
        assert forall|i: int| 0 <= i < s.len() implies #[trigger] spec_entries_json(s)[i]
            == spec_entry_json(s[i]) by {
            if i < s.len() - 1 {
                assert(s.drop_last()[i] == s[i]);
            }
        }
    }
}

/// The condition JSON list has one element per condition.
proof fn lemma_conditions_json_count(s: Seq<LootCondition>)
    ensures
        spec_conditions_json(s).len() == s.len(),
    decreases s.len(),
{
    if s.len() > 0 {
        lemma_conditions_json_count(s.drop_last());
    }
}

/// The keys of an entry's shared tail.
proof fn lemma_tail_keys(
    head: Seq<(Seq<char>, Json)>,
    weight: Option<i32>,
    quality: Option<i32>,
    functions: Seq<LootFunction>,
    conditions: Seq<LootCondition>,
)
    ensures
        spec_keys(entry_tail_json(head, weight, quality, functions, conditions)) == spec_keys(head)
            + opt_key("weight"@, weight is Some) + opt_key("quality"@, quality is Some) + opt_key(
            "functions"@,
            functions.len() > 0,
        ) + opt_key("conditions"@, conditions.len() > 0),
        forall|i: int|
            0 <= i < head.len() ==> entry_tail_json(head, weight, quality, functions, conditions)[i]
                == head[i],
{
    lemma_conditions_json_count(conditions);
    let a = push_opt(head, "weight"@, opt_int(weight));
    let b = push_opt(a, "quality"@, opt_int(quality));
    let c = push_opt(b, "functions"@, opt_list(spec_functions_json(functions)));
    lemma_push_opt_keys(head, "weight"@, opt_int(weight));
    lemma_push_opt_keys(a, "quality"@, opt_int(quality));
    lemma_push_opt_keys(b, "functions"@, opt_list(spec_functions_json(functions)));
    lemma_push_opt_keys(c, "conditions"@, opt_list(spec_conditions_json(conditions)));
    assert(spec_keys(entry_tail_json(head, weight, quality, functions, conditions)) =~= spec_keys(
        head,
    ) + opt_key("weight"@, weight is Some) + opt_key("quality"@, quality is Some) + opt_key(
        "functions"@,
        functions.len() > 0,
    ) + opt_key("conditions"@, conditions.len() > 0));
}

/// Every loot entry is written as an object whose keys are exactly
/// [`spec_entry_keys`], whose first entry is its `type`, and whose second is
/// its name: `name` for an item, tag or dynamic entry, `value` for a table
/// reference, and the children's JSON, in order, for a composite.
pub proof fn law_entry_json(e: LootEntry)
    ensures
        spec_entry_json(e) is Object,
        spec_keys(spec_object_entries(spec_entry_json(e))) == spec_entry_keys(e),
        spec_object_entries(spec_entry_json(e))[0] == ("type"@, Json::Str(spec_entry_type(e))),
        e matches LootEntry::Item { name, .. } ==> spec_object_entries(spec_entry_json(e))[1] == (
        "name"@, Json::Str(name@)),
        e matches LootEntry::Tag { name, .. } ==> spec_object_entries(spec_entry_json(e))[1] == (
        "name"@, Json::Str(name@)),
        e matches LootEntry::Dynamic { name, .. } ==> spec_object_entries(spec_entry_json(e))[1] == (
        "name"@, Json::Str(name@)),
        e matches LootEntry::LootTable { value, .. } ==> spec_object_entries(spec_entry_json(e))[1]
            == ("value"@, Json::Str(value@)),
        e matches LootEntry::Group { children, .. } ==> spec_object_entries(spec_entry_json(e))[1]
            == ("children"@, Json::Array(spec_entries_json(children@))),
        e matches LootEntry::Alternatives { children, .. } ==> spec_object_entries(
            spec_entry_json(e),
        )[1] == ("children"@, Json::Array(spec_entries_json(children@))),
        e matches LootEntry::Sequence { children, .. } ==> spec_object_entries(spec_entry_json(e))[1]
            == ("children"@, Json::Array(spec_entries_json(children@))),
{
    match e {
        LootEntry::Item { name, weight, quality, functions, conditions } => {
            let head = seq![("type"@, jstr("minecraft:item"@)), ("name"@, jstr(name@))];
            lemma_tail_keys(head, weight, quality, functions@, conditions@);
            assert(spec_keys(head) =~= seq!["type"@, "name"@]);
        },
        LootEntry::Tag { name, expand, weight, quality, conditions } => {
            let h0 = seq![("type"@, jstr("minecraft:tag"@)), ("name"@, jstr(name@))];
            let o = match expand {
                Some(b) => Some(Json::Bool(b)),
                None => None,
            };
            let head = push_opt(h0, "expand"@, o);
            lemma_push_opt_keys(h0, "expand"@, o);
            lemma_tail_keys(head, weight, quality, seq![], conditions@);
            assert(spec_keys(h0) =~= seq!["type"@, "name"@]);
            assert(spec_keys(spec_object_entries(spec_entry_json(e))) =~= spec_entry_keys(e));
        },
        LootEntry::LootTable { value, weight, quality, conditions } => {
            let head = seq![("type"@, jstr("minecraft:loot_table"@)), ("value"@, jstr(value@))];
            lemma_tail_keys(head, weight, quality, seq![], conditions@);
            assert(spec_keys(head) =~= seq!["type"@, "value"@]);
            assert(spec_keys(spec_object_entries(spec_entry_json(e))) =~= spec_entry_keys(e));
        },
        LootEntry::Group { children, conditions } => {
            let head = seq![
                ("type"@, jstr("minecraft:group"@)),
                ("children"@, Json::Array(spec_entries_json(children@))),
            ];
            lemma_tail_keys(head, None, None, seq![], conditions@);
            assert(spec_keys(head) =~= seq!["type"@, "children"@]);
            assert(spec_keys(spec_object_entries(spec_entry_json(e))) =~= spec_entry_keys(e));
        },
        LootEntry::Alternatives { children, conditions } => {
            let head = seq![
                ("type"@, jstr("minecraft:alternatives"@)),
                ("children"@, Json::Array(spec_entries_json(children@))),
            ];
            lemma_tail_keys(head, None, None, seq![], conditions@);
            assert(spec_keys(head) =~= seq!["type"@, "children"@]);
            assert(spec_keys(spec_object_entries(spec_entry_json(e))) =~= spec_entry_keys(e));
        },
        LootEntry::Sequence { children, conditions } => {
            let head = seq![
                ("type"@, jstr("minecraft:sequence"@)),
                ("children"@, Json::Array(spec_entries_json(children@))),
            ];
            lemma_tail_keys(head, None, None, seq![], conditions@);
            assert(spec_keys(head) =~= seq!["type"@, "children"@]);
            assert(spec_keys(spec_object_entries(spec_entry_json(e))) =~= spec_entry_keys(e));
        },
        LootEntry::Dynamic { name, conditions } => {
            let head = seq![("type"@, jstr("minecraft:dynamic"@)), ("name"@, jstr(name@))];
            lemma_tail_keys(head, None, None, seq![], conditions@);
            assert(spec_keys(head) =~= seq!["type"@, "name"@]);
            assert(spec_keys(spec_object_entries(spec_entry_json(e))) =~= spec_entry_keys(e));
        },
        LootEntry::Empty { weight, quality, conditions } => {
            let head = seq![("type"@, jstr("minecraft:empty"@))];
            lemma_tail_keys(head, weight, quality, seq![], conditions@);
            assert(spec_keys(head) =~= seq!["type"@]);
            assert(spec_keys(spec_object_entries(spec_entry_json(e))) =~= spec_entry_keys(e));
        },
    }
}

} // verus!

verus! {

/// A pool is written as an object whose keys are `rolls`, `bonus_rolls`
/// exactly when bonus rolls are set, `entries`, then `conditions` and
/// `functions` when not empty; `rolls` holds the JSON of the pool's rolls,
/// `bonus_rolls` the JSON of its own bonus rolls, and `entries` its entries'
/// JSON in order.
pub proof fn law_pool_json(p: LootPoolView)
    ensures
        spec_pool_json(p) is Object,
        spec_keys(spec_object_entries(spec_pool_json(p))) == seq!["rolls"@] + opt_key(
            "bonus_rolls"@,
            p.bonus_rolls is Some,
        ) + seq!["entries"@] + opt_key("conditions"@, p.conditions.len() > 0) + opt_key(
            "functions"@,
            p.functions.len() > 0,
        ),
        spec_object_entries(spec_pool_json(p))[0] == ("rolls"@, spec_number_json(p.rolls)),
        p.bonus_rolls matches Some(b) ==> spec_object_entries(spec_pool_json(p))[1] == (
        "bonus_rolls"@, spec_number_json(b)),
        spec_object_entries(spec_pool_json(p))[if p.bonus_rolls is Some {
            2int
        } else {
            1int
        }] == ("entries"@, Json::Array(spec_entries_json(p.entries))),
{
    let ob = match p.bonus_rolls {
        Some(b) => Some(spec_number_json(b)),
        None => None,
    };
    let h0 = seq![("rolls"@, spec_number_json(p.rolls))];
    let h1 = push_opt(h0, "bonus_rolls"@, ob);
    lemma_push_opt_keys(h0, "bonus_rolls"@, ob);
    let h2 = h1.push(("entries"@, Json::Array(spec_entries_json(p.entries))));
    assert(spec_keys(h2) =~= spec_keys(h1).push("entries"@));
    let h3 = push_opt(h2, "conditions"@, opt_list(spec_conditions_json(p.conditions)));
    lemma_conditions_json_count(p.conditions);
    lemma_push_opt_keys(h2, "conditions"@, opt_list(spec_conditions_json(p.conditions)));
    lemma_push_opt_keys(h3, "functions"@, opt_list(spec_functions_json(p.functions)));
    assert(spec_keys(h0) =~= seq!["rolls"@]);
    assert(spec_keys(spec_object_entries(spec_pool_json(p))) =~= seq!["rolls"@] + opt_key(
        "bonus_rolls"@,
        p.bonus_rolls is Some,
    ) + seq!["entries"@] + opt_key("conditions"@, p.conditions.len() > 0) + opt_key(
        "functions"@,
        p.functions.len() > 0,
    ));
}

} // verus!
