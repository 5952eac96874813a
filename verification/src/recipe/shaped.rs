//! Shaped crafting recipes (`minecraft:crafting_shaped`).
//!
//! The key binds each pattern character to one ingredient; binding a
//! character again replaces its ingredient. Validation reports unbound
//! pattern characters in row-major order and unused key characters in the
//! order they were bound.

use vstd::prelude::*;
use vstd::string::*;

use super::types::{
    Ingredient, IngredientView, RecipeResult, RecipeResultView, ComponentFeature, opt_str_json,
    opt_view, push_opt_str, validation, recipe_error, spec_ingredient_check, spec_ingredient_json,
    spec_result_check, spec_result_features, spec_result_json, spec_serializable,
    lemma_valid_ingredient_serializable,
};
use crate::error::{SandError, SandErrorView, view_unit_result};
use crate::json::{
    Json, JsonValue, lemma_view_entries_empty, lemma_view_values_empty, push_entry, push_opt,
    push_value, spec_string_array, string_array, view_entries, view_json, view_values,
};
use crate::resource_location::{ResourceLocation, ResourceLocationView};
use crate::text::{owned, push_char};
use crate::validation::spec_then;

verus! {

/// The abstract value of a [`ShapedRecipe`].
pub struct ShapedRecipeView {
    pub location: ResourceLocationView,
    pub category: Option<Seq<char>>,
    pub group: Option<Seq<char>>,
    pub pattern: Seq<Seq<char>>,
    pub key: Seq<(char, IngredientView)>,
    pub result: RecipeResultView,
    pub show_notification: bool,
}

/// A shaped crafting recipe: a grid pattern whose characters the key binds
/// to ingredients.
pub struct ShapedRecipe {
    pub location: ResourceLocation,
    category: Option<String>,
    group: Option<String>,
    pattern: Vec<String>,
    /// The key, in binding order, each character bound once. It is a list
    /// rather than a `HashMap<char, Ingredient>`: Verus accepts such a map,
    /// but with `char` keys nothing about its contents could be proved, not
    /// even its length after one insert, and its walk order, which decides
    /// the unused key reported first and the order of the `key` object, is
    /// unspecified.
    key: Vec<(char, Ingredient)>,
    result: RecipeResult,
    show_notification: bool,
}

impl View for ShapedRecipe {
    type V = ShapedRecipeView;

    closed spec fn view(&self) -> ShapedRecipeView {
        ShapedRecipeView {
            location: self.location@,
            category: opt_view(self.category),
            group: opt_view(self.group),
            pattern: self.pattern@.map_values(|s: String| s@),
            key: self.key@.map_values(|p: (char, Ingredient)| (p.0, p.1@)),
            result: self.result@,
            show_notification: self.show_notification,
        }
    }
}

/// Whether the key binds `c`.
pub open spec fn spec_bound(key: Seq<(char, IngredientView)>, c: char) -> bool {
    exists|j: int| 0 <= j < key.len() && (#[trigger] key[j]).0 == c
}

/// Whether `c` occurs in some row of the pattern.
pub open spec fn spec_in_pattern(pattern: Seq<Seq<char>>, c: char) -> bool {
    exists|i: int, j: int|
        0 <= i < pattern.len() && 0 <= j < pattern[i].len() && #[trigger] pattern[i][j] == c
}

/// `key` after binding `c` to `v`: the first binding of `c` is replaced,
/// or a new binding is appended.
pub open spec fn spec_bind(
    key: Seq<(char, IngredientView)>,
    c: char,
    v: IngredientView,
    r: Seq<(char, IngredientView)>,
) -> bool {
    if spec_bound(key, c) {
        exists|j: int|
            0 <= j < key.len() && key[j].0 == c && (forall|k: int|
                0 <= k < j ==> (#[trigger] key[k]).0 != c) && r == key.update(j, (c, v))
    } else {
        r == key.push((c, v))
    }
}

/// Whether no character is bound twice.
pub open spec fn spec_key_distinct(key: Seq<(char, IngredientView)>) -> bool {
    forall|i: int, j: int| 0 <= i < j < key.len() ==> (#[trigger] key[i]).0 != (#[trigger] key[j]).0
}

/// Binding a character keeps every character bound at most once, binds `c`
/// to `v`, and leaves the other bindings, and their order, as they were.
pub proof fn law_key_bind(
    key: Seq<(char, IngredientView)>,
    c: char,
    v: IngredientView,
    r: Seq<(char, IngredientView)>,
)
    requires
        spec_key_distinct(key),
        spec_bind(key, c, v, r),
    ensures
        spec_key_distinct(r),
        r.contains((c, v)),
        r.filter(|p: (char, IngredientView)| p.0 != c) == key.filter(
            |p: (char, IngredientView)| p.0 != c,
        ),
{
    let f = |p: (char, IngredientView)| p.0 != c;
    if spec_bound(key, c) {
        let j = choose|j: int|
            0 <= j < key.len() && key[j].0 == c && (forall|k: int|
                0 <= k < j ==> (#[trigger] key[k]).0 != c) && r == key.update(j, (c, v));
        assert(r[j] == (c, v));
        assert forall|a: int, b: int| 0 <= a < b < r.len() implies (#[trigger] r[a]).0 != (
        #[trigger] r[b]).0 by {
            assert(key[a].0 == r[a].0);
            assert(key[b].0 == r[b].0);
        }
        lemma_filter_update_same(key, j, (c, v), f);
    } else {
        assert(r[key.len() as int] == (c, v));
        assert forall|a: int, b: int| 0 <= a < b < r.len() implies (#[trigger] r[a]).0 != (
        #[trigger] r[b]).0 by {
            if b == key.len() {
                assert(r[a] == key[a]);
            } else {
                assert(r[a] == key[a] && r[b] == key[b]);
            }
        }
        assert(r.filter(f) =~= key.filter(f)) by {
            reveal(Seq::filter);
            assert(r.drop_last() =~= key);
        }
    }
}

/// Filtering is unchanged by replacing an element that the filter drops
/// with another that it drops.
pub proof fn lemma_filter_update_same<A>(s: Seq<A>, j: int, x: A, f: spec_fn(A) -> bool)
    requires
        0 <= j < s.len(),
        !f(s[j]),
        !f(x),
    ensures
        s.update(j, x).filter(f) == s.filter(f),
    decreases s.len(),
{
    reveal(Seq::filter);
    let u = s.update(j, x);
    if j == s.len() - 1 {
        assert(u.drop_last() =~= s.drop_last());
    } else {
        lemma_filter_update_same(s.drop_last(), j, x, f);
        assert(u.drop_last() =~= s.drop_last().update(j, x));
        assert(u.last() == s.last());
    }
}

/// Binding the same character twice leaves the second ingredient, exactly
/// as if only the second binding had been made.
pub proof fn law_key_rebind(
    key: Seq<(char, IngredientView)>,
    c: char,
    a: IngredientView,
    b: IngredientView,
    r1: Seq<(char, IngredientView)>,
    r2: Seq<(char, IngredientView)>,
)
    requires
        spec_bind(key, c, a, r1),
        spec_bind(r1, c, b, r2),
    ensures
        spec_bind(key, c, b, r2),
{
    if spec_bound(key, c) {
        let j = choose|j: int|
            0 <= j < key.len() && key[j].0 == c && (forall|k: int|
                0 <= k < j ==> (#[trigger] key[k]).0 != c) && r1 == key.update(j, (c, a));
        assert(r1[j].0 == c);
        assert(spec_bound(r1, c));
        let j2 = choose|j2: int|
            0 <= j2 < r1.len() && r1[j2].0 == c && (forall|k: int|
                0 <= k < j2 ==> (#[trigger] r1[k]).0 != c) && r2 == r1.update(j2, (c, b));
        if j2 < j {
            assert(r1[j2] == key[j2]);
        } else if j < j2 {
            assert(r1[j].0 != c);
        }
        assert(j == j2);
        assert(r2 =~= key.update(j, (c, b)));
    } else {
        let n = key.len() as int;
        assert(r1[n].0 == c);
        assert(spec_bound(r1, c));
        let j2 = choose|j2: int|
            0 <= j2 < r1.len() && r1[j2].0 == c && (forall|k: int|
                0 <= k < j2 ==> (#[trigger] r1[k]).0 != c) && r2 == r1.update(j2, (c, b));
        if j2 < n {
            assert(r1[j2] == key[j2]);
            assert(spec_bound(key, c));
        }
        assert(j2 == n);
        assert(r2 =~= key.push((c, b)));
    }
}

/// `'c'` as written in messages.
pub open spec fn quoted(c: char) -> Seq<char> {
    seq!['\''] + seq![c] + seq!['\'']
}

/// The message for a pattern character that the key does not bind.
pub open spec fn spec_unbound_message(c: char) -> Seq<char> {
    "pattern character "@ + quoted(c) + " is not bound to any ingredient — add .key("@ + quoted(c)
        + ", Ingredient::...)"@
}

/// The message for a key character that the pattern does not use.
pub open spec fn spec_unused_message(c: char) -> Seq<char> {
    "key character "@ + quoted(c) + " is not used in the pattern — remove it or add it to the pattern"@
}

/// The field of the ingredient bound to `c`: `key['c']`.
pub open spec fn spec_key_field(c: char) -> Seq<char> {
    "key["@ + quoted(c) + "]"@
}

/// The first row from `i` on whose width is not `width`.
pub open spec fn spec_widths_check(
    location: ResourceLocationView,
    pattern: Seq<Seq<char>>,
    width: nat,
    i: nat,
) -> Result<(), SandErrorView>
    decreases pattern.len() - i,
{
    if i >= pattern.len() {
        Ok(())
    } else if pattern[i as int].len() != width {
        recipe_error(
            location,
            crate::text::spec_indexed("pattern"@, i),
            "shaped recipe rows must have equal widths"@,
        )
    } else {
        spec_widths_check(location, pattern, width, i + 1)
    }
}

/// The first non-space character of `row` that the key does not bind.
pub open spec fn spec_row_unbound(
    location: ResourceLocationView,
    row: Seq<char>,
    key: Seq<(char, IngredientView)>,
) -> Result<(), SandErrorView>
    decreases row.len(),
{
    if row.len() == 0 {
        Ok(())
    } else if row[0] != ' ' && !spec_bound(key, row[0]) {
        recipe_error(location, "key"@, spec_unbound_message(row[0]))
    } else {
        spec_row_unbound(location, row.drop_first(), key)
    }
}

/// The first unbound pattern character, in row-major order.
pub open spec fn spec_rows_unbound(
    location: ResourceLocationView,
    rows: Seq<Seq<char>>,
    key: Seq<(char, IngredientView)>,
) -> Result<(), SandErrorView>
    decreases rows.len(),
{
    if rows.len() == 0 {
        Ok(())
    } else {
        spec_then(
            spec_row_unbound(location, rows[0], key),
            spec_rows_unbound(location, rows.drop_first(), key),
        )
    }
}

/// The first key binding, in order, that binds a space or a character the
/// pattern does not use.
pub open spec fn spec_keys_check(
    location: ResourceLocationView,
    key: Seq<(char, IngredientView)>,
    pattern: Seq<Seq<char>>,
) -> Result<(), SandErrorView>
    decreases key.len(),
{
    if key.len() == 0 {
        Ok(())
    } else if key[0].0 == ' ' {
        recipe_error(
            location,
            "key[' ']"@,
            "space is reserved for empty pattern slots and cannot be bound"@,
        )
    } else if !spec_in_pattern(pattern, key[0].0) {
        recipe_error(location, "key"@, spec_unused_message(key[0].0))
    } else {
        spec_keys_check(location, key.drop_first(), pattern)
    }
}

/// The first invalid bound ingredient, in binding order.
pub open spec fn spec_key_ingredients_check(
    location: ResourceLocationView,
    key: Seq<(char, IngredientView)>,
) -> Result<(), SandErrorView>
    decreases key.len(),
{
    if key.len() == 0 {
        Ok(())
    } else {
        spec_then(
            spec_ingredient_check(key[0].1, location, spec_key_field(key[0].0)),
            spec_key_ingredients_check(location, key.drop_first()),
        )
    }
}

/// Export validation of a shaped recipe: a pattern of 1 to 3 rows of 1 to 3
/// equal columns, a valid result, every non-space pattern character bound,
/// every key character used and not a space, and every bound ingredient valid.
pub open spec fn spec_shaped_check(v: ShapedRecipeView) -> Result<(), SandErrorView> {
    let l = v.location;
    if v.pattern.len() == 0 {
        recipe_error(l, "pattern"@, "shaped recipe pattern must not be empty"@)
    } else if v.pattern.len() > 3 {
        recipe_error(l, "pattern"@, "shaped recipe pattern must have at most 3 rows"@)
    } else if v.pattern[0].len() == 0 || v.pattern[0].len() > 3 {
        recipe_error(l, "pattern[0]"@, "shaped recipe rows must contain 1 to 3 columns"@)
    } else {
        spec_then(
            spec_widths_check(l, v.pattern, v.pattern[0].len(), 1),
            spec_then(
                spec_result_check(v.result, l, "result"@),
                spec_then(
                    spec_rows_unbound(l, v.pattern, v.key),
                    spec_then(
                        spec_keys_check(l, v.key, v.pattern),
                        spec_key_ingredients_check(l, v.key),
                    ),
                ),
            ),
        )
    }
}

/// Whether every bound ingredient can be written as JSON.
pub open spec fn spec_key_serializable(key: Seq<(char, IngredientView)>) -> bool {
    forall|j: int| 0 <= j < key.len() ==> spec_serializable(#[trigger] key[j].1)
}

/// The JSON of a shaped recipe.
pub open spec fn spec_shaped_json(v: ShapedRecipeView) -> Json {
    Json::Object(
        push_opt(
            push_opt(seq![("type"@, Json::Str("minecraft:crafting_shaped"@))], "category"@, opt_str_json(v.category)),
            "group"@,
            opt_str_json(v.group),
        ) + seq![
            ("pattern"@, spec_string_array(v.pattern)),
            (
                "key"@,
                Json::Object(
                    v.key.map_values(
                        |p: (char, IngredientView)| (seq![p.0], spec_ingredient_json(p.1)),
                    ),
                ),
            ),
            ("result"@, spec_result_json(v.result)),
            ("show_notification"@, Json::Bool(v.show_notification)),
        ],
    )
}

/// The export result of a shaped recipe.
pub open spec fn spec_shaped_content(v: ShapedRecipeView) -> Result<Json, SandErrorView> {
    match spec_shaped_check(v) {
        Ok(()) => Ok(spec_shaped_json(v)),
        Err(e) => Err(e),
    }
}

/// Bound ingredients that pass validation can all be written as JSON.
pub proof fn lemma_valid_key_serializable(
    location: ResourceLocationView,
    key: Seq<(char, IngredientView)>,
)
    requires
        spec_key_ingredients_check(location, key) is Ok,
    ensures
        spec_key_serializable(key),
    decreases key.len(),
{
    if key.len() > 0 {
        lemma_valid_ingredient_serializable(key[0].1, location, spec_key_field(key[0].0));
        lemma_valid_key_serializable(location, key.drop_first());
        assert forall|j: int| 0 <= j < key.len() implies spec_serializable(#[trigger] key[j].1) by {
            if j > 0 {
                assert(key.drop_first()[j - 1] == key[j]);
            }
        }
    }
}

/// `'c'`.
fn quote(c: char) -> (r: String)
    ensures
        r@ == quoted(c),
{
    let mut s = String::new();
    push_char(&mut s, '\'');
    push_char(&mut s, c);
    push_char(&mut s, '\'');
    assert(s@ =~= quoted(c));
    s
}

/// Whether `key` binds `c`.
fn bound(key: &Vec<(char, Ingredient)>, c: char) -> (r: bool)
    ensures
        r == spec_bound(key@.map_values(|p: (char, Ingredient)| (p.0, p.1@)), c),
{
    let ghost kv = key@.map_values(|p: (char, Ingredient)| (p.0, p.1@));
    let mut j: usize = 0;
    while j < key.len()
        invariant
            j <= key.len(),
            kv == key@.map_values(|p: (char, Ingredient)| (p.0, p.1@)),
            forall|k: int| 0 <= k < j ==> (#[trigger] kv[k]).0 != c,
        decreases key.len() - j,
    {
        if key[j].0 == c {
            assert(kv[j as int].0 == c);
            return true;
        }
        j = j + 1;
    }
    false
}

/// Whether `c` occurs in some row of `pattern`.
fn in_pattern(pattern: &Vec<String>, c: char) -> (r: bool)
    ensures
        r == spec_in_pattern(pattern@.map_values(|s: String| s@), c),
{
    let ghost pv = pattern@.map_values(|s: String| s@);
    let mut i: usize = 0;
    while i < pattern.len()
        invariant
            i <= pattern.len(),
            pv == pattern@.map_values(|s: String| s@),
            forall|a: int, b: int| 0 <= a < i && 0 <= b < pv[a].len() ==> #[trigger] pv[a][b] != c,
        decreases pattern.len() - i,
    {
        let row = pattern[i].as_str();
        let n = row.unicode_len();
        let mut j: usize = 0;
        while j < n
            invariant
                i < pattern.len(),
                j <= n,
                n == row@.len(),
                row@ == pv[i as int],
                pv == pattern@.map_values(|s: String| s@),
                forall|a: int, b: int|
                    0 <= a < i && 0 <= b < pv[a].len() ==> #[trigger] pv[a][b] != c,
                forall|b: int| 0 <= b < j ==> #[trigger] pv[i as int][b] != c,
            decreases n - j,
        {
            if row.get_char(j) == c {
                assert(pv[i as int][j as int] == c);
                return true;
            }
            j = j + 1;
        }
        i = i + 1;
    }
    false
}

impl ShapedRecipe {
    /// A recipe at `location` with an empty pattern and key, the placeholder
    /// result, and notifications shown.
    pub fn new(location: ResourceLocation) -> (r: Self)
        ensures
            r@ == (ShapedRecipeView {
                location: location@,
                category: None,
                group: None,
                pattern: Seq::empty(),
                key: Seq::empty(),
                result: RecipeResultView { id: Seq::empty(), count: 1, components: Seq::empty() },
                show_notification: true,
            }),
    {
        let r = ShapedRecipe {
            location,
            category: None,
            group: None,
            pattern: Vec::new(),
            key: Vec::new(),
            result: RecipeResult::empty(),
            show_notification: true,
        };
        assert(r@.pattern =~= Seq::empty());
        assert(r@.key =~= Seq::empty());
        r
    }

    /// Sets the pattern rows.
    pub fn pattern(self, rows: &[&str]) -> (r: Self)
        ensures
            r@ == (ShapedRecipeView { pattern: rows@.map_values(|s: &str| s@), ..self@ }),
    {
        let mut v: Vec<String> = Vec::new();
        let mut i: usize = 0;
        while i < rows.len()
            invariant
                i <= rows.len(),
                v@.map_values(|s: String| s@) == rows@.subrange(0, i as int).map_values(
                    |s: &str| s@,
                ),
            decreases rows.len() - i,
        {
            let ghost before = v@;
            v.push(owned(rows[i]));
            assert(v@.map_values(|s: String| s@) =~= before.map_values(|s: String| s@).push(
                rows@[i as int]@,
            ));
            assert(rows@.subrange(0, i + 1).map_values(|s: &str| s@) =~= rows@.subrange(
                0,
                i as int,
            ).map_values(|s: &str| s@).push(rows@[i as int]@));
            i = i + 1;
        }
        assert(rows@.subrange(0, rows@.len() as int) =~= rows@);
        let mut s = self;
        s.pattern = v;
        s
    }

    /// Binds `c` to `ingredient`, replacing an earlier binding of `c`.
    pub fn key(self, c: char, ingredient: Ingredient) -> (r: Self)
        ensures
            spec_bind(self@.key, c, ingredient@, r@.key),
            r@ == (ShapedRecipeView { key: r@.key, ..self@ }),
    {
        let mut s = self;
        let ghost kv = s@.key;
        let mut j: usize = 0;
        while j < s.key.len()
            invariant
                j <= s.key.len(),
                s@ == self@,
                kv == self@.key,
                kv == s.key@.map_values(|p: (char, Ingredient)| (p.0, p.1@)),
                forall|k: int| 0 <= k < j ==> (#[trigger] kv[k]).0 != c,
            decreases s.key.len() - j,
        {
            if s.key[j].0 == c {
                let ghost before = s.key@;
                s.key.set(j, (c, ingredient));
                assert(s.key@.map_values(|p: (char, Ingredient)| (p.0, p.1@)) =~= kv.update(
                    j as int,
                    (c, ingredient@),
                ));
                assert(kv[j as int].0 == c);
                assert(spec_bound(kv, c));
                assert(s@.key == kv.update(j as int, (c, ingredient@)));
                assert(s@ == (ShapedRecipeView { key: s@.key, ..self@ }));
                return s;
            }
            j = j + 1;
        }
        assert(!spec_bound(kv, c));
        let ghost before = s.key@;
        s.key.push((c, ingredient));
        assert(s.key@.map_values(|p: (char, Ingredient)| (p.0, p.1@)) =~= kv.push((c, ingredient@)));
        assert(s@ == (ShapedRecipeView { key: s@.key, ..self@ }));
        s
    }

    /// Sets the result.
    pub fn result(self, result: RecipeResult) -> (r: Self)
        ensures
            r@ == (ShapedRecipeView { result: result@, ..self@ }),
    {
        let mut s = self;
        s.result = result;
        s
    }

    /// Sets the recipe book category.
    pub fn category(self, category: &str) -> (r: Self)
        ensures
            r@ == (ShapedRecipeView { category: Some(category@), ..self@ }),
    {
        let mut s = self;
        s.category = Some(owned(category));
        s
    }

    /// Sets the recipe book group.
    pub fn group(self, group: &str) -> (r: Self)
        ensures
            r@ == (ShapedRecipeView { group: Some(group@), ..self@ }),
    {
        let mut s = self;
        s.group = Some(owned(group));
        s
    }

    /// Sets whether unlocking the recipe shows a notification.
    pub fn show_notification(self, show: bool) -> (r: Self)
        ensures
            r@ == (ShapedRecipeView { show_notification: show, ..self@ }),
    {
        let mut s = self;
        s.show_notification = show;
        s
    }

    /// The component's resource location.
    pub fn resource_location(&self) -> (r: &ResourceLocation)
        ensures
            r@ == self@.location,
    {
        &self.location
    }

    /// The datapack directory (`recipe`).
    pub fn component_dir(&self) -> (r: &'static str)
        ensures
            r@ == "recipe"@,
    {
        "recipe"
    }

    /// The version features this recipe needs: item components when the
    /// result carries any.
    pub fn required_features(&self) -> (r: Vec<ComponentFeature>)
        ensures
            r@ == spec_result_features(self@.result),
    {
        self.result.required_features()
    }
}


/// The message for a pattern character that the key does not bind.
fn unbound_message(c: char) -> (r: String)
    ensures
        r@ == spec_unbound_message(c),
{
    let q = quote(c);
    let mut m = owned("pattern character ");
    m.append(q.as_str());
    m.append(" is not bound to any ingredient — add .key(");
    m.append(q.as_str());
    m.append(", Ingredient::...)");
    m
}

/// The message for a key character that the pattern does not use.
fn unused_message(c: char) -> (r: String)
    ensures
        r@ == spec_unused_message(c),
{
    let q = quote(c);
    let mut m = owned("key character ");
    m.append(q.as_str());
    m.append(" is not used in the pattern — remove it or add it to the pattern");
    m
}

/// The field of the ingredient bound to `c`.
fn key_field(c: char) -> (r: String)
    ensures
        r@ == spec_key_field(c),
{
    let q = quote(c);
    let mut m = owned("key[");
    m.append(q.as_str());
    m.append("]");
    m
}

/// The first non-space character of `row` that `key` does not bind.
fn row_unbound(location: &ResourceLocation, row: &str, key: &Vec<(char, Ingredient)>) -> (r: Result<
    (),
    SandError,
>)
    ensures
        view_unit_result(r) == spec_row_unbound(
            location@,
            row@,
            key@.map_values(|p: (char, Ingredient)| (p.0, p.1@)),
        ),
{
    let ghost kv = key@.map_values(|p: (char, Ingredient)| (p.0, p.1@));
    let n = row.unicode_len();
    let mut j: usize = 0;
    assert(row@.subrange(0, n as int) =~= row@);
    while j < n
        invariant
            j <= n,
            n == row@.len(),
            kv == key@.map_values(|p: (char, Ingredient)| (p.0, p.1@)),
            spec_row_unbound(location@, row@, kv) == spec_row_unbound(
                location@,
                row@.subrange(j as int, n as int),
                kv,
            ),
        decreases n - j,
    {
        let ghost rest = row@.subrange(j as int, n as int);
        let c = row.get_char(j);
        assert(rest[0] == c);
        assert(rest.drop_first() =~= row@.subrange(j + 1, n as int));
        if c != ' ' && !bound(key, c) {
            let m = unbound_message(c);
            return Err(validation(location, "key", m.as_str()));
        }
        j = j + 1;
    }
    Ok(())
}

impl ShapedRecipe {
    /// The first row from the second on whose width is not `width`.
    fn check_widths(&self, width: usize) -> (r: Result<(), SandError>)
        ensures
            view_unit_result(r) == spec_widths_check(self@.location, self@.pattern, width as nat, 1),
    {
        let ghost pv = self@.pattern;
        let mut i: usize = 1;
        while i < self.pattern.len()
            invariant
                1 <= i,
                pv == self.pattern@.map_values(|s: String| s@),
                pv == self@.pattern,
                self@.location == self.location@,
                spec_widths_check(self@.location, pv, width as nat, 1) == spec_widths_check(
                    self@.location,
                    pv,
                    width as nat,
                    i as nat,
                ),
            decreases self.pattern.len() - i,
        {
            if self.pattern[i].unicode_len() != width {
                let f = crate::text::indexed("pattern", i);
                return Err(
                    validation(&self.location, f.as_str(), "shaped recipe rows must have equal widths"),
                );
            }
            i = i + 1;
        }
        Ok(())
    }

    /// The first unbound pattern character, in row-major order.
    fn check_unbound(&self) -> (r: Result<(), SandError>)
        ensures
            view_unit_result(r) == spec_rows_unbound(self@.location, self@.pattern, self@.key),
    {
        let ghost pv = self@.pattern;
        let n = self.pattern.len();
        let mut i: usize = 0;
        assert(pv.subrange(0, n as int) =~= pv);
        while i < n
            invariant
                i <= n,
                n == pv.len(),
                pv == self.pattern@.map_values(|s: String| s@),
                pv == self@.pattern,
                self@.location == self.location@,
                self@.key == self.key@.map_values(|p: (char, Ingredient)| (p.0, p.1@)),
                spec_rows_unbound(self@.location, pv, self@.key) == spec_rows_unbound(
                    self@.location,
                    pv.subrange(i as int, n as int),
                    self@.key,
                ),
            decreases n - i,
        {
            let ghost rest = pv.subrange(i as int, n as int);
            assert(rest[0] == self.pattern@[i as int]@);
            assert(rest.drop_first() =~= pv.subrange(i + 1, n as int));
            row_unbound(&self.location, self.pattern[i].as_str(), &self.key)?;
            i = i + 1;
        }
        Ok(())
    }

    /// The first key binding that binds a space or an unused character.
    fn check_keys(&self) -> (r: Result<(), SandError>)
        ensures
            view_unit_result(r) == spec_keys_check(self@.location, self@.key, self@.pattern),
    {
        let ghost kv = self@.key;
        let n = self.key.len();
        let mut i: usize = 0;
        assert(kv.subrange(0, n as int) =~= kv);
        while i < n
            invariant
                i <= n,
                n == kv.len(),
                kv == self.key@.map_values(|p: (char, Ingredient)| (p.0, p.1@)),
                kv == self@.key,
                self@.pattern == self.pattern@.map_values(|s: String| s@),
                self@.location == self.location@,
                spec_keys_check(self@.location, kv, self@.pattern) == spec_keys_check(
                    self@.location,
                    kv.subrange(i as int, n as int),
                    self@.pattern,
                ),
            decreases n - i,
        {
            let ghost rest = kv.subrange(i as int, n as int);
            let c = self.key[i].0;
            assert(rest[0].0 == c);
            assert(rest.drop_first() =~= kv.subrange(i + 1, n as int));
            if c == ' ' {
                return Err(
                    validation(
                        &self.location,
                        "key[' ']",
                        "space is reserved for empty pattern slots and cannot be bound",
                    ),
                );
            }
            if !in_pattern(&self.pattern, c) {
                let m = unused_message(c);
                return Err(validation(&self.location, "key", m.as_str()));
            }
            i = i + 1;
        }
        Ok(())
    }

    /// The first invalid bound ingredient, in binding order.
    fn check_key_ingredients(&self) -> (r: Result<(), SandError>)
        ensures
            view_unit_result(r) == spec_key_ingredients_check(self@.location, self@.key),
    {
        let ghost kv = self@.key;
        let n = self.key.len();
        let mut i: usize = 0;
        assert(kv.subrange(0, n as int) =~= kv);
        while i < n
            invariant
                i <= n,
                n == kv.len(),
                kv == self.key@.map_values(|p: (char, Ingredient)| (p.0, p.1@)),
                kv == self@.key,
                self@.location == self.location@,
                spec_key_ingredients_check(self@.location, kv) == spec_key_ingredients_check(
                    self@.location,
                    kv.subrange(i as int, n as int),
                ),
            decreases n - i,
        {
            let ghost rest = kv.subrange(i as int, n as int);
            assert(rest[0] == (self.key@[i as int].0, self.key@[i as int].1@));
            assert(rest.drop_first() =~= kv.subrange(i + 1, n as int));
            let f = key_field(self.key[i].0);
            self.key[i].1.validate_at(&self.location, f.as_str())?;
            i = i + 1;
        }
        Ok(())
    }

    /// Export validation: the first failure in the order that
    /// [`spec_shaped_check`] states.
    pub fn validate(&self) -> (r: Result<(), SandError>)
        ensures
            view_unit_result(r) == spec_shaped_check(self@),
    {
        let n = self.pattern.len();
        if n == 0 {
            return Err(
                validation(&self.location, "pattern", "shaped recipe pattern must not be empty"),
            );
        }
        if n > 3 {
            return Err(
                validation(&self.location, "pattern", "shaped recipe pattern must have at most 3 rows"),
            );
        }
        let width = self.pattern[0].unicode_len();
        if width == 0 || width > 3 {
            return Err(
                validation(
                    &self.location,
                    "pattern[0]",
                    "shaped recipe rows must contain 1 to 3 columns",
                ),
            );
        }
        self.check_widths(width)?;
        self.result.validate_at(&self.location, "result")?;
        self.check_unbound()?;
        self.check_keys()?;
        self.check_key_ingredients()
    }

    /// The JSON document; every bound ingredient must be writable.
    pub fn to_json(&self) -> (r: JsonValue)
        requires
            spec_key_serializable(self@.key),
        ensures
            view_json(r) == spec_shaped_json(self@),
    {
        let mut m: Vec<(String, JsonValue)> = Vec::new();
        proof {
            lemma_view_entries_empty();
        }
        push_entry(&mut m, "type", JsonValue::string("minecraft:crafting_shaped"));
        push_opt_str(&mut m, "category", &self.category);
        push_opt_str(&mut m, "group", &self.group);
        let ghost pre = view_entries(m@);
        push_entry(&mut m, "pattern", string_array(&self.pattern));
        push_entry(&mut m, "key", self.key_json());
        push_entry(&mut m, "result", self.result.to_json());
        push_entry(&mut m, "show_notification", JsonValue::Bool(self.show_notification));
        assert(view_entries(m@) =~= pre + seq![
            ("pattern"@, spec_string_array(self@.pattern)),
            (
                "key"@,
                Json::Object(
                    self@.key.map_values(
                        |p: (char, IngredientView)| (seq![p.0], spec_ingredient_json(p.1)),
                    ),
                ),
            ),
            ("result"@, spec_result_json(self@.result)),
            ("show_notification"@, Json::Bool(self@.show_notification)),
        ]);
        JsonValue::Object(m)
    }

    /// The `key` object.
    fn key_json(&self) -> (r: JsonValue)
        requires
            spec_key_serializable(self@.key),
        ensures
            view_json(r) == Json::Object(
                self@.key.map_values(
                    |p: (char, IngredientView)| (seq![p.0], spec_ingredient_json(p.1)),
                ),
            ),
    {
        let ghost kv = self@.key;
        let mut out: Vec<(String, JsonValue)> = Vec::new();
        proof {
            lemma_view_entries_empty();
        }
        let mut i: usize = 0;
        while i < self.key.len()
            invariant
                i <= self.key.len(),
                kv == self.key@.map_values(|p: (char, Ingredient)| (p.0, p.1@)),
                kv == self@.key,
                spec_key_serializable(kv),
                view_entries(out@) == kv.subrange(0, i as int).map_values(
                    |p: (char, IngredientView)| (seq![p.0], spec_ingredient_json(p.1)),
                ),
            decreases self.key.len() - i,
        {
            let mut k = String::new();
            push_char(&mut k, self.key[i].0);
            assert(k@ =~= seq![self.key@[i as int].0]);
            assert(spec_serializable(kv[i as int].1));
            let j = self.key[i].1.to_json();
            push_entry(&mut out, k.as_str(), j);
            assert(kv.subrange(0, i + 1).map_values(
                |p: (char, IngredientView)| (seq![p.0], spec_ingredient_json(p.1)),
            ) =~= kv.subrange(0, i as int).map_values(
                |p: (char, IngredientView)| (seq![p.0], spec_ingredient_json(p.1)),
            ).push((seq![kv[i as int].0], spec_ingredient_json(kv[i as int].1))));
            i = i + 1;
        }
        assert(kv.subrange(0, kv.len() as int) =~= kv);
        JsonValue::Object(out)
    }

    /// Validates, then renders the JSON document.
    pub fn try_content(&self) -> (r: Result<JsonValue, SandError>)
        ensures
            match (r, spec_shaped_content(self@)) {
                (Ok(j), Ok(v)) => view_json(j) == v,
                (Err(e), Err(v)) => e@ == v,
                _ => false,
            },
    {
        self.validate()?;
        proof {
            lemma_valid_key_serializable(self@.location, self@.key);
        }
        Ok(self.to_json())
    }
}

} // verus!

verus! {

/// The rows from `i` on pass the width check exactly when each has `width`
/// characters.
pub proof fn lemma_widths(location: ResourceLocationView, pattern: Seq<Seq<char>>, width: nat, i: nat)
    ensures
        spec_widths_check(location, pattern, width, i) is Ok <==> forall|k: int|
            #![trigger pattern[k]]
            i <= k < pattern.len() ==> pattern[k].len() == width,
        super::types::spec_recipe_result(spec_widths_check(location, pattern, width, i), location),
    decreases pattern.len() - i,
{
    if i < pattern.len() {
        lemma_widths(location, pattern, width, i + 1);
    }
}

/// A row passes exactly when each of its non-space characters is bound.
pub proof fn lemma_row_unbound(
    location: ResourceLocationView,
    row: Seq<char>,
    key: Seq<(char, IngredientView)>,
)
    ensures
        spec_row_unbound(location, row, key) is Ok <==> forall|j: int|
            #![trigger row[j]]
            0 <= j < row.len() && row[j] != ' ' ==> spec_bound(key, row[j]),
        super::types::spec_recipe_result(spec_row_unbound(location, row, key), location),
    decreases row.len(),
{
    if row.len() > 0 {
        let t = row.drop_first();
        lemma_row_unbound(location, t, key);
        assert forall|j: int| 0 < j < row.len() implies #[trigger] row[j] == t[j - 1] by {}
    }
}

/// The rows pass exactly when every non-space character in them is bound.
pub proof fn lemma_rows_unbound(
    location: ResourceLocationView,
    rows: Seq<Seq<char>>,
    key: Seq<(char, IngredientView)>,
)
    ensures
        spec_rows_unbound(location, rows, key) is Ok <==> forall|i: int, j: int|
            #![trigger rows[i][j]]
            0 <= i < rows.len() && 0 <= j < rows[i].len() && rows[i][j] != ' ' ==> spec_bound(
                key,
                rows[i][j],
            ),
        super::types::spec_recipe_result(spec_rows_unbound(location, rows, key), location),
    decreases rows.len(),
{
    if rows.len() > 0 {
        let t = rows.drop_first();
        lemma_row_unbound(location, rows[0], key);
        lemma_rows_unbound(location, t, key);
        assert forall|i: int| 0 < i < rows.len() implies #[trigger] rows[i] == t[i - 1] by {}
        if spec_row_unbound(location, rows[0], key) is Ok && spec_rows_unbound(location, t, key)
            is Ok {
            assert forall|i: int, j: int|
                0 <= i < rows.len() && 0 <= j < rows[i].len() && #[trigger] rows[i][j] != ' '
                implies spec_bound(key, rows[i][j]) by {
                if i > 0 {
                    assert(rows[i] == t[i - 1]);
                    assert(t[i - 1][j] == rows[i][j]);
                } else {
                    assert(rows[0][j] == rows[i][j]);
                }
            }
        }
        if spec_row_unbound(location, rows[0], key) is Err {
            let j = choose|j: int|
                #![trigger rows[0][j]]
                0 <= j < rows[0].len() && rows[0][j] != ' ' && !spec_bound(key, rows[0][j]);
            assert(rows[0][j] != ' ');
        } else if spec_rows_unbound(location, t, key) is Err {
            let (i, j) = choose|i: int, j: int|
                #![trigger t[i][j]]
                0 <= i < t.len() && 0 <= j < t[i].len() && t[i][j] != ' ' && !spec_bound(key, t[i][j]);
            assert(rows[i + 1] == t[i]);
            assert(rows[i + 1][j] == t[i][j]);
        }
    }
}

/// The key passes exactly when no binding is of a space and every bound
/// character occurs in the pattern.
pub proof fn lemma_keys(
    location: ResourceLocationView,
    key: Seq<(char, IngredientView)>,
    pattern: Seq<Seq<char>>,
)
    ensures
        spec_keys_check(location, key, pattern) is Ok <==> forall|j: int|
            #![trigger key[j]]
            0 <= j < key.len() ==> key[j].0 != ' ' && spec_in_pattern(pattern, key[j].0),
        super::types::spec_recipe_result(spec_keys_check(location, key, pattern), location),
    decreases key.len(),
{
    if key.len() > 0 {
        let t = key.drop_first();
        lemma_keys(location, t, pattern);
        assert forall|j: int| 0 < j < key.len() implies #[trigger] key[j] == t[j - 1] by {}
    }
}

/// The bound ingredients pass exactly when each passes at its `key['c']`
/// field.
pub proof fn lemma_key_ingredients(location: ResourceLocationView, key: Seq<(char, IngredientView)>)
    ensures
        spec_key_ingredients_check(location, key) is Ok <==> forall|j: int|
            #![trigger key[j]]
            0 <= j < key.len() ==> spec_ingredient_check(key[j].1, location, spec_key_field(key[j].0))
                is Ok,
        super::types::spec_recipe_result(spec_key_ingredients_check(location, key), location),
    decreases key.len(),
{
    if key.len() > 0 {
        let t = key.drop_first();
        super::types::lemma_ingredient_error(key[0].1, location, spec_key_field(key[0].0));
        lemma_key_ingredients(location, t);
        assert forall|j: int| 0 < j < key.len() implies #[trigger] key[j] == t[j - 1] by {}
    }
}

/// What a shaped recipe must satisfy to pass validation.
pub open spec fn spec_shaped_valid(v: ShapedRecipeView) -> bool {
    &&& 1 <= v.pattern.len() <= 3
    &&& 1 <= v.pattern[0].len() <= 3
    &&& forall|i: int|
        #![trigger v.pattern[i]]
        0 <= i < v.pattern.len() ==> v.pattern[i].len() == v.pattern[0].len()
    &&& v.result.id.len() > 0
    &&& v.result.count >= 1
    &&& forall|i: int, j: int|
        #![trigger v.pattern[i][j]]
        0 <= i < v.pattern.len() && 0 <= j < v.pattern[i].len() && v.pattern[i][j] != ' '
            ==> spec_bound(v.key, v.pattern[i][j])
    &&& forall|j: int|
        #![trigger v.key[j]]
        0 <= j < v.key.len() ==> v.key[j].0 != ' ' && spec_in_pattern(v.pattern, v.key[j].0)
    &&& forall|j: int|
        #![trigger v.key[j]]
        0 <= j < v.key.len() ==> spec_ingredient_check(
            v.key[j].1,
            v.location,
            spec_key_field(v.key[j].0),
        ) is Ok
}

/// A shaped recipe passes validation exactly when its pattern has 1 to 3
/// rows of the same 1 to 3 columns, its result has an ID and a count of at
/// least one, the characters the key binds are exactly the non-space
/// characters of the pattern, and every bound ingredient passes; every
/// failure is a recipe validation error of this recipe.
pub proof fn law_shaped_valid(v: ShapedRecipeView)
    ensures
        spec_shaped_check(v) is Ok <==> spec_shaped_valid(v),
        super::types::spec_recipe_result(spec_shaped_check(v), v.location),
{
    let l = v.location;
    if v.pattern.len() > 0 && v.pattern.len() <= 3 && v.pattern[0].len() > 0 && v.pattern[0].len()
        <= 3 {
        lemma_widths(l, v.pattern, v.pattern[0].len(), 1);
        lemma_rows_unbound(l, v.pattern, v.key);
        lemma_keys(l, v.key, v.pattern);
        lemma_key_ingredients(l, v.key);
    }
}

} // verus!

verus! {

/// A shaped recipe's JSON ends with `show_notification` holding the
/// recipe's own flag (true unless `show_notification(false)` was called).
pub proof fn law_shaped_show_notification(v: ShapedRecipeView)
    ensures
        spec_shaped_json(v) is Object,
        crate::json::spec_object_entries(spec_shaped_json(v)).last() == ("show_notification"@,
        Json::Bool(v.show_notification)),
        crate::json::spec_object_entries(spec_shaped_json(v)).contains(("show_notification"@,
        Json::Bool(v.show_notification))),
{
    let es = crate::json::spec_object_entries(spec_shaped_json(v));
    assert(es[es.len() - 1] == ("show_notification"@, Json::Bool(v.show_notification)));
}

} // verus!
