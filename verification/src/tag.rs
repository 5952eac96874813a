//! Datapack tags: the legacy string-based [`Tag`] and the registry-checked
//! [`TypedTag`].

mod sealed;

use std::marker::PhantomData;

use vstd::prelude::*;
use vstd::string::*;

use crate::error::{SandError, SandErrorView, view_unit_result};
use crate::json::{
    Json, JsonValue, lemma_view_entries_empty, lemma_view_values_empty, push_entry, push_value,
    spec_string_array, string_array, view_entries, view_json, view_values,
};
use crate::registry::{
    BlockKind, EntityTypeKind, FunctionKind, ItemKind, RegistryId, TagId, VillagerTradeKind,
};
use crate::resource_location::{ResourceLocation, ResourceLocationView, spec_parse_location};
use crate::text::{owned, push_char};

pub use sealed::Sealed;

verus! {

/// The abstract value of a legacy [`Tag`].
pub struct TagView {
    pub location: ResourceLocationView,
    pub replace: bool,
    pub values: Seq<Seq<char>>,
}

/// A Minecraft tag file grouping entities, items, blocks, or other objects.
pub struct Tag {
    /// The resource location for this tag.
    pub location: ResourceLocation,
    replace: bool,
    /// Tag entries (IDs or `#`-prefixed tag references).
    pub values: Vec<String>,
}

impl View for Tag {
    type V = TagView;

    closed spec fn view(&self) -> TagView {
        TagView {
            location: self.location@,
            replace: self.replace,
            values: self.values@.map_values(|s: String| s@),
        }
    }
}

/// The JSON document of a legacy tag.
pub open spec fn spec_tag_json(v: TagView) -> Json {
    Json::Object(seq![("replace"@, Json::Bool(v.replace)), ("values"@, spec_string_array(v.values))])
}

impl Tag {
    /// A new, empty, non-replacing tag.
    pub fn new(location: ResourceLocation) -> (r: Self)
        ensures
            r@ == (TagView { location: location@, replace: false, values: Seq::empty() }),
    {
        let t = Tag { location, replace: false, values: Vec::new() };
        assert(t@.values =~= Seq::<Seq<char>>::empty());
        t
    }

    /// Adds one entry.
    pub fn entry(self, id: &str) -> (r: Self)
        ensures
            r@ == (TagView { values: self@.values.push(id@), ..self@ }),
    {
        let mut s = self;
        let ghost prev = s.values@;
        s.values.push(owned(id));
        assert(s.values@.map_values(|x: String| x@) =~= prev.map_values(|x: String| x@).push(id@));
        s
    }

    /// Adds a reference to another tag (prefixed with `#`).
    pub fn tag_ref(self, tag: &str) -> (r: Self)
        ensures
            r@ == (TagView { values: self@.values.push(seq!['#'] + tag@), ..self@ }),
    {
        let mut s = self;
        let mut v = String::new();
        push_char(&mut v, '#');
        v.append(tag);
        let ghost prev = s.values@;
        s.values.push(v);
        assert(s.values@.map_values(|x: String| x@) =~= prev.map_values(|x: String| x@).push(
            seq!['#'] + tag@,
        ));
        s
    }

    /// Sets whether this tag replaces existing definitions.
    pub fn replace(self, v: bool) -> (r: Self)
        ensures
            r@ == (TagView { replace: v, ..self@ }),
    {
        let mut s = self;
        s.replace = v;
        s
    }

    /// The component's resource location.
    pub fn resource_location(&self) -> (r: &ResourceLocation)
        ensures
            r@ == self@.location,
    {
        &self.location
    }

    /// The JSON document `{"replace": .., "values": [..]}`.
    pub fn to_json(&self) -> (r: JsonValue)
        ensures
            view_json(r) == spec_tag_json(self@),
    {
        let mut m: Vec<(String, JsonValue)> = Vec::new();
        proof {
            lemma_view_entries_empty();
        }
        push_entry(&mut m, "replace", JsonValue::Bool(self.replace));
        push_entry(&mut m, "values", string_array(&self.values));
        assert(view_entries(m@) =~= seq![
            ("replace"@, Json::Bool(self@.replace)),
            ("values"@, spec_string_array(self@.values)),
        ]);
        JsonValue::Object(m)
    }

    /// The datapack directory (`tags`).
    pub fn component_dir(&self) -> (r: &'static str)
        ensures
            r@ == "tags"@,
    {
        "tags"
    }
}

/// Registry marker implemented by IDs that have a vanilla datapack tag
/// directory; it ties a typed tag's entries and output directory together.
pub trait TagRegistry: Sealed + Sized {
    /// Registry whose values the tag contains.
    const REGISTRY_KEY: &'static str;

    /// Directory relative to `data/<namespace>/`.
    const TAG_DIR: &'static str;

    /// The `namespace:path` text of a value.
    spec fn spec_id(&self) -> Seq<char>;

    /// The `namespace:path` text of a value.
    fn id_string(&self) -> (r: String)
        ensures
            r@ == self.spec_id(),
    ;
}

impl Sealed for RegistryId<ItemKind> {}

impl TagRegistry for RegistryId<ItemKind> {
    const REGISTRY_KEY: &'static str = "minecraft:item";
    const TAG_DIR: &'static str = "tags/item";

    open spec fn spec_id(&self) -> Seq<char> {
        self@.text()
    }

    fn id_string(&self) -> (r: String) {
        self.to_string()
    }
}

impl Sealed for RegistryId<BlockKind> {}

impl TagRegistry for RegistryId<BlockKind> {
    const REGISTRY_KEY: &'static str = "minecraft:block";
    const TAG_DIR: &'static str = "tags/block";

    open spec fn spec_id(&self) -> Seq<char> {
        self@.text()
    }

    fn id_string(&self) -> (r: String) {
        self.to_string()
    }
}

impl Sealed for RegistryId<EntityTypeKind> {}

impl TagRegistry for RegistryId<EntityTypeKind> {
    const REGISTRY_KEY: &'static str = "minecraft:entity_type";
    const TAG_DIR: &'static str = "tags/entity_type";

    open spec fn spec_id(&self) -> Seq<char> {
        self@.text()
    }

    fn id_string(&self) -> (r: String) {
        self.to_string()
    }
}

impl Sealed for RegistryId<FunctionKind> {}

impl TagRegistry for RegistryId<FunctionKind> {
    const REGISTRY_KEY: &'static str = "minecraft:function";
    const TAG_DIR: &'static str = "tags/function";

    open spec fn spec_id(&self) -> Seq<char> {
        self@.text()
    }

    fn id_string(&self) -> (r: String) {
        self.to_string()
    }
}

impl Sealed for RegistryId<VillagerTradeKind> {}

impl TagRegistry for RegistryId<VillagerTradeKind> {
    const REGISTRY_KEY: &'static str = "minecraft:villager_trade";
    const TAG_DIR: &'static str = "tags/villager_trade";

    open spec fn spec_id(&self) -> Seq<char> {
        self@.text()
    }

    fn id_string(&self) -> (r: String) {
        self.to_string()
    }
}

enum EntryKind<T> {
    Value(T),
    Tag(TagId<T>),
    Raw(String),
}

/// The abstract value of a [`TagEntry`]: its serialized ID and whether it is required.
pub struct TagEntryView {
    pub id: Seq<char>,
    pub required: bool,
}

/// One registry-checked entry in a [`TypedTag`].
///
/// Required entries serialize as strings; optional entries use vanilla's
/// `{ "id": ..., "required": false }` form. Raw constructors validate the
/// resource location and normalize tag references to exactly one leading `#`.
pub struct TagEntry<T> {
    kind: EntryKind<T>,
    required: bool,
}

impl<T: TagRegistry> View for TagEntry<T> {
    type V = TagEntryView;

    closed spec fn view(&self) -> TagEntryView {
        TagEntryView {
            id: match self.kind {
                EntryKind::Value(v) => v.spec_id(),
                EntryKind::Tag(t) => seq!['#'] + t@.text(),
                EntryKind::Raw(s) => s@,
            },
            required: self.required,
        }
    }
}

/// The result of the raw entry constructors: one leading `#` marks a tag
/// reference; a second `#` is rejected; the rest must parse as a location.
pub open spec fn spec_raw_entry(id: Seq<char>, required: bool) -> Result<
    TagEntryView,
    SandErrorView,
> {
    let tag = id.len() > 0 && id[0] == '#';
    let plain = if tag {
        id.drop_first()
    } else {
        id
    };
    if plain.len() > 0 && plain[0] == '#' {
        Err(SandErrorView::InvalidPath(id))
    } else {
        match spec_parse_location(plain) {
            Err(e) => Err(e),
            Ok(l) => Ok(
                TagEntryView {
                    id: if tag {
                        seq!['#'] + l.text()
                    } else {
                        l.text()
                    },
                    required,
                },
            ),
        }
    }
}

/// The JSON form of an entry.
pub open spec fn spec_entry_json(e: TagEntryView) -> Json {
    if e.required {
        Json::Str(e.id)
    } else {
        Json::Object(seq![("id"@, Json::Str(e.id)), ("required"@, Json::Bool(false))])
    }
}

impl<T: TagRegistry> TagEntry<T> {
    /// A required registry value entry.
    pub fn value(value: T) -> (r: Self)
        ensures
            r@ == (TagEntryView { id: value.spec_id(), required: true }),
    {
        TagEntry { kind: EntryKind::Value(value), required: true }
    }

    /// An optional registry value entry.
    pub fn optional_value(value: T) -> (r: Self)
        ensures
            r@ == (TagEntryView { id: value.spec_id(), required: false }),
    {
        TagEntry { kind: EntryKind::Value(value), required: false }
    }

    /// A required reference to another tag of the same registry.
    pub fn tag(tag: TagId<T>) -> (r: Self)
        ensures
            r@ == (TagEntryView { id: seq!['#'] + tag@.text(), required: true }),
    {
        TagEntry { kind: EntryKind::Tag(tag), required: true }
    }

    /// An optional reference to another tag of the same registry.
    pub fn optional_tag(tag: TagId<T>) -> (r: Self)
        ensures
            r@ == (TagEntryView { id: seq!['#'] + tag@.text(), required: false }),
    {
        TagEntry { kind: EntryKind::Tag(tag), required: false }
    }

    /// Validated escape hatch for a value ID or `#`-prefixed tag reference.
    pub fn raw(id: &str) -> (r: Result<Self, SandError>)
        ensures
            match (r, spec_raw_entry(id@, true)) {
                (Ok(e), Ok(v)) => e@ == v,
                (Err(e), Err(v)) => e@ == v,
                _ => false,
            },
    {
        Self::raw_with_required(id, true)
    }

    /// Validated optional escape hatch for a value ID or tag reference.
    pub fn optional_raw(id: &str) -> (r: Result<Self, SandError>)
        ensures
            match (r, spec_raw_entry(id@, false)) {
                (Ok(e), Ok(v)) => e@ == v,
                (Err(e), Err(v)) => e@ == v,
                _ => false,
            },
    {
        Self::raw_with_required(id, false)
    }

    /// Splits off one leading `#`, rejects a second one, and normalizes the rest.
    pub fn raw_with_required(id: &str, required: bool) -> (r: Result<Self, SandError>)
        ensures
            match (r, spec_raw_entry(id@, required)) {
                (Ok(e), Ok(v)) => e@ == v,
                (Err(e), Err(v)) => e@ == v,
                _ => false,
            },
    {
        let n = id.unicode_len();
        let tag = n > 0 && id.get_char(0) == '#';
        let plain = if tag {
            id.substring_char(1, n)
        } else {
            id
        };
        assert(tag ==> plain@ =~= id@.drop_first());
        if plain.unicode_len() > 0 && plain.get_char(0) == '#' {
            return Err(SandError::InvalidPath(owned(id)));
        }
        let parsed = ResourceLocation::parse(plain)?;
        let normalized = if tag {
            let mut s = String::new();
            push_char(&mut s, '#');
            let t = parsed.to_string();
            s.append(t.as_str());
            s
        } else {
            parsed.to_string()
        };
        Ok(TagEntry { kind: EntryKind::Raw(normalized), required })
    }

    /// The serialized ID: the value's text, `#` plus the tag's text, or the
    /// normalized raw text.
    pub fn id(&self) -> (r: String)
        ensures
            r@ == self@.id,
    {
        match &self.kind {
            EntryKind::Value(v) => v.id_string(),
            EntryKind::Tag(t) => t.to_tag_string(),
            EntryKind::Raw(s) => s.clone(),
        }
    }

    /// The JSON form: a string when required, else `{"id": .., "required": false}`.
    pub fn to_json(&self) -> (r: JsonValue)
        ensures
            view_json(r) == spec_entry_json(self@),
    {
        let id = self.id();
        if self.required {
            JsonValue::Str(id)
        } else {
            let mut m: Vec<(String, JsonValue)> = Vec::new();
            proof {
                lemma_view_entries_empty();
            }
            push_entry(&mut m, "id", JsonValue::Str(id));
            push_entry(&mut m, "required", JsonValue::Bool(false));
            assert(view_entries(m@) =~= seq![
                ("id"@, Json::Str(self@.id)),
                ("required"@, Json::Bool(false)),
            ]);
            JsonValue::Object(m)
        }
    }
}

/// The abstract value of a [`TypedTag`].
pub struct TypedTagView {
    pub location: ResourceLocationView,
    pub replace: bool,
    pub allow_empty: bool,
    pub values: Seq<TagEntryView>,
}

/// A tag whose entries and output directory are tied to registry type `T`.
///
/// Entries keep insertion order, duplicates included. Empty typed tags are
/// rejected by validation unless [`TypedTag::allow_empty`] is set.
pub struct TypedTag<T: TagRegistry> {
    location: TagId<T>,
    replace: bool,
    allow_empty: bool,
    values: Vec<TagEntry<T>>,
    _marker: PhantomData<T>,
}

impl<T: TagRegistry> View for TypedTag<T> {
    type V = TypedTagView;

    closed spec fn view(&self) -> TypedTagView {
        TypedTagView {
            location: self.location@,
            replace: self.replace,
            allow_empty: self.allow_empty,
            values: self.values@.map_values(|e: TagEntry<T>| e@),
        }
    }
}

/// The JSON document of a typed tag.
pub open spec fn spec_typed_tag_json(v: TypedTagView) -> Json {
    Json::Object(
        seq![
            ("replace"@, Json::Bool(v.replace)),
            ("values"@, Json::Array(v.values.map_values(|e: TagEntryView| spec_entry_json(e)))),
        ],
    )
}

/// The validation result of a typed tag whose values live under `dir`.
pub open spec fn spec_typed_tag_validate(v: TypedTagView, dir: Seq<char>) -> Result<
    (),
    SandErrorView,
> {
    if v.values.len() == 0 && !v.allow_empty {
        Err(
            SandErrorView::ComponentValidation {
                location: v.location,
                kind: dir,
                field: "values"@,
                message: "typed tags must contain at least one entry; call allow_empty(true) for an intentional empty tag"@,
            },
        )
    } else {
        Ok(())
    }
}

impl<T: TagRegistry> TypedTag<T> {
    /// An empty typed tag; add values or call `allow_empty(true)`.
    pub fn new(location: TagId<T>) -> (r: Self)
        ensures
            r@ == (TypedTagView {
                location: location@,
                replace: false,
                allow_empty: false,
                values: Seq::empty(),
            }),
    {
        let t = TypedTag {
            location,
            replace: false,
            allow_empty: false,
            values: Vec::new(),
            _marker: PhantomData,
        };
        assert(t@.values =~= Seq::<TagEntryView>::empty());
        t
    }

    /// Adds an already constructed entry.
    pub fn with_entry(self, entry: TagEntry<T>) -> (r: Self)
        ensures
            r@ == (TypedTagView { values: self@.values.push(entry@), ..self@ }),
    {
        let mut s = self;
        let ghost prev = s.values@;
        let ghost ev = entry@;
        s.values.push(entry);
        assert(s.values@.map_values(|e: TagEntry<T>| e@) =~= prev.map_values(|e: TagEntry<T>| e@).push(ev));
        s
    }

    /// Adds a required value.
    pub fn entry(self, value: T) -> (r: Self)
        ensures
            r@ == (TypedTagView {
                values: self@.values.push(TagEntryView { id: value.spec_id(), required: true }),
                ..self@
            }),
    {
        self.with_entry(TagEntry::value(value))
    }

    /// Adds an optional value.
    pub fn optional_entry(self, value: T) -> (r: Self)
        ensures
            r@ == (TypedTagView {
                values: self@.values.push(TagEntryView { id: value.spec_id(), required: false }),
                ..self@
            }),
    {
        self.with_entry(TagEntry::optional_value(value))
    }

    /// Adds a required reference to another tag of this registry.
    pub fn tag_ref(self, tag: TagId<T>) -> (r: Self)
        ensures
            r@ == (TypedTagView {
                values: self@.values.push(TagEntryView { id: seq!['#'] + tag@.text(), required: true }),
                ..self@
            }),
    {
        self.with_entry(TagEntry::tag(tag))
    }

    /// Adds an optional reference to another tag of this registry.
    pub fn optional_tag_ref(self, tag: TagId<T>) -> (r: Self)
        ensures
            r@ == (TypedTagView {
                values: self@.values.push(
                    TagEntryView { id: seq!['#'] + tag@.text(), required: false },
                ),
                ..self@
            }),
    {
        self.with_entry(TagEntry::optional_tag(tag))
    }

    /// Adds a validated raw value or tag reference.
    pub fn raw_entry(self, id: &str) -> (r: Result<Self, SandError>)
        ensures
            match (r, spec_raw_entry(id@, true)) {
                (Ok(t), Ok(e)) => t@ == (TypedTagView { values: self@.values.push(e), ..self@ }),
                (Err(e), Err(v)) => e@ == v,
                _ => false,
            },
    {
        let e = TagEntry::raw(id)?;
        Ok(self.with_entry(e))
    }

    /// Adds a validated optional raw value or tag reference.
    pub fn optional_raw_entry(self, id: &str) -> (r: Result<Self, SandError>)
        ensures
            match (r, spec_raw_entry(id@, false)) {
                (Ok(t), Ok(e)) => t@ == (TypedTagView { values: self@.values.push(e), ..self@ }),
                (Err(e), Err(v)) => e@ == v,
                _ => false,
            },
    {
        let e = TagEntry::optional_raw(id)?;
        Ok(self.with_entry(e))
    }

    /// Sets vanilla's replacement flag.
    pub fn replace(self, replace: bool) -> (r: Self)
        ensures
            r@ == (TypedTagView { replace, ..self@ }),
    {
        let mut s = self;
        s.replace = replace;
        s
    }

    /// Permits or rejects an empty values array.
    pub fn allow_empty(self, allow: bool) -> (r: Self)
        ensures
            r@ == (TypedTagView { allow_empty: allow, ..self@ }),
    {
        let mut s = self;
        s.allow_empty = allow;
        s
    }

    /// Entries in insertion order, duplicates retained.
    pub fn values(&self) -> (r: &[TagEntry<T>])
        ensures
            r@.map_values(|e: TagEntry<T>| e@) == self@.values,
    {
        self.values.as_slice()
    }

    /// The tag's resource location.
    pub fn resource_location(&self) -> (r: &ResourceLocation)
        ensures
            r@ == self@.location,
    {
        self.location.as_resource_location()
    }

    /// The datapack directory of the registry's tags.
    pub fn component_dir(&self) -> (r: &'static str)
        ensures
            r@ == T::TAG_DIR@,
    {
        T::TAG_DIR
    }

    /// Export validation: an empty tag needs `allow_empty(true)`.
    pub fn validate(&self) -> (r: Result<(), SandError>)
        ensures
            view_unit_result(r) == spec_typed_tag_validate(self@, T::TAG_DIR@),
    {
        if self.values.len() == 0 && !self.allow_empty {
            return Err(
                SandError::component(
                    self.location.as_resource_location(),
                    T::TAG_DIR,
                    "values",
                    "typed tags must contain at least one entry; call allow_empty(true) for an intentional empty tag",
                ),
            );
        }
        Ok(())
    }

    /// The JSON document `{"replace": .., "values": [..]}`.
    pub fn to_json(&self) -> (r: JsonValue)
        ensures
            view_json(r) == spec_typed_tag_json(self@),
    {
        let mut vals: Vec<JsonValue> = Vec::new();
        proof {
            lemma_view_values_empty();
        }
        let mut i: usize = 0;
        while i < self.values.len()
            invariant
                i <= self.values.len(),
                view_values(vals@) == self@.values.subrange(0, i as int).map_values(
                    |e: TagEntryView| spec_entry_json(e),
                ),
            decreases self.values.len() - i,
        {
            let j = self.values[i].to_json();
            push_value(&mut vals, j);
            assert(self@.values.subrange(0, i + 1).map_values(|e: TagEntryView| spec_entry_json(e))
                =~= self@.values.subrange(0, i as int).map_values(|e: TagEntryView| spec_entry_json(e)).push(
                spec_entry_json(self.values@[i as int]@)));
            i = i + 1;
        }
        assert(self@.values.subrange(0, self.values.len() as int) =~= self@.values);
        let mut m: Vec<(String, JsonValue)> = Vec::new();
        proof {
            lemma_view_entries_empty();
        }
        push_entry(&mut m, "replace", JsonValue::Bool(self.replace));
        push_entry(&mut m, "values", JsonValue::Array(vals));
        assert(view_entries(m@) =~= seq![
            ("replace"@, Json::Bool(self@.replace)),
            ("values"@, Json::Array(self@.values.map_values(|e: TagEntryView| spec_entry_json(e)))),
        ]);
        JsonValue::Object(m)
    }

    /// Validates, then renders the JSON document.
    pub fn try_content(&self) -> (r: Result<JsonValue, SandError>)
        ensures
            match (r, spec_typed_tag_validate(self@, T::TAG_DIR@)) {
                (Ok(j), Ok(())) => view_json(j) == spec_typed_tag_json(self@),
                (Err(e), Err(v)) => e@ == v,
                _ => false,
            },
    {
        self.validate()?;
        Ok(self.to_json())
    }
}

} // verus!

verus! {

/// A raw tag entry keeps the flag it was asked for: built as required it
/// renders as its bare ID, built as optional it renders as
/// `{"id": .., "required": false}`. Asking for either flag succeeds on the
/// same IDs and gives the same normalized ID.
pub proof fn law_raw_entry_flag(id: Seq<char>, required: bool)
    ensures
        spec_raw_entry(id, required) matches Ok(e) ==> e.required == required,
        spec_raw_entry(id, true) is Ok <==> spec_raw_entry(id, false) is Ok,
        spec_raw_entry(id, true) is Ok ==> spec_raw_entry(id, true)->Ok_0.id == spec_raw_entry(
            id,
            false,
        )->Ok_0.id,
        spec_raw_entry(id, true) matches Ok(e) ==> spec_entry_json(e) == Json::Str(e.id),
        spec_raw_entry(id, false) matches Ok(e) ==> spec_entry_json(e) == Json::Object(
            seq![("id"@, Json::Str(e.id)), ("required"@, Json::Bool(false))],
        ),
{
}

} // verus!
