//! Validated Minecraft resource locations (`namespace:path`) and pack namespaces.

use vstd::prelude::*;
use vstd::string::*;

use crate::error::SandError;
use crate::text::{concat3, owned};

verus! {

/// A character allowed in a resource-location namespace: `[a-z0-9_.-]`.
pub open spec fn spec_namespace_char(c: char) -> bool {
    ('a' <= c && c <= 'z') || ('0' <= c && c <= '9') || c == '_' || c == '.' || c == '-'
}

/// A character allowed in a resource-location path: `[a-z0-9_./-]`.
pub open spec fn spec_path_char(c: char) -> bool {
    spec_namespace_char(c) || c == '/'
}

/// A non-empty namespace made only of namespace characters.
pub open spec fn spec_valid_namespace(s: Seq<char>) -> bool {
    s.len() > 0 && forall|i: int| 0 <= i < s.len() ==> #[trigger] spec_namespace_char(s[i])
}

/// A non-empty path made only of path characters.
pub open spec fn spec_valid_path(s: Seq<char>) -> bool {
    s.len() > 0 && forall|i: int| 0 <= i < s.len() ==> #[trigger] spec_path_char(s[i])
}

/// Every character of `s` from index `i` on is a path character.
pub open spec fn spec_path_chars_from(s: Seq<char>, i: int) -> bool
    decreases s.len() - i,
{
    if i < 0 || i >= s.len() {
        true
    } else {
        spec_path_char(s[i]) && spec_path_chars_from(s, i + 1)
    }
}

/// Every character of `s` from index `i` on is a namespace character.
pub open spec fn spec_namespace_chars_from(s: Seq<char>, i: int) -> bool
    decreases s.len() - i,
{
    if i < 0 || i >= s.len() {
        true
    } else {
        spec_namespace_char(s[i]) && spec_namespace_chars_from(s, i + 1)
    }
}

/// The character-by-character check implies the path grammar's character rule.
pub proof fn lemma_path_chars_from(s: Seq<char>, i: int)
    requires
        0 <= i,
        spec_path_chars_from(s, i),
    ensures
        forall|j: int| i <= j < s.len() ==> #[trigger] spec_path_char(s[j]),
    decreases s.len() - i,
{
    if i < s.len() {
        lemma_path_chars_from(s, i + 1);
    }
}

/// The character-by-character check implies the namespace grammar's character rule.
pub proof fn lemma_namespace_chars_from(s: Seq<char>, i: int)
    requires
        0 <= i,
        spec_namespace_chars_from(s, i),
    ensures
        forall|j: int| i <= j < s.len() ==> #[trigger] spec_namespace_char(s[j]),
    decreases s.len() - i,
{
    if i < s.len() {
        lemma_namespace_chars_from(s, i + 1);
    }
}

/// The index of the first `c` in `s` at or after `i`, or `-1` when there is none.
pub open spec fn spec_find_from(s: Seq<char>, c: char, i: int) -> int
    decreases s.len() - i,
{
    if i < 0 || i >= s.len() {
        -1
    } else if s[i] == c {
        i
    } else {
        spec_find_from(s, c, i + 1)
    }
}

/// The index of the first `c` in `s`, or `-1`.
pub open spec fn spec_find(s: Seq<char>, c: char) -> int {
    spec_find_from(s, c, 0)
}

/// The abstract value of a resource location: its namespace and its path.
pub struct ResourceLocationView {
    pub namespace: Seq<char>,
    pub path: Seq<char>,
}

impl ResourceLocationView {
    /// Both parts satisfy the resource-location grammar.
    pub open spec fn valid(self) -> bool {
        spec_valid_namespace(self.namespace) && spec_valid_path(self.path)
    }

    /// The `namespace:path` text.
    pub open spec fn text(self) -> Seq<char> {
        self.namespace + seq![':'] + self.path
    }
}

/// The result of `ResourceLocation::new(namespace, path)`.
pub open spec fn spec_new_location(namespace: Seq<char>, path: Seq<char>) -> Result<
    ResourceLocationView,
    SandErrorView,
> {
    if !spec_valid_namespace(namespace) {
        Err(SandErrorView::InvalidNamespace(namespace))
    } else if !spec_valid_path(path) {
        Err(SandErrorView::InvalidPath(path))
    } else {
        Ok(ResourceLocationView { namespace, path })
    }
}

/// The result of parsing `namespace:path` text: the text is split at its first
/// colon; text without a colon is an invalid namespace.
pub open spec fn spec_parse_location(s: Seq<char>) -> Result<ResourceLocationView, SandErrorView> {
    let i = spec_find(s, ':');
    if i < 0 {
        Err(SandErrorView::InvalidNamespace(s))
    } else {
        spec_new_location(s.subrange(0, i), s.subrange(i + 1, s.len() as int))
    }
}

pub use crate::error::SandErrorView;

/// Whether `c` may appear in a namespace.
pub fn is_namespace_char(c: char) -> (b: bool)
    ensures
        b == spec_namespace_char(c),
{
    ('a' <= c && c <= 'z') || ('0' <= c && c <= '9') || c == '_' || c == '.' || c == '-'
}

/// Whether `c` may appear in a path.
pub fn is_path_char(c: char) -> (b: bool)
    ensures
        b == spec_path_char(c),
{
    is_namespace_char(c) || c == '/'
}

/// Checks the namespace grammar, failing with `InvalidNamespace` carrying the text.
pub fn validate_namespace(s: &str) -> (r: Result<(), SandError>)
    ensures
        r is Ok <==> spec_valid_namespace(s@),
        r matches Err(e) ==> e@ == SandErrorView::InvalidNamespace(s@),
{
    let n = s.unicode_len();
    let mut ok = n > 0;
    let mut i: usize = 0;
    while i < n
        invariant
            n == s@.len(),
            i <= n,
            ok == (n > 0 && forall|j: int| 0 <= j < i ==> #[trigger] spec_namespace_char(s@[j])),
        decreases n - i,
    {
        if !is_namespace_char(s.get_char(i)) {
            ok = false;
        }
        i = i + 1;
    }
    if ok {
        Ok(())
    } else {
        Err(SandError::InvalidNamespace(owned(s)))
    }
}

/// Checks the path grammar, failing with `InvalidPath` carrying the text.
pub fn validate_path(s: &str) -> (r: Result<(), SandError>)
    ensures
        r is Ok <==> spec_valid_path(s@),
        r matches Err(e) ==> e@ == SandErrorView::InvalidPath(s@),
{
    let n = s.unicode_len();
    let mut ok = n > 0;
    let mut i: usize = 0;
    while i < n
        invariant
            n == s@.len(),
            i <= n,
            ok == (n > 0 && forall|j: int| 0 <= j < i ==> #[trigger] spec_path_char(s@[j])),
        decreases n - i,
    {
        if !is_path_char(s.get_char(i)) {
            ok = false;
        }
        i = i + 1;
    }
    if ok {
        Ok(())
    } else {
        Err(SandError::InvalidPath(owned(s)))
    }
}

/// A validated Minecraft resource location in the form `namespace:path`.
///
/// - **namespace** matches `[a-z0-9_.-]+`
/// - **path** matches `[a-z0-9_./-]+`
#[derive(Debug, PartialEq, Eq, Hash)]
pub struct ResourceLocation {
    namespace: String,
    path: String,
}

impl View for ResourceLocation {
    type V = ResourceLocationView;

    closed spec fn view(&self) -> ResourceLocationView {
        ResourceLocationView { namespace: self.namespace@, path: self.path@ }
    }
}

impl ResourceLocation {
    /// Every resource location satisfies the grammar.
    #[verifier::type_invariant]
    spec fn well_formed(self) -> bool {
        self@.valid()
    }

    /// Every resource location satisfies the grammar.
    pub fn check_valid(&self)
        ensures
            self@.valid(),
    {
        proof {
            use_type_invariant(self);
        }
    }

    /// Constructs a resource location, failing if either part is invalid
    /// (the namespace is checked first).
    pub fn new(namespace: &str, path: &str) -> (r: Result<Self, SandError>)
        ensures
            match (r, spec_new_location(namespace@, path@)) {
                (Ok(l), Ok(v)) => l@ == v,
                (Err(e), Err(v)) => e@ == v,
                _ => false,
            },
    {
        validate_namespace(namespace)?;
        validate_path(path)?;
        Ok(ResourceLocation { namespace: owned(namespace), path: owned(path) })
    }

    /// `ResourceLocation::new("minecraft", path)`.
    pub fn minecraft(path: &str) -> (r: Result<Self, SandError>)
        ensures
            match (r, spec_new_location(seq!['m', 'i', 'n', 'e', 'c', 'r', 'a', 'f', 't'], path@)) {
                (Ok(l), Ok(v)) => l@ == v,
                (Err(e), Err(v)) => e@ == v,
                _ => false,
            },
    {
        let ns = "minecraft";
        proof {
            reveal_strlit("minecraft");
        }
        assert(ns@ =~= seq!['m', 'i', 'n', 'e', 'c', 'r', 'a', 'f', 't']);
        Self::new(ns, path)
    }

    /// The namespace before the colon.
    pub fn namespace(&self) -> (r: &str)
        ensures
            r@ == self@.namespace,
    {
        self.namespace.as_str()
    }

    /// The path after the colon.
    pub fn path(&self) -> (r: &str)
        ensures
            r@ == self@.path,
    {
        self.path.as_str()
    }

    /// The `namespace:path` text.
    pub fn to_string(&self) -> (r: String)
        ensures
            r@ == self@.text(),
    {
        let colon = ":";
        proof {
            reveal_strlit(":");
        }
        concat3(self.namespace.as_str(), colon, self.path.as_str())
    }

    /// Parses `namespace:path` text, splitting at the first colon.
    pub fn parse(s: &str) -> (r: Result<Self, SandError>)
        ensures
            match (r, spec_parse_location(s@)) {
                (Ok(l), Ok(v)) => l@ == v,
                (Err(e), Err(v)) => e@ == v,
                _ => false,
            },
    {
        let n = s.unicode_len();
        let mut i: usize = 0;
        while i < n
            invariant
                n == s@.len(),
                i <= n,
                spec_find(s@, ':') == spec_find_from(s@, ':', i as int),
            decreases n - i,
        {
            if s.get_char(i) == ':' {
                let ns = s.substring_char(0, i);
                let path = s.substring_char(i + 1, n);
                return Self::new(ns, path);
            }
            i = i + 1;
        }
        Err(SandError::InvalidNamespace(owned(s)))
    }

}

impl Clone for ResourceLocation {
    fn clone(&self) -> (r: Self)
        ensures
            r@ == self@,
    {
        proof {
            use_type_invariant(self);
        }
        ResourceLocation { namespace: self.namespace.clone(), path: self.path.clone() }
    }
}

impl Clone for PackNamespace {
    fn clone(&self) -> (r: Self)
        ensures
            r@ == self@,
    {
        proof {
            use_type_invariant(self);
        }
        PackNamespace(self.0.clone())
    }
}

impl std::str::FromStr for ResourceLocation {
    type Err = SandError;

    fn from_str(s: &str) -> Result<Self, SandError> {
        Self::parse(s)
    }
}

/// The first colon of a valid location's text sits right after its namespace.
proof fn lemma_find_colon(v: ResourceLocationView, i: int)
    requires
        v.valid(),
        0 <= i <= v.namespace.len(),
    ensures
        spec_find_from(v.text(), ':', i) == v.namespace.len(),
    decreases v.namespace.len() - i,
{
    let t = v.text();
    if i < v.namespace.len() {
        assert(t[i] == v.namespace[i]);
        assert(spec_namespace_char(v.namespace[i]));
        lemma_find_colon(v, i + 1);
    } else {
        assert(t[i] == ':');
    }
}

/// Parsing the text of a resource location gives that location back.
pub proof fn law_parse_text_roundtrip(v: ResourceLocationView)
    requires
        v.valid(),
    ensures
        spec_parse_location(v.text()) == Ok::<ResourceLocationView, SandErrorView>(v),
{
    lemma_find_colon(v, 0);
    let t = v.text();
    let i = v.namespace.len() as int;
    assert(t.subrange(0, i) =~= v.namespace);
    assert(t.subrange(i + 1, t.len() as int) =~= v.path);
}

/// Text that parses successfully is exactly the text of the parsed location.
pub proof fn law_parse_then_text(s: Seq<char>)
    requires
        spec_parse_location(s) is Ok,
    ensures
        spec_parse_location(s)->Ok_0.text() == s,
{
    let i = spec_find(s, ':');
    lemma_find_bounds(s, ':', 0);
    assert(s[i] == ':');
    assert(spec_parse_location(s)->Ok_0.text() =~= s);
}

/// A found index is in bounds and holds the character.
pub proof fn lemma_find_bounds(s: Seq<char>, c: char, i: int)
    requires
        0 <= i,
    ensures
        spec_find_from(s, c, i) == -1 || (i <= spec_find_from(s, c, i) < s.len() && s[spec_find_from(
            s,
            c,
            i,
        )] == c),
    decreases s.len() - i,
{
    if i < s.len() && s[i] != c {
        lemma_find_bounds(s, c, i + 1);
    }
}

/// The user's declared pack namespace (e.g. `"my_pack"`).
#[derive(Debug, PartialEq, Eq, Hash)]
pub struct PackNamespace(String);

impl View for PackNamespace {
    type V = Seq<char>;

    closed spec fn view(&self) -> Seq<char> {
        self.0@
    }
}

impl PackNamespace {
    #[verifier::type_invariant]
    spec fn well_formed(self) -> bool {
        spec_valid_namespace(self.0@)
    }

    /// Validates and creates a datapack resource namespace.
    pub fn new(namespace: &str) -> (r: Result<Self, SandError>)
        ensures
            r is Ok <==> spec_valid_namespace(namespace@),
            r matches Ok(p) ==> p@ == namespace@,
            r matches Err(e) ==> e@ == SandErrorView::InvalidNamespace(namespace@),
    {
        validate_namespace(namespace)?;
        Ok(PackNamespace(owned(namespace)))
    }

    /// The validated namespace text.
    pub fn as_str(&self) -> (r: &str)
        ensures
            r@ == self@,
            spec_valid_namespace(r@),
    {
        proof {
            use_type_invariant(self);
        }
        self.0.as_str()
    }
}

} // verus!
