//! A JSON document as a tree of plain values.
//!
//! The text itself is read and written by `serde_json`; what the library asks
//! of a document, and what it puts into one, is stated over the tree.

use vstd::prelude::*;

use crate::text::same;
#[allow(unused_imports)]
use crate::text::{comes_before, strictly_ordered, texts_are_ordered};

verus! {

/// One JSON value.
#[derive(Debug, PartialEq, Eq)]
pub enum Json {
    Null,
    Bool(bool),
    /// A whole number that is not negative.
    Unsigned(u64),
    /// A whole number in the signed range.
    Signed(i64),
    /// Any other number, as it is written.
    Real(String),
    Text(String),
    Array(Vec<Json>),
    /// The members by name.  A document read from text has each name once.
    Object(Vec<(String, Json)>),
}

/// A JSON value with the characters of its texts.
pub enum Tree {
    Null,
    Bool(bool),
    Unsigned(u64),
    Signed(i64),
    Real(Seq<char>),
    Text(Seq<char>),
    Array(Seq<Tree>),
    Object(Seq<(Seq<char>, Tree)>),
}

impl View for Json {
    type V = Tree;

    open spec fn view(&self) -> Tree {
        self.tree()
    }
}

impl Json {
    /// The tree of the value.
    pub open spec fn tree(self) -> Tree
        decreases self,
    {
        match self {
            Json::Null => Tree::Null,
            Json::Bool(b) => Tree::Bool(b),
            Json::Unsigned(n) => Tree::Unsigned(n),
            Json::Signed(n) => Tree::Signed(n),
            Json::Real(s) => Tree::Real(s@),
            Json::Text(s) => Tree::Text(s@),
            Json::Array(items) => Tree::Array(
                Seq::new(
                    items@.len(),
                    |i: int|
                        if 0 <= i < items@.len() {
                            items@[i].tree()
                        } else {
                            Tree::Null
                        },
                ),
            ),
            Json::Object(members) => Tree::Object(
                Seq::new(
                    members@.len(),
                    |i: int|
                        if 0 <= i < members@.len() {
                            (members@[i].0@, members@[i].1.tree())
                        } else {
                            (Seq::empty(), Tree::Null)
                        },
                ),
            ),
        }
    }
}

/// The tree of an optional value.
pub open spec fn opt_tree(j: Option<Json>) -> Option<Tree> {
    match j {
        Some(v) => Some(v@),
        None => None,
    }
}

/// The tree of an optional borrowed value.
pub open spec fn opt_ref_tree(j: Option<&Json>) -> Option<Tree> {
    match j {
        Some(v) => Some(v@),
        None => None,
    }
}

/// The tree of a value that may have failed to read, and the words of the
/// failure.
pub open spec fn result_tree(r: Result<Json, String>) -> Result<Tree, Seq<char>> {
    match r {
        Ok(json) => Ok(json@),
        Err(message) => Err(message@),
    }
}

/// Why a document is not of the shape that was asked for.
#[derive(Debug, Clone, Copy, PartialEq, Eq, Structural)]
pub struct Malformed;

/// What `serde_json` reads a text as: the document, or what it says is wrong
/// with a text that is none.
pub uninterp spec fn read_document(text: Seq<char>) -> Result<Tree, Seq<char>>;

/// The document a text holds, and `None` where the text is no JSON document.
pub open spec fn document(text: Seq<char>) -> Option<Tree> {
    match read_document(text) {
        Ok(tree) => Some(tree),
        Err(_) => None,
    }
}

/// How deep a document nests.
pub open spec fn nesting(tree: Tree, depth: nat) -> bool
    decreases tree,
{
    match tree {
        Tree::Array(items) => depth > 0 && forall|i: int|
            0 <= i < items.len() ==> nesting(#[trigger] items[i], (depth - 1) as nat),
        Tree::Object(members) => depth > 0 && forall|i: int|
            0 <= i < members.len() ==> nesting((#[trigger] members[i]).1, (depth - 1) as nat),
        _ => true,
    }
}

/// The names of an object's members.
pub open spec fn member_names(members: Seq<(Seq<char>, Tree)>) -> Seq<Seq<char>> {
    members.map_values(|m: (Seq<char>, Tree)| m.0)
}

/// A document whose objects name their members in order, each once, and whose
/// numbers are whole and in one spelling.
pub open spec fn in_order(tree: Tree) -> bool
    decreases tree,
{
    match tree {
        Tree::Real(_) => false,
        Tree::Signed(n) => n < 0,
        Tree::Array(items) => forall|i: int| 0 <= i < items.len() ==> in_order(#[trigger] items[i]),
        Tree::Object(members) => strictly_ordered(member_names(members)) && forall|i: int|
            0 <= i < members.len() ==> in_order((#[trigger] members[i]).1),
        _ => true,
    }
}

/// A document that comes back from its text as it was written: it is in order,
/// and does not nest past what a reader follows.
pub open spec fn reads_back(tree: Tree) -> bool {
    in_order(tree) && nesting(tree, 100)
}

/// The text of a document, as `serde_json` writes it in one line.
pub uninterp spec fn document_text(tree: Tree) -> Seq<char>;

/// The text of a document over several lines, as `serde_json` writes it.
pub uninterp spec fn document_pretty(tree: Tree) -> Seq<char>;

#[verifier::external_type_specification]
#[verifier::external_body]
pub struct ExValue(serde_json::Value);

/// `serde_json::from_str` into a `serde_json::Value`: what comes back depends
/// on the text alone, the words of the error too.  Where an object repeats a
/// name, the last value stands.
#[verifier::external_body]
pub(crate) fn parse_document(text: &str) -> (r: Result<Json, String>)
    ensures
        result_tree(r) == read_document(text@),
{
    serde_json::from_str::<serde_json::Value>(text).map(of_value).map_err(|e| e.to_string())
}

/// The document some bytes hold, as `serde_json` reads them, and `None` where
/// they are no JSON document.
pub uninterp spec fn document_of_bytes(bytes: Seq<u8>) -> Option<Tree>;

/// `serde_json::from_slice` into a `serde_json::Value`: what comes back
/// depends on the bytes alone.  Where an object repeats a name, the last value
/// stands.
#[verifier::external_body]
pub(crate) fn parse_bytes(bytes: &Vec<u8>) -> (r: Option<Json>)
    ensures
        opt_tree(r) == document_of_bytes(bytes@),
{
    serde_json::from_slice::<serde_json::Value>(bytes).ok().map(of_value)
}

/// A `serde_json::Value` as the library's own tree, variant by variant.
#[verifier::external_body]
fn of_value(value: serde_json::Value) -> (r: Json) {
    match value {
        serde_json::Value::Null => Json::Null,
        serde_json::Value::Bool(b) => Json::Bool(b),
        serde_json::Value::Number(n) => match (n.as_u64(), n.as_i64()) {
            (Some(u), _) => Json::Unsigned(u),
            (None, Some(i)) => Json::Signed(i),
            (None, None) => Json::Real(n.to_string()),
        },
        serde_json::Value::String(s) => Json::Text(s),
        serde_json::Value::Array(a) => Json::Array(a.into_iter().map(of_value).collect()),
        serde_json::Value::Object(m) => {
            Json::Object(m.into_iter().map(|(k, v)| (k, of_value(v))).collect())
        },
    }
}

/// `serde_json::Value`'s `Display`: the document in one line, which depends on
/// the document alone.  `serde_json::from_str` reads such a text back as the
/// document it was written from, where the members stand in the order in which
/// it keeps them and the nesting is within its limit.
#[verifier::external_body]
pub(crate) fn write_document(json: &Json) -> (r: String)
    ensures
        r@ == document_text(json@),
        reads_back(json@) ==> document(r@) == Some(json@),
{
    to_value(json).to_string()
}

/// `serde_json::to_string_pretty`: the document over several lines, which
/// depends on the document alone.  Every tree has such a text, so the call
/// does not fail.
#[verifier::external_body]
pub(crate) fn write_pretty(json: &Json) -> (r: String)
    ensures
        r@ == document_pretty(json@),
{
    serde_json::to_string_pretty(&to_value(json)).unwrap_or_default()
}

/// The library's tree as a `serde_json::Value`, variant by variant.
#[verifier::external_body]
fn to_value(json: &Json) -> (r: serde_json::Value) {
    match json {
        Json::Null => serde_json::Value::Null,
        Json::Bool(b) => serde_json::Value::Bool(*b),
        Json::Unsigned(n) => serde_json::Value::from(*n),
        Json::Signed(n) => serde_json::Value::from(*n),
        Json::Real(s) => s.parse().map_or(serde_json::Value::Null, serde_json::Value::Number),
        Json::Text(s) => serde_json::Value::String(s.clone()),
        Json::Array(a) => serde_json::Value::Array(a.iter().map(to_value).collect()),
        Json::Object(m) => serde_json::Value::Object(
            m.iter().map(|(k, v)| (k.clone(), to_value(v))).collect(),
        ),
    }
}

/// The value that stands first under `name`.
pub open spec fn lookup(members: Seq<(Seq<char>, Tree)>, name: Seq<char>) -> Option<Tree>
    decreases members.len(),
{
    if members.len() == 0 {
        None
    } else if members[0].0 == name {
        Some(members[0].1)
    } else {
        lookup(members.drop_first(), name)
    }
}

/// Where no name stands twice, each member is found under its name.
pub proof fn a_named_member_is_found(members: Seq<(Seq<char>, Tree)>, at: int)
    requires
        strictly_ordered(member_names(members)),
        0 <= at < members.len(),
    ensures
        lookup(members, members[at].0) == Some(members[at].1),
    decreases members.len(),
{
    let names = member_names(members);
    if at > 0 {
        assert(comes_before(names[0], names[at]));
        texts_are_ordered(names[0], names[at]);
        let rest = members.drop_first();
        assert forall|i: int, j: int| 0 <= i < j < rest.len() implies comes_before(
            #[trigger] member_names(rest)[i],
            #[trigger] member_names(rest)[j],
        ) by {
            assert(comes_before(names[i + 1], names[j + 1]));
        }
        a_named_member_is_found(rest, at - 1);
    }
}

/// The member of that name, where the value is an object that has one.
pub open spec fn member(tree: Tree, name: Seq<char>) -> Option<Tree> {
    match tree {
        Tree::Object(members) => lookup(members, name),
        _ => None,
    }
}

/// The characters of a text, and nothing of any other value.
pub open spec fn text_of(tree: Option<Tree>) -> Option<Seq<char>> {
    match tree {
        Some(Tree::Text(s)) => Some(s),
        _ => None,
    }
}

/// A field of a record: the member of that name, or, where the record is
/// spelled as a list, what stands in that place.
pub open spec fn field(tree: Tree, name: Seq<char>, place: nat) -> Option<Tree> {
    match tree {
        Tree::Object(members) => lookup(members, name),
        Tree::Array(items) => if place < items.len() {
            Some(items[place as int])
        } else {
            None
        },
        _ => None,
    }
}

/// Whether a value is a record of that many fields: an object, which may leave
/// out any of them and have others, or a list of their values in order, which
/// may leave off those past the first `needed`.
pub open spec fn is_record(tree: Tree, needed: nat, fields: nat) -> bool {
    match tree {
        Tree::Object(_) => true,
        Tree::Array(items) => needed <= items.len() <= fields,
        _ => false,
    }
}

/// An optional text field: absent and null are both none, and any other value
/// is malformed.
pub open spec fn text_field(tree: Tree, name: Seq<char>, place: nat) -> Result<
    Option<Seq<char>>,
    Malformed,
> {
    match field(tree, name, place) {
        None => Ok(None),
        Some(Tree::Null) => Ok(None),
        Some(Tree::Text(s)) => Ok(Some(s)),
        Some(_) => Err(Malformed),
    }
}

/// An optional truth value: absent and null are both none, and any other value
/// is malformed.
pub open spec fn bool_field(tree: Tree, name: Seq<char>, place: nat) -> Result<
    Option<bool>,
    Malformed,
> {
    match field(tree, name, place) {
        None => Ok(None),
        Some(Tree::Null) => Ok(None),
        Some(Tree::Bool(b)) => Ok(Some(b)),
        Some(_) => Err(Malformed),
    }
}

/// The characters of an optional text that may be malformed.
pub open spec fn opt_text_result(r: Result<Option<String>, Malformed>) -> Result<
    Option<Seq<char>>,
    Malformed,
> {
    match r {
        Ok(s) => Ok(crate::text::opt_text(s)),
        Err(e) => Err(e),
    }
}

impl Json {
    /// Read a document.
    pub fn parse(text: &str) -> (r: Option<Json>)
        ensures
            opt_tree(r) == document(text@),
    {
        parse_document(text).ok()
    }

    /// Read a document, or say what is wrong with it.
    pub fn read(text: &str) -> (r: Result<Json, String>)
        ensures
            result_tree(r) == read_document(text@),
    {
        parse_document(text)
    }

    /// The document in one line.
    pub fn line(&self) -> (r: String)
        ensures
            r@ == document_text(self@),
            reads_back(self@) ==> document(r@) == Some(self@),
    {
        write_document(self)
    }

    /// The document over several lines.
    pub fn pretty(&self) -> (r: String)
        ensures
            r@ == document_pretty(self@),
    {
        write_pretty(self)
    }

    /// The member of that name.
    pub fn get(&self, name: &str) -> (r: Option<&Json>)
        ensures
            opt_ref_tree(r) == member(self@, name@),
    {
        match self {
            Json::Object(members) => {
                let ghost all = self@->Object_0;
                let mut i: usize = 0;
                proof {
                    assert(all.skip(0) == all);
                }
                while i < members.len()
                    invariant
                        i <= members@.len(),
                        self@ == Tree::Object(all),
                        all.len() == members@.len(),
                        forall|k: int|
                            0 <= k < members@.len() ==> #[trigger] all[k] == (members@[k].0@, members@[k].1@),
                        lookup(all, name@) == lookup(all.skip(i as int), name@),
                    decreases members@.len() - i,
                {
                    assert(all.skip(i as int)[0] == all[i as int]);
                    assert(all.skip(i as int).drop_first() == all.skip(i + 1));
                    if same(&members[i].0, name) {
                        return Some(&members[i].1);
                    }
                    i += 1;
                }
                None
            },
            _ => None,
        }
    }

    /// The text, where the value is one.
    pub fn as_text(&self) -> (r: Option<&String>)
        ensures
            r is Some ==> self@ == Tree::Text(r->0@),
            r is None ==> !(self@ is Text),
    {
        match self {
            Json::Text(s) => Some(s),
            _ => None,
        }
    }

    /// The text under `name`, where there is one.
    pub fn text_at(&self, name: &str) -> (r: Option<String>)
        ensures
            crate::text::opt_text(r) == text_of(member(self@, name@)),
    {
        match self.get(name) {
            Some(Json::Text(s)) => Some(s.clone()),
            _ => None,
        }
    }

    /// A field of a record.
    pub fn field(&self, name: &str, place: usize) -> (r: Option<&Json>)
        ensures
            opt_ref_tree(r) == field(self@, name@, place as nat),
    {
        match self {
            Json::Object(_) => self.get(name),
            Json::Array(items) => {
                let ghost all = self@->Array_0;
                if place < items.len() {
                    assert(all[place as int] == items@[place as int]@);
                    Some(&items[place])
                } else {
                    None
                }
            },
            _ => None,
        }
    }

    /// Whether the value is a record of that many fields.
    pub fn is_record(&self, needed: usize, fields: usize) -> (r: bool)
        ensures
            r == is_record(self@, needed as nat, fields as nat),
    {
        match self {
            Json::Object(_) => true,
            Json::Array(items) => needed <= items.len() && items.len() <= fields,
            _ => false,
        }
    }

    /// The text in a field of a record, where there is one.
    pub fn text_in(&self, name: &str, place: usize) -> (r: Option<String>)
        ensures
            crate::text::opt_text(r) == text_of(field(self@, name@, place as nat)),
    {
        match self.field(name, place) {
            Some(Json::Text(s)) => Some(s.clone()),
            _ => None,
        }
    }

    /// An optional text in a field of a record.
    pub fn opt_text(&self, name: &str, place: usize) -> (r: Result<Option<String>, Malformed>)
        ensures
            opt_text_result(r) == text_field(self@, name@, place as nat),
    {
        match self.field(name, place) {
            None => Ok(None),
            Some(Json::Null) => Ok(None),
            Some(Json::Text(s)) => Ok(Some(s.clone())),
            Some(_) => Err(Malformed),
        }
    }

    /// An optional truth value in a field of a record.
    pub fn opt_bool(&self, name: &str, place: usize) -> (r: Result<Option<bool>, Malformed>)
        ensures
            r == bool_field(self@, name@, place as nat),
    {
        match self.field(name, place) {
            None => Ok(None),
            Some(Json::Null) => Ok(None),
            Some(Json::Bool(b)) => Ok(Some(*b)),
            Some(_) => Err(Malformed),
        }
    }

    /// A copy of the value.
    pub fn copy(&self) -> (r: Json)
        ensures
            r@ == self@,
        decreases self,
    {
        match self {
            Json::Null => Json::Null,
            Json::Bool(b) => Json::Bool(*b),
            Json::Unsigned(n) => Json::Unsigned(*n),
            Json::Signed(n) => Json::Signed(*n),
            Json::Real(s) => Json::Real(s.clone()),
            Json::Text(s) => Json::Text(s.clone()),
            Json::Array(items) => {
                let mut out: Vec<Json> = Vec::new();
                let mut i: usize = 0;
                while i < items.len()
                    invariant
                        i <= items@.len(),
                        out@.len() == i,
                        decreases_to!(self => items),
                        *self == Json::Array(*items),
                        forall|k: int| 0 <= k < i ==> #[trigger] out@[k]@ == items@[k]@,
                    decreases items@.len() - i,
                {
                    out.push(items[i].copy());
                    i += 1;
                }
                let r = Json::Array(out);
                assert forall|k: int| 0 <= k < items@.len() implies r@->Array_0[k] == self@->Array_0[k] by {
                    assert(out@[k]@ == items@[k]@);
                }
                assert(r@->Array_0 =~= self@->Array_0);
                r
            },
            Json::Object(members) => {
                let mut out: Vec<(String, Json)> = Vec::new();
                let mut i: usize = 0;
                while i < members.len()
                    invariant
                        i <= members@.len(),
                        out@.len() == i,
                        decreases_to!(self => members),
                        *self == Json::Object(*members),
                        forall|k: int|
                            0 <= k < i ==> (#[trigger] out@[k]).0@ == members@[k].0@ && out@[k].1@ == members@[k].1@,
                    decreases members@.len() - i,
                {
                    out.push((members[i].0.clone(), members[i].1.copy()));
                    i += 1;
                }
                let r = Json::Object(out);
                assert(r@->Object_0 =~= self@->Object_0);
                r
            },
        }
    }
}

/// A text value.
pub fn text(s: &str) -> (r: Json)
    ensures
        r@ == Tree::Text(s@),
{
    Json::Text(s.to_owned())
}

/// A text value, or null where there is none.
pub fn text_or_null(s: &Option<String>) -> (r: Json)
    ensures
        r@ == (match *s {
            Some(t) => Tree::Text(t@),
            None => Tree::Null,
        }),
{
    match s {
        Some(t) => Json::Text(t.clone()),
        None => Json::Null,
    }
}

/// The tree of a list of members.
pub open spec fn member_trees(members: Seq<(String, Json)>) -> Seq<(Seq<char>, Tree)> {
    members.map_values(|m: (String, Json)| (m.0@, m.1@))
}

/// An object of the given members.
pub fn object(members: Vec<(String, Json)>) -> (r: Json)
    ensures
        r@ == Tree::Object(member_trees(members@)),
{
    let r = Json::Object(members);
    assert(r@->Object_0 =~= member_trees(members@));
    r
}

/// The trees of a list of values.
pub open spec fn trees(items: Seq<Json>) -> Seq<Tree> {
    items.map_values(|j: Json| j@)
}

/// An array of the given values.
pub fn array(items: Vec<Json>) -> (r: Json)
    ensures
        r@ == Tree::Array(trees(items@)),
{
    let r = Json::Array(items);
    assert(r@->Array_0 =~= trees(items@));
    r
}

} // verus!
