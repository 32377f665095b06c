//! A JSON value with a mathematical view, and the two conversions between
//! values and text.

use vstd::prelude::*;
use crate::text::same_text;

verus! {

/// A JSON value. An object keeps its members in insertion order; a lookup
/// finds the first member with the key.
#[derive(Debug)]
pub enum Json {
    Null,
    Bool(bool),
    /// A number that fits a signed 64-bit integer.
    Int(i64),
    /// Any other number, kept as its literal.
    Number(String),
    Text(String),
    List(Vec<Json>),
    Object(Vec<(String, Json)>),
}

/// The mathematical value of a [`Json`].
pub enum JsonView {
    Null,
    Bool(bool),
    Int(int),
    Number(Seq<char>),
    Text(Seq<char>),
    List(Seq<JsonView>),
    Object(Seq<(Seq<char>, JsonView)>),
}

/// The mathematical value of a [`Json`], part by part.
pub open spec fn json_view(j: Json) -> JsonView
    decreases j,
{
    match j {
        Json::Null => JsonView::Null,
        Json::Bool(b) => JsonView::Bool(b),
        Json::Int(n) => JsonView::Int(n as int),
        Json::Number(s) => JsonView::Number(s@),
        Json::Text(s) => JsonView::Text(s@),
        Json::List(items) => JsonView::List(
            Seq::new(
                items@.len(),
                |i: int| if 0 <= i < items@.len() { json_view(items@[i]) } else { JsonView::Null },
            ),
        ),
        Json::Object(members) => JsonView::Object(
            Seq::new(
                members@.len(),
                |i: int|
                    if 0 <= i < members@.len() {
                        (members@[i].0@, json_view(members@[i].1))
                    } else {
                        (Seq::empty(), JsonView::Null)
                    },
            ),
        ),
    }
}

impl View for Json {
    type V = JsonView;

    open spec fn view(&self) -> JsonView {
        json_view(*self)
    }
}

/// The views of a run of members.
pub open spec fn members_view(members: Seq<(String, Json)>) -> Seq<(Seq<char>, JsonView)> {
    Seq::new(members.len(), |i: int| (members[i].0@, members[i].1@))
}

/// The views of a run of values.
pub open spec fn items_view(items: Seq<Json>) -> Seq<JsonView> {
    Seq::new(items.len(), |i: int| items[i]@)
}

/// The value of the first member at or after position `from` whose key is
/// `key`.
pub open spec fn lookup_from(
    members: Seq<(Seq<char>, JsonView)>,
    key: Seq<char>,
    from: int,
) -> Option<
    JsonView,
>
    decreases members.len() - from,
{
    if from < 0 || from >= members.len() {
        None
    } else if members[from].0 == key {
        Some(members[from].1)
    } else {
        lookup_from(members, key, from + 1)
    }
}

/// The value of the first member whose key is `key`.
pub open spec fn lookup(members: Seq<(Seq<char>, JsonView)>, key: Seq<char>) -> Option<JsonView> {
    lookup_from(members, key, 0)
}

impl JsonView {
    /// The members of an object; none for any other value.
    pub open spec fn members(self) -> Seq<(Seq<char>, JsonView)> {
        match self {
            JsonView::Object(m) => m,
            _ => Seq::empty(),
        }
    }

    /// The member of an object under `key`.
    pub open spec fn field(self, key: Seq<char>) -> Option<JsonView> {
        lookup(self.members(), key)
    }

    /// The object has a member under `key`.
    pub open spec fn has(self, key: Seq<char>) -> bool {
        self.field(key) is Some
    }

    /// The characters of a string; nothing for any other value.
    pub open spec fn text(self) -> Option<Seq<char>> {
        match self {
            JsonView::Text(s) => Some(s),
            _ => None,
        }
    }

    /// The number of an integer; nothing for any other value.
    pub open spec fn integer(self) -> Option<int> {
        match self {
            JsonView::Int(n) => Some(n),
            _ => None,
        }
    }

    /// The truth value of a boolean; nothing for any other value.
    pub open spec fn flag(self) -> Option<bool> {
        match self {
            JsonView::Bool(b) => Some(b),
            _ => None,
        }
    }

    /// The elements of a list; nothing for any other value.
    pub open spec fn items(self) -> Option<Seq<JsonView>> {
        match self {
            JsonView::List(items) => Some(items),
            _ => None,
        }
    }

    /// The text under `key`, where that member is a string.
    pub open spec fn text_at(self, key: Seq<char>) -> Option<Seq<char>> {
        match self.field(key) {
            Some(v) => v.text(),
            None => None,
        }
    }
}

/// The value of an object is the object of its members' values.
pub proof fn lemma_object_view(members: Vec<(String, Json)>)
    ensures
        Json::Object(members)@ == JsonView::Object(members_view(members@)),
{
    assert(Json::Object(members)@.members() =~= members_view(members@));
}

/// The value of a list is the list of its elements' values.
pub proof fn lemma_list_view(items: Vec<Json>)
    ensures
        Json::List(items)@ == JsonView::List(items_view(items@)),
{
    assert(Json::List(items)@.items().unwrap() =~= items_view(items@));
}

impl Clone for Json {
    /// A copy with the same value.
    fn clone(&self) -> (r: Json)
        ensures
            r@ == self@,
        decreases self,
    {
        match self {
            Json::Null => Json::Null,
            Json::Bool(b) => Json::Bool(*b),
            Json::Int(n) => Json::Int(*n),
            Json::Number(s) => Json::Number(s.clone()),
            Json::Text(s) => Json::Text(s.clone()),
            Json::List(items) => {
                let mut out: Vec<Json> = Vec::new();
                let mut i: usize = 0;
                while i < items.len()
                    invariant
                        i <= items.len(),
                        decreases_to!(*self => items@),
                        out@.len() == i,
                        forall|k: int| 0 <= k < i ==> (#[trigger] out@[k])@ == items@[k]@,
                    decreases items.len() - i,
                {
                    out.push(items[i].clone());
                    i += 1;
                }
                proof {
                    lemma_list_view(*items);
                    lemma_list_view(out);
                    assert(items_view(out@) =~= items_view(items@));
                }
                Json::List(out)
            },
            Json::Object(members) => {
                let mut out: Vec<(String, Json)> = Vec::new();
                let mut i: usize = 0;
                while i < members.len()
                    invariant
                        i <= members.len(),
                        decreases_to!(*self => members@),
                        out@.len() == i,
                        forall|k: int|
                            0 <= k < i ==> (#[trigger] out@[k]).0@ == members@[k].0@ && out@[k].1@
                                == members@[k].1@,
                    decreases members.len() - i,
                {
                    out.push((members[i].0.clone(), members[i].1.clone()));
                    i += 1;
                }
                proof {
                    lemma_object_view(*members);
                    lemma_object_view(out);
                    assert(members_view(out@) =~= members_view(members@));
                }
                Json::Object(out)
            },
        }
    }
}

/// Finds the first member with the given key.
pub fn find_member<'a>(members: &'a Vec<(String, Json)>, key: &str) -> (r: Option<&'a Json>)
    ensures
        match r {
            Some(j) => lookup(members_view(members@), key@) == Some(j@),
            None => lookup(members_view(members@), key@) is None,
        },
{
    let mut i: usize = 0;
    while i < members.len()
        invariant
            i <= members.len(),
            lookup(members_view(members@), key@) == lookup_from(
                members_view(members@),
                key@,
                i as int,
            ),
        decreases members.len() - i,
    {
        if same_text(members[i].0.as_str(), key) {
            return Some(&members[i].1);
        }
        i += 1;
    }
    None
}

impl Json {
    /// A string value.
    pub fn text(s: &str) -> (r: Json)
        ensures
            r@ == JsonView::Text(s@),
    {
        Json::Text(s.to_string())
    }

    /// An object with the given members.
    pub fn object(members: Vec<(String, Json)>) -> (r: Json)
        ensures
            r@ == JsonView::Object(members_view(members@)),
    {
        proof {
            lemma_object_view(members);
        }
        Json::Object(members)
    }

    /// A list of the given values.
    pub fn list(items: Vec<Json>) -> (r: Json)
        ensures
            r@ == JsonView::List(items_view(items@)),
    {
        proof {
            lemma_list_view(items);
        }
        Json::List(items)
    }

    /// The member of an object under `key`; `None` for a missing key and for
    /// a value that is no object.
    pub fn get(&self, key: &str) -> (r: Option<&Json>)
        ensures
            match r {
                Some(j) => self@.field(key@) == Some(j@),
                None => self@.field(key@) is None,
            },
    {
        match self {
            Json::Object(members) => {
                proof {
                    lemma_object_view(*members);
                }
                find_member(members, key)
            },
            _ => None,
        }
    }

    /// The characters of a string value.
    pub fn as_text(&self) -> (r: Option<&str>)
        ensures
            match r {
                Some(s) => self@.text() == Some(s@),
                None => self@.text() is None,
            },
    {
        match self {
            Json::Text(s) => Some(s.as_str()),
            _ => None,
        }
    }

    /// The number of an integer value.
    pub fn as_int(&self) -> (r: Option<i64>)
        ensures
            match r {
                Some(n) => self@.integer() == Some(n as int),
                None => self@.integer() is None,
            },
    {
        match self {
            Json::Int(n) => Some(*n),
            _ => None,
        }
    }

    /// The truth value of a boolean.
    pub fn as_flag(&self) -> (r: Option<bool>)
        ensures
            r == self@.flag(),
    {
        match self {
            Json::Bool(b) => Some(*b),
            _ => None,
        }
    }

    /// The elements of a list.
    pub fn as_list(&self) -> (r: Option<&Vec<Json>>)
        ensures
            match r {
                Some(items) => self@.items() == Some(items_view(items@)),
                None => self@.items() is None,
            },
    {
        match self {
            Json::List(items) => {
                proof {
                    lemma_list_view(*items);
                }
                Some(items)
            },
            _ => None,
        }
    }

    /// The text under `key`, where that member is a string.
    pub fn text_at(&self, key: &str) -> (r: Option<&str>)
        ensures
            match r {
                Some(s) => self@.text_at(key@) == Some(s@),
                None => self@.text_at(key@) is None,
            },
    {
        match self.get(key) {
            Some(v) => v.as_text(),
            None => None,
        }
    }
}

/// The position of the first member at or after `from` whose key is `key`,
/// or the number of members where there is none.
pub open spec fn first_index_from(
    members: Seq<(Seq<char>, JsonView)>,
    key: Seq<char>,
    from: int,
) -> int
    decreases members.len() - from,
{
    if from < 0 || from >= members.len() {
        members.len() as int
    } else if members[from].0 == key {
        from
    } else {
        first_index_from(members, key, from + 1)
    }
}

/// The members after `key` has been given the value `value`: the first
/// member with that key is replaced, or a new member is added at the end.
pub open spec fn put(members: Seq<(Seq<char>, JsonView)>, key: Seq<char>, value: JsonView) -> Seq<
    (Seq<char>, JsonView),
> {
    let i = first_index_from(members, key, 0);
    if i < members.len() {
        members.update(i, (key, value))
    } else {
        members.push((key, value))
    }
}

proof fn lemma_first_index(members: Seq<(Seq<char>, JsonView)>, key: Seq<char>, from: int)
    requires
        0 <= from <= members.len(),
    ensures
        from <= first_index_from(members, key, from) <= members.len(),
        first_index_from(members, key, from) < members.len() ==> members[first_index_from(
            members,
            key,
            from,
        )].0 == key,
        forall|j: int| from <= j < first_index_from(members, key, from) ==> members[j].0 != key,
    decreases members.len() - from,
{
    if from < members.len() && members[from].0 != key {
        lemma_first_index(members, key, from + 1);
    }
}

proof fn lemma_lookup_from(
    a: Seq<(Seq<char>, JsonView)>,
    key: Seq<char>,
    from: int,
    first: int,
)
    requires
        0 <= from <= first <= a.len(),
        forall|j: int| from <= j < first ==> a[j].0 != key,
        first < a.len() ==> a[first].0 == key,
    ensures
        lookup_from(a, key, from) == if first < a.len() {
            Some(a[first].1)
        } else {
            None
        },
    decreases first - from,
{
    if from < first {
        lemma_lookup_from(a, key, from + 1, first);
    }
}

/// A lookup after [`put`] finds the new value under the key that was put,
/// and what it found before under every other key.
pub proof fn lemma_lookup_put(
    members: Seq<(Seq<char>, JsonView)>,
    key: Seq<char>,
    value: JsonView,
    other: Seq<char>,
)
    ensures
        lookup(put(members, key, value), other) == if other == key {
            Some(value)
        } else {
            lookup(members, other)
        },
{
    let i = first_index_from(members, key, 0);
    let after = put(members, key, value);
    lemma_first_index(members, key, 0);
    if other == key {
        lemma_lookup_from(after, key, 0, i);
    } else {
        let f = first_index_from(members, other, 0);
        lemma_first_index(members, other, 0);
        lemma_lookup_from(members, other, 0, f);
        if f < members.len() {
            lemma_lookup_from(after, other, 0, f);
        } else {
            lemma_lookup_from(after, other, 0, after.len() as int);
        }
    }
}

/// Gives `key` the value `value` among the members of an object.
pub fn put_member(members: &mut Vec<(String, Json)>, key: &str, value: Json)
    ensures
        members_view(final(members)@) == put(members_view(old(members)@), key@, value@),
{
    let ghost before = members_view(members@);
    let mut i: usize = 0;
    while i < members.len()
        invariant
            i <= members.len(),
            before == members_view(members@),
            before == members_view(old(members)@),
            first_index_from(before, key@, 0) == first_index_from(before, key@, i as int),
        decreases members.len() - i,
    {
        if same_text(members[i].0.as_str(), key) {
            members.set(i, (key.to_string(), value));
            assert(members_view(members@) =~= put(before, key@, value@));
            return ;
        }
        i += 1;
    }
    members.push((key.to_string(), value));
    assert(members_view(members@) =~= put(before, key@, value@));
}

/// The list of strings that holds the given texts.
pub open spec fn text_list(texts: Seq<Seq<char>>) -> JsonView {
    JsonView::List(texts.map_values(|s: Seq<char>| JsonView::Text(s)))
}

/// A member of an object.
pub fn member(key: &str, value: Json) -> (r: (String, Json))
    ensures
        r.0@ == key@,
        r.1@ == value@,
{
    (key.to_string(), value)
}

impl Json {
    /// An object with one member.
    pub fn object1(k1: &str, v1: Json) -> (r: Json)
        ensures
            r@ == JsonView::Object(seq![(k1@, v1@)]),
    {
        let mut m: Vec<(String, Json)> = Vec::new();
        m.push(member(k1, v1));
        assert(members_view(m@) =~= seq![(k1@, v1@)]);
        Json::object(m)
    }

    /// An object with two members.
    pub fn object2(k1: &str, v1: Json, k2: &str, v2: Json) -> (r: Json)
        ensures
            r@ == JsonView::Object(seq![(k1@, v1@), (k2@, v2@)]),
    {
        let mut m: Vec<(String, Json)> = Vec::new();
        m.push(member(k1, v1));
        m.push(member(k2, v2));
        assert(members_view(m@) =~= seq![(k1@, v1@), (k2@, v2@)]);
        Json::object(m)
    }

    /// An object with three members.
    pub fn object3(k1: &str, v1: Json, k2: &str, v2: Json, k3: &str, v3: Json) -> (r: Json)
        ensures
            r@ == JsonView::Object(seq![(k1@, v1@), (k2@, v2@), (k3@, v3@)]),
    {
        let mut m: Vec<(String, Json)> = Vec::new();
        m.push(member(k1, v1));
        m.push(member(k2, v2));
        m.push(member(k3, v3));
        assert(members_view(m@) =~= seq![(k1@, v1@), (k2@, v2@), (k3@, v3@)]);
        Json::object(m)
    }

    /// An object with four members.
    pub fn object4(
        k1: &str,
        v1: Json,
        k2: &str,
        v2: Json,
        k3: &str,
        v3: Json,
        k4: &str,
        v4: Json,
    ) -> (r: Json)
        ensures
            r@ == JsonView::Object(seq![(k1@, v1@), (k2@, v2@), (k3@, v3@), (k4@, v4@)]),
    {
        let mut m: Vec<(String, Json)> = Vec::new();
        m.push(member(k1, v1));
        m.push(member(k2, v2));
        m.push(member(k3, v3));
        m.push(member(k4, v4));
        assert(members_view(m@) =~= seq![(k1@, v1@), (k2@, v2@), (k3@, v3@), (k4@, v4@)]);
        Json::object(m)
    }

    /// An object with five members.
    pub fn object5(
        k1: &str,
        v1: Json,
        k2: &str,
        v2: Json,
        k3: &str,
        v3: Json,
        k4: &str,
        v4: Json,
        k5: &str,
        v5: Json,
    ) -> (r: Json)
        ensures
            r@ == JsonView::Object(
                seq![(k1@, v1@), (k2@, v2@), (k3@, v3@), (k4@, v4@), (k5@, v5@)],
            ),
    {
        let mut m: Vec<(String, Json)> = Vec::new();
        m.push(member(k1, v1));
        m.push(member(k2, v2));
        m.push(member(k3, v3));
        m.push(member(k4, v4));
        m.push(member(k5, v5));
        assert(members_view(m@) =~= seq![
            (k1@, v1@),
            (k2@, v2@),
            (k3@, v3@),
            (k4@, v4@),
            (k5@, v5@),
        ]);
        Json::object(m)
    }

    /// A list of strings.
    pub fn texts(items: &Vec<String>) -> (r: Json)
        ensures
            r@ == text_list(crate::text::texts(items@)),
    {
        let mut out: Vec<Json> = Vec::new();
        let mut i: usize = 0;
        while i < items.len()
            invariant
                i <= items.len(),
                out@.len() == i,
                forall|k: int| 0 <= k < i ==> (#[trigger] out@[k])@ == JsonView::Text(items@[k]@),
            decreases items.len() - i,
        {
            out.push(Json::text(items[i].as_str()));
            i += 1;
        }
        assert(items_view(out@) =~= crate::text::texts(items@).map_values(
            |s: Seq<char>| JsonView::Text(s),
        ));
        Json::list(out)
    }
}

/// Every value in the run is a string.
pub open spec fn all_text(items: Seq<JsonView>) -> bool {
    forall|i: int| 0 <= i < items.len() ==> (#[trigger] items[i]) is Text
}

impl JsonView {
    /// The texts of a list of strings; nothing for any other value.
    pub open spec fn text_items(self) -> Option<Seq<Seq<char>>> {
        match self {
            JsonView::List(items) => if all_text(items) {
                Some(items.map_values(|j: JsonView| j->Text_0))
            } else {
                None
            },
            _ => None,
        }
    }
}

impl Json {
    /// The strings of a list of strings.
    pub fn as_texts(&self) -> (r: Option<Vec<String>>)
        ensures
            match r {
                Some(v) => self@.text_items() == Some(crate::text::texts(v@)),
                None => self@.text_items() is None,
            },
    {
        match self.as_list() {
            None => None,
            Some(items) => {
                let ghost views = items_view(items@);
                let mut out: Vec<String> = Vec::new();
                let mut i: usize = 0;
                while i < items.len()
                    invariant
                        i <= items.len(),
                        views == items_view(items@),
                        self@ == JsonView::List(views),
                        out@.len() == i,
                        forall|k: int| 0 <= k < i ==> (#[trigger] views[k]) == JsonView::Text(out@[k]@),
                    decreases items.len() - i,
                {
                    assert(views[i as int] == items@[i as int]@);
                    match &items[i] {
                        Json::Text(s) => {
                            out.push(s.clone());
                        },
                        _ => {
                            assert(!(views[i as int] is Text));
                            return None;
                        },
                    }
                    i += 1;
                }
                assert(all_text(views));
                assert(crate::text::texts(out@) =~= views.map_values(|j: JsonView| j->Text_0));
                Some(out)
            },
        }
    }
}

/// A list of strings reads back as the texts it was built from.
pub proof fn lemma_text_list_items(texts: Seq<Seq<char>>)
    ensures
        text_list(texts).text_items() == Some(texts),
{
    let items = texts.map_values(|s: Seq<char>| JsonView::Text(s));
    assert(all_text(items));
    assert(items.map_values(|j: JsonView| j->Text_0) =~= texts);
}

/// `serde_json::Value`, carried between the two conversions below and
/// never inspected by verified code.
#[verifier::external_type_specification]
#[verifier::external_body]
pub struct ExValue(serde_json::Value);

/// The indented text of a value, as `serde_json::to_string_pretty` writes
/// it.
pub uninterp spec fn pretty_text(v: JsonView) -> Seq<char>;

/// What `serde_json::from_str` reads from a text: the value, or nothing
/// where the text is no JSON document.
pub uninterp spec fn parsed(text: Seq<char>) -> Option<JsonView>;

/// Rebuilds a value as a `serde_json::Value`, variant for variant. A
/// literal that `serde_json::Number` does not accept becomes `null`.
#[verifier::external_body]
fn to_serde(j: &Json) -> serde_json::Value {
    match j {
        Json::Null => serde_json::Value::Null,
        Json::Bool(b) => serde_json::Value::Bool(*b),
        Json::Int(n) => serde_json::Value::from(*n),
        Json::Number(s) => s.parse().map(serde_json::Value::Number).unwrap_or_default(),
        Json::Text(s) => serde_json::Value::String(s.clone()),
        Json::List(v) => serde_json::Value::Array(v.iter().map(to_serde).collect()),
        Json::Object(m) => serde_json::Value::Object(
            m.iter().map(|e| (e.0.clone(), to_serde(&e.1))).collect(),
        ),
    }
}

/// Rebuilds a `serde_json::Value` as a value of this library, variant for
/// variant. A number that `Number::as_i64` does not give is kept as the
/// literal that its `Display` writes.
#[verifier::external_body]
fn from_serde(v: serde_json::Value) -> Json {
    match v {
        serde_json::Value::Null => Json::Null,
        serde_json::Value::Bool(b) => Json::Bool(b),
        serde_json::Value::Number(n) => n.as_i64().map_or_else(
            || Json::Number(n.to_string()),
            Json::Int,
        ),
        serde_json::Value::String(s) => Json::Text(s),
        serde_json::Value::Array(v) => Json::List(v.into_iter().map(from_serde).collect()),
        serde_json::Value::Object(m) => Json::Object(
            m.into_iter().map(|e| (e.0, from_serde(e.1))).collect(),
        ),
    }
}

/// Calls `serde_json::to_string_pretty` on the value. The text is taken to
/// be a function of the value alone, named [`pretty_text`]; nothing more is
/// claimed of it.
#[verifier::external_body]
pub(crate) fn render_pretty(j: &Json) -> (r: String)
    ensures
        r@ == pretty_text(j@),
{
    serde_json::to_string_pretty(&to_serde(j)).unwrap_or_default()
}

/// Calls `serde_json::from_str` for a `serde_json::Value`. The outcome is
/// taken to be a function of the text alone, named [`parsed`]; an error
/// of the parser becomes `None`.
#[verifier::external_body]
pub(crate) fn parse(text: &str) -> (r: Option<Json>)
    ensures
        match r {
            Some(j) => parsed(text@) == Some(j@),
            None => parsed(text@) is None,
        },
{
    serde_json::from_str::<serde_json::Value>(text).ok().map(from_serde)
}

impl Json {
    /// The value as indented JSON text.
    pub fn to_pretty_string(&self) -> (r: String)
        ensures
            r@ == pretty_text(self@),
    {
        render_pretty(self)
    }

    /// Reads a value from JSON text; `None` where the text is no JSON
    /// document.
    pub fn from_text(text: &str) -> (r: Option<Json>)
        ensures
            match r {
                Some(j) => parsed(text@) == Some(j@),
                None => parsed(text@) is None,
            },
    {
        parse(text)
    }
}

} // verus!
