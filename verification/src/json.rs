//! JSON values as the tools and the agent exchange them.
//!
//! `Json` holds a document as plain data, so that the rules that read and
//! build documents are verified. Text is produced and parsed by `serde_json`.

use serde_json::Value;
use vstd::prelude::*;
use vstd::string::StringExecFns;

verus! {

/// A JSON document.
#[derive(Debug, PartialEq)]
pub enum Json {
    Null,
    Bool(bool),
    /// An integer that fits `i64`.
    Int(i64),
    /// An integer above `i64::MAX`.
    UInt(u64),
    /// Any other number, by its decimal text.
    Real(String),
    Str(String),
    Array(Vec<Json>),
    /// The members in order; where a key occurs twice the later one counts.
    Object(Vec<(String, Json)>),
}

/// The mathematical value of a `Json`.
pub enum JsonView {
    Null,
    Bool(bool),
    Int(i64),
    UInt(u64),
    Real(Seq<char>),
    Str(Seq<char>),
    Array(Seq<JsonView>),
    Object(Seq<(Seq<char>, JsonView)>),
}

impl View for Json {
    type V = JsonView;

    open spec fn view(&self) -> JsonView {
        json_view(*self)
    }
}

/// The value of a document.
pub open spec fn json_view(j: Json) -> JsonView
    decreases j, 0nat,
{
    match j {
        Json::Null => JsonView::Null,
        Json::Bool(b) => JsonView::Bool(b),
        Json::Int(n) => JsonView::Int(n),
        Json::UInt(n) => JsonView::UInt(n),
        Json::Real(t) => JsonView::Real(t@),
        Json::Str(s) => JsonView::Str(s@),
        Json::Array(items) => JsonView::Array(items_prefix_view(items@, items@.len())),
        Json::Object(fields) => JsonView::Object(fields_prefix_view(fields@, fields@.len())),
    }
}

/// The values of the first `n` items.
pub open spec fn items_prefix_view(items: Seq<Json>, n: nat) -> Seq<JsonView>
    decreases items, n,
{
    if n == 0 || n > items.len() {
        Seq::empty()
    } else {
        items_prefix_view(items, (n - 1) as nat).push(json_view(items[n - 1]))
    }
}

/// The names and values of the first `n` members.
pub open spec fn fields_prefix_view(fields: Seq<(String, Json)>, n: nat) -> Seq<
    (Seq<char>, JsonView),
>
    decreases fields, n,
{
    if n == 0 || n > fields.len() {
        Seq::empty()
    } else {
        fields_prefix_view(fields, (n - 1) as nat).push(
            (fields[n - 1].0@, json_view(fields[n - 1].1)),
        )
    }
}

/// The views of the items of an array.
pub open spec fn items_view(items: Seq<Json>) -> Seq<JsonView> {
    Seq::new(items.len(), |i: int| items[i]@)
}

/// The views of the members of an object.
pub open spec fn fields_view(fields: Seq<(String, Json)>) -> Seq<(Seq<char>, JsonView)> {
    Seq::new(fields.len(), |i: int| (fields[i].0@, fields[i].1@))
}

proof fn lemma_items_prefix(items: Seq<Json>, n: nat)
    requires
        n <= items.len(),
    ensures
        items_prefix_view(items, n) == items_view(items.take(n as int)),
    decreases n,
{
    if n == 0 {
        assert(items_prefix_view(items, n) =~= items_view(items.take(n as int)));
    } else {
        lemma_items_prefix(items, (n - 1) as nat);
        assert(items_prefix_view(items, n) =~= items_view(items.take(n as int)));
    }
}

proof fn lemma_fields_prefix(fields: Seq<(String, Json)>, n: nat)
    requires
        n <= fields.len(),
    ensures
        fields_prefix_view(fields, n) == fields_view(fields.take(n as int)),
    decreases n,
{
    if n == 0 {
        assert(fields_prefix_view(fields, n) =~= fields_view(fields.take(n as int)));
    } else {
        lemma_fields_prefix(fields, (n - 1) as nat);
        assert(fields_prefix_view(fields, n) =~= fields_view(fields.take(n as int)));
    }
}

/// The view of an array is the views of its items.
pub proof fn lemma_array_view(items: Vec<Json>)
    ensures
        Json::Array(items)@ == JsonView::Array(items_view(items@)),
{
    lemma_items_prefix(items@, items@.len());
    assert(items@.take(items@.len() as int) == items@);
}

/// The view of an object is the views of its members.
pub proof fn lemma_object_view(fields: Vec<(String, Json)>)
    ensures
        Json::Object(fields)@ == JsonView::Object(fields_view(fields@)),
{
    lemma_fields_prefix(fields@, fields@.len());
    assert(fields@.take(fields@.len() as int) == fields@);
}

/// The value of the last member named `key`.
pub open spec fn lookup(fields: Seq<(Seq<char>, JsonView)>, key: Seq<char>) -> Option<JsonView>
    decreases fields.len(),
{
    if fields.len() == 0 {
        None
    } else if fields.last().0 == key {
        Some(fields.last().1)
    } else {
        lookup(fields.drop_last(), key)
    }
}

/// Looking a key up in members that end with a given member.
pub proof fn lemma_lookup_push(
    fields: Seq<(Seq<char>, JsonView)>,
    k: Seq<char>,
    v: JsonView,
    key: Seq<char>,
)
    ensures
        lookup(fields.push((k, v)), key) == if k == key {
            Some(v)
        } else {
            lookup(fields, key)
        },
{
    assert(fields.push((k, v)).last() == (k, v));
    assert(fields.push((k, v)).drop_last() == fields);
}

impl JsonView {
    /// The member `key` of an object; `None` for any other value.
    pub open spec fn get(self, key: Seq<char>) -> Option<JsonView> {
        match self {
            JsonView::Object(fields) => lookup(fields, key),
            _ => None,
        }
    }

    /// Whether an object has a member `key`.
    pub open spec fn has_key(self, key: Seq<char>) -> bool {
        self.get(key) is Some
    }

    /// The text of a string value.
    pub open spec fn as_str(self) -> Option<Seq<char>> {
        match self {
            JsonView::Str(s) => Some(s),
            _ => None,
        }
    }

    /// The value of a boolean.
    pub open spec fn as_bool(self) -> Option<bool> {
        match self {
            JsonView::Bool(b) => Some(b),
            _ => None,
        }
    }

    /// The value of a non-negative integer.
    pub open spec fn as_u64(self) -> Option<u64> {
        match self {
            JsonView::Int(n) => if n >= 0 {
                Some(n as u64)
            } else {
                None
            },
            JsonView::UInt(n) => Some(n),
            _ => None,
        }
    }

    /// The value of an integer that fits `i64`.
    pub open spec fn as_i64(self) -> Option<i64> {
        match self {
            JsonView::Int(n) => Some(n),
            JsonView::UInt(n) => if n <= i64::MAX {
                Some(n as i64)
            } else {
                None
            },
            _ => None,
        }
    }

    /// The items of an array.
    pub open spec fn as_array(self) -> Option<Seq<JsonView>> {
        match self {
            JsonView::Array(items) => Some(items),
            _ => None,
        }
    }
}

/// The document for a non-negative integer.
pub open spec fn uint_view(n: nat) -> JsonView {
    if n <= i64::MAX {
        JsonView::Int(n as i64)
    } else {
        JsonView::UInt(n as u64)
    }
}

/// The document for an optional document: `null` for none.
pub open spec fn or_null(j: Option<JsonView>) -> JsonView {
    match j {
        Some(v) => v,
        None => JsonView::Null,
    }
}

/// The view of an optional document.
pub open spec fn opt_json_view(j: Option<Json>) -> Option<JsonView> {
    match j {
        Some(v) => Some(v@),
        None => None,
    }
}

/// Appends a member named `key` to the members of an object under
/// construction.
pub fn push_field(fields: &mut Vec<(String, Json)>, key: &str, value: Json)
    ensures
        fields_view(final(fields)@) == fields_view(old(fields)@).push((key@, value@)),
{
    fields.push((String::from_str(key), value));
    assert(fields_view(fields@) =~= fields_view(old(fields)@).push((key@, value@)));
}

/// Appends an item to the items of an array under construction.
pub fn push_item(items: &mut Vec<Json>, value: Json)
    ensures
        items_view(final(items)@) == items_view(old(items)@).push(value@),
{
    items.push(value);
    assert(items_view(items@) =~= items_view(old(items)@).push(value@));
}

/// An empty list of members.
pub fn no_fields() -> (fields: Vec<(String, Json)>)
    ensures
        fields_view(fields@) == Seq::<(Seq<char>, JsonView)>::empty(),
{
    let fields: Vec<(String, Json)> = Vec::new();
    assert(fields_view(fields@) =~= Seq::<(Seq<char>, JsonView)>::empty());
    fields
}

/// An empty list of items.
pub fn no_items() -> (items: Vec<Json>)
    ensures
        items_view(items@) == Seq::<JsonView>::empty(),
{
    let items: Vec<Json> = Vec::new();
    assert(items_view(items@) =~= Seq::<JsonView>::empty());
    items
}

impl Json {
    /// The object with the given members.
    pub fn object(fields: Vec<(String, Json)>) -> (r: Json)
        ensures
            r@ == JsonView::Object(fields_view(fields@)),
    {
        proof {
            lemma_object_view(fields);
        }
        Json::Object(fields)
    }

    /// The array with the given items.
    pub fn array(items: Vec<Json>) -> (r: Json)
        ensures
            r@ == JsonView::Array(items_view(items@)),
    {
        proof {
            lemma_array_view(items);
        }
        Json::Array(items)
    }

    /// The array of the given strings.
    pub fn string_array(values: &Vec<String>) -> (r: Json)
        ensures
            r@ == JsonView::Array(values@.map_values(|s: String| JsonView::Str(s@))),
    {
        let mut items = no_items();
        let mut i: usize = 0;
        while i < values.len()
            invariant
                i <= values.len(),
                items_view(items@) == values@.take(i as int).map_values(
                    |s: String| JsonView::Str(s@),
                ),
            decreases values.len() - i,
        {
            push_item(&mut items, Json::Str(values[i].clone()));
            proof {
                assert(values@.take(i + 1).map_values(|s: String| JsonView::Str(s@))
                    =~= values@.take(i as int).map_values(|s: String| JsonView::Str(s@)).push(
                    JsonView::Str(values@[i as int]@),
                ));
            }
            i += 1;
        }
        proof {
            assert(values@.take(values@.len() as int) == values@);
        }
        Json::array(items)
    }

    /// A string value holding the characters of `s`.
    pub fn string(s: &str) -> (r: Json)
        ensures
            r@ == JsonView::Str(s@),
    {
        Json::Str(String::from_str(s))
    }

    /// Whether this is an object.
    pub fn is_object(&self) -> (b: bool)
        ensures
            b == (self@ is Object),
    {
        match self {
            Json::Object(_) => true,
            _ => false,
        }
    }

    /// Whether this is an array.
    pub fn is_array(&self) -> (b: bool)
        ensures
            b == (self@ is Array),
    {
        match self {
            Json::Array(_) => true,
            _ => false,
        }
    }

    /// Whether this is a string.
    pub fn is_string(&self) -> (b: bool)
        ensures
            b == (self@ is Str),
    {
        match self {
            Json::Str(_) => true,
            _ => false,
        }
    }

    /// Whether this is `null`.
    pub fn is_null(&self) -> (b: bool)
        ensures
            b == (self@ is Null),
    {
        match self {
            Json::Null => true,
            _ => false,
        }
    }

    /// The member `key` of an object: the last one of that name.
    pub fn get(&self, key: &str) -> (r: Option<&Json>)
        ensures
            match r {
                Some(v) => self@.get(key@) == Some(v@),
                None => self@.get(key@) is None,
            },
    {
        match self {
            Json::Object(fields) => {
                proof {
                    lemma_object_view(*fields);
                }
                let ghost fv = fields_view(fields@);
                let mut i: usize = fields.len();
                assert(fv.take(i as int) == fv);
                while i > 0
                    invariant
                        i <= fields.len(),
                        fv == fields_view(fields@),
                        self@ == JsonView::Object(fv),
                        lookup(fv, key@) == lookup(fv.take(i as int), key@),
                    decreases i,
                {
                    proof {
                        assert(fv.take(i as int).drop_last() == fv.take(i - 1));
                        assert(fv.take(i as int).last() == fv[i - 1]);
                    }
                    if crate::text::str_eq(fields[i - 1].0.as_str(), key) {
                        assert(fv[i - 1] == (fields@[i - 1].0@, fields@[i - 1].1@));
                        return Some(&fields[i - 1].1);
                    }
                    i -= 1;
                }
                assert(fv.take(0).len() == 0);
                None
            },
            _ => None,
        }
    }

    /// Whether an object has a member `key`.
    pub fn contains_key(&self, key: &str) -> (b: bool)
        ensures
            b == self@.has_key(key@),
    {
        self.get(key).is_some()
    }

    /// The text of a string value.
    pub fn as_str(&self) -> (r: Option<&str>)
        ensures
            match r {
                Some(s) => self@.as_str() == Some(s@),
                None => self@.as_str() is None,
            },
    {
        match self {
            Json::Str(s) => Some(s.as_str()),
            _ => None,
        }
    }

    /// The value of a boolean.
    pub fn as_bool(&self) -> (r: Option<bool>)
        ensures
            r == self@.as_bool(),
    {
        match self {
            Json::Bool(b) => Some(*b),
            _ => None,
        }
    }

    /// The value of a non-negative integer.
    pub fn as_u64(&self) -> (r: Option<u64>)
        ensures
            r == self@.as_u64(),
    {
        match self {
            Json::Int(n) => if *n >= 0 {
                Some(*n as u64)
            } else {
                None
            },
            Json::UInt(n) => Some(*n),
            _ => None,
        }
    }

    /// The value of an integer that fits `i64`.
    pub fn as_i64(&self) -> (r: Option<i64>)
        ensures
            r == self@.as_i64(),
    {
        match self {
            Json::Int(n) => Some(*n),
            Json::UInt(n) => if *n <= 9223372036854775807u64 {
                Some(*n as i64)
            } else {
                None
            },
            _ => None,
        }
    }

    /// The items of an array.
    pub fn as_array(&self) -> (r: Option<&Vec<Json>>)
        ensures
            match r {
                Some(items) => self@.as_array() == Some(items_view(items@)),
                None => self@.as_array() is None,
            },
    {
        match self {
            Json::Array(items) => {
                proof {
                    lemma_array_view(*items);
                }
                Some(items)
            },
            _ => None,
        }
    }

    /// The document for a non-negative integer.
    pub fn from_u64(n: u64) -> (r: Json)
        ensures
            r@.as_u64() == Some(n),
            r@ == uint_view(n as nat),
    {
        if n <= 9223372036854775807u64 {
            Json::Int(n as i64)
        } else {
            Json::UInt(n)
        }
    }

    /// A copy with the same value.
    #[verifier::loop_isolation(false)]
    pub fn deep_clone(&self) -> (r: Json)
        ensures
            r@ == self@,
        decreases self,
    {
        match self {
            Json::Null => Json::Null,
            Json::Bool(b) => Json::Bool(*b),
            Json::Int(n) => Json::Int(*n),
            Json::UInt(n) => Json::UInt(*n),
            Json::Real(t) => Json::Real(t.clone()),
            Json::Str(s) => Json::Str(s.clone()),
            Json::Array(items) => {
                let mut out: Vec<Json> = Vec::new();
                let mut i: usize = 0;
                while i < items.len()
                    invariant
                        i <= items.len(),
                        out.len() == i,
                        forall|j: int| 0 <= j < i ==> out[j]@ == items[j]@,
                    decreases items.len() - i,
                {
                    proof {
                        vstd::std_specs::vec::axiom_vec_index_decreases(*items, i as int);
                    }
                    let c = items[i].deep_clone();
                    out.push(c);
                    i += 1;
                }
                proof {
                    lemma_array_view(*items);
                    lemma_array_view(out);
                    assert(items_view(out@) =~= items_view(items@));
                }
                Json::Array(out)
            },
            Json::Object(fields) => {
                let mut out: Vec<(String, Json)> = Vec::new();
                let mut i: usize = 0;
                while i < fields.len()
                    invariant
                        i <= fields.len(),
                        out.len() == i,
                        forall|j: int|
                            0 <= j < i ==> out[j].0@ == fields[j].0@ && out[j].1@ == fields[j].1@,
                    decreases fields.len() - i,
                {
                    proof {
                        vstd::std_specs::vec::axiom_vec_index_decreases(*fields, i as int);
                    }
                    let c = fields[i].1.deep_clone();
                    out.push((fields[i].0.clone(), c));
                    i += 1;
                }
                proof {
                    lemma_object_view(*fields);
                    lemma_object_view(out);
                    assert(fields_view(out@) =~= fields_view(fields@));
                }
                Json::Object(out)
            },
        }
    }

    /// The canonical text of the document.
    pub fn to_text(&self) -> (s: String)
        ensures
            s@ == json_text(self@),
    {
        serialize(self)
    }

    /// The text of the document over several lines.
    pub fn to_pretty_text(&self) -> (s: String)
        ensures
            s@ == json_pretty_text(self@),
    {
        serialize_pretty(self)
    }

    /// Parses a document from text. The error is the parser's message.
    pub fn parse(text: &str) -> (r: Result<Json, String>)
        ensures
            match r {
                Ok(j) => json_parse(text@) == Some(j@),
                Err(_) => json_parse(text@) is None,
            },
    {
        match parse_value(text) {
            Ok(j) => Ok(j),
            Err(e) => Err(parse_error_text(&e)),
        }
    }
}

// ---------------------------------------------------------------------------
// Reading the members of an argument object
// ---------------------------------------------------------------------------

/// The message for a member that is required and absent.
pub open spec fn missing_field(key: Seq<char>) -> Seq<char> {
    "missing field `"@ + key + "`"@
}

/// The message for a member of the wrong type.
pub open spec fn invalid_field(key: Seq<char>) -> Seq<char> {
    "invalid type for field `"@ + key + "`"@
}

/// The member `key`, where it is there and not `null`.
pub open spec fn present(j: JsonView, key: Seq<char>) -> Option<JsonView> {
    match j.get(key) {
        Some(JsonView::Null) => None,
        other => other,
    }
}

/// The texts of an array of strings; `None` where the value is no array or
/// an item is no string.
pub open spec fn str_items(v: JsonView) -> Option<Seq<Seq<char>>> {
    match v {
        JsonView::Array(items) => if forall|i: int| 0 <= i < items.len() ==> items[i] is Str {
            Some(Seq::new(items.len(), |i: int| items[i]->Str_0))
        } else {
            None
        },
        _ => None,
    }
}

/// A required string member.
pub open spec fn req_str_spec(j: JsonView, key: Seq<char>) -> Result<Seq<char>, Seq<char>> {
    match j.get(key) {
        None => Err(missing_field(key)),
        Some(JsonView::Str(s)) => Ok(s),
        Some(_) => Err(invalid_field(key)),
    }
}

/// An optional string member.
pub open spec fn opt_str_spec(j: JsonView, key: Seq<char>) -> Result<Option<Seq<char>>, Seq<char>> {
    match present(j, key) {
        None => Ok(None),
        Some(JsonView::Str(s)) => Ok(Some(s)),
        Some(_) => Err(invalid_field(key)),
    }
}

/// A required boolean member.
pub open spec fn req_bool_spec(j: JsonView, key: Seq<char>) -> Result<bool, Seq<char>> {
    match j.get(key) {
        None => Err(missing_field(key)),
        Some(JsonView::Bool(b)) => Ok(b),
        Some(_) => Err(invalid_field(key)),
    }
}

/// An optional boolean member.
pub open spec fn opt_bool_spec(j: JsonView, key: Seq<char>) -> Result<Option<bool>, Seq<char>> {
    match present(j, key) {
        None => Ok(None),
        Some(JsonView::Bool(b)) => Ok(Some(b)),
        Some(_) => Err(invalid_field(key)),
    }
}

/// An optional member that is a non-negative integer up to `max`.
pub open spec fn opt_uint_spec(j: JsonView, key: Seq<char>, max: u64) -> Result<
    Option<u64>,
    Seq<char>,
> {
    match present(j, key) {
        None => Ok(None),
        Some(v) => match v.as_u64() {
            Some(n) => if n <= max {
                Ok(Some(n))
            } else {
                Err(invalid_field(key))
            },
            None => Err(invalid_field(key)),
        },
    }
}

/// A required member that is an array of strings.
pub open spec fn req_str_array_spec(j: JsonView, key: Seq<char>) -> Result<
    Seq<Seq<char>>,
    Seq<char>,
> {
    match j.get(key) {
        None => Err(missing_field(key)),
        Some(v) => match str_items(v) {
            Some(items) => Ok(items),
            None => Err(invalid_field(key)),
        },
    }
}

/// An optional member that is an array of strings.
pub open spec fn opt_str_array_spec(j: JsonView, key: Seq<char>) -> Result<
    Option<Seq<Seq<char>>>,
    Seq<char>,
> {
    match present(j, key) {
        None => Ok(None),
        Some(v) => match str_items(v) {
            Some(items) => Ok(Some(items)),
            None => Err(invalid_field(key)),
        },
    }
}

/// The texts of optional strings.
pub open spec fn opt_strings_view(v: Option<Vec<String>>) -> Option<Seq<Seq<char>>> {
    match v {
        Some(items) => Some(crate::text::string_views(items@)),
        None => None,
    }
}

fn missing(key: &str) -> (s: String)
    ensures
        s@ == missing_field(key@),
{
    crate::text::concat3("missing field `", key, "`")
}

fn invalid(key: &str) -> (s: String)
    ensures
        s@ == invalid_field(key@),
{
    crate::text::concat3("invalid type for field `", key, "`")
}

impl Json {
    /// The member `key`, where it is there and not `null`.
    pub fn get_present(&self, key: &str) -> (r: Option<&Json>)
        ensures
            match r {
                Some(v) => present(self@, key@) == Some(v@),
                None => present(self@, key@) is None,
            },
    {
        match self.get(key) {
            Some(v) => if v.is_null() {
                None
            } else {
                Some(v)
            },
            None => None,
        }
    }

    /// The texts of an array of strings.
    pub fn to_strings(&self) -> (r: Option<Vec<String>>)
        ensures
            opt_strings_view(r) == str_items(self@),
    {
        let items = match self.as_array() {
            Some(items) => items,
            None => {
                return None;
            },
        };
        let ghost iv = items_view(items@);
        let mut out: Vec<String> = Vec::new();
        let mut i: usize = 0;
        while i < items.len()
            invariant
                i <= items.len(),
                iv == items_view(items@),
                self@ == JsonView::Array(iv),
                out@.len() == i,
                forall|k: int|
                    0 <= k < i ==> (#[trigger] iv[k]) is Str && out@[k]@ == iv[k]->Str_0,
            decreases items.len() - i,
        {
            assert(iv[i as int] == items@[i as int]@);
            match items[i].as_str() {
                Some(s) => {
                    out.push(String::from_str(s));
                },
                None => {
                    return None;
                },
            }
            i += 1;
        }
        proof {
            assert forall|k: int| 0 <= k < iv.len() implies iv[k] is Str by {
                assert((#[trigger] iv[k]) is Str);
            }
            assert(crate::text::string_views(out@) =~= str_items(self@)->Some_0);
        }
        Some(out)
    }

    /// Reads a required string member.
    pub fn req_str(&self, key: &str) -> (r: Result<String, String>)
        ensures
            match r {
                Ok(s) => req_str_spec(self@, key@) == Ok::<Seq<char>, Seq<char>>(s@),
                Err(e) => req_str_spec(self@, key@) == Err::<Seq<char>, Seq<char>>(e@),
            },
    {
        match self.get(key) {
            None => Err(missing(key)),
            Some(v) => match v.as_str() {
                Some(s) => Ok(String::from_str(s)),
                None => Err(invalid(key)),
            },
        }
    }

    /// Reads an optional string member.
    pub fn opt_str(&self, key: &str) -> (r: Result<Option<String>, String>)
        ensures
            match r {
                Ok(s) => opt_str_spec(self@, key@) == Ok::<Option<Seq<char>>, Seq<char>>(
                    match s {
                        Some(t) => Some(t@),
                        None => None,
                    },
                ),
                Err(e) => opt_str_spec(self@, key@) == Err::<Option<Seq<char>>, Seq<char>>(e@),
            },
    {
        match self.get_present(key) {
            None => Ok(None),
            Some(v) => match v.as_str() {
                Some(s) => Ok(Some(String::from_str(s))),
                None => Err(invalid(key)),
            },
        }
    }

    /// Reads a required boolean member.
    pub fn req_bool(&self, key: &str) -> (r: Result<bool, String>)
        ensures
            match r {
                Ok(b) => req_bool_spec(self@, key@) == Ok::<bool, Seq<char>>(b),
                Err(e) => req_bool_spec(self@, key@) == Err::<bool, Seq<char>>(e@),
            },
    {
        match self.get(key) {
            None => Err(missing(key)),
            Some(v) => match v.as_bool() {
                Some(b) => Ok(b),
                None => Err(invalid(key)),
            },
        }
    }

    /// Reads an optional boolean member.
    pub fn opt_bool(&self, key: &str) -> (r: Result<Option<bool>, String>)
        ensures
            match r {
                Ok(b) => opt_bool_spec(self@, key@) == Ok::<Option<bool>, Seq<char>>(b),
                Err(e) => opt_bool_spec(self@, key@) == Err::<Option<bool>, Seq<char>>(e@),
            },
    {
        match self.get_present(key) {
            None => Ok(None),
            Some(v) => match v.as_bool() {
                Some(b) => Ok(Some(b)),
                None => Err(invalid(key)),
            },
        }
    }

    /// Reads an optional member that is a non-negative integer up to `max`.
    pub fn opt_uint(&self, key: &str, max: u64) -> (r: Result<Option<u64>, String>)
        ensures
            match r {
                Ok(n) => opt_uint_spec(self@, key@, max) == Ok::<Option<u64>, Seq<char>>(n),
                Err(e) => opt_uint_spec(self@, key@, max) == Err::<Option<u64>, Seq<char>>(e@),
            },
    {
        match self.get_present(key) {
            None => Ok(None),
            Some(v) => match v.as_u64() {
                Some(n) => if n <= max {
                    Ok(Some(n))
                } else {
                    Err(invalid(key))
                },
                None => Err(invalid(key)),
            },
        }
    }

    /// Reads a required member that is an array of strings.
    pub fn req_str_array(&self, key: &str) -> (r: Result<Vec<String>, String>)
        ensures
            match r {
                Ok(v) => req_str_array_spec(self@, key@) == Ok::<Seq<Seq<char>>, Seq<char>>(
                    crate::text::string_views(v@),
                ),
                Err(e) => req_str_array_spec(self@, key@) == Err::<Seq<Seq<char>>, Seq<char>>(e@),
            },
    {
        match self.get(key) {
            None => Err(missing(key)),
            Some(v) => match v.to_strings() {
                Some(items) => Ok(items),
                None => Err(invalid(key)),
            },
        }
    }

    /// Reads an optional member that is an array of strings.
    pub fn opt_str_array(&self, key: &str) -> (r: Result<Option<Vec<String>>, String>)
        ensures
            match r {
                Ok(v) => opt_str_array_spec(self@, key@) == Ok::<
                    Option<Seq<Seq<char>>>,
                    Seq<char>,
                >(opt_strings_view(v)),
                Err(e) => opt_str_array_spec(self@, key@) == Err::<
                    Option<Seq<Seq<char>>>,
                    Seq<char>,
                >(e@),
            },
    {
        match self.get_present(key) {
            None => Ok(None),
            Some(v) => match v.to_strings() {
                Some(items) => Ok(Some(items)),
                None => Err(invalid(key)),
            },
        }
    }
}

// ---------------------------------------------------------------------------
// serde_json
// ---------------------------------------------------------------------------

/// `serde_json::Value`, the document as `serde_json` holds it, occurs
/// only between a `Json` and its text.
#[verifier::external_type_specification]
#[verifier::external_body]
pub struct ExJsonValue(serde_json::Value);

/// `serde_json::Error`, the error of the parser; only its message is
/// used.
#[verifier::external_type_specification]
#[verifier::external_body]
pub struct ExJsonError(serde_json::Error);

/// The text that `serde_json::to_string` writes for a document.
pub uninterp spec fn json_text(j: JsonView) -> Seq<char>;

/// The text that `serde_json::to_string_pretty` writes for a document.
pub uninterp spec fn json_pretty_text(j: JsonView) -> Seq<char>;

/// The document that `serde_json::from_str` reads from a text, where it
/// reads one.
pub uninterp spec fn json_parse(text: Seq<char>) -> Option<JsonView>;

/// `str::parse` for `serde_json::Number`: the number that a decimal text
/// denotes, as a value; `null` where the text denotes none.
#[verifier::external_body]
fn real_value(text: &str) -> Value {
    text.parse::<serde_json::Number>().map_or(Value::Null, Value::Number)
}

/// Converts a document into a `serde_json::Value`, variant by variant. The
/// members of an object go into the map of `serde_json` in order, so that
/// of two members of one name the later one stays.
#[verifier::external_body]
fn to_value(j: &Json) -> Value {
    match j {
        Json::Null => Value::Null,
        Json::Bool(b) => Value::Bool(*b),
        Json::Int(n) => Value::from(*n),
        Json::UInt(n) => Value::from(*n),
        Json::Real(t) => real_value(t),
        Json::Str(s) => Value::String(s.clone()),
        Json::Array(a) => Value::Array(a.iter().map(to_value).collect()),
        Json::Object(o) => Value::Object(o.iter().map(|kv| (kv.0.clone(), to_value(&kv.1))).collect()),
    }
}

/// Converts a `serde_json::Value` into a document, variant by variant. A
/// number that is no integer of 64 bits is kept as its decimal text.
#[verifier::external_body]
fn from_value(v: &Value) -> Json {
    match v {
        Value::Null => Json::Null,
        Value::Bool(b) => Json::Bool(*b),
        Value::Number(n) => match (n.as_i64(), n.as_u64()) {
            (Some(i), _) => Json::Int(i),
            (None, Some(u)) => Json::UInt(u),
            (None, None) => Json::Real(n.to_string()),
        },
        Value::String(s) => Json::Str(s.clone()),
        Value::Array(a) => Json::Array(a.iter().map(from_value).collect()),
        Value::Object(o) => Json::Object(o.iter().map(|kv| (kv.0.clone(), from_value(kv.1))).collect()),
    }
}

/// `serde_json::to_string` on the document: its canonical text.
#[verifier::external_body]
fn serialize(j: &Json) -> (s: String)
    ensures
        s@ == json_text(j@),
{
    serde_json::to_string(&to_value(j)).unwrap_or_default()
}

/// `serde_json::to_string_pretty` on the document: its text over several
/// lines.
#[verifier::external_body]
fn serialize_pretty(j: &Json) -> (s: String)
    ensures
        s@ == json_pretty_text(j@),
{
    serde_json::to_string_pretty(&to_value(j)).unwrap_or_default()
}

/// `serde_json::from_str`: the document that the text holds, or the
/// parser's error.
#[verifier::external_body]
fn parse_value(text: &str) -> (r: Result<Json, serde_json::Error>)
    ensures
        match r {
            Ok(j) => json_parse(text@) == Some(j@),
            Err(_) => json_parse(text@) is None,
        },
{
    serde_json::from_str::<Value>(text).map(|v| from_value(&v))
}

/// The message of a `serde_json::Error`, as its `Display` writes it.
#[verifier::external_body]
fn parse_error_text(e: &serde_json::Error) -> String {
    e.to_string()
}

} // verus!
