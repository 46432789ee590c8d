//! The generic document that a manifest is read from and written to: a
//! tree of texts, numbers, flags, lists and tables.

use vstd::prelude::*;
use crate::error::{Field, FormatError, Reason};
use crate::pairs::{has_key, lemma_pairs_map_keys, lemma_pairs_map_value, pairs_map};
use crate::text::same_text;

verus! {

/// A node of a document. A table is a list of keyed values; of two values
/// under one key the later one counts.
#[derive(Debug, PartialEq, Eq)]
pub enum Value {
    Text(String),
    Integer(i64),
    Boolean(bool),
    Array(Vec<Value>),
    Table(Vec<(String, Value)>),
    /// A value of a kind that no field of a manifest takes, such as a date.
    Opaque,
}

/// A document as a mathematical value: a table is a map.
pub enum ValueView {
    Text(Seq<char>),
    Integer(i64),
    Boolean(bool),
    Array(Seq<ValueView>),
    Table(Map<Seq<char>, ValueView>),
    Opaque,
}

impl Value {
    /// The document as a mathematical value.
    pub open spec fn model(self) -> ValueView
        decreases self, 0nat,
    {
        match self {
            Value::Text(s) => ValueView::Text(s@),
            Value::Integer(i) => ValueView::Integer(i),
            Value::Boolean(b) => ValueView::Boolean(b),
            Value::Array(items) => ValueView::Array(items_model(items)),
            Value::Table(entries) => ValueView::Table(pairs_map(entries_model(entries))),
            Value::Opaque => ValueView::Opaque,
        }
    }
}

/// The items of a list node, each as a mathematical value.
pub open spec fn items_model(items: Vec<Value>) -> Seq<ValueView>
    decreases items, 1nat,
{
    Seq::new(
        items@.len(),
        |i: int|
            if 0 <= i < items@.len() {
                items@[i].model()
            } else {
                ValueView::Opaque
            },
    )
}

/// The entries of a table node, each value as a mathematical value.
pub open spec fn entries_model(entries: Vec<(String, Value)>) -> Seq<(Seq<char>, ValueView)>
    decreases entries, 1nat,
{
    Seq::new(
        entries@.len(),
        |i: int|
            if 0 <= i < entries@.len() {
                (entries@[i].0@, entries@[i].1.model())
            } else {
                (Seq::empty(), ValueView::Opaque)
            },
    )
}

impl DeepView for Value {
    type V = ValueView;

    open spec fn deep_view(&self) -> ValueView {
        self.model()
    }
}

impl View for Value {
    type V = ValueView;

    open spec fn view(&self) -> ValueView {
        self.deep_view()
    }
}

/// A list node is seen as the list of its items as they are seen.
pub proof fn lemma_array_view(items: Vec<Value>)
    ensures
        Value::Array(items)@ == ValueView::Array(items.deep_view()),
{
    assert(items_model(items) =~= items.deep_view());
}

/// A table node is seen as the map of its entries as they are seen.
pub proof fn lemma_table_view(entries: Vec<(String, Value)>)
    ensures
        Value::Table(entries)@ == ValueView::Table(pairs_map(entries.deep_view())),
{
    let inner = entries_model(entries);
    assert forall|i: int| 0 <= i < inner.len() implies inner[i] == entries.deep_view()[i] by {
        assert(entries.deep_view()[i] == (entries@[i].0.deep_view(), entries@[i].1.deep_view()));
    }
    assert(inner =~= entries.deep_view());
}

/// The value under `key` in a table, if there is one.
pub fn table_get<'a>(entries: &'a Vec<(String, Value)>, key: &str) -> (r: Option<&'a Value>)
    ensures
        r.deep_view() == pairs_map(entries.deep_view()).get(key@),
{
    let ghost pairs = entries.deep_view();
    let mut i: usize = entries.len();
    while i > 0
        invariant
            i <= entries.len(),
            pairs == entries.deep_view(),
            forall|j: int| i <= j < pairs.len() ==> (#[trigger] pairs[j]).0 != key@,
        decreases i,
    {
        i -= 1;
        if same_text(entries[i].0.as_str(), key) {
            proof {
                assert(pairs[i as int].0 == key@);
                lemma_pairs_map_value(pairs, i as int);
            }
            return Some(&entries[i].1);
        }
    }
    proof {
        lemma_pairs_map_keys(pairs);
        assert(!has_key(pairs, key@));
    }
    None
}

/// The key under which a field stands in its section.
pub open spec fn key_of(field: Field) -> Seq<char> {
    match field {
        Field::Document => Seq::empty(),
        Field::Name => "name"@,
        Field::Type => "type"@,
        Field::AccountId => "account_id"@,
        Field::WorkersDev => "workers_dev"@,
        Field::Route => "route"@,
        Field::Routes => "routes"@,
        Field::ZoneId => "zone_id"@,
        Field::WebpackConfig => "webpack_config"@,
        Field::Private => "private"@,
        Field::Site => "site"@,
        Field::Bucket => "bucket"@,
        Field::EntryPoint => "entry-point"@,
        Field::KvNamespaces => "kv-namespaces"@,
        Field::Id => "id"@,
        Field::Binding => "binding"@,
        Field::Env => "env"@,
    }
}

/// The key under which a field stands in its section.
pub fn field_key(field: Field) -> (r: &'static str)
    ensures
        r@ == key_of(field),
{
    match field {
        Field::Document => {
            proof {
                reveal_strlit("");
                assert(""@ =~= Seq::<char>::empty());
            }
            ""
        },
        Field::Name => "name",
        Field::Type => "type",
        Field::AccountId => "account_id",
        Field::WorkersDev => "workers_dev",
        Field::Route => "route",
        Field::Routes => "routes",
        Field::ZoneId => "zone_id",
        Field::WebpackConfig => "webpack_config",
        Field::Private => "private",
        Field::Site => "site",
        Field::Bucket => "bucket",
        Field::EntryPoint => "entry-point",
        Field::KvNamespaces => "kv-namespaces",
        Field::Id => "id",
        Field::Binding => "binding",
        Field::Env => "env",
    }
}

/// The field holds a value of the wrong kind.
pub open spec fn wrong_kind(field: Field) -> FormatError {
    FormatError::Malformed(field, Reason::WrongKind)
}

/// The field is needed and not there.
pub open spec fn missing(field: Field) -> FormatError {
    FormatError::Malformed(field, Reason::Missing)
}

/// The error of a reading that failed.
pub open spec fn fault<T>(r: Result<T, FormatError>) -> Option<FormatError> {
    match r {
        Ok(_) => None,
        Err(e) => Some(e),
    }
}

/// The text of a field: absent where the table has no such key, and an
/// error where what it has there is no text.
pub open spec fn field_text(table: Map<Seq<char>, ValueView>, field: Field) -> Result<
    Option<Seq<char>>,
    FormatError,
> {
    if !table.contains_key(key_of(field)) {
        Ok(None)
    } else {
        match table[key_of(field)] {
            ValueView::Text(s) => Ok(Some(s)),
            _ => Err(wrong_kind(field)),
        }
    }
}

/// The flag of a field, read as `field_text` reads a text.
pub open spec fn field_flag(table: Map<Seq<char>, ValueView>, field: Field) -> Result<
    Option<bool>,
    FormatError,
> {
    if !table.contains_key(key_of(field)) {
        Ok(None)
    } else {
        match table[key_of(field)] {
            ValueView::Boolean(b) => Ok(Some(b)),
            _ => Err(wrong_kind(field)),
        }
    }
}

/// Every item of the list is a text.
pub open spec fn all_texts(items: Seq<ValueView>) -> bool {
    forall|i: int| 0 <= i < items.len() ==> (#[trigger] items[i]) is Text
}

/// The texts of a list of texts.
pub open spec fn texts_of(items: Seq<ValueView>) -> Seq<Seq<char>> {
    Seq::new(items.len(), |i: int| items[i]->Text_0)
}

/// The list of texts of a field, read as `field_text` reads a text.
pub open spec fn field_texts(table: Map<Seq<char>, ValueView>, field: Field) -> Result<
    Option<Seq<Seq<char>>>,
    FormatError,
> {
    if !table.contains_key(key_of(field)) {
        Ok(None)
    } else {
        match table[key_of(field)] {
            ValueView::Array(items) => if all_texts(items) {
                Ok(Some(texts_of(items)))
            } else {
                Err(wrong_kind(field))
            },
            _ => Err(wrong_kind(field)),
        }
    }
}

/// The view of a field that was read.
pub open spec fn field_view<T: DeepView>(r: Result<Option<T>, FormatError>) -> Result<
    Option<T::V>,
    FormatError,
> {
    match r {
        Ok(found) => Ok(found.deep_view()),
        Err(e) => Err(e),
    }
}

pub fn get_text(entries: &Vec<(String, Value)>, field: Field) -> (r: Result<
    Option<String>,
    FormatError,
>)
    ensures
        field_view(r) == field_text(pairs_map(entries.deep_view()), field),
{
    match table_get(entries, field_key(field)) {
        None => Ok(None),
        Some(Value::Text(s)) => Ok(Some(s.clone())),
        Some(_) => Err(FormatError::Malformed(field, Reason::WrongKind)),
    }
}

pub fn get_flag(entries: &Vec<(String, Value)>, field: Field) -> (r: Result<
    Option<bool>,
    FormatError,
>)
    ensures
        field_view(r) == field_flag(pairs_map(entries.deep_view()), field),
{
    match table_get(entries, field_key(field)) {
        None => Ok(None),
        Some(Value::Boolean(b)) => Ok(Some(*b)),
        Some(_) => Err(FormatError::Malformed(field, Reason::WrongKind)),
    }
}

pub fn get_texts(entries: &Vec<(String, Value)>, field: Field) -> (r: Result<
    Option<Vec<String>>,
    FormatError,
>)
    ensures
        field_view(r) == field_texts(pairs_map(entries.deep_view()), field),
{
    match table_get(entries, field_key(field)) {
        None => Ok(None),
        Some(Value::Array(items)) => {
            proof {
                lemma_array_view(*items);
            }
            let ghost seen = items.deep_view();
            let mut texts: Vec<String> = Vec::new();
            let mut i: usize = 0;
            while i < items.len()
                invariant
                    i <= items.len(),
                    seen == items.deep_view(),
                    pairs_map(entries.deep_view()).get(key_of(field)) == Some(
                        ValueView::Array(seen),
                    ),
                    texts.len() == i,
                    forall|j: int| 0 <= j < i ==> (#[trigger] seen[j]) is Text,
                    forall|j: int|
                        0 <= j < i ==> (#[trigger] texts.deep_view()[j]) == seen[j]->Text_0,
                decreases items.len() - i,
            {
                assert(seen[i as int] == items[i as int].model());
                match &items[i] {
                    Value::Text(s) => {
                        let ghost before = texts.deep_view();
                        texts.push(s.clone());
                        assert(texts.deep_view() =~= before.push(s@));
                    },
                    _ => {
                        assert(!(seen[i as int] is Text));
                        return Err(FormatError::Malformed(field, Reason::WrongKind));
                    },
                }
                i += 1;
            }
            assert(texts.deep_view() =~= texts_of(seen));
            Ok(Some(texts))
        },
        Some(_) => Err(FormatError::Malformed(field, Reason::WrongKind)),
    }
}

} // verus!
