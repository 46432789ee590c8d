//! Writing a manifest down as a document.

use vstd::prelude::*;
use crate::document::{
    environments_node, namespaces_node, put_flag, put_namespaces, put_text, put_texts,
    serialize_environment, serialize_manifest, serialize_namespace, serialize_site, texts_node,
    type_text,
};
use crate::environment::Environment;
use crate::environments::Environments;
use crate::kv_namespace::KvNamespace;
use crate::manifest::Manifest;
use crate::pairs::{
    has_key, lemma_pairs_map_distinct, lemma_pairs_map_is, lemma_pairs_map_keys,
    lemma_pairs_map_push, pairs_map,
};
use crate::site::Site;
use crate::target_type::TargetType;
use crate::text::text_or_empty;
use crate::value::{lemma_array_view, lemma_table_view, Value, ValueView};

verus! {

/// Adds `value` under `key`.
pub fn push_entry(entries: &mut Vec<(String, Value)>, key: &str, value: Value)
    ensures
        pairs_map(final(entries).deep_view()) == pairs_map(old(entries).deep_view()).insert(
            key@,
            value@,
        ),
{
    let ghost before = entries.deep_view();
    entries.push((key.to_owned(), value));
    proof {
        assert(entries.deep_view() =~= before.push((key@, value@)));
        lemma_pairs_map_push(before, key@, value@);
    }
}

/// Adds a text under `key`, where there is one.
pub fn push_text(entries: &mut Vec<(String, Value)>, key: &str, text: &Option<String>)
    ensures
        pairs_map(final(entries).deep_view()) == put_text(
            pairs_map(old(entries).deep_view()),
            key@,
            text.deep_view(),
        ),
{
    match text {
        Some(s) => push_entry(entries, key, Value::Text(s.clone())),
        None => {},
    }
}

/// Adds a flag under `key`, where there is one.
pub fn push_flag(entries: &mut Vec<(String, Value)>, key: &str, flag: Option<bool>)
    ensures
        pairs_map(final(entries).deep_view()) == put_flag(
            pairs_map(old(entries).deep_view()),
            key@,
            flag,
        ),
{
    match flag {
        Some(b) => push_entry(entries, key, Value::Boolean(b)),
        None => {},
    }
}

/// A list of texts as a document.
pub fn texts_value(texts: &Vec<String>) -> (r: Value)
    ensures
        r@ == texts_node(texts.deep_view()),
{
    let mut items: Vec<Value> = Vec::new();
    let mut i: usize = 0;
    while i < texts.len()
        invariant
            i <= texts.len(),
            items.len() == i,
            forall|j: int|
                0 <= j < i ==> (#[trigger] items.deep_view()[j]) == ValueView::Text(
                    texts.deep_view()[j],
                ),
        decreases texts.len() - i,
    {
        let ghost before = items.deep_view();
        let item = Value::Text(texts[i].clone());
        items.push(item);
        assert(items.deep_view() =~= before.push(ValueView::Text(texts.deep_view()[i as int])));
        i += 1;
    }
    proof {
        lemma_array_view(items);
        assert(items.deep_view() =~= texts_node(texts.deep_view())->Array_0);
    }
    Value::Array(items)
}

/// Adds a list of texts under `key`, where there is one.
pub fn push_texts(entries: &mut Vec<(String, Value)>, key: &str, texts: &Option<Vec<String>>)
    ensures
        pairs_map(final(entries).deep_view()) == put_texts(
            pairs_map(old(entries).deep_view()),
            key@,
            texts.deep_view(),
        ),
{
    match texts {
        Some(l) => push_entry(entries, key, texts_value(l)),
        None => {},
    }
}

/// A table node over `entries`.
pub fn table_value(entries: Vec<(String, Value)>) -> (r: Value)
    ensures
        r@ == ValueView::Table(pairs_map(entries.deep_view())),
{
    proof {
        lemma_table_view(entries);
    }
    Value::Table(entries)
}

/// The written form of a build mode.
pub fn type_word(t: TargetType) -> (r: &'static str)
    ensures
        r@ == type_text(t),
{
    match t {
        TargetType::Plain => "plain",
        TargetType::Webpack => "webpack",
    }
}

impl KvNamespace {
    /// The namespace as a document.
    pub fn serialize(&self) -> (r: Value)
        ensures
            r@ == serialize_namespace(self@),
    {
        let mut entries: Vec<(String, Value)> = Vec::new();
        assert(pairs_map(entries.deep_view()) == Map::<Seq<char>, ValueView>::empty()) by {
            assert(entries.deep_view() =~= Seq::empty());
        }
        push_entry(&mut entries, "id", Value::Text(self.id.clone()));
        push_entry(&mut entries, "binding", Value::Text(self.binding.clone()));
        push_text(&mut entries, "bucket", &self.bucket);
        table_value(entries)
    }
}

/// A list of namespaces as a document.
pub fn namespaces_value(list: &Vec<KvNamespace>) -> (r: Value)
    ensures
        r@ == namespaces_node(list.deep_view()),
{
    let mut items: Vec<Value> = Vec::new();
    let mut i: usize = 0;
    while i < list.len()
        invariant
            i <= list.len(),
            items.len() == i,
            forall|j: int|
                0 <= j < i ==> (#[trigger] items.deep_view()[j]) == serialize_namespace(
                    list.deep_view()[j],
                ),
        decreases list.len() - i,
    {
        let ghost before = items.deep_view();
        let item = list[i].serialize();
        items.push(item);
        assert(items.deep_view() =~= before.push(serialize_namespace(list.deep_view()[i as int])));
        i += 1;
    }
    proof {
        lemma_array_view(items);
        assert(items.deep_view() =~= namespaces_node(list.deep_view())->Array_0);
    }
    Value::Array(items)
}

/// Adds the namespaces, where there are any.
pub fn push_namespaces(entries: &mut Vec<(String, Value)>, list: &Option<Vec<KvNamespace>>)
    ensures
        pairs_map(final(entries).deep_view()) == put_namespaces(
            pairs_map(old(entries).deep_view()),
            list.deep_view(),
        ),
{
    match list {
        Some(l) => push_entry(entries, "kv-namespaces", namespaces_value(l)),
        None => {},
    }
}

impl Site {
    /// The site as a document.
    pub fn serialize(&self) -> (r: Value)
        ensures
            r@ == serialize_site(self@),
    {
        let mut entries: Vec<(String, Value)> = Vec::new();
        assert(pairs_map(entries.deep_view()) == Map::<Seq<char>, ValueView>::empty()) by {
            assert(entries.deep_view() =~= Seq::empty());
        }
        push_entry(&mut entries, "bucket", Value::Text(self.bucket.clone()));
        push_text(&mut entries, "entry-point", &self.entry_point);
        table_value(entries)
    }
}

/// The text of an optional text, empty where there is none.
pub fn text_or_blank(text: &Option<String>) -> (r: String)
    ensures
        r@ == text_or_empty(text.deep_view()),
{
    match text {
        Some(s) => s.clone(),
        None => String::new(),
    }
}

impl Environment {
    /// The environment as a document.
    pub fn serialize(&self) -> (r: Value)
        ensures
            r@ == serialize_environment(self@),
    {
        let mut entries: Vec<(String, Value)> = Vec::new();
        assert(pairs_map(entries.deep_view()) == Map::<Seq<char>, ValueView>::empty()) by {
            assert(entries.deep_view() =~= Seq::empty());
        }
        push_text(&mut entries, "name", &self.name);
        push_text(&mut entries, "account_id", &self.account_id);
        push_flag(&mut entries, "workers_dev", self.workers_dev);
        push_entry(&mut entries, "route", Value::Text(text_or_blank(&self.route)));
        push_texts(&mut entries, "routes", &self.routes);
        push_entry(&mut entries, "zone_id", Value::Text(text_or_blank(&self.zone_id)));
        push_text(&mut entries, "webpack_config", &self.webpack_config);
        push_namespaces(&mut entries, &self.kv_namespaces);
        table_value(entries)
    }
}

impl Environments {
    /// The environments as a table of documents.
    pub fn serialize(&self) -> (r: Value)
        ensures
            r@ == environments_node(self@),
    {
        let ghost pairs = self.pairs();
        let mut entries: Vec<(String, Value)> = Vec::new();
        let count = self.len();
        let mut i: usize = 0;
        while i < count
            invariant
                i <= count,
                count == pairs.len(),
                pairs == self.pairs(),
                entries.len() == i,
                forall|j: int|
                    0 <= j < i ==> (#[trigger] entries.deep_view()[j]) == (
                        pairs[j].0,
                        serialize_environment(pairs[j].1),
                    ),
            decreases count - i,
        {
            let (name, environment) = self.entry(i);
            let ghost before = entries.deep_view();
            let section = environment.serialize();
            entries.push((name.clone(), section));
            assert(entries.deep_view() =~= before.push(
                (pairs[i as int].0, serialize_environment(pairs[i as int].1)),
            ));
            i += 1;
        }
        proof {
            let out = entries.deep_view();
            let want = environments_node(self@)->Table_0;
            assert forall|a: int, b: int| 0 <= a < b < out.len() implies (#[trigger] out[a]).0 != (
            #[trigger] out[b]).0 by {
                assert(pairs[a].0 != pairs[b].0);
            }
            lemma_pairs_map_distinct(pairs);
            lemma_pairs_map_keys(pairs);
            assert forall|a: int| 0 <= a < out.len() implies want.contains_key(
                (#[trigger] out[a]).0,
            ) && want[out[a].0] == out[a].1 by {
                assert(self@.contains_key(pairs[a].0) && self@[pairs[a].0] == pairs[a].1);
            }
            assert forall|k: Seq<char>| #[trigger] want.contains_key(k) implies has_key(out, k) by {
                assert(has_key(pairs, k));
                let a = choose|a: int| 0 <= a < pairs.len() && (#[trigger] pairs[a]).0 == k;
                assert(out[a].0 == k);
            }
            lemma_pairs_map_is(out, want);
        }
        table_value(entries)
    }
}

impl Manifest {
    /// The manifest as a document.
    pub fn serialize(&self) -> (r: Value)
        ensures
            r@ == serialize_manifest(self@),
    {
        let mut entries: Vec<(String, Value)> = Vec::new();
        assert(pairs_map(entries.deep_view()) == Map::<Seq<char>, ValueView>::empty()) by {
            assert(entries.deep_view() =~= Seq::empty());
        }
        push_entry(&mut entries, "name", Value::Text(self.name.clone()));
        push_entry(&mut entries, "type", Value::Text(type_word(self.target_type).to_owned()));
        push_entry(&mut entries, "account_id", Value::Text(self.account_id.clone()));
        push_flag(&mut entries, "workers_dev", self.workers_dev);
        push_entry(&mut entries, "route", Value::Text(text_or_blank(&self.route)));
        push_texts(&mut entries, "routes", &self.routes);
        push_entry(&mut entries, "zone_id", Value::Text(text_or_blank(&self.zone_id)));
        push_text(&mut entries, "webpack_config", &self.webpack_config);
        push_flag(&mut entries, "private", self.private);
        match &self.site {
            Some(s) => push_entry(&mut entries, "site", s.serialize()),
            None => {},
        }
        push_namespaces(&mut entries, &self.kv_namespaces);
        if !self.env.is_empty() {
            push_entry(&mut entries, "env", self.env.serialize());
        }
        table_value(entries)
    }
}

} // verus!
