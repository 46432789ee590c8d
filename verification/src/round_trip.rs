//! Writing a manifest down and reading it back gives the manifest; reading
//! a document and writing it down again gives the document.

use vstd::prelude::*;
use crate::document::{
    all_environments, all_namespaces, blank_as_none, environments_node, environments_of,
    field_environments, field_namespaces, field_required_text, field_site, field_type,
    namespaces_node, namespaces_of, parse_environment, parse_manifest, parse_namespace,
    parse_site, put_environments, put_flag, put_namespaces, put_site, put_text, put_texts,
    serialize_environment, serialize_manifest, serialize_namespace, serialize_site, texts_node,
    type_of_text, type_text, TableView,
};
use crate::environment::EnvironmentView;
use crate::error::{Field, FormatError};
use crate::kv_namespace::KvNamespaceView;
use crate::manifest::ManifestView;
use crate::site::SiteView;
use crate::target_type::TargetType;
use crate::text::text_or_empty;
use crate::value::{all_texts, field_flag, field_text, field_texts, texts_of, ValueView};

verus! {

/// The length and the first character of every key and written form: what
/// tells any two of them apart.
pub proof fn lemma_key_shapes()
    ensures
        "name"@.len() == 4,
        "name"@[0] == 'n',
        "type"@.len() == 4,
        "type"@[0] == 't',
        "site"@.len() == 4,
        "site"@[0] == 's',
        "route"@.len() == 5,
        "route"@[0] == 'r',
        "plain"@.len() == 5,
        "plain"@[0] == 'p',
        "routes"@.len() == 6,
        "routes"@[0] == 'r',
        "bucket"@.len() == 6,
        "bucket"@[0] == 'b',
        "zone_id"@.len() == 7,
        "zone_id"@[0] == 'z',
        "private"@.len() == 7,
        "private"@[0] == 'p',
        "binding"@.len() == 7,
        "binding"@[0] == 'b',
        "webpack"@.len() == 7,
        "webpack"@[0] == 'w',
        "workers_dev"@.len() == 11,
        "workers_dev"@[0] == 'w',
        "entry-point"@.len() == 11,
        "entry-point"@[0] == 'e',
        "id"@.len() == 2,
        "id"@[0] == 'i',
        "env"@.len() == 3,
        "env"@[0] == 'e',
        "account_id"@.len() == 10,
        "account_id"@[0] == 'a',
        "kv-namespaces"@.len() == 13,
        "kv-namespaces"@[0] == 'k',
        "webpack_config"@.len() == 14,
        "webpack_config"@[0] == 'w',
{
    reveal_strlit("name");
    reveal_strlit("type");
    reveal_strlit("site");
    reveal_strlit("route");
    reveal_strlit("plain");
    reveal_strlit("routes");
    reveal_strlit("bucket");
    reveal_strlit("zone_id");
    reveal_strlit("private");
    reveal_strlit("binding");
    reveal_strlit("webpack");
    reveal_strlit("workers_dev");
    reveal_strlit("entry-point");
    reveal_strlit("id");
    reveal_strlit("env");
    reveal_strlit("account_id");
    reveal_strlit("kv-namespaces");
    reveal_strlit("webpack_config");
}

/// A list of texts that is written down reads back as it was.
pub proof fn lemma_texts_round_trip(texts: Seq<Seq<char>>)
    ensures
        all_texts(texts_node(texts)->Array_0),
        texts_of(texts_node(texts)->Array_0) == texts,
{
    assert(texts_of(texts_node(texts)->Array_0) =~= texts);
}

/// A build mode that is written down reads back as it was.
pub proof fn lemma_type_round_trip(t: TargetType)
    ensures
        type_of_text(type_text(t)) == Some(t),
{
    lemma_key_shapes();
}

/// A namespace that is written down reads back as it was.
pub proof fn lemma_namespace_round_trip(k: KvNamespaceView)
    ensures
        parse_namespace(serialize_namespace(k)) == Ok::<KvNamespaceView, FormatError>(k),
{
    lemma_key_shapes();
    let t = serialize_namespace(k)->Table_0;
    assert(field_required_text(t, Field::Id) == Ok::<Seq<char>, FormatError>(k.id));
    assert(field_required_text(t, Field::Binding) == Ok::<Seq<char>, FormatError>(k.binding));
    assert(field_text(t, Field::Bucket) == Ok::<Option<Seq<char>>, FormatError>(k.bucket));
}

/// A list of namespaces that is written down reads back as it was.
pub proof fn lemma_namespaces_round_trip(list: Seq<KvNamespaceView>)
    ensures
        all_namespaces(namespaces_node(list)->Array_0),
        namespaces_of(namespaces_node(list)->Array_0) == list,
{
    let items = namespaces_node(list)->Array_0;
    assert forall|i: int| 0 <= i < items.len() implies parse_namespace(#[trigger] items[i])
        == Ok::<KvNamespaceView, FormatError>(list[i]) by {
        lemma_namespace_round_trip(list[i]);
    }
    assert(namespaces_of(items) =~= list);
}

/// A site that is written down reads back as it was.
pub proof fn lemma_site_round_trip(s: SiteView)
    ensures
        parse_site(serialize_site(s)) == Ok::<SiteView, FormatError>(s),
{
    lemma_key_shapes();
    let t = serialize_site(s)->Table_0;
    assert(field_required_text(t, Field::Bucket) == Ok::<Seq<char>, FormatError>(s.bucket));
    assert(field_text(t, Field::EntryPoint) == Ok::<Option<Seq<char>>, FormatError>(s.entry_point));
}

impl EnvironmentView {
    /// A route or a zone that is set is not empty.
    pub open spec fn is_normal(self) -> bool {
        blank_as_none(self.route) == self.route && blank_as_none(self.zone_id) == self.zone_id
    }
}

impl ManifestView {
    /// A route or a zone that is set is not empty, at the top level and in
    /// every environment.
    pub open spec fn is_normal(self) -> bool {
        &&& blank_as_none(self.route) == self.route
        &&& blank_as_none(self.zone_id) == self.zone_id
        &&& forall|k: Seq<char>| self.env.contains_key(k) ==> (#[trigger] self.env[k]).is_normal()
    }
}

/// An environment that is written down reads back as it was, where no
/// route or zone of it is set and empty.
pub proof fn lemma_environment_round_trip(e: EnvironmentView)
    requires
        e.is_normal(),
    ensures
        parse_environment(serialize_environment(e)) == Ok::<EnvironmentView, FormatError>(e),
{
    lemma_key_shapes();
    let t = serialize_environment(e)->Table_0;
    assert(field_text(t, Field::Name) == Ok::<Option<Seq<char>>, FormatError>(e.name));
    assert(field_text(t, Field::AccountId) == Ok::<Option<Seq<char>>, FormatError>(e.account_id));
    assert(field_flag(t, Field::WorkersDev) == Ok::<Option<bool>, FormatError>(e.workers_dev));
    assert(field_text(t, Field::Route) == Ok::<Option<Seq<char>>, FormatError>(
        Some(text_or_empty(e.route)),
    ));
    assert(blank_as_none(Some(text_or_empty(e.route))) == e.route);
    assert(field_texts(t, Field::Routes) == Ok::<Option<Seq<Seq<char>>>, FormatError>(e.routes)) by {
        if e.routes is Some {
            lemma_texts_round_trip(e.routes.unwrap());
        }
    }
    assert(field_text(t, Field::ZoneId) == Ok::<Option<Seq<char>>, FormatError>(
        Some(text_or_empty(e.zone_id)),
    ));
    assert(blank_as_none(Some(text_or_empty(e.zone_id))) == e.zone_id);
    assert(field_text(t, Field::WebpackConfig) == Ok::<Option<Seq<char>>, FormatError>(
        e.webpack_config,
    ));
    assert(field_namespaces(t) == Ok::<Option<Seq<KvNamespaceView>>, FormatError>(
        e.kv_namespaces,
    )) by {
        if e.kv_namespaces is Some {
            lemma_namespaces_round_trip(e.kv_namespaces.unwrap());
        }
    }
}

/// Environments that are written down read back as they were.
pub proof fn lemma_environments_round_trip(env: Map<Seq<char>, EnvironmentView>)
    requires
        forall|k: Seq<char>| env.contains_key(k) ==> (#[trigger] env[k]).is_normal(),
    ensures
        all_environments(environments_node(env)->Table_0),
        environments_of(environments_node(env)->Table_0) == env,
{
    let sections = environments_node(env)->Table_0;
    assert forall|k: Seq<char>| sections.contains_key(k) implies parse_environment(
        #[trigger] sections[k],
    ) == Ok::<EnvironmentView, FormatError>(env[k]) by {
        assert(env[k].is_normal());
        lemma_environment_round_trip(env[k]);
    }
    assert(environments_of(sections) =~= env);
}

/// Writing a manifest down and reading it back gives the manifest, where
/// no route or zone of it is set and empty.
pub proof fn law_manifest_round_trip(m: ManifestView)
    requires
        m.is_normal(),
    ensures
        parse_manifest(serialize_manifest(m)) == Ok::<ManifestView, FormatError>(m),
{
    lemma_key_shapes();
    let t = serialize_manifest(m)->Table_0;
    assert(field_text(t, Field::Name) == Ok::<Option<Seq<char>>, FormatError>(Some(m.name)));
    assert(field_type(t) == Ok::<TargetType, FormatError>(m.target_type)) by {
        lemma_type_round_trip(m.target_type);
        assert(field_text(t, Field::Type) == Ok::<Option<Seq<char>>, FormatError>(
            Some(type_text(m.target_type)),
        ));
    }
    assert(field_text(t, Field::AccountId) == Ok::<Option<Seq<char>>, FormatError>(
        Some(m.account_id),
    ));
    assert(field_flag(t, Field::WorkersDev) == Ok::<Option<bool>, FormatError>(m.workers_dev));
    assert(field_text(t, Field::Route) == Ok::<Option<Seq<char>>, FormatError>(
        Some(text_or_empty(m.route)),
    ));
    assert(blank_as_none(Some(text_or_empty(m.route))) == m.route);
    assert(field_texts(t, Field::Routes) == Ok::<Option<Seq<Seq<char>>>, FormatError>(m.routes)) by {
        if m.routes is Some {
            lemma_texts_round_trip(m.routes.unwrap());
        }
    }
    assert(field_text(t, Field::ZoneId) == Ok::<Option<Seq<char>>, FormatError>(
        Some(text_or_empty(m.zone_id)),
    ));
    assert(blank_as_none(Some(text_or_empty(m.zone_id))) == m.zone_id);
    assert(field_text(t, Field::WebpackConfig) == Ok::<Option<Seq<char>>, FormatError>(
        m.webpack_config,
    ));
    assert(field_flag(t, Field::Private) == Ok::<Option<bool>, FormatError>(m.private));
    assert(field_site(t) == Ok::<Option<SiteView>, FormatError>(m.site)) by {
        if m.site is Some {
            lemma_site_round_trip(m.site.unwrap());
        }
    }
    assert(field_namespaces(t) == Ok::<Option<Seq<KvNamespaceView>>, FormatError>(
        m.kv_namespaces,
    )) by {
        if m.kv_namespaces is Some {
            lemma_namespaces_round_trip(m.kv_namespaces.unwrap());
        }
    }
    assert(field_environments(t) == Ok::<Map<Seq<char>, EnvironmentView>, FormatError>(m.env)) by {
        if m.env.is_empty() {
            assert(m.env =~= Map::empty());
        } else {
            lemma_environments_round_trip(m.env);
        }
    }
}

/// A key that a namespace is written with.
pub open spec fn is_namespace_key(key: Seq<char>) -> bool {
    key == "id"@ || key == "binding"@ || key == "bucket"@
}

/// A key that an environment is written with.
pub open spec fn is_environment_key(key: Seq<char>) -> bool {
    ||| key == "name"@
    ||| key == "account_id"@
    ||| key == "workers_dev"@
    ||| key == "route"@
    ||| key == "routes"@
    ||| key == "zone_id"@
    ||| key == "webpack_config"@
    ||| key == "kv-namespaces"@
}

/// A key that the top level of a manifest is written with.
pub open spec fn is_manifest_key(key: Seq<char>) -> bool {
    ||| key == "name"@
    ||| key == "type"@
    ||| key == "account_id"@
    ||| key == "workers_dev"@
    ||| key == "route"@
    ||| key == "routes"@
    ||| key == "zone_id"@
    ||| key == "webpack_config"@
    ||| key == "private"@
    ||| key == "site"@
    ||| key == "kv-namespaces"@
    ||| key == "env"@
}

/// The document reads as a namespace and holds nothing but its fields.
pub open spec fn namespace_in_full(v: ValueView) -> bool {
    &&& parse_namespace(v) is Ok
    &&& forall|k: Seq<char>| #[trigger] (v->Table_0).contains_key(k) ==> is_namespace_key(k)
}

/// The namespaces of the section, where it has any, are each in full.
pub open spec fn namespaces_in_full(t: TableView) -> bool {
    t.contains_key("kv-namespaces"@) ==> forall|i: int|
        0 <= i < (t["kv-namespaces"@]->Array_0).len() ==> namespace_in_full(
            #[trigger] (t["kv-namespaces"@]->Array_0)[i],
        )
}

/// The document reads as an environment, holds nothing but its fields, and
/// holds the route and the zone, which are always written.
pub open spec fn environment_in_full(v: ValueView) -> bool {
    &&& parse_environment(v) is Ok
    &&& forall|k: Seq<char>| #[trigger] (v->Table_0).contains_key(k) ==> is_environment_key(k)
    &&& (v->Table_0).contains_key("route"@)
    &&& (v->Table_0).contains_key("zone_id"@)
    &&& namespaces_in_full(v->Table_0)
}

/// The environments of the manifest, where it has a section of them, are
/// at least one and each in full.
pub open spec fn environments_in_full(t: TableView) -> bool {
    t.contains_key("env"@) ==> !(t["env"@]->Table_0).is_empty() && forall|k: Seq<char>|
        (t["env"@]->Table_0).contains_key(k) ==> environment_in_full(
            #[trigger] (t["env"@]->Table_0)[k],
        )
}

/// The document reads as a manifest, holds only fields that the model
/// knows, at every level, and holds the fields that are always written:
/// the name, the account, the route and the zone.
pub open spec fn manifest_in_full(v: ValueView) -> bool {
    &&& parse_manifest(v) is Ok
    &&& forall|k: Seq<char>| #[trigger] (v->Table_0).contains_key(k) ==> is_manifest_key(k)
    &&& (v->Table_0).contains_key("name"@)
    &&& (v->Table_0).contains_key("account_id"@)
    &&& (v->Table_0).contains_key("route"@)
    &&& (v->Table_0).contains_key("zone_id"@)
    &&& namespaces_in_full(v->Table_0)
    &&& environments_in_full(v->Table_0)
}

/// A list of texts that is read writes down as it was.
pub proof fn lemma_texts_document(items: Seq<ValueView>)
    requires
        all_texts(items),
    ensures
        texts_node(texts_of(items)) == ValueView::Array(items),
{
    assert(texts_node(texts_of(items))->Array_0 =~= items);
}

/// A namespace that is read in full writes down as it was.
pub proof fn lemma_namespace_document(v: ValueView)
    requires
        namespace_in_full(v),
    ensures
        serialize_namespace(parse_namespace(v).unwrap()) == v,
{
    lemma_key_shapes();
    let t = v->Table_0;
    let out = serialize_namespace(parse_namespace(v).unwrap())->Table_0;
    assert forall|k: Seq<char>| out.contains_key(k) <==> t.contains_key(k) by {
        if t.contains_key(k) {
            assert(is_namespace_key(k));
        }
    }
    assert(out =~= t);
}

/// A list of namespaces that is read in full writes down as it was.
pub proof fn lemma_namespaces_document(t: TableView, out: TableView)
    requires
        field_namespaces(t) is Ok,
        namespaces_in_full(t),
    ensures
        put_namespaces(out, field_namespaces(t).unwrap()).contains_key("kv-namespaces"@)
            <==> t.contains_key("kv-namespaces"@) || out.contains_key("kv-namespaces"@),
        t.contains_key("kv-namespaces"@) ==> put_namespaces(
            out,
            field_namespaces(t).unwrap(),
        )["kv-namespaces"@] == t["kv-namespaces"@],
{
    if t.contains_key("kv-namespaces"@) {
        let items = t["kv-namespaces"@]->Array_0;
        let back = namespaces_node(namespaces_of(items))->Array_0;
        assert forall|i: int| 0 <= i < items.len() implies back[i] == items[i] by {
            assert(namespace_in_full(items[i]));
            lemma_namespace_document(items[i]);
        }
        assert(back =~= items);
    }
}

/// A site that is read writes down as it was.
pub proof fn lemma_site_document(v: ValueView)
    requires
        parse_site(v) is Ok,
    ensures
        serialize_site(parse_site(v).unwrap()) == v,
{
    lemma_key_shapes();
    let t = v->Table_0;
    let out = serialize_site(parse_site(v).unwrap())->Table_0;
    assert forall|k: Seq<char>| out.contains_key(k) <==> t.contains_key(k) by {
        if t.contains_key(k) {
            assert(crate::document::is_site_key(k));
        }
    }
    assert(out =~= t);
}

/// An environment that is read in full writes down as it was.
pub proof fn lemma_environment_document(v: ValueView)
    requires
        environment_in_full(v),
    ensures
        serialize_environment(parse_environment(v).unwrap()) == v,
{
    lemma_key_shapes();
    let t = v->Table_0;
    let e = parse_environment(v).unwrap();
    let out = serialize_environment(e)->Table_0;
    if t.contains_key("routes"@) {
        lemma_texts_document(t["routes"@]->Array_0);
    }
    lemma_namespaces_document(
        t,
        put_text(
            put_texts(
                put_flag(
                    put_text(
                        put_text(Map::<Seq<char>, ValueView>::empty(), "name"@, e.name),
                        "account_id"@,
                        e.account_id,
                    ),
                    "workers_dev"@,
                    e.workers_dev,
                ).insert("route"@, ValueView::Text(text_or_empty(e.route))),
                "routes"@,
                e.routes,
            ).insert("zone_id"@, ValueView::Text(text_or_empty(e.zone_id))),
            "webpack_config"@,
            e.webpack_config,
        ),
    );
    assert(t["route"@] == ValueView::Text(text_or_empty(e.route))) by {
        assert(t["route"@]->Text_0 =~= text_or_empty(e.route));
    }
    assert(t["zone_id"@] == ValueView::Text(text_or_empty(e.zone_id))) by {
        assert(t["zone_id"@]->Text_0 =~= text_or_empty(e.zone_id));
    }
    assert forall|k: Seq<char>| out.contains_key(k) <==> t.contains_key(k) by {
        if t.contains_key(k) {
            assert(is_environment_key(k));
        }
    }
    assert forall|k: Seq<char>| t.contains_key(k) implies out[k] == t[k] by {
        assert(is_environment_key(k));
    }
    assert(out =~= t);
}

/// Environments that are read in full write down as they were.
pub proof fn lemma_environments_document(t: TableView, out: TableView)
    requires
        field_environments(t) is Ok,
        environments_in_full(t),
    ensures
        put_environments(out, field_environments(t).unwrap()).contains_key("env"@)
            <==> t.contains_key("env"@) || out.contains_key("env"@),
        t.contains_key("env"@) ==> put_environments(out, field_environments(t).unwrap())["env"@]
            == t["env"@],
{
    if t.contains_key("env"@) {
        let sections = t["env"@]->Table_0;
        let env = environments_of(sections);
        let back = environments_node(env)->Table_0;
        assert(env.dom() =~= sections.dom());
        assert(!env.is_empty());
        assert forall|k: Seq<char>| sections.contains_key(k) implies back[k] == sections[k] by {
            assert(environment_in_full(sections[k]));
            lemma_environment_document(sections[k]);
        }
        assert(back =~= sections);
    } else {
        assert(field_environments(t).unwrap().dom() =~= Set::empty());
    }
}

/// Reading a document and writing the manifest down again gives the
/// document, where the document holds only fields that the model knows
/// and holds those that are always written.
pub proof fn law_document_round_trip(v: ValueView)
    requires
        manifest_in_full(v),
    ensures
        serialize_manifest(parse_manifest(v).unwrap()) == v,
{
    lemma_key_shapes();
    let t = v->Table_0;
    let m = parse_manifest(v).unwrap();
    let out = serialize_manifest(m)->Table_0;
    let t0 = Map::<Seq<char>, ValueView>::empty().insert("name"@, ValueView::Text(m.name));
    let t1 = t0.insert("type"@, ValueView::Text(type_text(m.target_type)));
    let t2 = t1.insert("account_id"@, ValueView::Text(m.account_id));
    let t3 = put_flag(t2, "workers_dev"@, m.workers_dev);
    let t4 = t3.insert("route"@, ValueView::Text(text_or_empty(m.route)));
    let t5 = put_texts(t4, "routes"@, m.routes);
    let t6 = t5.insert("zone_id"@, ValueView::Text(text_or_empty(m.zone_id)));
    let t7 = put_text(t6, "webpack_config"@, m.webpack_config);
    let t8 = put_flag(t7, "private"@, m.private);
    let t9 = put_site(t8, m.site);
    let t10 = put_namespaces(t9, m.kv_namespaces);
    assert(out == put_environments(t10, m.env));
    if t.contains_key("routes"@) {
        lemma_texts_document(t["routes"@]->Array_0);
    }
    if t.contains_key("site"@) {
        lemma_site_document(t["site"@]);
    }
    lemma_namespaces_document(t, t9);
    lemma_environments_document(t, t10);
    assert(t["name"@] == ValueView::Text(m.name));
    assert(t["account_id"@] == ValueView::Text(m.account_id));
    assert(t["type"@] == ValueView::Text(type_text(m.target_type)));
    assert(t["route"@] == ValueView::Text(text_or_empty(m.route))) by {
        assert(t["route"@]->Text_0 =~= text_or_empty(m.route));
    }
    assert(t["zone_id"@] == ValueView::Text(text_or_empty(m.zone_id))) by {
        assert(t["zone_id"@]->Text_0 =~= text_or_empty(m.zone_id));
    }
    assert forall|k: Seq<char>| out.contains_key(k) <==> t.contains_key(k) by {
        if t.contains_key(k) {
            assert(is_manifest_key(k));
        }
    }
    assert forall|k: Seq<char>| t.contains_key(k) implies out[k] == t[k] by {
        assert(is_manifest_key(k));
    }
    assert(out =~= t);
}

} // verus!
