//! How a manifest is written down as a document and read back from one,
//! stated over documents as mathematical values.
//!
//! A section is a table. Its fields stand under fixed keys; a field that
//! is not set has no key, except the route and the zone, which are
//! written as the empty text where they are not set and read back as not
//! set where they are empty. Keys that the model does not know are passed
//! over when reading, except inside the site section, which takes known
//! keys only; namespaces that stand there are reported before anything
//! else.

use vstd::prelude::*;
use crate::environment::EnvironmentView;
use crate::error::{Field, FormatError, Reason};
use crate::kv_namespace::KvNamespaceView;
use crate::manifest::ManifestView;
use crate::site::SiteView;
use crate::target_type::TargetType;
use crate::text::{text_or_empty, text_set};
use crate::value::{
    fault, field_flag, field_text, field_texts, missing, wrong_kind, ValueView,
};

verus! {

/// The table of a document.
pub type TableView = Map<Seq<char>, ValueView>;

/// An optional text that is empty counts as not set.
pub open spec fn blank_as_none(t: Option<Seq<char>>) -> Option<Seq<char>> {
    if text_set(t) {
        t
    } else {
        None
    }
}

/// The written form of a build mode.
pub open spec fn type_text(t: TargetType) -> Seq<char> {
    match t {
        TargetType::Plain => "plain"@,
        TargetType::Webpack => "webpack"@,
    }
}

/// The build mode that a text is the written form of.
pub open spec fn type_of_text(s: Seq<char>) -> Option<TargetType> {
    if s == "webpack"@ {
        Some(TargetType::Webpack)
    } else if s == "plain"@ {
        Some(TargetType::Plain)
    } else {
        None
    }
}

/// The build mode of a section: it must be there, as one of the written forms.
pub open spec fn field_type(table: TableView) -> Result<TargetType, FormatError> {
    match field_text(table, Field::Type) {
        Ok(Some(s)) => match type_of_text(s) {
            Some(t) => Ok(t),
            None => Err(wrong_kind(Field::Type)),
        },
        Ok(None) => Err(missing(Field::Type)),
        Err(e) => Err(e),
    }
}

/// A text that must be there.
pub open spec fn field_required_text(table: TableView, field: Field) -> Result<
    Seq<char>,
    FormatError,
> {
    match field_text(table, field) {
        Ok(Some(s)) => Ok(s),
        Ok(None) => Err(missing(field)),
        Err(e) => Err(e),
    }
}

/// What is wrong with a namespace section: the first of its fields, in the
/// order identifier, binding, bucket, that does not read.
pub open spec fn namespace_fault(t: TableView) -> Option<FormatError> {
    if field_required_text(t, Field::Id) is Err {
        fault(field_required_text(t, Field::Id))
    } else if field_required_text(t, Field::Binding) is Err {
        fault(field_required_text(t, Field::Binding))
    } else {
        fault(field_text(t, Field::Bucket))
    }
}

/// Reads a namespace: a table with an identifier and a binding, and maybe a bucket.
pub open spec fn parse_namespace(v: ValueView) -> Result<KvNamespaceView, FormatError> {
    match v {
        ValueView::Table(t) => match namespace_fault(t) {
            Some(e) => Err(e),
            None => Ok(
                KvNamespaceView {
                    id: field_required_text(t, Field::Id).unwrap(),
                    binding: field_required_text(t, Field::Binding).unwrap(),
                    bucket: field_text(t, Field::Bucket).unwrap(),
                },
            ),
        },
        _ => Err(wrong_kind(Field::KvNamespaces)),
    }
}

/// Every item of the list reads as a namespace.
pub open spec fn all_namespaces(items: Seq<ValueView>) -> bool {
    forall|i: int| 0 <= i < items.len() ==> parse_namespace(#[trigger] items[i]) is Ok
}

/// Item `i` is the first of the list that does not read as a namespace.
pub open spec fn is_first_bad_namespace(items: Seq<ValueView>, i: int) -> bool {
    &&& 0 <= i < items.len()
    &&& parse_namespace(items[i]) is Err
    &&& forall|j: int| 0 <= j < i ==> parse_namespace(#[trigger] items[j]) is Ok
}

/// The namespaces that the items of a list read as.
pub open spec fn namespaces_of(items: Seq<ValueView>) -> Seq<KvNamespaceView> {
    Seq::new(items.len(), |i: int| parse_namespace(items[i]).unwrap())
}

/// The namespaces of a section: absent, or a list of namespaces. Where an
/// item does not read, the error is that of the first such item.
pub open spec fn field_namespaces(table: TableView) -> Result<
    Option<Seq<KvNamespaceView>>,
    FormatError,
> {
    if !table.contains_key("kv-namespaces"@) {
        Ok(None)
    } else {
        match table["kv-namespaces"@] {
            ValueView::Array(items) => if all_namespaces(items) {
                Ok(Some(namespaces_of(items)))
            } else {
                Err(
                    parse_namespace(
                        items[choose|i: int| is_first_bad_namespace(items, i)],
                    )->Err_0,
                )
            },
            _ => Err(wrong_kind(Field::KvNamespaces)),
        }
    }
}

/// A key that the site section takes.
pub open spec fn is_site_key(key: Seq<char>) -> bool {
    key == "bucket"@ || key == "entry-point"@
}

/// Reads the site section. Namespaces inside it are misplaced; any other
/// key that the section does not take is unknown. Then the bucket must be
/// there, and the entry point a text where it is there.
pub open spec fn parse_site(v: ValueView) -> Result<SiteView, FormatError> {
    match v {
        ValueView::Table(t) => if t.contains_key("kv-namespaces"@) {
            Err(FormatError::MisplacedKvNamespaces)
        } else if exists|k: Seq<char>| #[trigger] t.contains_key(k) && !is_site_key(k) {
            Err(FormatError::UnknownField)
        } else if field_required_text(t, Field::Bucket) is Err {
            Err(field_required_text(t, Field::Bucket)->Err_0)
        } else if field_text(t, Field::EntryPoint) is Err {
            Err(field_text(t, Field::EntryPoint)->Err_0)
        } else {
            Ok(
                SiteView {
                    bucket: field_required_text(t, Field::Bucket).unwrap(),
                    entry_point: field_text(t, Field::EntryPoint).unwrap(),
                },
            )
        },
        _ => Err(wrong_kind(Field::Site)),
    }
}

/// The site of a manifest: absent, or a site section.
pub open spec fn field_site(table: TableView) -> Result<Option<SiteView>, FormatError> {
    if !table.contains_key("site"@) {
        Ok(None)
    } else {
        match parse_site(table["site"@]) {
            Ok(s) => Ok(Some(s)),
            Err(e) => Err(e),
        }
    }
}

/// The site of the table is a section that holds namespaces.
pub open spec fn site_holds_namespaces(table: TableView) -> bool {
    table.contains_key("site"@) && table["site"@] is Table && (table["site"@]->Table_0).contains_key(
        "kv-namespaces"@,
    )
}

/// What is wrong with an environment section: the first of its fields, in
/// the order in which they are listed here, that does not read.
pub open spec fn environment_fault(t: TableView) -> Option<FormatError> {
    if field_text(t, Field::Name) is Err {
        fault(field_text(t, Field::Name))
    } else if field_text(t, Field::AccountId) is Err {
        fault(field_text(t, Field::AccountId))
    } else if field_flag(t, Field::WorkersDev) is Err {
        fault(field_flag(t, Field::WorkersDev))
    } else if field_text(t, Field::Route) is Err {
        fault(field_text(t, Field::Route))
    } else if field_texts(t, Field::Routes) is Err {
        fault(field_texts(t, Field::Routes))
    } else if field_text(t, Field::ZoneId) is Err {
        fault(field_text(t, Field::ZoneId))
    } else if field_text(t, Field::WebpackConfig) is Err {
        fault(field_text(t, Field::WebpackConfig))
    } else {
        fault(field_namespaces(t))
    }
}

/// Reads an environment section.
pub open spec fn parse_environment(v: ValueView) -> Result<EnvironmentView, FormatError> {
    match v {
        ValueView::Table(t) => match environment_fault(t) {
            Some(e) => Err(e),
            None => Ok(
                EnvironmentView {
                    name: field_text(t, Field::Name).unwrap(),
                    account_id: field_text(t, Field::AccountId).unwrap(),
                    workers_dev: field_flag(t, Field::WorkersDev).unwrap(),
                    route: blank_as_none(field_text(t, Field::Route).unwrap()),
                    routes: field_texts(t, Field::Routes).unwrap(),
                    zone_id: blank_as_none(field_text(t, Field::ZoneId).unwrap()),
                    webpack_config: field_text(t, Field::WebpackConfig).unwrap(),
                    kv_namespaces: field_namespaces(t).unwrap(),
                },
            ),
        },
        _ => Err(wrong_kind(Field::Env)),
    }
}

/// Every value of the table reads as an environment.
pub open spec fn all_environments(sections: TableView) -> bool {
    forall|k: Seq<char>| sections.contains_key(k) ==> parse_environment(#[trigger] sections[k]) is Ok
}

/// The environments that the values of a table read as, each under its key.
pub open spec fn environments_of(sections: TableView) -> Map<Seq<char>, EnvironmentView> {
    Map::new(
        |k: Seq<char>| sections.contains_key(k),
        |k: Seq<char>| parse_environment(sections[k]).unwrap(),
    )
}

/// The place of a field in the list of fields.
pub open spec fn field_rank(field: Field) -> nat {
    match field {
        Field::Document => 0,
        Field::Name => 1,
        Field::Type => 2,
        Field::AccountId => 3,
        Field::WorkersDev => 4,
        Field::Route => 5,
        Field::Routes => 6,
        Field::ZoneId => 7,
        Field::WebpackConfig => 8,
        Field::Private => 9,
        Field::Site => 10,
        Field::Bucket => 11,
        Field::EntryPoint => 12,
        Field::KvNamespaces => 13,
        Field::Id => 14,
        Field::Binding => 15,
        Field::Env => 16,
    }
}

/// The place of a fault among the faults of environments: by the field,
/// and for one field a missing one before one of the wrong kind.
pub open spec fn fault_rank(e: FormatError) -> nat {
    match e {
        FormatError::Malformed(field, Reason::Missing) => 2 * field_rank(field),
        FormatError::Malformed(field, Reason::WrongKind) => 2 * field_rank(field) + 1,
        _ => 34,
    }
}

/// Some section of the table fails to read with the fault `e`, and none
/// fails with a fault that comes before it.
pub open spec fn is_least_environment_fault(sections: TableView, e: FormatError) -> bool {
    &&& exists|k: Seq<char>|
        sections.contains_key(k) && parse_environment(#[trigger] sections[k]) == Err::<
            EnvironmentView,
            FormatError,
        >(e)
    &&& forall|k: Seq<char>|
        sections.contains_key(k) && parse_environment(#[trigger] sections[k]) is Err
            ==> fault_rank(e) <= fault_rank(parse_environment(sections[k])->Err_0)
}

/// The fault of a section as a fault of an environment of the manifest.
pub open spec fn in_environment(e: FormatError) -> FormatError {
    match e {
        FormatError::Malformed(field, reason) => FormatError::MalformedEnvironment(field, reason),
        other => other,
    }
}

/// The environments of a manifest: none, or a table of environment
/// sections. Where sections do not read, the error is the first of their
/// faults in the order of `fault_rank`.
pub open spec fn field_environments(table: TableView) -> Result<
    Map<Seq<char>, EnvironmentView>,
    FormatError,
> {
    if !table.contains_key("env"@) {
        Ok(Map::empty())
    } else {
        match table["env"@] {
            ValueView::Table(sections) => if all_environments(sections) {
                Ok(environments_of(sections))
            } else {
                Err(
                    in_environment(
                        choose|e: FormatError| is_least_environment_fault(sections, e),
                    ),
                )
            },
            _ => Err(wrong_kind(Field::Env)),
        }
    }
}

/// A list of which not every item reads as a namespace has a first item
/// that does not.
pub proof fn lemma_first_bad_namespace(items: Seq<ValueView>, from: int)
    requires
        0 <= from <= items.len(),
        forall|j: int| 0 <= j < from ==> parse_namespace(#[trigger] items[j]) is Ok,
        !all_namespaces(items),
    ensures
        exists|i: int| is_first_bad_namespace(items, i),
    decreases items.len() - from,
{
    if from == items.len() {
        assert(all_namespaces(items));
    } else if parse_namespace(items[from]) is Err {
        assert(is_first_bad_namespace(items, from));
    } else {
        assert forall|j: int| 0 <= j < from + 1 implies parse_namespace(
            #[trigger] items[j],
        ) is Ok by {
            if j < from {
            }
        }
        lemma_first_bad_namespace(items, from + 1);
    }
}

/// The namespaces of a section fail to read only with the fault of a field.
pub proof fn lemma_namespaces_fault_names_field(t: TableView)
    requires
        field_namespaces(t) is Err,
    ensures
        field_namespaces(t)->Err_0 is Malformed,
{
    if t["kv-namespaces"@] is Array {
        let items = t["kv-namespaces"@]->Array_0;
        lemma_first_bad_namespace(items, 0);
        let first = choose|i: int| is_first_bad_namespace(items, i);
        assert(parse_namespace(items[first]) is Err);
    }
}

/// An environment section fails to read only with the fault of a field.
pub proof fn lemma_environment_fault_names_field(v: ValueView)
    requires
        parse_environment(v) is Err,
    ensures
        parse_environment(v)->Err_0 is Malformed,
{
    if v is Table {
        let t = v->Table_0;
        if field_namespaces(t) is Err {
            lemma_namespaces_fault_names_field(t);
        }
    }
}

/// Two faults of fields with the same rank are the same fault.
pub proof fn lemma_fault_rank_tells_apart(a: FormatError, b: FormatError)
    requires
        a is Malformed,
        b is Malformed,
        fault_rank(a) == fault_rank(b),
    ensures
        a == b,
{
}

/// What is wrong with the top level of a manifest: the first of its
/// fields, in the order in which they are listed here, that does not read.
pub open spec fn manifest_fault(t: TableView) -> Option<FormatError> {
    if field_text(t, Field::Name) is Err {
        fault(field_text(t, Field::Name))
    } else if field_type(t) is Err {
        fault(field_type(t))
    } else if field_text(t, Field::AccountId) is Err {
        fault(field_text(t, Field::AccountId))
    } else if field_flag(t, Field::WorkersDev) is Err {
        fault(field_flag(t, Field::WorkersDev))
    } else if field_text(t, Field::Route) is Err {
        fault(field_text(t, Field::Route))
    } else if field_texts(t, Field::Routes) is Err {
        fault(field_texts(t, Field::Routes))
    } else if field_text(t, Field::ZoneId) is Err {
        fault(field_text(t, Field::ZoneId))
    } else if field_text(t, Field::WebpackConfig) is Err {
        fault(field_text(t, Field::WebpackConfig))
    } else if field_flag(t, Field::Private) is Err {
        fault(field_flag(t, Field::Private))
    } else if field_site(t) is Err {
        fault(field_site(t))
    } else if field_namespaces(t) is Err {
        fault(field_namespaces(t))
    } else {
        fault(field_environments(t))
    }
}

/// Reads a manifest. Namespaces inside the site section are misplaced,
/// whatever else the document holds. Otherwise the fields are read in
/// order and the first that fails gives the error. A name or an account
/// that is left out is empty.
pub open spec fn parse_manifest(v: ValueView) -> Result<ManifestView, FormatError> {
    match v {
        ValueView::Table(t) => if site_holds_namespaces(t) {
            Err(FormatError::MisplacedKvNamespaces)
        } else {
            match manifest_fault(t) {
                Some(e) => Err(e),
                None => Ok(
                    ManifestView {
                        name: text_or_empty(field_text(t, Field::Name).unwrap()),
                        target_type: field_type(t).unwrap(),
                        account_id: text_or_empty(field_text(t, Field::AccountId).unwrap()),
                        workers_dev: field_flag(t, Field::WorkersDev).unwrap(),
                        route: blank_as_none(field_text(t, Field::Route).unwrap()),
                        routes: field_texts(t, Field::Routes).unwrap(),
                        zone_id: blank_as_none(field_text(t, Field::ZoneId).unwrap()),
                        webpack_config: field_text(t, Field::WebpackConfig).unwrap(),
                        private: field_flag(t, Field::Private).unwrap(),
                        site: field_site(t).unwrap(),
                        kv_namespaces: field_namespaces(t).unwrap(),
                        env: field_environments(t).unwrap(),
                    },
                ),
            }
        },
        _ => Err(wrong_kind(Field::Document)),
    }
}

/// The table with a text under `key`, where there is one to write.
pub open spec fn put_text(t: TableView, key: Seq<char>, text: Option<Seq<char>>) -> TableView {
    match text {
        Some(s) => t.insert(key, ValueView::Text(s)),
        None => t,
    }
}

/// The table with a flag under `key`, where there is one to write.
pub open spec fn put_flag(t: TableView, key: Seq<char>, flag: Option<bool>) -> TableView {
    match flag {
        Some(b) => t.insert(key, ValueView::Boolean(b)),
        None => t,
    }
}

/// A list of texts as a document.
pub open spec fn texts_node(texts: Seq<Seq<char>>) -> ValueView {
    ValueView::Array(Seq::new(texts.len(), |i: int| ValueView::Text(texts[i])))
}

/// The table with a list of texts under `key`, where there is one to write.
pub open spec fn put_texts(t: TableView, key: Seq<char>, texts: Option<Seq<Seq<char>>>) -> TableView {
    match texts {
        Some(l) => t.insert(key, texts_node(l)),
        None => t,
    }
}

/// A namespace as a document.
pub open spec fn serialize_namespace(k: KvNamespaceView) -> ValueView {
    ValueView::Table(
        put_text(
            Map::<Seq<char>, ValueView>::empty().insert("id"@, ValueView::Text(k.id)).insert(
                "binding"@,
                ValueView::Text(k.binding),
            ),
            "bucket"@,
            k.bucket,
        ),
    )
}

/// A list of namespaces as a document.
pub open spec fn namespaces_node(list: Seq<KvNamespaceView>) -> ValueView {
    ValueView::Array(Seq::new(list.len(), |i: int| serialize_namespace(list[i])))
}

/// The table with the namespaces, where there are any to write.
pub open spec fn put_namespaces(t: TableView, list: Option<Seq<KvNamespaceView>>) -> TableView {
    match list {
        Some(l) => t.insert("kv-namespaces"@, namespaces_node(l)),
        None => t,
    }
}

/// A site as a document.
pub open spec fn serialize_site(s: SiteView) -> ValueView {
    ValueView::Table(
        put_text(
            Map::<Seq<char>, ValueView>::empty().insert("bucket"@, ValueView::Text(s.bucket)),
            "entry-point"@,
            s.entry_point,
        ),
    )
}

/// The table with the site, where there is one to write.
pub open spec fn put_site(t: TableView, site: Option<SiteView>) -> TableView {
    match site {
        Some(s) => t.insert("site"@, serialize_site(s)),
        None => t,
    }
}

/// An environment as a document.
pub open spec fn serialize_environment(e: EnvironmentView) -> ValueView {
    let t = put_text(Map::<Seq<char>, ValueView>::empty(), "name"@, e.name);
    let t = put_text(t, "account_id"@, e.account_id);
    let t = put_flag(t, "workers_dev"@, e.workers_dev);
    let t = t.insert("route"@, ValueView::Text(text_or_empty(e.route)));
    let t = put_texts(t, "routes"@, e.routes);
    let t = t.insert("zone_id"@, ValueView::Text(text_or_empty(e.zone_id)));
    let t = put_text(t, "webpack_config"@, e.webpack_config);
    ValueView::Table(put_namespaces(t, e.kv_namespaces))
}

/// The environments as a table of documents, each under its name.
pub open spec fn environments_node(env: Map<Seq<char>, EnvironmentView>) -> ValueView {
    ValueView::Table(
        Map::new(|k: Seq<char>| env.contains_key(k), |k: Seq<char>| serialize_environment(env[k])),
    )
}

/// The table with the environments, where there are any to write.
pub open spec fn put_environments(t: TableView, env: Map<Seq<char>, EnvironmentView>) -> TableView {
    if env.is_empty() {
        t
    } else {
        t.insert("env"@, environments_node(env))
    }
}

/// A manifest as a document.
pub open spec fn serialize_manifest(m: ManifestView) -> ValueView {
    let t = Map::<Seq<char>, ValueView>::empty().insert("name"@, ValueView::Text(m.name));
    let t = t.insert("type"@, ValueView::Text(type_text(m.target_type)));
    let t = t.insert("account_id"@, ValueView::Text(m.account_id));
    let t = put_flag(t, "workers_dev"@, m.workers_dev);
    let t = t.insert("route"@, ValueView::Text(text_or_empty(m.route)));
    let t = put_texts(t, "routes"@, m.routes);
    let t = t.insert("zone_id"@, ValueView::Text(text_or_empty(m.zone_id)));
    let t = put_text(t, "webpack_config"@, m.webpack_config);
    let t = put_flag(t, "private"@, m.private);
    let t = put_site(t, m.site);
    let t = put_namespaces(t, m.kv_namespaces);
    ValueView::Table(put_environments(t, m.env))
}

} // verus!
