//! Reading a manifest from a document.

use vstd::prelude::*;
use crate::document::{
    all_environments, blank_as_none, environments_of, fault_rank, field_environments,
    field_namespaces, field_rank, field_required_text, field_site, field_type, in_environment,
    is_first_bad_namespace, is_least_environment_fault, is_site_key,
    lemma_environment_fault_names_field, lemma_fault_rank_tells_apart, namespaces_of,
    parse_environment, parse_manifest, parse_namespace, parse_site,
};
use crate::environment::{Environment, EnvironmentView};
use crate::environments::Environments;
use crate::error::{Field, FormatError, ManifestError, Reason};
use crate::kv_namespace::KvNamespace;
use crate::manifest::{Manifest, ManifestView};
use crate::pairs::{has_key, lemma_pairs_map_keys, pairs_map};
use crate::site::{Site, SiteView};
use crate::target_type::TargetType;
use crate::text::{is_text_set, same_text};
use crate::uniqueness::check_for_duplicate_names;
use crate::value::{
    field_view, get_flag, get_text, get_texts, lemma_array_view, lemma_table_view, table_get,
    Value, ValueView,
};

verus! {

/// The view of a section that was read.
pub open spec fn parsed_view<T: DeepView>(r: Result<T, FormatError>) -> Result<T::V, FormatError> {
    match r {
        Ok(x) => Ok(x.deep_view()),
        Err(e) => Err(e),
    }
}

/// An optional text, not set where it is empty.
pub fn drop_blank(text: Option<String>) -> (r: Option<String>)
    ensures
        r.deep_view() == blank_as_none(text.deep_view()),
{
    if is_text_set(&text) {
        text
    } else {
        None
    }
}

/// A text that must be there.
pub fn get_required_text(entries: &Vec<(String, Value)>, field: Field) -> (r: Result<
    String,
    FormatError,
>)
    ensures
        parsed_view(r) == field_required_text(pairs_map(entries.deep_view()), field),
{
    match get_text(entries, field) {
        Ok(Some(s)) => Ok(s),
        Ok(None) => Err(FormatError::Malformed(field, Reason::Missing)),
        Err(e) => Err(e),
    }
}

/// The build mode of a section.
pub fn get_type(entries: &Vec<(String, Value)>) -> (r: Result<TargetType, FormatError>)
    ensures
        r == field_type(pairs_map(entries.deep_view())),
{
    match get_text(entries, Field::Type) {
        Ok(Some(s)) => {
            if same_text(s.as_str(), "webpack") {
                Ok(TargetType::Webpack)
            } else if same_text(s.as_str(), "plain") {
                Ok(TargetType::Plain)
            } else {
                Err(FormatError::Malformed(Field::Type, Reason::WrongKind))
            }
        },
        Ok(None) => Err(FormatError::Malformed(Field::Type, Reason::Missing)),
        Err(e) => Err(e),
    }
}

impl KvNamespace {
    /// Reads a namespace from a document.
    pub fn parse(v: &Value) -> (r: Result<KvNamespace, FormatError>)
        ensures
            parsed_view(r) == parse_namespace(v@),
    {
        match v {
            Value::Table(entries) => {
                proof {
                    lemma_table_view(*entries);
                }
                let id = match get_required_text(entries, Field::Id) {
                    Ok(s) => s,
                    Err(e) => {
                        return Err(e);
                    },
                };
                let binding = match get_required_text(entries, Field::Binding) {
                    Ok(s) => s,
                    Err(e) => {
                        return Err(e);
                    },
                };
                let bucket = match get_text(entries, Field::Bucket) {
                    Ok(s) => s,
                    Err(e) => {
                        return Err(e);
                    },
                };
                Ok(KvNamespace { id, binding, bucket })
            },
            _ => Err(FormatError::Malformed(Field::KvNamespaces, Reason::WrongKind)),
        }
    }
}

/// The namespaces of a section.
pub fn get_namespaces(entries: &Vec<(String, Value)>) -> (r: Result<
    Option<Vec<KvNamespace>>,
    FormatError,
>)
    ensures
        field_view(r) == field_namespaces(pairs_map(entries.deep_view())),
{
    match table_get(entries, "kv-namespaces") {
        None => Ok(None),
        Some(Value::Array(items)) => {
            proof {
                lemma_array_view(*items);
            }
            let ghost seen = items.deep_view();
            let mut list: Vec<KvNamespace> = Vec::new();
            let mut i: usize = 0;
            while i < items.len()
                invariant
                    i <= items.len(),
                    seen == items.deep_view(),
                    pairs_map(entries.deep_view()).get("kv-namespaces"@) == Some(
                        ValueView::Array(seen),
                    ),
                    list.len() == i,
                    forall|j: int| 0 <= j < i ==> parse_namespace(#[trigger] seen[j]) is Ok,
                    forall|j: int|
                        0 <= j < i ==> (#[trigger] list.deep_view()[j]) == parse_namespace(
                            seen[j],
                        ).unwrap(),
                decreases items.len() - i,
            {
                assert(seen[i as int] == items[i as int]@);
                match KvNamespace::parse(&items[i]) {
                    Ok(k) => {
                        let ghost before = list.deep_view();
                        list.push(k);
                        assert(list.deep_view() =~= before.push(k@));
                    },
                    Err(e) => {
                        proof {
                            assert(is_first_bad_namespace(seen, i as int));
                            let first = choose|k: int| is_first_bad_namespace(seen, k);
                            assert(first == i);
                        }
                        return Err(e);
                    },
                }
                i += 1;
            }
            assert(list.deep_view() =~= namespaces_of(seen));
            Ok(Some(list))
        },
        Some(_) => Err(FormatError::Malformed(Field::KvNamespaces, Reason::WrongKind)),
    }
}

/// Whether the site section takes `key`.
pub fn check_site_key(key: &str) -> (r: bool)
    ensures
        r == is_site_key(key@),
{
    same_text(key, "bucket") || same_text(key, "entry-point")
}

impl Site {
    /// Reads the site section from a document.
    pub fn parse(v: &Value) -> (r: Result<Site, FormatError>)
        ensures
            parsed_view(r) == parse_site(v@),
    {
        match v {
            Value::Table(entries) => {
                proof {
                    lemma_table_view(*entries);
                    lemma_pairs_map_keys(entries.deep_view());
                }
                let ghost pairs = entries.deep_view();
                let ghost table = pairs_map(pairs);
                if table_get(entries, "kv-namespaces").is_some() {
                    return Err(FormatError::MisplacedKvNamespaces);
                }
                let mut i: usize = 0;
                while i < entries.len()
                    invariant
                        i <= entries.len(),
                        pairs == entries.deep_view(),
                        table == pairs_map(pairs),
                        v@ == ValueView::Table(table),
                        !table.contains_key("kv-namespaces"@),
                        forall|k: Seq<char>| #[trigger] table.contains_key(k) <==> has_key(pairs, k),
                        forall|j: int| 0 <= j < i ==> is_site_key((#[trigger] pairs[j]).0),
                    decreases entries.len() - i,
                {
                    if !check_site_key(entries[i].0.as_str()) {
                        proof {
                            let k = pairs[i as int].0;
                            assert(has_key(pairs, k));
                            assert(table.contains_key(k) && !is_site_key(k));
                        }
                        return Err(FormatError::UnknownField);
                    }
                    i += 1;
                }
                proof {
                    assert forall|k: Seq<char>| #[trigger] table.contains_key(k) implies is_site_key(
                        k,
                    ) by {
                        assert(has_key(pairs, k));
                        let j = choose|j: int| 0 <= j < pairs.len() && (#[trigger] pairs[j]).0 == k;
                        assert(is_site_key(pairs[j].0));
                    }
                }
                let bucket = match get_required_text(entries, Field::Bucket) {
                    Ok(s) => s,
                    Err(e) => {
                        return Err(e);
                    },
                };
                let entry_point = match get_text(entries, Field::EntryPoint) {
                    Ok(s) => s,
                    Err(e) => {
                        return Err(e);
                    },
                };
                Ok(Site { bucket, entry_point })
            },
            _ => Err(FormatError::Malformed(Field::Site, Reason::WrongKind)),
        }
    }
}

/// The site of a manifest.
pub fn get_site(entries: &Vec<(String, Value)>) -> (r: Result<Option<Site>, FormatError>)
    ensures
        field_view(r) == field_site(pairs_map(entries.deep_view())),
{
    match table_get(entries, "site") {
        None => Ok(None),
        Some(v) => match Site::parse(v) {
            Ok(s) => Ok(Some(s)),
            Err(e) => Err(e),
        },
    }
}

impl Environment {
    /// Reads an environment section from a document.
    pub fn parse(v: &Value) -> (r: Result<Environment, FormatError>)
        ensures
            parsed_view(r) == parse_environment(v@),
    {
        match v {
            Value::Table(entries) => {
                proof {
                    lemma_table_view(*entries);
                }
                let name = match get_text(entries, Field::Name) {
                    Ok(x) => x,
                    Err(e) => {
                        return Err(e);
                    },
                };
                let account_id = match get_text(entries, Field::AccountId) {
                    Ok(x) => x,
                    Err(e) => {
                        return Err(e);
                    },
                };
                let workers_dev = match get_flag(entries, Field::WorkersDev) {
                    Ok(x) => x,
                    Err(e) => {
                        return Err(e);
                    },
                };
                let route = match get_text(entries, Field::Route) {
                    Ok(x) => drop_blank(x),
                    Err(e) => {
                        return Err(e);
                    },
                };
                let routes = match get_texts(entries, Field::Routes) {
                    Ok(x) => x,
                    Err(e) => {
                        return Err(e);
                    },
                };
                let zone_id = match get_text(entries, Field::ZoneId) {
                    Ok(x) => drop_blank(x),
                    Err(e) => {
                        return Err(e);
                    },
                };
                let webpack_config = match get_text(entries, Field::WebpackConfig) {
                    Ok(x) => x,
                    Err(e) => {
                        return Err(e);
                    },
                };
                let kv_namespaces = match get_namespaces(entries) {
                    Ok(x) => x,
                    Err(e) => {
                        return Err(e);
                    },
                };
                Ok(
                    Environment {
                        name,
                        account_id,
                        workers_dev,
                        route,
                        routes,
                        zone_id,
                        webpack_config,
                        kv_namespaces,
                    },
                )
            },
            _ => Err(FormatError::Malformed(Field::Env, Reason::WrongKind)),
        }
    }
}

/// One of the first `m` entries has the key `key`.
pub open spec fn keyed_before(pairs: Seq<(Seq<char>, ValueView)>, m: int, key: Seq<char>) -> bool {
    exists|j: int| 0 <= j < m && j < pairs.len() && (#[trigger] pairs[j]).0 == key
}

/// The place of a field in the list of fields.
pub fn rank_of_field(field: Field) -> (r: u8)
    ensures
        r == field_rank(field),
{
    match field {
        Field::Document => 0,
        Field::Name => 1,
        Field::Type => 2,
        Field::AccountId => 3,
        Field::WorkersDev => 4,
        Field::Route => 5,
        Field::Routes => 6,
        Field::ZoneId => 7,
        Field::WebpackConfig => 8,
        Field::Private => 9,
        Field::Site => 10,
        Field::Bucket => 11,
        Field::EntryPoint => 12,
        Field::KvNamespaces => 13,
        Field::Id => 14,
        Field::Binding => 15,
        Field::Env => 16,
    }
}

/// The place of a fault among the faults of environments.
pub fn rank_of_fault(e: FormatError) -> (r: u8)
    ensures
        r == fault_rank(e),
{
    match e {
        FormatError::Malformed(field, Reason::Missing) => 2 * rank_of_field(field),
        FormatError::Malformed(field, Reason::WrongKind) => 2 * rank_of_field(field) + 1,
        _ => 34,
    }
}

/// The fault of a section as a fault of an environment of the manifest.
pub fn environment_fault_of(e: FormatError) -> (r: FormatError)
    ensures
        r == in_environment(e),
{
    match e {
        FormatError::Malformed(field, reason) => FormatError::MalformedEnvironment(field, reason),
        other => other,
    }
}

/// The environments of a manifest.
pub fn get_environments(entries: &Vec<(String, Value)>) -> (r: Result<Environments, FormatError>)
    ensures
        parsed_view(r) == field_environments(pairs_map(entries.deep_view())),
{
    match table_get(entries, "env") {
        None => Ok(Environments::new()),
        Some(Value::Table(sections)) => {
            proof {
                lemma_table_view(*sections);
                lemma_pairs_map_keys(sections.deep_view());
            }
            let ghost pairs = sections.deep_view();
            let ghost table = pairs_map(pairs);
            let mut env = Environments::new();
            let mut worst: Option<FormatError> = None;
            let mut i: usize = 0;
            while i < sections.len()
                invariant
                    i <= sections.len(),
                    pairs == sections.deep_view(),
                    table == pairs_map(pairs),
                    pairs_map(entries.deep_view()).get("env"@) == Some(ValueView::Table(table)),
                    forall|k: Seq<char>| #[trigger] table.contains_key(k) <==> has_key(pairs, k),
                    worst is None ==> forall|k: Seq<char>| #[trigger]
                        env@.contains_key(k) <==> keyed_before(pairs, i as int, k),
                    worst is None ==> forall|k: Seq<char>|
                        env@.contains_key(k) ==> parse_environment(#[trigger] table[k]) is Ok
                            && env@[k] == parse_environment(table[k]).unwrap(),
                    worst matches Some(e) ==> exists|k: Seq<char>|
                        table.contains_key(k) && parse_environment(#[trigger] table[k]) == Err::<
                            EnvironmentView,
                            FormatError,
                        >(e),
                    worst matches Some(e) ==> forall|k: Seq<char>|
                        keyed_before(pairs, i as int, k) && parse_environment(
                            #[trigger] table[k],
                        ) is Err ==> fault_rank(e) <= fault_rank(
                            parse_environment(table[k])->Err_0,
                        ),
                decreases sections.len() - i,
            {
                let key = &sections[i].0;
                assert(pairs[i as int].0 == key@);
                assert(has_key(pairs, key@));
                let ghost earlier = env@;
                let ghost before = worst;
                // The section that counts for this key: the last one under it.
                if let Some(section) = table_get(sections, key.as_str()) {
                    match Environment::parse(section) {
                        Ok(environment) => {
                            if worst.is_none() {
                                env = env.insert(key.clone(), environment);
                            }
                        },
                        Err(e) => {
                            worst = match worst {
                                None => Some(e),
                                Some(w) => if rank_of_fault(e) < rank_of_fault(w) {
                                    Some(e)
                                } else {
                                    Some(w)
                                },
                            };
                        },
                    }
                }
                proof {
                    assert forall|k: Seq<char>|
                        keyed_before(pairs, i + 1, k) <==> keyed_before(pairs, i as int, k) || k
                            == key@ by {
                        if keyed_before(pairs, i + 1, k) {
                            let j = choose|j: int|
                                0 <= j < i + 1 && j < pairs.len() && (#[trigger] pairs[j]).0 == k;
                            if j < i {
                                assert(keyed_before(pairs, i as int, k));
                            }
                        }
                        if keyed_before(pairs, i as int, k) {
                            let j = choose|j: int|
                                0 <= j < i && j < pairs.len() && (#[trigger] pairs[j]).0 == k;
                            assert(0 <= j < i + 1 && pairs[j].0 == k);
                        }
                        if k == key@ {
                            assert(0 <= i < i + 1 && pairs[i as int].0 == k);
                        }
                    }
                    if before is None {
                        assert forall|k: Seq<char>|
                            keyed_before(pairs, i as int, k) implies parse_environment(
                            #[trigger] table[k],
                        ) is Ok by {
                            assert(earlier.contains_key(k));
                        }
                    }
                }
                i += 1;
            }
            proof {
                assert forall|k: Seq<char>| table.contains_key(k) implies keyed_before(
                    pairs,
                    i as int,
                    k,
                ) by {
                    assert(has_key(pairs, k));
                    let j = choose|j: int| 0 <= j < pairs.len() && (#[trigger] pairs[j]).0 == k;
                    assert(0 <= j < i && pairs[j].0 == k);
                }
                assert forall|k: Seq<char>| keyed_before(pairs, i as int, k) implies table.contains_key(
                    k,
                ) by {
                    let j = choose|j: int|
                        0 <= j < i && j < pairs.len() && (#[trigger] pairs[j]).0 == k;
                    assert(has_key(pairs, k));
                }
            }
            match worst {
                None => {
                    proof {
                        assert(all_environments(table));
                        assert(env@ =~= environments_of(table));
                    }
                    Ok(env)
                },
                Some(e) => {
                    proof {
                        assert(is_least_environment_fault(table, e));
                        let least = choose|x: FormatError| is_least_environment_fault(table, x);
                        assert(is_least_environment_fault(table, least));
                        let here = choose|k: Seq<char>|
                            table.contains_key(k) && parse_environment(#[trigger] table[k])
                                == Err::<EnvironmentView, FormatError>(e);
                        let there = choose|k: Seq<char>|
                            table.contains_key(k) && parse_environment(#[trigger] table[k])
                                == Err::<EnvironmentView, FormatError>(least);
                        lemma_environment_fault_names_field(table[here]);
                        lemma_environment_fault_names_field(table[there]);
                        assert(fault_rank(e) <= fault_rank(least));
                        assert(fault_rank(least) <= fault_rank(e));
                        lemma_fault_rank_tells_apart(e, least);
                        assert(!all_environments(table));
                    }
                    Err(environment_fault_of(e))
                },
            }
        },
        Some(_) => Err(FormatError::Malformed(Field::Env, Reason::WrongKind)),
    }
}

impl Manifest {
    /// Reads a manifest from a document.
    pub fn parse(document: &Value) -> (r: Result<Manifest, FormatError>)
        ensures
            parsed_view(r) == parse_manifest(document@),
    {
        match document {
            Value::Table(entries) => {
                proof {
                    lemma_table_view(*entries);
                }
                if let Some(Value::Table(site)) = table_get(entries, "site") {
                    proof {
                        lemma_table_view(*site);
                    }
                    if table_get(site, "kv-namespaces").is_some() {
                        return Err(FormatError::MisplacedKvNamespaces);
                    }
                }
                let name = match get_text(entries, Field::Name) {
                    Ok(Some(x)) => x,
                    Ok(None) => String::new(),
                    Err(e) => {
                        return Err(e);
                    },
                };
                let target_type = match get_type(entries) {
                    Ok(x) => x,
                    Err(e) => {
                        return Err(e);
                    },
                };
                let account_id = match get_text(entries, Field::AccountId) {
                    Ok(Some(x)) => x,
                    Ok(None) => String::new(),
                    Err(e) => {
                        return Err(e);
                    },
                };
                let workers_dev = match get_flag(entries, Field::WorkersDev) {
                    Ok(x) => x,
                    Err(e) => {
                        return Err(e);
                    },
                };
                let route = match get_text(entries, Field::Route) {
                    Ok(x) => drop_blank(x),
                    Err(e) => {
                        return Err(e);
                    },
                };
                let routes = match get_texts(entries, Field::Routes) {
                    Ok(x) => x,
                    Err(e) => {
                        return Err(e);
                    },
                };
                let zone_id = match get_text(entries, Field::ZoneId) {
                    Ok(x) => drop_blank(x),
                    Err(e) => {
                        return Err(e);
                    },
                };
                let webpack_config = match get_text(entries, Field::WebpackConfig) {
                    Ok(x) => x,
                    Err(e) => {
                        return Err(e);
                    },
                };
                let private = match get_flag(entries, Field::Private) {
                    Ok(x) => x,
                    Err(e) => {
                        return Err(e);
                    },
                };
                let site = match get_site(entries) {
                    Ok(x) => x,
                    Err(e) => {
                        return Err(e);
                    },
                };
                let kv_namespaces = match get_namespaces(entries) {
                    Ok(x) => x,
                    Err(e) => {
                        return Err(e);
                    },
                };
                let env = match get_environments(entries) {
                    Ok(x) => x,
                    Err(e) => {
                        return Err(e);
                    },
                };
                Ok(
                    Manifest {
                        name,
                        target_type,
                        account_id,
                        workers_dev,
                        route,
                        routes,
                        zone_id,
                        webpack_config,
                        private,
                        site,
                        kv_namespaces,
                        env,
                    },
                )
            },
            _ => Err(FormatError::Malformed(Field::Document, Reason::WrongKind)),
        }
    }

    /// Reads a manifest from a document and makes sure that it gives out
    /// no worker name twice.
    pub fn new(document: &Value) -> (r: Result<Manifest, ManifestError>)
        ensures
            match parse_manifest(document@) {
                Err(e) => r == Err::<Manifest, ManifestError>(ManifestError::Format(e)),
                Ok(m) => if m.duplicate_names() == Set::<Seq<char>>::empty() {
                    r matches Ok(read) && read@ == m
                } else {
                    r matches Err(ManifestError::NameConflict(conflict))
                        && conflict@.no_duplicates() && conflict@.to_set() == m.duplicate_names()
                },
            },
    {
        let manifest = match Manifest::parse(document) {
            Ok(m) => m,
            Err(e) => {
                return Err(ManifestError::Format(e));
            },
        };
        match check_for_duplicate_names(&manifest) {
            Ok(()) => Ok(manifest),
            Err(conflict) => Err(ManifestError::NameConflict(conflict)),
        }
    }
}

impl ManifestView {
    /// The manifest that a new project starts with, where the template's
    /// manifest comes as a document: a document that does not read ends
    /// the start with its error, and no document means no template.
    pub open spec fn generated_from_document(
        name: Seq<char>,
        target_type: Option<TargetType>,
        template: Option<ValueView>,
        site: Option<SiteView>,
    ) -> Result<ManifestView, FormatError> {
        match template {
            None => Ok(ManifestView::generated(name, target_type, None, site)),
            Some(document) => match parse_manifest(document) {
                Ok(read) => Ok(ManifestView::generated(name, target_type, Some(read), site)),
                Err(e) => Err(e),
            },
        }
    }
}

impl Manifest {
    /// The manifest that a new project named `name` starts with.
    /// `template` is the document of the manifest that the project's
    /// template brought, if it brought one.
    pub fn generate_from_document(
        name: String,
        target_type: Option<TargetType>,
        template: Option<&Value>,
        site: Option<Site>,
    ) -> (r: Result<Manifest, FormatError>)
        ensures
            parsed_view(r) == ManifestView::generated_from_document(
                name@,
                target_type,
                template.deep_view(),
                site.deep_view(),
            ),
    {
        let read = match template {
            None => None,
            Some(document) => match Manifest::parse(document) {
                Ok(m) => Some(m),
                Err(e) => {
                    return Err(e);
                },
            },
        };
        Ok(Manifest::generate(name, target_type, read, site))
    }
}

} // verus!
