//! Starting a manifest from a template, and telling which of its fields
//! still wait for a value of the user's own.

use vstd::prelude::*;
use crate::environment::EnvironmentView;
use crate::kv_namespace::{KvNamespace, KvNamespaceView};
use crate::manifest::{Manifest, ManifestView};
use crate::pairs::{
    distinct_keys, has_key, lemma_pairs_map_distinct, lemma_pairs_map_is, lemma_pairs_map_keys,
    pairs_map,
};
use crate::site::{Site, SiteView};
use crate::target_type::TargetType;
use crate::text::{is_text_set, text_set};

verus! {

/// A field of a manifest that waits for a value of the user's own.
#[derive(Debug, PartialEq, Eq)]
pub enum MissingField {
    AccountId,
    /// The namespace bound under the name carried here has no identifier yet.
    KvNamespaceId(String),
    Route,
    ZoneId,
}

pub enum MissingFieldView {
    AccountId,
    KvNamespaceId(Seq<char>),
    Route,
    ZoneId,
}

impl DeepView for MissingField {
    type V = MissingFieldView;

    open spec fn deep_view(&self) -> MissingFieldView {
        match self {
            MissingField::AccountId => MissingFieldView::AccountId,
            MissingField::KvNamespaceId(binding) => MissingFieldView::KvNamespaceId(binding@),
            MissingField::Route => MissingFieldView::Route,
            MissingField::ZoneId => MissingFieldView::ZoneId,
        }
    }
}

impl View for MissingField {
    type V = MissingFieldView;

    open spec fn view(&self) -> MissingFieldView {
        self.deep_view()
    }
}

/// The fields to fill in, for the top level and for each environment that
/// has any. The environments come in no particular order.
#[derive(Debug, PartialEq, Eq)]
pub struct AccountInfoReport {
    pub top_level: Vec<MissingField>,
    pub environments: Vec<(String, Vec<MissingField>)>,
}

pub struct AccountInfoReportView {
    pub top_level: Seq<MissingFieldView>,
    pub environments: Map<Seq<char>, Seq<MissingFieldView>>,
}

impl DeepView for AccountInfoReport {
    type V = AccountInfoReportView;

    open spec fn deep_view(&self) -> AccountInfoReportView {
        AccountInfoReportView {
            top_level: self.top_level.deep_view(),
            environments: pairs_map(self.environments.deep_view()),
        }
    }
}

impl View for AccountInfoReport {
    type V = AccountInfoReportView;

    open spec fn view(&self) -> AccountInfoReportView {
        self.deep_view()
    }
}

/// One entry for each namespace, under its binding.
pub open spec fn namespace_fields(list: Seq<KvNamespaceView>) -> Seq<MissingFieldView> {
    Seq::new(list.len(), |i: int| MissingFieldView::KvNamespaceId(list[i].binding))
}

/// The fields of one level that wait for a value, in the order in which
/// they are reported: the account, unless the process environment gives
/// one; each namespace; the route, where one is set; the zone, where one is
/// set and the process environment gives none.
pub open spec fn fields_to_update(
    has_account: bool,
    kv_namespaces: Option<Seq<KvNamespaceView>>,
    route: Option<Seq<char>>,
    zone_id: Option<Seq<char>>,
    account_id_env: bool,
    zone_id_env: bool,
) -> Seq<MissingFieldView> {
    let account = if has_account && !account_id_env {
        seq![MissingFieldView::AccountId]
    } else {
        Seq::empty()
    };
    let namespaces = match kv_namespaces {
        Some(list) => namespace_fields(list),
        None => Seq::empty(),
    };
    let routed = if text_set(route) {
        seq![MissingFieldView::Route]
    } else {
        Seq::empty()
    };
    let zoned = if text_set(zone_id) && !zone_id_env {
        seq![MissingFieldView::ZoneId]
    } else {
        Seq::empty()
    };
    account + namespaces + routed + zoned
}

impl EnvironmentView {
    /// The fields of the environment that wait for a value. Its account is
    /// one only where the environment has an account of its own.
    pub open spec fn fields_to_update(self, account_id_env: bool, zone_id_env: bool) -> Seq<
        MissingFieldView,
    > {
        fields_to_update(
            self.account_id.is_some(),
            self.kv_namespaces,
            self.route,
            self.zone_id,
            account_id_env,
            zone_id_env,
        )
    }
}

impl ManifestView {
    /// The fields of the top level that wait for a value.
    pub open spec fn fields_to_update(self, account_id_env: bool, zone_id_env: bool) -> Seq<
        MissingFieldView,
    > {
        fields_to_update(
            true,
            self.kv_namespaces,
            self.route,
            self.zone_id,
            account_id_env,
            zone_id_env,
        )
    }

    /// What is reported of the manifest: the fields of the top level, and
    /// those of each environment that has any.
    pub open spec fn account_info(self, account_id_env: bool, zone_id_env: bool) -> AccountInfoReportView {
        AccountInfoReportView {
            top_level: self.fields_to_update(account_id_env, zone_id_env),
            environments: Map::new(
                |k: Seq<char>|
                    self.env.contains_key(k) && self.env[k].fields_to_update(
                        account_id_env,
                        zone_id_env,
                    ).len() > 0,
                |k: Seq<char>| self.env[k].fields_to_update(account_id_env, zone_id_env),
            ),
        }
    }

    /// The manifest that a new project starts with: the template, or the
    /// blank manifest where there is none, under the project's name. The
    /// platform subdomain is switched on unless the template sets a route.
    /// A build mode that is asked for replaces the template's; a site that
    /// is asked for is taken where the template has none.
    pub open spec fn generated(
        name: Seq<char>,
        target_type: Option<TargetType>,
        template: Option<ManifestView>,
        site: Option<SiteView>,
    ) -> ManifestView {
        let base = match template {
            Some(t) => t,
            None => ManifestView::blank(),
        };
        ManifestView {
            name: name,
            workers_dev: if text_set(base.route) {
                None
            } else {
                Some(true)
            },
            target_type: match target_type {
                Some(t) => t,
                None => base.target_type,
            },
            site: if base.site.is_some() {
                base.site
            } else {
                site
            },
            ..base
        }
    }
}

/// The fields of one level that wait for a value.
pub fn list_fields_to_update(
    has_account: bool,
    kv_namespaces: &Option<Vec<KvNamespace>>,
    route: &Option<String>,
    zone_id: &Option<String>,
    account_id_env: bool,
    zone_id_env: bool,
) -> (r: Vec<MissingField>)
    ensures
        r.deep_view() == fields_to_update(
            has_account,
            kv_namespaces.deep_view(),
            route.deep_view(),
            zone_id.deep_view(),
            account_id_env,
            zone_id_env,
        ),
{
    let mut fields: Vec<MissingField> = Vec::new();
    if has_account && !account_id_env {
        fields.push(MissingField::AccountId);
    }
    let ghost account = fields.deep_view();
    let ghost namespaces = match kv_namespaces.deep_view() {
        Some(list) => namespace_fields(list),
        None => Seq::empty(),
    };
    match kv_namespaces {
        Some(list) => {
            let mut i: usize = 0;
            while i < list.len()
                invariant
                    i <= list.len(),
                    fields.deep_view() =~= account + namespace_fields(list.deep_view()).take(
                        i as int,
                    ),
                decreases list.len() - i,
            {
                let ghost before = fields.deep_view();
                let ghost all = namespace_fields(list.deep_view());
                fields.push(MissingField::KvNamespaceId(list[i].binding.clone()));
                proof {
                    assert(fields.deep_view() =~= before.push(all[i as int]));
                    assert(all.take(i + 1) =~= all.take(i as int).push(all[i as int]));
                }
                i += 1;
            }
            assert(namespace_fields(list.deep_view()).take(list.len() as int)
                =~= namespace_fields(list.deep_view()));
        },
        None => {},
    }
    assert(fields.deep_view() =~= account + namespaces);
    if is_text_set(route) {
        fields.push(MissingField::Route);
        assert(fields.deep_view() =~= account + namespaces + seq![MissingFieldView::Route]);
    } else {
        assert(fields.deep_view() =~= account + namespaces + Seq::<MissingFieldView>::empty());
    }
    let ghost routed = fields.deep_view();
    if is_text_set(zone_id) && !zone_id_env {
        fields.push(MissingField::ZoneId);
        assert(fields.deep_view() =~= routed + seq![MissingFieldView::ZoneId]);
    } else {
        assert(fields.deep_view() =~= routed + Seq::<MissingFieldView>::empty());
    }
    assert(fields.deep_view() =~= fields_to_update(
        has_account,
        kv_namespaces.deep_view(),
        route.deep_view(),
        zone_id.deep_view(),
        account_id_env,
        zone_id_env,
    ));
    fields
}

impl Manifest {
    /// Which fields of the manifest wait for a value of the user's own.
    /// `account_id_env` and `zone_id_env` say whether the process
    /// environment gives an account and a zone.
    pub fn warn_on_account_info(&self, account_id_env: bool, zone_id_env: bool) -> (r:
        AccountInfoReport)
        ensures
            r@ == self@.account_info(account_id_env, zone_id_env),
            distinct_keys(r.environments.deep_view()),
    {
        let top_level = list_fields_to_update(
            true,
            &self.kv_namespaces,
            &self.route,
            &self.zone_id,
            account_id_env,
            zone_id_env,
        );
        let ghost pairs = self.env.pairs();
        let mut environments: Vec<(String, Vec<MissingField>)> = Vec::new();
        let ghost mut origin: Seq<int> = Seq::empty();
        let count = self.env.len();
        let mut i: usize = 0;
        assert(environments.deep_view() =~= Seq::empty());
        while i < count
            invariant
                i <= count,
                count == pairs.len(),
                pairs == self.env.pairs(),
                distinct_keys(pairs),
                origin.len() == environments.len(),
                forall|a: int|
                    0 <= a < origin.len() ==> 0 <= #[trigger] origin[a] < i
                        && environments.deep_view()[a] == (
                        pairs[origin[a]].0,
                        pairs[origin[a]].1.fields_to_update(account_id_env, zone_id_env),
                    ) && environments.deep_view()[a].1.len() > 0,
                forall|a: int, b: int|
                    0 <= a < b < origin.len() ==> #[trigger] origin[a] < #[trigger] origin[b],
                forall|j: int|
                    0 <= j < i && (#[trigger] pairs[j]).1.fields_to_update(
                        account_id_env,
                        zone_id_env,
                    ).len() > 0 ==> origin.contains(j),
            decreases count - i,
        {
            let (name, environment) = self.env.entry(i);
            let fields = list_fields_to_update(
                environment.account_id.is_some(),
                &environment.kv_namespaces,
                &environment.route,
                &environment.zone_id,
                account_id_env,
                zone_id_env,
            );
            if fields.len() > 0 {
                let ghost before = environments.deep_view();
                let ghost earlier = origin;
                environments.push((name.clone(), fields));
                proof {
                    origin = origin.push(i as int);
                    assert(environments.deep_view() =~= before.push(
                        (
                            pairs[i as int].0,
                            pairs[i as int].1.fields_to_update(account_id_env, zone_id_env),
                        ),
                    ));
                    assert forall|a: int| 0 <= a < origin.len() implies 0 <= #[trigger] origin[a]
                        < i + 1 && environments.deep_view()[a] == (
                        pairs[origin[a]].0,
                        pairs[origin[a]].1.fields_to_update(account_id_env, zone_id_env),
                    ) && environments.deep_view()[a].1.len() > 0 by {
                        if a < earlier.len() {
                            assert(origin[a] == earlier[a]);
                            assert(environments.deep_view()[a] == before[a]);
                        } else {
                            assert(origin[a] == i);
                        }
                    }
                    assert forall|a: int, b: int| 0 <= a < b < origin.len() implies #[trigger] origin[a]
                        < #[trigger] origin[b] by {
                        if b < earlier.len() {
                            assert(earlier[a] < earlier[b]);
                        } else {
                            assert(0 <= earlier[a] < i);
                        }
                    }
                    assert forall|j: int|
                        0 <= j < i + 1 && (#[trigger] pairs[j]).1.fields_to_update(
                            account_id_env,
                            zone_id_env,
                        ).len() > 0 implies origin.contains(j) by {
                        if j < i {
                            let a = choose|a: int| 0 <= a < earlier.len() && earlier[a] == j;
                            assert(origin[a] == j);
                        } else {
                            assert(origin[earlier.len() as int] == j);
                        }
                    }
                }
            }
            i += 1;
        }
        let r = AccountInfoReport { top_level, environments };
        proof {
            let out = r.environments.deep_view();
            let want = self@.account_info(account_id_env, zone_id_env).environments;
            assert forall|a: int, b: int| 0 <= a < b < out.len() implies (#[trigger] out[a]).0 != (
            #[trigger] out[b]).0 by {
                assert(origin[a] < origin[b]);
                assert(pairs[origin[a]].0 != pairs[origin[b]].0);
            }
            lemma_pairs_map_distinct(pairs);
            lemma_pairs_map_keys(pairs);
            assert forall|a: int| 0 <= a < out.len() implies want.contains_key(
                (#[trigger] out[a]).0,
            ) && want[out[a].0] == out[a].1 by {
                assert(0 <= origin[a] < count);
                assert(self@.env[pairs[origin[a]].0] == pairs[origin[a]].1);
            }
            assert forall|k: Seq<char>| #[trigger] want.contains_key(k) implies has_key(out, k) by {
                assert(has_key(pairs, k));
                let j = choose|j: int| 0 <= j < pairs.len() && (#[trigger] pairs[j]).0 == k;
                assert(self@.env[pairs[j].0] == pairs[j].1);
                assert(origin.contains(j));
                let a = choose|a: int| 0 <= a < origin.len() && origin[a] == j;
                assert(out[a].0 == k);
            }
            lemma_pairs_map_is(out, want);
        }
        r
    }

    /// Whether a build mode that is asked for differs from the one that this
    /// manifest, taken as a template, declares.
    pub fn recommends_other_type(&self, target_type: Option<TargetType>) -> (r: bool)
        ensures
            r == (target_type matches Some(t) && t != self.target_type),
    {
        match target_type {
            Some(t) => t != self.target_type,
            None => false,
        }
    }

    /// The manifest that a new project named `name` starts with. `template`
    /// is the manifest that the project's template brought, if it brought a
    /// readable one.
    pub fn generate(
        name: String,
        target_type: Option<TargetType>,
        template: Option<Manifest>,
        site: Option<Site>,
    ) -> (r: Manifest)
        ensures
            r@ == ManifestView::generated(
                name@,
                target_type,
                template.deep_view(),
                site.deep_view(),
            ),
    {
        let mut template_config = match template {
            Some(config) => config,
            None => Manifest::default(),
        };
        let default_workers_dev = if is_text_set(&template_config.route) {
            None
        } else {
            Some(true)
        };
        template_config.name = name;
        template_config.workers_dev = default_workers_dev;
        match target_type {
            Some(t) => {
                template_config.target_type = t;
            },
            None => {},
        }
        if template_config.site.is_none() {
            template_config.site = site;
        }
        template_config
    }
}

} // verus!
