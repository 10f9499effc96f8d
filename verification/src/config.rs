//! The schema document and its compiled configuration: datasources, their
//! connection URLs, and the resolution of those URLs against the supplied
//! environment and the datasource overrides.
//!
//! Compiling schema text is the external schema compiler's work; the engine
//! receives its outcome — a configuration or diagnostics — as a value and
//! performs the environment resolution itself.

use vstd::prelude::*;

use crate::text::str_eq;

verus! {

/// A datasource's connection URL as the schema declares it: either given
/// directly, or to be read from a named environment variable.
#[derive(Debug)]
pub enum UrlValue {
    Literal(String),
    FromEnv(String),
}

/// The ghost shape of a declared URL.
pub enum UrlValueV {
    Literal(Seq<char>),
    FromEnv(Seq<char>),
}

impl View for UrlValue {
    type V = UrlValueV;

    open spec fn view(&self) -> UrlValueV {
        match self {
            UrlValue::Literal(u) => UrlValueV::Literal(u@),
            UrlValue::FromEnv(k) => UrlValueV::FromEnv(k@),
        }
    }
}

/// One datasource declaration of the compiled configuration.
#[derive(Debug)]
pub struct Datasource {
    pub name: String,
    pub url: UrlValue,
}

/// The ghost shape of a datasource.
pub struct DatasourceV {
    pub name: Seq<char>,
    pub url: UrlValueV,
}

impl View for Datasource {
    type V = DatasourceV;

    open spec fn view(&self) -> DatasourceV {
        DatasourceV { name: self.name@, url: self.url@ }
    }
}

impl DeepView for Datasource {
    type V = DatasourceV;

    open spec fn deep_view(&self) -> DatasourceV {
        self.view()
    }
}

/// The configuration the schema compiler returned: the declared datasources
/// in declaration order. The engine accepts it only when exactly one
/// datasource is present.
#[derive(Debug)]
pub struct ValidatedConfiguration {
    pub datasources: Vec<Datasource>,
}

impl View for ValidatedConfiguration {
    type V = Seq<DatasourceV>;

    open spec fn view(&self) -> Seq<DatasourceV> {
        self.datasources.deep_view()
    }
}

/// The schema document: the raw text the engine was constructed from and
/// the ordered datasource URL overrides, kept so that a later reconnection
/// reuses the original source.
#[derive(Debug)]
pub struct EngineDatamodel {
    pub raw: String,
    pub datasource_overrides: Vec<(String, String)>,
}

/// Looks a key up in an ordered list of pairs; the first match wins.
pub open spec fn spec_env_lookup(env: Seq<(Seq<char>, Seq<char>)>, key: Seq<char>) -> Option<
    Seq<char>,
>
    decreases env.len(),
{
    if env.len() == 0 {
        None
    } else if env[0].0 == key {
        Some(env[0].1)
    } else {
        spec_env_lookup(env.skip(1), key)
    }
}

/// Looks a key up in an ordered list of pairs; the first match wins.
pub fn env_lookup(env: &Vec<(String, String)>, key: &str) -> (r: Option<String>)
    ensures
        r.deep_view() == spec_env_lookup(env.deep_view(), key@),
{
    let ghost full = env.deep_view();
    proof {
        assert(full.skip(0) =~= full);
    }
    let mut i: usize = 0;
    while i < env.len()
        invariant
            i <= env.len(),
            full == env.deep_view(),
            full.len() == env.len(),
            forall|j: int| 0 <= j < env.len() ==> full[j] == (env[j].0@, env[j].1@),
            spec_env_lookup(full.skip(i as int), key@) == spec_env_lookup(full, key@),
        decreases env.len() - i,
    {
        if str_eq(env[i].0.as_str(), key) {
            proof {
                assert(full.skip(i as int)[0] == full[i as int]);
            }
            return Some(env[i].1.clone());
        }
        proof {
            assert(full.skip(i as int).skip(1) =~= full.skip(i + 1));
            assert(full.skip(i as int)[0] == full[i as int]);
        }
        i = i + 1;
    }
    proof {
        assert(full.skip(env.len() as int) =~= Seq::<(Seq<char>, Seq<char>)>::empty());
    }
    None
}

/// The resolved connection URL of a datasource, against the environment
/// alone: a directly given URL stands, one read from the environment resolves
/// to that variable's value, and a missing variable is reported by name.
/// The configuration directory plays no part here: rebasing a file-path URL
/// against it is the connector's work inside the execution service, which
/// receives the directory beside the resolved URL.
pub open spec fn spec_load_url(url: UrlValueV, env: Seq<(Seq<char>, Seq<char>)>) -> Result<
    Seq<char>,
    Seq<char>,
> {
    match url {
        UrlValueV::Literal(u) => Ok(u),
        UrlValueV::FromEnv(k) => match spec_env_lookup(env, k) {
            Some(u) => Ok(u),
            None => Err(k),
        },
    }
}

/// Resolves a datasource's connection URL against the environment. The
/// error is the name of the missing environment variable.
pub fn load_url(ds: &Datasource, env: &Vec<(String, String)>) -> (r: Result<String, String>)
    ensures
        (r matches Ok(u) ==> spec_load_url(ds.url@, env.deep_view()) == Ok::<Seq<char>, Seq<char>>(
            u@,
        )),
        (r matches Err(k) ==> spec_load_url(ds.url@, env.deep_view()) == Err::<
            Seq<char>,
            Seq<char>,
        >(k@)),
{
    match &ds.url {
        UrlValue::Literal(u) => Ok(u.clone()),
        UrlValue::FromEnv(k) => match env_lookup(env, k.as_str()) {
            Some(u) => Ok(u),
            None => Err(k.clone()),
        },
    }
}

/// One datasource after resolution at construction time: an override for its
/// name wins; otherwise its URL resolves against the environment.
pub open spec fn spec_resolve_datasource(
    ds: DatasourceV,
    overrides: Seq<(Seq<char>, Seq<char>)>,
    env: Seq<(Seq<char>, Seq<char>)>,
) -> Result<DatasourceV, Seq<char>> {
    match spec_env_lookup(overrides, ds.name) {
        Some(u) => Ok(DatasourceV { name: ds.name, url: UrlValueV::Literal(u) }),
        None => match spec_load_url(ds.url, env) {
            Ok(u) => Ok(DatasourceV { name: ds.name, url: UrlValueV::Literal(u) }),
            Err(k) => Err(k),
        },
    }
}

/// All datasources from a position on, resolved in order; the first failure
/// wins.
pub open spec fn spec_resolve_datasources(
    ds: Seq<DatasourceV>,
    overrides: Seq<(Seq<char>, Seq<char>)>,
    env: Seq<(Seq<char>, Seq<char>)>,
) -> Result<Seq<DatasourceV>, Seq<char>>
    decreases ds.len(),
{
    if ds.len() == 0 {
        Ok(Seq::empty())
    } else {
        match spec_resolve_datasource(ds[0], overrides, env) {
            Err(k) => Err(k),
            Ok(d) => match spec_resolve_datasources(ds.skip(1), overrides, env) {
                Err(k) => Err(k),
                Ok(rest) => Ok(seq![d] + rest),
            },
        }
    }
}

fn resolve_datasource(
    ds: &Datasource,
    overrides: &Vec<(String, String)>,
    env: &Vec<(String, String)>,
) -> (r: Result<Datasource, String>)
    ensures
        (r matches Ok(d) ==> spec_resolve_datasource(ds@, overrides.deep_view(), env.deep_view())
            == Ok::<DatasourceV, Seq<char>>(d@)),
        (r matches Err(k) ==> spec_resolve_datasource(ds@, overrides.deep_view(), env.deep_view())
            == Err::<DatasourceV, Seq<char>>(k@)),
    {
    match env_lookup(overrides, ds.name.as_str()) {
        Some(u) => Ok(Datasource { name: ds.name.clone(), url: UrlValue::Literal(u) }),
        None => match load_url(ds, env) {
            Ok(u) => Ok(Datasource { name: ds.name.clone(), url: UrlValue::Literal(u) }),
            Err(k) => Err(k),
        },
    }
}

fn resolve_from(
    ds: &Vec<Datasource>,
    i: usize,
    overrides: &Vec<(String, String)>,
    env: &Vec<(String, String)>,
) -> (r: Result<Vec<Datasource>, String>)
    requires
        i <= ds.len(),
    ensures
        (r matches Ok(out) ==> spec_resolve_datasources(
            ds.deep_view().skip(i as int),
            overrides.deep_view(),
            env.deep_view(),
        ) == Ok::<Seq<DatasourceV>, Seq<char>>(out.deep_view())),
        (r matches Err(k) ==> spec_resolve_datasources(
            ds.deep_view().skip(i as int),
            overrides.deep_view(),
            env.deep_view(),
        ) == Err::<Seq<DatasourceV>, Seq<char>>(k@)),
    decreases ds.len() - i,
{
    let ghost full = ds.deep_view();
    if i == ds.len() {
        let out: Vec<Datasource> = Vec::new();
        proof {
            assert(full.skip(i as int) =~= Seq::<DatasourceV>::empty());
            assert(out.deep_view() =~= Seq::<DatasourceV>::empty());
        }
        Ok(out)
    } else {
        proof {
            assert(full.skip(i as int)[0] == full[i as int]);
            assert(full.skip(i as int).skip(1) =~= full.skip(i + 1));
        }
        proof {
            assert(full[i as int] == ds@[i as int].deep_view());
        }
        match resolve_datasource(&ds[i], overrides, env) {
            Err(k) => Err(k),
            Ok(d) => match resolve_from(ds, i + 1, overrides, env) {
                Err(k) => Err(k),
                Ok(mut rest) => {
                    let ghost dv = d.deep_view();
                    let ghost rest_exec = rest@;
                    let ghost restv = rest.deep_view();
                    let mut out: Vec<Datasource> = Vec::new();
                    out.push(d);
                    out.append(&mut rest);
                    proof {
                        assert(out@ =~= seq![out@[0]] + rest_exec);
                        assert(out.deep_view() =~= seq![dv] + restv);
                    }
                    Ok(out)
                },
            },
        }
    }
}

/// Resolves every datasource URL of a configuration at construction time:
/// an override keyed by the datasource's name wins, a direct URL stands,
/// and a URL read from the environment resolves there or fails with the
/// missing variable's name.
pub fn resolve_configuration(
    config: &ValidatedConfiguration,
    overrides: &Vec<(String, String)>,
    env: &Vec<(String, String)>,
) -> (r: Result<ValidatedConfiguration, String>)
    ensures
        (r matches Ok(c) ==> spec_resolve_datasources(
            config@,
            overrides.deep_view(),
            env.deep_view(),
        ) == Ok::<Seq<DatasourceV>, Seq<char>>(c@)),
        (r matches Err(k) ==> spec_resolve_datasources(
            config@,
            overrides.deep_view(),
            env.deep_view(),
        ) == Err::<Seq<DatasourceV>, Seq<char>>(k@)),
{
    proof {
        assert(config.datasources.deep_view().skip(0) =~= config.datasources.deep_view());
    }
    match resolve_from(&config.datasources, 0, overrides, env) {
        Ok(datasources) => Ok(ValidatedConfiguration { datasources }),
        Err(k) => Err(k),
    }
}

} // verus!
