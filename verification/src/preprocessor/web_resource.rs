//! The `web-resource` preprocessor: its query yields a list of remote
//! resources, each a URL and a relative destination path, and the job ensures
//! every destination is materialized on disk. The per-resource decision
//! whether to download is defined and verified here; the transfer itself is
//! network I/O and lives outside this crate.

use vstd::prelude::*;
use vstd::string::StringExecFns;

use crate::config::{self, ConfigValue};
use crate::preprocessor::ConfigError;
use crate::query::Query;

verus! {

/// One declared resource: a remote URL and the relative path it is
/// materialized at, inside the project root.
#[derive(Debug, Clone, PartialEq, Eq)]
pub struct Resource {
    /// The remote location.
    pub url: String,
    /// The destination, relative to the project root.
    pub path: String,
}

/// The `web-resource` kind's own configuration, decoded from the entries of
/// its job table.
#[derive(Debug, Clone, PartialEq, Eq)]
pub struct Manifest {
    /// Download and overwrite every file, even ones already present.
    pub overwrite: bool,
    /// The index file recording previously downloaded resources, or `None`
    /// when no index is kept. Two jobs sharing one index path race; nothing
    /// defends against that.
    pub index: Option<String>,
    /// Delete files no longer referenced by the document. Declared but not
    /// yet supported: no file is ever deleted under this flag.
    pub evict: bool,
}

/// What to do for one declared resource.
#[derive(Debug, Clone, PartialEq, Eq)]
pub enum SyncAction {
    /// Fetch the remote body and write it to the destination.
    Download,
    /// Leave the existing file as it is.
    Skip,
}

/// Error for one declared resource. A failed resource fails its job, but
/// sibling resources and other jobs still run to completion.
#[derive(Debug, Clone, PartialEq, Eq)]
pub enum SyncError {
    /// The declared path resolves outside the project root.
    PathOutsideRoot {
        /// The declared path.
        path: String,
    },
    /// Fetching the remote body or writing it failed.
    DownloadFailure {
        /// The remote location that was being fetched.
        url: String,
    },
}

/// The first entry of a kind-configuration table under the given key, if
/// any.
pub open spec fn table_get(t: Seq<(String, ConfigValue)>, key: Seq<char>) -> Option<ConfigValue>
    decreases t.len(),
{
    if t.len() == 0 {
        None
    } else if t[0].0@ == key {
        Some(t[0].1)
    } else {
        table_get(t.drop_first(), key)
    }
}

proof fn lemma_table_get_first(t: Seq<(String, ConfigValue)>, key: Seq<char>, i: int)
    requires
        0 <= i < t.len(),
        forall|j: int| 0 <= j < i ==> t[j].0@ != key,
        t[i].0@ == key,
    ensures
        table_get(t, key) == Some(t[i].1),
    decreases i,
{
    if i > 0 {
        assert(t[0].0@ != key);
        assert(forall|j: int| 0 <= j < i - 1 ==> t.drop_first()[j] == t[j + 1]);
        lemma_table_get_first(t.drop_first(), key, i - 1);
    }
}

proof fn lemma_table_get_none(t: Seq<(String, ConfigValue)>, key: Seq<char>)
    requires
        forall|j: int| 0 <= j < t.len() ==> t[j].0@ != key,
    ensures
        table_get(t, key) is None,
    decreases t.len(),
{
    if t.len() > 0 {
        assert(forall|j: int| 0 <= j < t.len() - 1 ==> t.drop_first()[j] == t[j + 1]);
        lemma_table_get_none(t.drop_first(), key);
    }
}

/// Looks a key up in a kind-configuration table; the first entry wins.
fn table_lookup<'a>(t: &'a Vec<(String, ConfigValue)>, key: &String) -> (r: Option<
    &'a ConfigValue,
>)
    ensures
        match r {
            Some(v) => table_get(t@, key@) == Some(*v),
            None => table_get(t@, key@) is None,
        },
{
    let mut i: usize = 0;
    while i < t.len()
        invariant
            0 <= i <= t@.len(),
            forall|j: int| 0 <= j < i ==> t@[j].0@ != key@,
        decreases t@.len() - i,
    {
        let entry = &t[i];
        if entry.0 == *key {
            proof {
                lemma_table_get_first(t@, key@, i as int);
            }
            return Some(&t[i].1);
        }
        i += 1;
    }
    proof {
        lemma_table_get_none(t@, key@);
    }
    None
}

/// What the `overwrite` and `evict` entries decode to: absent means `false`,
/// a boolean is taken as given, anything else is invalid (`None`).
pub open spec fn bool_entry_of(v: Option<ConfigValue>) -> Option<bool> {
    match v {
        None => Some(false),
        Some(ConfigValue::Bool(b)) => Some(b),
        Some(_) => None,
    }
}

/// What the `index` entry decodes to: absent or `false` disables the index,
/// `true` selects the default index file name, a string gives the path, and
/// anything else is invalid (outer `None`).
pub open spec fn index_entry_of(v: Option<ConfigValue>) -> Option<Option<Seq<char>>> {
    match v {
        None => Some(None),
        Some(ConfigValue::Bool(b)) => if b {
            Some(Some("web-resource-index.toml"@))
        } else {
            Some(None)
        },
        Some(ConfigValue::Str(s)) => Some(Some(s@)),
        Some(ConfigValue::Other) => None,
    }
}

impl Manifest {
    /// The configured index path as an abstract value.
    pub open spec fn index_view(&self) -> Option<Seq<char>> {
        match self.index {
            Some(p) => Some(p@),
            None => None,
        }
    }

    /// The on-disk location of the index file: the directory holding the
    /// project manifest, joined with the configured index path. `None` when
    /// no index is configured. Resolving the project manifest's own location
    /// is the caller's concern; the directory is handed in.
    pub fn resolve_index_path(&self, manifest_dir: &String) -> (r: Option<String>)
        ensures
            match (r, self.index) {
                (None, None) => true,
                (Some(p), Some(ix)) => p@ == manifest_dir@ + "/"@ + ix@,
                _ => false,
            },
    {
        match &self.index {
            None => None,
            Some(ix) => {
                let mut path = manifest_dir.clone();
                path.append("/");
                path.append(ix.as_str());
                Some(path)
            },
        }
    }

    /// Decides what to do for one declared resource, given whether its path
    /// resolves inside the project root and whether the destination already
    /// exists. The matrix is exhaustive and deterministic: a path outside
    /// the root is an error whatever else holds; a missing file is
    /// downloaded; an existing file is downloaded when overwriting is forced
    /// or an index is enabled (an enabled index currently always refreshes,
    /// it does not yet compare recorded entries), and skipped otherwise.
    pub fn sync_decision(&self, resource: &Resource, path_in_root: bool, exists: bool) -> (r:
        Result<SyncAction, SyncError>)
        ensures
            !path_in_root ==> r == Err::<SyncAction, SyncError>(
                SyncError::PathOutsideRoot { path: resource.path },
            ),
            path_in_root && !exists ==> r == Ok::<SyncAction, SyncError>(SyncAction::Download),
            path_in_root && exists && self.overwrite ==> r == Ok::<SyncAction, SyncError>(
                SyncAction::Download,
            ),
            path_in_root && exists && !self.overwrite && self.index is Some ==> r == Ok::<
                SyncAction,
                SyncError,
            >(SyncAction::Download),
            path_in_root && exists && !self.overwrite && self.index is None ==> r == Ok::<
                SyncAction,
                SyncError,
            >(SyncAction::Skip),
    {
        if !path_in_root {
            Err(SyncError::PathOutsideRoot { path: resource.path.clone() })
        } else if !exists {
            Ok(SyncAction::Download)
        } else if self.overwrite {
            Ok(SyncAction::Download)
        } else if self.index.is_some() {
            Ok(SyncAction::Download)
        } else {
            Ok(SyncAction::Skip)
        }
    }
}

/// Exactly when [`WebResourceFactory::parse_config`] returns `r` for the
/// table `t`: each entry decodes as its rule says, and the first invalid
/// entry, checked in the order `overwrite`, `index`, `evict`, names the
/// error.
pub open spec fn parse_config_post(
    t: Seq<(String, ConfigValue)>,
    r: Result<Manifest, ConfigError>,
) -> bool {
    let ov = bool_entry_of(table_get(t, "overwrite"@));
    let ix = index_entry_of(table_get(t, "index"@));
    let ev = bool_entry_of(table_get(t, "evict"@));
    match r {
        Ok(m) => ov == Some(m.overwrite) && ix == Some(m.index_view()) && ev == Some(m.evict),
        Err(ConfigError::InvalidOverwrite) => ov is None,
        Err(ConfigError::InvalidIndex) => ov is Some && ix is None,
        Err(ConfigError::InvalidEvict) => ov is Some && ix is Some && ev is None,
        Err(_) => false,
    }
}

/// Exactly when [`WebResourceFactory::build_query`] returns `r` for the
/// user configuration `c`: the kind's defaults are selector
/// `<web-resource>`, field `value` and `one = false`, an explicit user value
/// wins over each, and a query that resolves with `one = true` is rejected,
/// since this kind only supports multi-row results.
pub open spec fn build_query_post(c: config::Query, r: Result<Query, ConfigError>) -> bool {
    let sel = if c.selector is Some {
        c.selector.unwrap()@
    } else {
        "<web-resource>"@
    };
    let field = match c.field {
        config::FieldConfig::Named(s) => Some(s@),
        config::FieldConfig::Disabled => None::<Seq<char>>,
        config::FieldConfig::Absent => Some("value"@),
    };
    let one = if c.one is Some {
        c.one.unwrap()
    } else {
        false
    };
    match r {
        Ok(q) => !one && q.selector@ == sel && (match q.field {
            Some(f) => field == Some(f@),
            None => field is None,
        }) && q.one == false && q.inputs == c.inputs,
        Err(ConfigError::OneUnsupported) => one,
        Err(_) => false,
    }
}

/// Exactly when [`WebResourceFactory::configure`] returns `r`: the job's
/// table parses to the instance's configuration and its query builds, or the
/// first of the two steps to fail names the error.
pub open spec fn configure_post(
    name: String,
    t: Seq<(String, ConfigValue)>,
    c: config::Query,
    r: Result<WebResource, ConfigError>,
) -> bool {
    match r {
        Ok(w) => w.name == name && parse_config_post(t, Ok(w.config)) && build_query_post(
            c,
            Ok(w.query),
        ),
        Err(e) => parse_config_post(t, Err(e)) || ((exists|m: Manifest|
            parse_config_post(t, Ok(m))) && build_query_post(c, Err(e))),
    }
}

/// A constructed `web-resource` job: its name, its decoded configuration and
/// its resolved query.
#[derive(Debug, Clone, PartialEq, Eq)]
pub struct WebResource {
    /// The job's name, for diagnostics.
    pub name: String,
    /// The kind's decoded configuration.
    pub config: Manifest,
    /// The resolved query whose rows declare the resources.
    pub query: Query,
}

impl WebResource {
    /// The job's name, for diagnostics.
    pub fn name(&self) -> (r: &String)
        ensures
            r@ == self.name@,
    {
        &self.name
    }
}

/// The `web-resource` preprocessor factory.
pub struct WebResourceFactory;

impl WebResourceFactory {
    /// Decodes the kind-specific entries of a job table: `overwrite`
    /// (absent or boolean, default `false`), `index` (absent, boolean or
    /// string; `true` selects the default index file name), and `evict`
    /// (absent or boolean, default `false`). Entries of any other shape are
    /// rejected; unrelated keys are ignored.
    pub fn parse_config(config: &Vec<(String, ConfigValue)>) -> (r: Result<Manifest, ConfigError>)
        ensures
            parse_config_post(config@, r),
    {
        let overwrite = match table_lookup(config, &"overwrite".to_owned()) {
            None => false,
            Some(v) => match v {
                ConfigValue::Bool(b) => *b,
                _ => {
                    return Err(ConfigError::InvalidOverwrite);
                },
            },
        };
        let index: Option<String> = match table_lookup(config, &"index".to_owned()) {
            None => None,
            Some(v) => match v {
                ConfigValue::Bool(b) => if *b {
                    Some("web-resource-index.toml".to_owned())
                } else {
                    None
                },
                ConfigValue::Str(s) => Some(s.clone()),
                ConfigValue::Other => {
                    return Err(ConfigError::InvalidIndex);
                },
            },
        };
        let evict = match table_lookup(config, &"evict".to_owned()) {
            None => false,
            Some(v) => match v {
                ConfigValue::Bool(b) => *b,
                _ => {
                    return Err(ConfigError::InvalidEvict);
                },
            },
        };
        Ok(Manifest { overwrite, index, evict })
    }

    /// Builds this kind's query from the user configuration: defaults are
    /// selector `<web-resource>`, field `value` and `one = false`, and a
    /// query that resolves with `one = true` is rejected, since this kind
    /// only supports multi-row results.
    pub fn build_query(config: config::Query) -> (r: Result<Query, ConfigError>)
        ensures
            build_query_post(config, r),
    {
        let builder = Query::builder().default_field(Some("value".to_owned())).default_one(
            false,
        ).default_selector("<web-resource>".to_owned());
        let query = match builder.build(config) {
            Ok(q) => q,
            Err(e) => {
                return Err(ConfigError::Builder(e));
            },
        };
        if query.one {
            return Err(ConfigError::OneUnsupported);
        }
        Ok(query)
    }

    /// Constructs a `web-resource` job instance: decodes the kind-specific
    /// configuration, builds the query, and binds both to the job's name.
    /// The first step to fail names the error.
    pub fn configure(name: String, config: Vec<(String, ConfigValue)>, query: config::Query) -> (r:
        Result<WebResource, ConfigError>)
        ensures
            configure_post(name, config@, query, r),
    {
        let manifest = match Self::parse_config(&config) {
            Ok(m) => m,
            Err(e) => {
                return Err(e);
            },
        };
        let built = match Self::build_query(query) {
            Ok(q) => q,
            Err(e) => {
                proof {
                    assert(parse_config_post(config@, Ok(manifest)));
                }
                return Err(e);
            },
        };
        Ok(WebResource { name, config: manifest, query: built })
    }
}

} // verus!
