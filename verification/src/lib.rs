//! Resolution and interpretation of a microfrontends topology description
//! for a monorepo package: locating a configuration among candidate
//! filenames, sniffing its schema version, dispatching to the matching
//! versioned parser, and answering the queries a local development proxy
//! needs — which applications to start with which task, and on which port.
use vstd::prelude::*;
use vstd::string::StringExecFns;

pub mod configv1;
pub mod error;
pub mod json;

use configv1::{AppModel, ConfigV1, ParseModel, ParseResult};
use error::Error;
use json::{obj_lookup, JsonModel};

verus! {

/// Default filename for a package that provides a configuration.
pub fn default_config_v1() -> (r: &'static str)
    ensures
        r@ == "microfrontends.json"@,
{
    "microfrontends.json"
}

/// Alternate filename, with comments permitted.
pub fn default_config_v1_alt() -> (r: &'static str)
    ensures
        r@ == "microfrontends.jsonc"@,
{
    "microfrontends.jsonc"
}

/// The minimal amount of information needed to correctly start a local
/// proxy server for microfrontends.
#[derive(Debug, Clone, PartialEq, Eq)]
pub struct Config {
    inner: ConfigInner,
    filename: String,
    path: Option<String>,
}

#[derive(Debug, Clone, PartialEq, Eq)]
enum ConfigInner {
    V1(ConfigV1),
}

/// One application to start during local development: the key it is
/// declared under, the package that provides it (the key, unless
/// `packageName` overrides it), and the task to run, if one is configured.
#[derive(Debug, Clone, PartialEq, Eq, PartialOrd, Ord)]
pub struct DevelopmentTask {
    pub application_name: String,
    pub package: String,
    pub task: Option<String>,
}

/// The mathematical reading of a development task.
pub struct TaskModel {
    pub application_name: Seq<char>,
    pub package: Seq<char>,
    pub task: Option<Seq<char>>,
}

impl View for DevelopmentTask {
    type V = TaskModel;

    open spec fn view(&self) -> TaskModel {
        TaskModel {
            application_name: self.application_name@,
            package: self.package@,
            task: match self.task {
                Some(t) => Some(t@),
                None => None,
            },
        }
    }
}

/// The development task that one entry of the application mapping declares.
pub open spec fn spec_task_of(entry: (Seq<char>, AppModel)) -> TaskModel {
    TaskModel {
        application_name: entry.0,
        package: match entry.1.package_name {
            Some(p) => p,
            None => entry.0,
        },
        task: match entry.1.development {
            Some(d) => d.task,
            None => None,
        },
    }
}

/// The version string that a lightweight probe of the text yields: the root
/// object's string `version` member, if the text has one.
pub open spec fn spec_sniffed_version(t: Option<JsonModel>) -> Option<Seq<char>> {
    match t {
        Some(JsonModel::Obj(es)) => match obj_lookup(es, "version"@) {
            Some(JsonModel::Str(s)) => Some(s),
            _ => None,
        },
        _ => None,
    }
}

/// The version the dispatcher acts on: the sniffed version, defaulting to
/// `"1"` where none is detectable.
pub open spec fn spec_effective_version(t: Option<JsonModel>) -> Seq<char> {
    match spec_sniffed_version(t) {
        Some(v) => v,
        None => "1"@,
    }
}

/// What a successful `from_str` means for the text `input` and label
/// `source`: the effective version is the supported one, the version-1
/// parse yields an owning topology, and the handle wraps it.
pub open spec fn spec_from_str_ok(c: Config, input: Seq<char>, source: Seq<char>) -> bool {
    let t = json::jsonc_tree_of(input);
    &&& spec_effective_version(t) == "1"@
    &&& spec_parse_v1(t) matches Some(ParseModel::Actual(apps)) && c.apps_spec() == apps
    &&& c.filename_spec() == source
    &&& c.path_spec() is None
}

/// What a failing `from_str` means for the text `input`: which error comes
/// back on which texts, exactly.
pub open spec fn spec_from_str_err(e: Error, input: Seq<char>) -> bool {
    let t = json::jsonc_tree_of(input);
    match e {
        Error::UnsupportedVersion(v) => Some(v@) == spec_sniffed_version(t) && v@ != "1"@,
        Error::ChildConfig { reference } => spec_effective_version(t) == "1"@ && spec_parse_v1(t)
            == Some(ParseModel::Reference(reference@)),
        Error::Parse(_) => spec_effective_version(t) == "1"@ && spec_parse_v1(t) is None,
        Error::Io(_) => false,
    }
}

/// `from_str`'s whole contract over its result.
pub open spec fn spec_from_str_post(
    r: Result<Config, Error>,
    input: Seq<char>,
    source: Seq<char>,
) -> bool {
    match r {
        Ok(c) => spec_from_str_ok(c, input, source),
        Err(e) => spec_from_str_err(e, input),
    }
}

pub use crate::configv1::spec_parse_v1;
pub use crate::configv1::spec_port;

impl Config {
    /// The parsed application mapping the handle wraps.
    pub closed spec fn apps_spec(&self) -> Seq<(Seq<char>, AppModel)> {
        match self.inner {
            ConfigInner::V1(c) => c@,
        }
    }

    /// The name of the file the content came from or was synthesized from.
    pub closed spec fn filename_spec(&self) -> Seq<char> {
        self.filename@
    }

    /// The repo-relative path attached to the handle, if any.
    pub closed spec fn path_spec(&self) -> Option<Seq<char>> {
        match self.path {
            Some(p) => Some(p@),
            None => None,
        }
    }

    /// Sniffs the schema version of `input`, dispatches to the matching
    /// versioned parser, and wraps the result; rejects unknown versions and
    /// reference-shaped files.
    pub fn from_str(input: &str, source: &str) -> (r: Result<Config, Error>)
        ensures
            spec_from_str_post(r, input@, source@),
    {
        let sniffed = Self::sniff_version(input, source);
        let one: String = "1".to_owned();
        if let Some(v) = sniffed {
            let is_one = v == one;
            if !is_one {
                return Err(Error::UnsupportedVersion(v));
            }
        }
        match ConfigV1::from_str(input, source) {
            Ok(ParseResult::Actual(c)) => Ok(
                Config { inner: ConfigInner::V1(c), filename: source.to_owned(), path: None },
            ),
            Ok(ParseResult::Reference(owner)) => Err(Error::ChildConfig { reference: owner }),
            Err(e) => Err(e),
        }
    }

    /// The lightweight first pass: extract an optional string `version`
    /// member, never failing on malformed text.
    fn sniff_version(input: &str, source: &str) -> (r: Option<String>)
        ensures
            match r {
                Some(s) => spec_sniffed_version(json::jsonc_tree_of(input@)) == Some(s@),
                None => spec_sniffed_version(json::jsonc_tree_of(input@)) is None,
            },
    {
        let root = match json::parse_jsonc(input, source) {
            Some(v) => v,
            None => {
                return None;
            },
        };
        let entries = match json::json_obj_entries(&root) {
            Some(es) => es,
            None => {
                return None;
            },
        };
        match json::entries_lookup(&entries, "version") {
            Some(vv) => match json::json_as_str(vv) {
                Some(s) => Some(s.to_owned()),
                None => None,
            },
            None => None,
        }
    }

    /// Interprets the contents read from an exact path: an absent file is a
    /// successful absence, present contents are parsed with the path as the
    /// source label.
    pub fn load(path: &str, contents: Option<String>) -> (r: Result<Option<Config>, Error>)
        ensures
            match contents {
                None => r matches Ok(None),
                Some(text) => match r {
                    Ok(Some(c)) => spec_from_str_post(Ok(c), text@, path@),
                    Ok(None) => false,
                    Err(e) => spec_from_str_post(Err(e), text@, path@),
                },
            },
    {
        match contents {
            None => Ok(None),
            Some(text) => match Self::from_str(text.as_str(), path) {
                Ok(c) => Ok(Some(c)),
                Err(e) => Err(e),
            },
        }
    }

    /// Interprets the candidate files found in a package directory: the
    /// primary filename wins over the alternate, the loaded handle carries
    /// the winning filename and `package_dir` joined with it, and a
    /// directory with neither candidate is a successful absence.
    pub fn load_from_dir(
        package_dir: &str,
        primary: Option<String>,
        alternate: Option<String>,
    ) -> (r: Result<Option<Config>, Error>)
        ensures
            ({
                match (primary, alternate) {
                    (Option::None, Option::None) => r matches Ok(None),
                    (Option::Some(text), _) => spec_load_dir_post(
                        r,
                        text@,
                        "microfrontends.json"@,
                        package_dir@,
                    ),
                    (Option::None, Option::Some(text)) => spec_load_dir_post(
                        r,
                        text@,
                        "microfrontends.jsonc"@,
                        package_dir@,
                    ),
                }
            }),
    {
        let (text, filename) = match (primary, alternate) {
            (None, None) => {
                return Ok(None);
            },
            (Some(text), _) => (text, default_config_v1()),
            (None, Some(text)) => (text, default_config_v1_alt()),
        };
        let mut config = match Self::from_str(text.as_str(), filename) {
            Ok(c) => c,
            Err(e) => {
                return Err(e);
            },
        };
        config.set_path(package_dir);
        Ok(Some(config))
    }

    /// The development tasks of the active version's model, in the order
    /// that model declares.
    pub fn development_tasks(&self) -> (r: Vec<DevelopmentTask>)
        ensures
            r@.len() == self.apps_spec().len(),
            forall|i: int|
                0 <= i < r@.len() ==> (#[trigger] r@[i])@ == spec_task_of(self.apps_spec()[i]),
    {
        match &self.inner {
            ConfigInner::V1(c) => c.development_tasks(),
        }
    }

    /// The declared port for that application, if present; absence means
    /// the caller falls back to a default.
    pub fn port(&self, name: &str) -> (r: Option<u16>)
        ensures
            r == spec_port(self.apps_spec(), name@),
    {
        match &self.inner {
            ConfigInner::V1(c) => c.port(name),
        }
    }

    /// Filename of the loaded configuration.
    pub fn filename(&self) -> (r: &str)
        ensures
            r@ == self.filename_spec(),
    {
        self.filename.as_str()
    }

    /// The attached repo-relative path, absent until `set_path` has run.
    pub fn path(&self) -> (r: Option<&str>)
        ensures
            match r {
                Some(p) => self.path_spec() == Some(p@),
                None => self.path_spec() is None,
            },
    {
        match &self.path {
            Some(p) => Some(p.as_str()),
            None => None,
        }
    }

    /// The schema version of the wrapped model.
    pub fn version(&self) -> (r: &str)
        ensures
            r@ == "1"@,
    {
        match &self.inner {
            ConfigInner::V1(_) => "1",
        }
    }

    /// Attaches the path the configuration was loaded from: `dir` joined
    /// with the stored filename, overwriting any previously attached path.
    pub fn set_path(&mut self, dir: &str)
        ensures
            final(self).apps_spec() == old(self).apps_spec(),
            final(self).filename_spec() == old(self).filename_spec(),
            final(self).path_spec() == Some(dir@ + "/"@ + old(self).filename_spec()),
    {
        let joined = dir.to_owned().concat("/").concat(self.filename.as_str());
        self.path = Some(joined);
    }
}

/// Law: the queries are pure functions of the parsed model. Any two results
/// of `development_tasks` on the same handle read the same, element by
/// element, and any two results of `port` for the same name are equal —
/// re-calling a query cannot change what it answers.
pub proof fn lemma_queries_pure(
    c: Config,
    tasks1: Seq<TaskModel>,
    tasks2: Seq<TaskModel>,
    name: Seq<char>,
    port1: Option<u16>,
    port2: Option<u16>,
)
    requires
        tasks1.len() == c.apps_spec().len(),
        forall|i: int| 0 <= i < tasks1.len() ==> #[trigger] tasks1[i] == spec_task_of(
            c.apps_spec()[i],
        ),
        tasks2.len() == c.apps_spec().len(),
        forall|i: int| 0 <= i < tasks2.len() ==> #[trigger] tasks2[i] == spec_task_of(
            c.apps_spec()[i],
        ),
        port1 == spec_port(c.apps_spec(), name),
        port2 == spec_port(c.apps_spec(), name),
    ensures
        tasks1 == tasks2,
        port1 == port2,
{
    assert(tasks1 =~= tasks2);
}

/// Inserting a member under a different name leaves a lookup unchanged.
proof fn lemma_lookup_insert_other(
    es: Seq<(Seq<char>, JsonModel)>,
    k: int,
    p: (Seq<char>, JsonModel),
    key: Seq<char>,
)
    requires
        0 <= k <= es.len(),
        p.0 != key,
    ensures
        obj_lookup(es.insert(k, p), key) == obj_lookup(es, key),
    decreases es.len(),
{
    let inserted = es.insert(k, p);
    if k == 0 {
        assert(inserted[0] == p);
        assert(inserted.drop_first() =~= es);
    } else {
        assert(inserted[0] == es[0]);
        if es[0].0 != key {
            assert(inserted.drop_first() =~= es.drop_first().insert(k - 1, p));
            lemma_lookup_insert_other(es.drop_first(), k - 1, p, key);
        }
    }
}

/// Inserting a member under a name the object lacks makes that name look
/// the member up.
proof fn lemma_lookup_insert_fresh(es: Seq<(Seq<char>, JsonModel)>, k: int, p: (Seq<char>, JsonModel))
    requires
        0 <= k <= es.len(),
        obj_lookup(es, p.0) is None,
    ensures
        obj_lookup(es.insert(k, p), p.0) == Some(p.1),
    decreases es.len(),
{
    let inserted = es.insert(k, p);
    if k == 0 {
        assert(inserted[0] == p);
    } else {
        assert(inserted[0] == es[0]);
        assert(es[0].0 != p.0);
        assert(inserted.drop_first() =~= es.drop_first().insert(k - 1, p));
        lemma_lookup_insert_fresh(es.drop_first(), k - 1, p);
    }
}

/// Law: a topology that declares no version is read exactly as the same
/// topology with `"version": "1"` written in as a member, at any position —
/// the effective version and the version-1 parse both agree, so the
/// resulting configurations are identical.
pub proof fn lemma_version_default(es: Seq<(Seq<char>, JsonModel)>, k: int)
    requires
        obj_lookup(es, "version"@) is None,
        0 <= k <= es.len(),
    ensures
        spec_effective_version(Some(JsonModel::Obj(es))) == spec_effective_version(
            Some(JsonModel::Obj(es.insert(k, ("version"@, JsonModel::Str("1"@))))),
        ),
        spec_parse_v1(Some(JsonModel::Obj(es))) == spec_parse_v1(
            Some(JsonModel::Obj(es.insert(k, ("version"@, JsonModel::Str("1"@))))),
        ),
{
    let tag = ("version"@, JsonModel::Str("1"@));
    reveal_strlit("version");
    reveal_strlit("applications");
    reveal_strlit("defaultApplication");
    assert("applications"@.len() == 12 && "version"@.len() == 7 && "defaultApplication"@.len()
        == 18);
    lemma_lookup_insert_fresh(es, k, tag);
    lemma_lookup_insert_other(es, k, tag, "applications"@);
    lemma_lookup_insert_other(es, k, tag, "defaultApplication"@);
}

/// What loading from a directory means once a candidate text and its
/// filename are fixed.
pub open spec fn spec_load_dir_post(
    r: Result<Option<Config>, Error>,
    text: Seq<char>,
    filename: Seq<char>,
    dir: Seq<char>,
) -> bool {
    let t = json::jsonc_tree_of(text);
    match r {
        Ok(Some(c)) => {
            &&& spec_effective_version(t) == "1"@
            &&& spec_parse_v1(t) matches Some(ParseModel::Actual(apps)) && c.apps_spec() == apps
            &&& c.filename_spec() == filename
            &&& c.path_spec() == Some(dir + "/"@ + filename)
        },
        Ok(None) => false,
        Err(e) => spec_from_str_err(e, text),
    }
}

} // verus!

