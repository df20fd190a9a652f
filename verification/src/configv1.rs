//! The version-1 schema: strict structural parsing of the loosely-typed tree
//! into the typed model, detection of reference-shaped files, and the query
//! surface the dispatcher delegates to.
use vstd::prelude::*;

use crate::error::Error;
use crate::json::{
    entries_lookup, entries_model, json_as_str, json_as_u64, json_obj_entries, jsonc_tree_of,
    obj_lookup, parse_jsonc, value_model, JsonModel,
};
use crate::{spec_task_of, DevelopmentTask};

verus! {

/// The mathematical reading of an application's `development` section.
pub struct DevModel {
    pub task: Option<Seq<char>>,
}

/// The mathematical reading of one application definition.
pub struct AppModel {
    pub package_name: Option<Seq<char>>,
    pub development: Option<DevModel>,
    pub port: Option<u16>,
}

/// What parsing version-1 text yields when it succeeds: an owning topology,
/// or a pointer to the application that owns the real configuration.
pub enum ParseModel {
    Actual(Seq<(Seq<char>, AppModel)>),
    Reference(Seq<char>),
}

/// An application's `development` section.
#[derive(Debug, Clone, PartialEq, Eq)]
pub struct Development {
    pub task: Option<String>,
}

/// One application definition: an optional overriding package name, an
/// optional development section, and an optional port.
#[derive(Debug, Clone, PartialEq, Eq)]
pub struct Application {
    pub package_name: Option<String>,
    pub development: Option<Development>,
    pub port: Option<u16>,
}

/// The version-1 typed model: the application mapping, in source order.
#[derive(Debug, Clone, PartialEq, Eq)]
pub struct ConfigV1 {
    pub applications: Vec<(String, Application)>,
}

/// The outcome of parsing version-1 text: a genuine topology owner, or a
/// reference whose true configuration lives with another named application.
#[derive(Debug, Clone, PartialEq, Eq)]
pub enum ParseResult {
    Actual(ConfigV1),
    Reference(String),
}

impl View for Development {
    type V = DevModel;

    open spec fn view(&self) -> DevModel {
        DevModel {
            task: match self.task {
                Some(t) => Some(t@),
                None => None,
            },
        }
    }
}

impl View for Application {
    type V = AppModel;

    open spec fn view(&self) -> AppModel {
        AppModel {
            package_name: match self.package_name {
                Some(p) => Some(p@),
                None => None,
            },
            development: match self.development {
                Some(d) => Some(d@),
                None => None,
            },
            port: self.port,
        }
    }
}

impl View for ConfigV1 {
    type V = Seq<(Seq<char>, AppModel)>;

    open spec fn view(&self) -> Seq<(Seq<char>, AppModel)> {
        Seq::new(
            self.applications@.len(),
            |i: int| (self.applications@[i].0@, self.applications@[i].1@),
        )
    }
}

/// An optional member that must be a string when present: `None` means the
/// member is structurally invalid, `Some(f)` carries the parsed field.
pub open spec fn spec_opt_str(v: Option<JsonModel>) -> Option<Option<Seq<char>>> {
    match v {
        None => Some(None),
        Some(JsonModel::Str(s)) => Some(Some(s)),
        Some(_) => None,
    }
}

/// A `development` section: an object with an optional string `task` member.
pub open spec fn spec_parse_development(m: JsonModel) -> Option<DevModel> {
    match m {
        JsonModel::Obj(es) => match spec_opt_str(obj_lookup(es, "task"@)) {
            Some(t) => Some(DevModel { task: t }),
            None => None,
        },
        _ => None,
    }
}

/// An optional `development` member.
pub open spec fn spec_parse_dev_field(v: Option<JsonModel>) -> Option<Option<DevModel>> {
    match v {
        None => Some(None),
        Some(m) => match spec_parse_development(m) {
            Some(d) => Some(Some(d)),
            None => None,
        },
    }
}

/// An optional `port` member: a number readable as an integer in `0..=65535`.
pub open spec fn spec_parse_port_field(v: Option<JsonModel>) -> Option<Option<u16>> {
    match v {
        None => Some(None),
        Some(JsonModel::Num(Some(n))) => if n <= 0xffff {
            Some(Some(n as u16))
        } else {
            None
        },
        Some(_) => None,
    }
}

/// One application definition: an object (possibly empty) whose recognized
/// members are `packageName`, `development` and `port`; unknown members are
/// ignored.
pub open spec fn spec_parse_application(m: JsonModel) -> Option<AppModel> {
    match m {
        JsonModel::Obj(es) => match (
            spec_opt_str(obj_lookup(es, "packageName"@)),
            spec_parse_dev_field(obj_lookup(es, "development"@)),
            spec_parse_port_field(obj_lookup(es, "port"@)),
        ) {
            (Some(pn), Some(dev), Some(port)) => Some(
                AppModel { package_name: pn, development: dev, port },
            ),
            _ => None,
        },
        _ => None,
    }
}

/// Every entry of the application mapping parses.
pub open spec fn spec_apps_ok(es: Seq<(Seq<char>, JsonModel)>) -> bool {
    forall|i: int| 0 <= i < es.len() ==> spec_parse_application((#[trigger] es[i]).1) is Some
}

/// The parsed application mapping, entry by entry, in source order.
pub open spec fn spec_apps_val(es: Seq<(Seq<char>, JsonModel)>) -> Seq<(Seq<char>, AppModel)> {
    Seq::new(es.len(), |i: int| (es[i].0, spec_parse_application(es[i].1).unwrap()))
}

/// The whole version-1 parse: the root must be an object; an `applications`
/// object makes it an owning topology; without one, a string
/// `defaultApplication` member makes it a reference; with neither the
/// topology is empty. `None` is a hard parse failure.
pub open spec fn spec_parse_v1(t: Option<JsonModel>) -> Option<ParseModel> {
    match t {
        Some(JsonModel::Obj(es)) => match obj_lookup(es, "applications"@) {
            Some(JsonModel::Obj(apps)) => if spec_apps_ok(apps) {
                Some(ParseModel::Actual(spec_apps_val(apps)))
            } else {
                None
            },
            Some(_) => None,
            None => match obj_lookup(es, "defaultApplication"@) {
                Some(JsonModel::Str(owner)) => Some(ParseModel::Reference(owner)),
                Some(_) => None,
                None => Some(ParseModel::Actual(Seq::empty())),
            },
        },
        _ => None,
    }
}

/// The application named `name`, if the mapping declares one.
pub open spec fn spec_app_lookup(apps: Seq<(Seq<char>, AppModel)>, name: Seq<char>) -> Option<
    AppModel,
>
    decreases apps.len(),
{
    if apps.len() == 0 {
        None
    } else if apps[0].0 == name {
        Some(apps[0].1)
    } else {
        spec_app_lookup(apps.drop_first(), name)
    }
}

/// The declared port of the application named `name`, if any.
pub open spec fn spec_port(apps: Seq<(Seq<char>, AppModel)>, name: Seq<char>) -> Option<u16> {
    match spec_app_lookup(apps, name) {
        Some(a) => a.port,
        None => None,
    }
}

fn parse_development(v: &serde_json::Value) -> (r: Result<Development, Error>)
    ensures
        match r {
            Ok(d) => spec_parse_development(value_model(*v)) == Some(d@),
            Err(e) => spec_parse_development(value_model(*v)) is None && e matches Error::Parse(_),
        },
{
    let entries = match json_obj_entries(v) {
        Some(es) => es,
        None => {
            return Err(Error::Parse("development must be an object".to_owned()));
        },
    };
    let task: Option<String> = match entries_lookup(&entries, "task") {
        None => None,
        Some(tv) => match json_as_str(tv) {
            Some(s) => Some(s.to_owned()),
            None => {
                return Err(Error::Parse("task must be a string".to_owned()));
            },
        },
    };
    Ok(Development { task })
}

fn parse_application(v: &serde_json::Value) -> (r: Result<Application, Error>)
    ensures
        match r {
            Ok(a) => spec_parse_application(value_model(*v)) == Some(a@),
            Err(e) => spec_parse_application(value_model(*v)) is None && e matches Error::Parse(
                _,
            ),
        },
{
    let entries = match json_obj_entries(v) {
        Some(es) => es,
        None => {
            return Err(Error::Parse("an application must be an object".to_owned()));
        },
    };
    let package_name: Option<String> = match entries_lookup(&entries, "packageName") {
        None => None,
        Some(pv) => match json_as_str(pv) {
            Some(s) => Some(s.to_owned()),
            None => {
                return Err(Error::Parse("packageName must be a string".to_owned()));
            },
        },
    };
    let development: Option<Development> = match entries_lookup(&entries, "development") {
        None => None,
        Some(dv) => match parse_development(dv) {
            Ok(d) => Some(d),
            Err(e) => {
                return Err(e);
            },
        },
    };
    let port: Option<u16> = match entries_lookup(&entries, "port") {
        None => None,
        Some(pv) => match json_as_u64(pv) {
            Some(n) => if n <= 0xffff {
                Some(n as u16)
            } else {
                return Err(Error::Parse("port must fit in 16 bits".to_owned()));
            },
            None => {
                return Err(Error::Parse("port must be an integer".to_owned()));
            },
        },
    };
    Ok(Application { package_name, development, port })
}

impl ConfigV1 {
    /// Strict structural parse of version-1 text: classifies the file as an
    /// owning topology or a reference, and fails hard on anything outside
    /// the grammar.
    #[verifier::loop_isolation(false)]
    pub fn from_str(input: &str, source: &str) -> (r: Result<ParseResult, Error>)
        ensures
            ({
                let p = spec_parse_v1(jsonc_tree_of(input@));
                match r {
                    Ok(ParseResult::Actual(c)) => p == Some(ParseModel::Actual(c@)),
                    Ok(ParseResult::Reference(owner)) => p == Some(ParseModel::Reference(owner@)),
                    Err(e) => p is None && e matches Error::Parse(_),
                }
            }),
    {
        let root = match parse_jsonc(input, source) {
            Some(v) => v,
            None => {
                return Err(Error::Parse("no well-formed root value".to_owned()));
            },
        };
        let entries = match json_obj_entries(&root) {
            Some(es) => es,
            None => {
                return Err(Error::Parse("the configuration must be an object".to_owned()));
            },
        };
        let ghost root_m = entries_model(entries@);
        match entries_lookup(&entries, "applications") {
            Some(apps_v) => {
                let app_entries = match json_obj_entries(apps_v) {
                    Some(es) => es,
                    None => {
                        return Err(Error::Parse("applications must be an object".to_owned()));
                    },
                };
                let ghost apps_m = entries_model(app_entries@);
                let mut out: Vec<(String, Application)> = Vec::new();
                let mut i: usize = 0;
                while i < app_entries.len()
                    invariant
                        0 <= i <= app_entries.len(),
                        apps_m == entries_model(app_entries@),
                        apps_m.len() == app_entries@.len(),
                        out@.len() == i,
                        forall|j: int|
                            0 <= j < i ==> spec_parse_application(
                                (#[trigger] apps_m[j]).1,
                            ) is Some,
                        forall|j: int|
                            0 <= j < i ==> (#[trigger] out@[j]).0@ == apps_m[j].0 && out@[j].1@
                                == spec_parse_application(apps_m[j].1).unwrap(),
                    decreases app_entries@.len() - i,
                {
                    let key = app_entries[i].0.clone();
                    match parse_application(&app_entries[i].1) {
                        Ok(app) => {
                            out.push((key, app));
                        },
                        Err(e) => {
                            proof {
                                assert(spec_parse_application(apps_m[i as int].1) is None);
                                assert(!spec_apps_ok(apps_m));
                            }
                            return Err(e);
                        },
                    }
                    i = i + 1;
                }
                let result = ConfigV1 { applications: out };
                proof {
                    assert(result@ =~= spec_apps_val(apps_m));
                }
                Ok(ParseResult::Actual(result))
            },
            None => {
                match entries_lookup(&entries, "defaultApplication") {
                    Some(dv) => match json_as_str(dv) {
                        Some(owner) => Ok(ParseResult::Reference(owner.to_owned())),
                        None => Err(
                            Error::Parse("defaultApplication must be a string".to_owned()),
                        ),
                    },
                    None => {
                        let result = ConfigV1 { applications: Vec::new() };
                        proof {
                            assert(result@ =~= Seq::<(Seq<char>, AppModel)>::empty());
                        }
                        Ok(ParseResult::Actual(result))
                    },
                }
            },
        }
    }

    /// The development tasks this topology declares, one per application, in
    /// source order.
    pub fn development_tasks(&self) -> (r: Vec<DevelopmentTask>)
        ensures
            r@.len() == self@.len(),
            forall|i: int| 0 <= i < r@.len() ==> (#[trigger] r@[i])@ == spec_task_of(self@[i]),
    {
        let mut out: Vec<DevelopmentTask> = Vec::new();
        let mut i: usize = 0;
        while i < self.applications.len()
            invariant
                0 <= i <= self.applications.len(),
                self@.len() == self.applications@.len(),
                out@.len() == i,
                forall|j: int| 0 <= j < i ==> (#[trigger] out@[j])@ == spec_task_of(self@[j]),
            decreases self.applications@.len() - i,
        {
            let name = self.applications[i].0.clone();
            let app = &self.applications[i].1;
            let package = match &app.package_name {
                Some(p) => p.clone(),
                None => name.clone(),
            };
            let task = match &app.development {
                Some(d) => match &d.task {
                    Some(t) => Some(t.clone()),
                    None => None,
                },
                None => None,
            };
            out.push(DevelopmentTask { application_name: name, package, task });
            i = i + 1;
        }
        out
    }

    /// The declared port of the application named `name`, if any.
    pub fn port(&self, name: &str) -> (r: Option<u16>)
        ensures
            r == spec_port(self@, name@),
    {
        let needle: String = name.to_owned();
        let ghost apps = self@;
        proof {
            assert(apps.skip(0) =~= apps);
        }
        let mut i: usize = 0;
        while i < self.applications.len()
            invariant
                0 <= i <= self.applications.len(),
                apps == self@,
                apps.len() == self.applications@.len(),
                needle@ == name@,
                spec_app_lookup(apps, name@) == spec_app_lookup(apps.skip(i as int), name@),
            decreases self.applications@.len() - i,
        {
            proof {
                assert(apps.skip(i as int)[0] == apps[i as int]);
                assert(apps.skip(i as int).drop_first() =~= apps.skip(i as int + 1));
            }
            if self.applications[i].0 == needle {
                return self.applications[i].1.port;
            }
            i = i + 1;
        }
        proof {
            assert(apps.skip(self.applications@.len() as int) =~= Seq::<
                (Seq<char>, AppModel),
            >::empty());
        }
        None
    }
}

} // verus!
