//! The configuration of a workflow, and where it comes from.
use vstd::prelude::*;

use crate::chars::opt_view;
use crate::paths::{join, path_join};
use crate::string_map::{str_view, StringMap};
use crate::{Error, Result};

verus! {

pub const VAR_PREFERENCES: &'static str = "alfred_preferences";
pub const VAR_PREFERENCES_LOCALHASH: &'static str = "alfred_preferences_localhash";
pub const VAR_THEME: &'static str = "alfred_theme";
pub const VAR_THEME_BACKGROUND: &'static str = "alfred_theme_background";
pub const VAR_THEME_SELECTION_BACKGROUND: &'static str = "alfred_theme_selection_background";
pub const VAR_THEME_SUBTEXT: &'static str = "alfred_theme_subtext";
pub const VAR_VERSION: &'static str = "alfred_version";
pub const VAR_VERSION_BUILD: &'static str = "alfred_version_build";
pub const VAR_WORKFLOW_BUNDLEID: &'static str = "alfred_workflow_bundleid";
pub const VAR_WORKFLOW_CACHE: &'static str = "alfred_workflow_cache";
pub const VAR_WORKFLOW_DATA: &'static str = "alfred_workflow_data";
pub const VAR_WORKFLOW_NAME: &'static str = "alfred_workflow_name";
pub const VAR_WORKFLOW_DESCRIPTION: &'static str = "alfred_workflow_description";
pub const VAR_WORKFLOW_UID: &'static str = "alfred_workflow_uid";
pub const VAR_WORKFLOW_VERSION: &'static str = "alfred_workflow_version";
pub const VAR_WORKFLOW_KEYWORD: &'static str = "alfred_workflow_keyword";
pub const VAR_DEBUG: &'static str = "alfred_debug";

/// The configuration of the running workflow; `workflow_cache` and
/// `workflow_data` are directory paths.
#[derive(Debug, PartialEq, Eq, Clone)]
pub struct WorkflowConfig {
    pub workflow_bundleid: String,
    pub workflow_cache: String,
    pub workflow_data: String,
    pub version: String,
    pub version_build: String,
    pub workflow_name: String,
    pub workflow_version: String,
    pub preferences: Option<String>,
    pub preferences_localhash: Option<String>,
    pub theme: Option<String>,
    pub theme_background: Option<String>,
    pub theme_selection_background: Option<String>,
    pub theme_subtext: Option<String>,
    pub workflow_description: Option<String>,
    pub workflow_uid: Option<String>,
    pub workflow_keyword: Option<String>,
    pub debug: bool,
}

/// A source of the configuration.
pub trait ConfigProvider {
    fn config(&self) -> Result<WorkflowConfig>;
}

/// What `str::to_lowercase` makes of a string.
pub uninterp spec fn lowercase_of(s: Seq<char>) -> Seq<char>;

/// Relies on `str::to_lowercase`: the lower-case form of a string, which
/// depends on its characters alone.
#[verifier::external_body]
fn lowercase(s: &str) -> (r: String)
    ensures
        r@ == lowercase_of(s@),
{
    s.to_lowercase()
}

/// Whether the text of the debug variable turns debugging on: `1`, or
/// `true` in any case.
pub open spec fn debug_on(text: Seq<char>) -> bool {
    text == "1"@ || lowercase_of(text) == "true"@
}

/// Whether the debug variable's text, given with its lower-case form
/// `lowered`, turns debugging on.
pub fn debug_from_lowered(text: &str, lowered: &str) -> (r: bool)
    ensures
        r == (text@ == "1"@ || lowered@ == "true"@),
{
    text.to_owned() == "1".to_owned() || lowered.to_owned() == "true".to_owned()
}

/// Whether the text of the debug variable turns debugging on.
pub fn debug_flag(text: &str) -> (r: bool)
    ensures
        r == debug_on(text@),
{
    let lowered = lowercase(text);
    debug_from_lowered(text, lowered.as_str())
}

/// The configuration that the environment of the launcher holds.
pub struct AlfredEnvProvider;

/// The value of variable `name` in `vars`.
pub open spec fn var_of(vars: Map<Seq<char>, Seq<char>>, name: &str) -> Option<Seq<char>> {
    if vars.contains_key(name@) {
        Some(vars[name@])
    } else {
        None
    }
}

/// The required variables, in the order in which they are looked up.
pub open spec fn required_vars() -> Seq<Seq<char>> {
    seq![
        VAR_WORKFLOW_BUNDLEID@,
        VAR_WORKFLOW_CACHE@,
        VAR_WORKFLOW_DATA@,
        VAR_VERSION@,
        VAR_VERSION_BUILD@,
        VAR_WORKFLOW_NAME@,
        VAR_WORKFLOW_VERSION@,
    ]
}

/// The first of `names` that `vars` lacks.
pub open spec fn first_missing(names: Seq<Seq<char>>, vars: Map<Seq<char>, Seq<char>>) -> Option<Seq<char>>
    decreases names.len(),
{
    if names.len() == 0 {
        None
    } else if !vars.contains_key(names[0]) {
        Some(names[0])
    } else {
        first_missing(names.drop_first(), vars)
    }
}

proof fn lemma_first_missing_skip(names: Seq<Seq<char>>, vars: Map<Seq<char>, Seq<char>>, k: int)
    requires
        0 <= k <= names.len(),
        forall|i: int| 0 <= i < k ==> vars.contains_key(#[trigger] names[i]),
    ensures
        first_missing(names, vars) == first_missing(names.subrange(k, names.len() as int), vars),
    decreases k,
{
    if k > 0 {
        lemma_first_missing_skip(names, vars, k - 1);
        let t = names.subrange(k - 1, names.len() as int);
        assert(t[0] == names[k - 1]);
        assert(t.drop_first() =~= names.subrange(k, names.len() as int));
    } else {
        assert(names.subrange(0, names.len() as int) =~= names);
    }
}

/// Where the first `k` required variables are present, the first missing
/// one is the `k`-th if it is missing, and none if `k` is all of them.
proof fn lemma_first_missing_at(vars: Map<Seq<char>, Seq<char>>, k: int)
    requires
        0 <= k <= 7,
        forall|i: int| 0 <= i < k ==> vars.contains_key(#[trigger] required_vars()[i]),
    ensures
        k < 7 && !vars.contains_key(required_vars()[k]) ==> first_missing(required_vars(), vars) == Some(required_vars()[k]),
        k == 7 ==> first_missing(required_vars(), vars) is None,
{
    let r = required_vars();
    lemma_first_missing_skip(r, vars, k);
    let t = r.subrange(k, 7);
    if k < 7 {
        assert(t[0] == r[k]);
    } else {
        assert(t.len() == 0);
    }
}

fn required(vars: &StringMap<String>, name: &str) -> (r: Result<String>)
    ensures
        match r {
            Ok(v) => str_view(*vars).contains_key(name@) && v@ == str_view(*vars)[name@],
            Err(e) => !str_view(*vars).contains_key(name@) && (e matches Error::MissingEnvVar(n) && n@ == name@),
        },
{
    match vars.get(name) {
        Some(v) => Ok(v.clone()),
        None => Err(Error::MissingEnvVar(name.to_owned())),
    }
}

fn optional(vars: &StringMap<String>, name: &str) -> (r: Option<String>)
    ensures
        opt_view(r) == var_of(str_view(*vars), name),
{
    match vars.get(name) {
        Some(v) => Some(v.clone()),
        None => None,
    }
}

impl AlfredEnvProvider {
    /// The configuration from the values of the environment variables in
    /// `vars`: an error naming the first required variable that is missing.
    pub fn config_from(&self, vars: &StringMap<String>) -> (r: Result<WorkflowConfig>)
        ensures
            r is Ok <==> first_missing(required_vars(), str_view(*vars)) is None,
            r matches Err(e) ==> (e matches Error::MissingEnvVar(n) && first_missing(required_vars(), str_view(*vars)) == Some(n@)),
            r matches Ok(c) ==> {
                &&& var_of(str_view(*vars), VAR_WORKFLOW_BUNDLEID) == Some(c.workflow_bundleid@)
                &&& var_of(str_view(*vars), VAR_WORKFLOW_CACHE) == Some(c.workflow_cache@)
                &&& var_of(str_view(*vars), VAR_WORKFLOW_DATA) == Some(c.workflow_data@)
                &&& var_of(str_view(*vars), VAR_VERSION) == Some(c.version@)
                &&& var_of(str_view(*vars), VAR_VERSION_BUILD) == Some(c.version_build@)
                &&& var_of(str_view(*vars), VAR_WORKFLOW_NAME) == Some(c.workflow_name@)
                &&& var_of(str_view(*vars), VAR_WORKFLOW_VERSION) == Some(c.workflow_version@)
                &&& opt_view(c.preferences) == var_of(str_view(*vars), VAR_PREFERENCES)
                &&& opt_view(c.preferences_localhash) == var_of(str_view(*vars), VAR_PREFERENCES_LOCALHASH)
                &&& opt_view(c.theme) == var_of(str_view(*vars), VAR_THEME)
                &&& opt_view(c.theme_background) == var_of(str_view(*vars), VAR_THEME_BACKGROUND)
                &&& opt_view(c.theme_selection_background) == var_of(str_view(*vars), VAR_THEME_SELECTION_BACKGROUND)
                &&& opt_view(c.theme_subtext) == var_of(str_view(*vars), VAR_THEME_SUBTEXT)
                &&& opt_view(c.workflow_description) == var_of(str_view(*vars), VAR_WORKFLOW_DESCRIPTION)
                &&& opt_view(c.workflow_uid) == var_of(str_view(*vars), VAR_WORKFLOW_UID)
                &&& opt_view(c.workflow_keyword) == var_of(str_view(*vars), VAR_WORKFLOW_KEYWORD)
                &&& c.debug == (match var_of(str_view(*vars), VAR_DEBUG) {
                    Some(t) => debug_on(t),
                    None => debug_on(Seq::empty()),
                })
            },
    {
        let debug = match vars.get(VAR_DEBUG) {
            Some(t) => debug_flag(t.as_str()),
            None => debug_flag(""),
        };
        proof {
            assert(""@ =~= Seq::<char>::empty()) by {
                reveal_strlit("");
            }
        }
        let workflow_bundleid = match required(vars, VAR_WORKFLOW_BUNDLEID) {
            Ok(v) => v,
            Err(e) => {
                proof {
                    lemma_first_missing_at(str_view(*vars), 0);
                }
                return Err(e);
            },
        };
        let workflow_cache = match required(vars, VAR_WORKFLOW_CACHE) {
            Ok(v) => v,
            Err(e) => {
                proof {
                    lemma_first_missing_at(str_view(*vars), 1);
                }
                return Err(e);
            },
        };
        let workflow_data = match required(vars, VAR_WORKFLOW_DATA) {
            Ok(v) => v,
            Err(e) => {
                proof {
                    lemma_first_missing_at(str_view(*vars), 2);
                }
                return Err(e);
            },
        };
        let version = match required(vars, VAR_VERSION) {
            Ok(v) => v,
            Err(e) => {
                proof {
                    lemma_first_missing_at(str_view(*vars), 3);
                }
                return Err(e);
            },
        };
        let version_build = match required(vars, VAR_VERSION_BUILD) {
            Ok(v) => v,
            Err(e) => {
                proof {
                    lemma_first_missing_at(str_view(*vars), 4);
                }
                return Err(e);
            },
        };
        let workflow_name = match required(vars, VAR_WORKFLOW_NAME) {
            Ok(v) => v,
            Err(e) => {
                proof {
                    lemma_first_missing_at(str_view(*vars), 5);
                }
                return Err(e);
            },
        };
        let workflow_version = match required(vars, VAR_WORKFLOW_VERSION) {
            Ok(v) => v,
            Err(e) => {
                proof {
                    lemma_first_missing_at(str_view(*vars), 6);
                }
                return Err(e);
            },
        };
        proof {
            lemma_first_missing_at(str_view(*vars), 7);
        }
        Ok(WorkflowConfig {
            workflow_bundleid,
            workflow_cache,
            workflow_data,
            version,
            version_build,
            workflow_name,
            workflow_version,
            preferences: optional(vars, VAR_PREFERENCES),
            preferences_localhash: optional(vars, VAR_PREFERENCES_LOCALHASH),
            theme: optional(vars, VAR_THEME),
            theme_background: optional(vars, VAR_THEME_BACKGROUND),
            theme_selection_background: optional(vars, VAR_THEME_SELECTION_BACKGROUND),
            theme_subtext: optional(vars, VAR_THEME_SUBTEXT),
            workflow_description: optional(vars, VAR_WORKFLOW_DESCRIPTION),
            workflow_uid: optional(vars, VAR_WORKFLOW_UID),
            workflow_keyword: optional(vars, VAR_WORKFLOW_KEYWORD),
            debug,
        })
    }
}

/// A configuration for tests, working in the directory it holds: data
/// and cache go to its `workflow_data` and `workflow_cache`
/// subdirectories; the other values are fixed.
pub struct TestingProvider(pub String);

impl TestingProvider {
    /// The configuration for the directory held.
    pub fn testing_config(&self) -> (r: WorkflowConfig)
        ensures
            r.workflow_cache@ == path_join(self.0@, "workflow_cache"@),
            r.workflow_data@ == path_join(self.0@, "workflow_data"@),
            r.workflow_bundleid@ == "com.alfredapp.googlesuggest"@,
            r.workflow_name@ == "Test Workflow"@,
            r.version@ == "5.0"@,
            r.version_build@ == "2058"@,
            r.workflow_version@ == "1.7"@,
            opt_view(r.preferences) == Some("/Users/Crayons/Dropbox/Alfred/Alfred.alfredpreferences"@),
            opt_view(r.preferences_localhash) == Some("adbd4f66bc3ae8493832af61a41ee609b20d8705"@),
            opt_view(r.theme) == Some("alfred.theme.yosemite"@),
            opt_view(r.theme_background) == Some("rgba(255,255,255,0.98)"@),
            opt_view(r.theme_selection_background) == Some("rgba(255,255,255,0.98)"@),
            opt_view(r.theme_subtext) == Some("3"@),
            opt_view(r.workflow_description) == Some("The description of the workflow we use for testing"@),
            opt_view(r.workflow_uid) == Some("user.workflow.B0AC54EC-601C-479A-9428-01F9FD732959"@),
            r.workflow_keyword is None,
            r.debug,
    {
        WorkflowConfig {
            preferences: Some("/Users/Crayons/Dropbox/Alfred/Alfred.alfredpreferences".to_owned()),
            preferences_localhash: Some("adbd4f66bc3ae8493832af61a41ee609b20d8705".to_owned()),
            theme: Some("alfred.theme.yosemite".to_owned()),
            theme_background: Some("rgba(255,255,255,0.98)".to_owned()),
            theme_selection_background: Some("rgba(255,255,255,0.98)".to_owned()),
            theme_subtext: Some("3".to_owned()),
            version: "5.0".to_owned(),
            version_build: "2058".to_owned(),
            workflow_bundleid: "com.alfredapp.googlesuggest".to_owned(),
            workflow_cache: join(self.0.as_str(), "workflow_cache"),
            workflow_data: join(self.0.as_str(), "workflow_data"),
            workflow_name: "Test Workflow".to_owned(),
            workflow_description: Some("The description of the workflow we use for testing".to_owned()),
            workflow_version: "1.7".to_owned(),
            workflow_uid: Some("user.workflow.B0AC54EC-601C-479A-9428-01F9FD732959".to_owned()),
            workflow_keyword: None,
            debug: true,
        }
    }
}

impl ConfigProvider for TestingProvider {
    fn config(&self) -> Result<WorkflowConfig> {
        Ok(self.testing_config())
    }
}

} // verus!
