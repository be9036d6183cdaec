//! Where a sandbox finds its files: the OCI runtime spec inside a bundle, and the
//! configuration that names the runtime.

use vstd::prelude::*;
use vstd::string::StringExecFns;

verus! {

/// Name of the file inside a bundle directory that holds the container's OCI
/// runtime spec.
pub const OCI_SPEC_CONFIG_FILE_NAME: &'static str = "config.json";

/// Name of the environment variable that may hold the path of the
/// configuration file.
pub const KATA_CONF_FILE: &'static str = "KATA_CONF_FILE";

/// What the core reads of a container's OCI runtime spec: the path of the sandbox
/// configuration file, where an annotation gives one.
#[derive(Debug, PartialEq, Eq)]
pub struct OciSpec {
    pub sandbox_config_path: Option<String>,
}

/// The path of the OCI runtime spec of the bundle at `bundle`.
pub open spec fn spec_file_path(bundle: Seq<char>) -> Seq<char> {
    bundle + "/"@ + OCI_SPEC_CONFIG_FILE_NAME@
}

/// The path of the configuration file: the annotation's where there is one,
/// else the environment's where there is one, else the empty path, for which
/// the loader of the configuration picks its default location.
pub open spec fn config_path(annotation: Option<String>, environment: Option<String>) -> Seq<char> {
    match annotation {
        Some(path) => path@,
        None => match environment {
            Some(path) => path@,
            None => Seq::empty(),
        },
    }
}

pub fn bundle_spec_path(bundle: &str) -> (path: String)
    ensures
        path@ == spec_file_path(bundle@),
{
    let mut path = String::from_str(bundle);
    path.append("/");
    path.append(OCI_SPEC_CONFIG_FILE_NAME);
    path
}

pub fn resolve_config_path(annotation: Option<String>, environment: Option<String>) -> (path:
    String)
    ensures
        path@ == config_path(annotation, environment),
        annotation matches Some(given) ==> path == given,
        annotation is None ==> (environment matches Some(given) ==> path == given),
{
    match annotation {
        Some(path) => path,
        None => match environment {
            Some(path) => path,
            None => String::new(),
        },
    }
}

} // verus!
