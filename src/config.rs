//! Where the catalog keeps its configuration and data.
use std::path::PathBuf;
use vstd::prelude::*;

verus! {

/// The reverse-domain identifier under which the directories are created.
pub const REVERS_DOMAIN: &'static str = "com.webspence.kd";

#[verifier::external_type_specification]
#[verifier::external_body]
pub struct ExPathBuf(PathBuf);

/// Relies on `dirs::config_dir`: the user's configuration directory, when the
/// platform has one.
pub assume_specification[ dirs::config_dir ]() -> Option<PathBuf>;

/// Relies on `dirs::data_local_dir`: the user's local data directory, when the
/// platform has one.
pub assume_specification[ dirs::data_local_dir ]() -> Option<PathBuf>;

/// The path `std::path::Path::join` makes of `base` and `rel`.
pub uninterp spec fn joined(base: PathBuf, rel: Seq<char>) -> PathBuf;

/// Relies on `std::path::Path::join`: `base` with `rel` appended; the result
/// depends on the two arguments alone.
#[verifier::external_body]
pub(crate) fn join_path(base: &PathBuf, rel: &str) -> (r: PathBuf)
    ensures
        r == joined(*base, rel@),
{
    base.join(rel)
}

/// The two directories of the application: configuration and data.
pub struct Config {
    config_dir: PathBuf,
    data_dir: PathBuf,
}

impl Config {
    /// The configuration directory.
    pub closed spec fn config_path(&self) -> PathBuf {
        self.config_dir
    }

    /// The data directory.
    pub closed spec fn data_path(&self) -> PathBuf {
        self.data_dir
    }

    /// The directories `com.webspence.kd/config` under the user's
    /// configuration directory and `com.webspence.kd/data` under the user's
    /// local data directory; `None` when the platform has either base
    /// directory missing. Which base directories there are depends on the
    /// platform and the environment; whatever they are, the two directories
    /// are joined onto them.
    pub fn new() -> (r: Option<Config>)
        ensures
            r matches Some(c) ==> exists|config_base: PathBuf, data_base: PathBuf|
                c.config_path() == joined(config_base, REVERS_DOMAIN@ + "/config"@)
                    && c.data_path() == joined(data_base, REVERS_DOMAIN@ + "/data"@),
    {
        let config_base = dirs::config_dir();
        let data_base = dirs::data_local_dir();
        match (config_base, data_base) {
            (Some(config_base), Some(data_base)) => {
                let mut config_rel = REVERS_DOMAIN.to_owned();
                config_rel.append("/config");
                let mut data_rel = REVERS_DOMAIN.to_owned();
                data_rel.append("/data");
                Some(
                    Config {
                        config_dir: join_path(&config_base, config_rel.as_str()),
                        data_dir: join_path(&data_base, data_rel.as_str()),
                    },
                )
            },
            _ => None,
        }
    }

    pub fn get_config_dir(&self) -> (r: &PathBuf)
        ensures
            *r == self.config_path(),
    {
        &self.config_dir
    }

    pub fn get_data_dir(&self) -> (r: &PathBuf)
        ensures
            *r == self.data_path(),
    {
        &self.data_dir
    }
}

} // verus!
