//! Reading the migration config: which parser a document needs, and the
//! normalisation that follows the parse.

use vstd::prelude::*;

use crate::migrate::model::Config;
use crate::text::{join_strs, i64_to_decimal, signed_decimal_spec, trim_trailing_slash, trim_trailing_slash_spec};

verus! {

/// The syntax a config document is written in.
#[derive(Debug, Clone, Copy, PartialEq, Eq)]
pub enum ConfigFormat {
    Json,
    Yaml,
}

/// A config document that starts with `{` is read as JSON, any other as YAML.
pub fn config_format(contents: &str) -> (res: ConfigFormat)
    ensures
        res is Json <==> (contents@.len() > 0 && contents@[0] == '{'),
{
    if contents.is_empty() {
        return ConfigFormat::Yaml;
    }
    if contents.get_char(0) == '{' {
        ConfigFormat::Json
    } else {
        ConfigFormat::Yaml
    }
}

/// The name of the working directory of a migration started at
/// `timestamp_millis` (milliseconds since the Unix epoch): `mig-<millis>`.
pub fn migration_folder_name(timestamp_millis: i64) -> (res: String)
    ensures
        res@ == "mig-"@ + signed_decimal_spec(timestamp_millis as int),
{
    join_strs("mig-", i64_to_decimal(timestamp_millis).as_str())
}

/// Completes a parsed config: one trailing `/` is removed from the GitLab
/// URL, and the config comes back with the name of the migration's working
/// directory and the GitLab token.
pub fn read_config(config: Config, timestamp_millis: i64, token: String) -> (res: (Config, String, String))
    ensures
        res.0.version == config.version,
        res.0.git_lab_url@ == trim_trailing_slash_spec(config.git_lab_url@),
        res.0.migrations == config.migrations,
        res.1@ == "mig-"@ + signed_decimal_spec(timestamp_millis as int),
        res.2 == token,
{
    let Config { version, git_lab_url, migrations } = config;
    let git_lab_url = trim_trailing_slash(git_lab_url.as_str());
    let folder = migration_folder_name(timestamp_millis);
    (Config { version, git_lab_url, migrations }, folder, token)
}

} // verus!
