//! Building the launch invocation for the context server from the resolved
//! binary path and the user's settings.

use vstd::prelude::*;

verus! {

/// The user-supplied settings for the context server: the path of its
/// configuration file, and optionally an organisation id and an API URL.
#[derive(Debug)]
pub struct ServerSettings {
    pub config_path: String,
    pub org_id: Option<String>,
    pub api_url: Option<String>,
}

/// A command invocation: the program, its arguments, and the environment
/// variables set for it.
#[derive(Debug)]
pub struct LaunchCommand {
    pub command: String,
    pub args: Vec<String>,
    pub env: Vec<(String, String)>,
}

/// The endpoint used when the settings name no API URL.
pub open spec fn default_api_url() -> Seq<char> {
    "https://api.axiom.co"@
}

/// Builds the invocation that starts the binary at `binary_path`: the
/// arguments pass the configuration file, `AXIOM_URL` carries the API URL
/// from the settings or the fixed default, and `AXIOM_ORG_ID` is set
/// exactly when the settings carry an organisation id.
pub fn build_command(binary_path: String, settings: ServerSettings) -> (c: LaunchCommand)
    ensures
        c.command@ == binary_path@,
        c.args@.len() == 2,
        c.args@[0]@ == "--config"@,
        c.args@[1]@ == settings.config_path@,
        c.env@.len() >= 1,
        c.env@[0].0@ == "AXIOM_URL"@,
        (settings.api_url matches Option::Some(u) ==> c.env@[0].1@ == u@),
        settings.api_url is None ==> c.env@[0].1@ == default_api_url(),
        (settings.org_id matches Option::Some(o) ==> c.env@.len() == 2 && c.env@[1].0@
            == "AXIOM_ORG_ID"@ && c.env@[1].1@ == o@),
        settings.org_id is None ==> c.env@.len() == 1,
{
    let ServerSettings { config_path, org_id, api_url } = settings;
    let mut args: Vec<String> = Vec::new();
    args.push(String::from_str("--config"));
    args.push(config_path);

    let url = match api_url {
        Some(u) => u,
        None => String::from_str("https://api.axiom.co"),
    };
    let mut env: Vec<(String, String)> = Vec::new();
    env.push((String::from_str("AXIOM_URL"), url));
    match org_id {
        Some(o) => {
            env.push((String::from_str("AXIOM_ORG_ID"), o));
        },
        None => {},
    }
    LaunchCommand { command: binary_path, args, env }
}

} // verus!
