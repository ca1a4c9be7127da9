//! Arguments of the `plugin` listing command.

use vstd::prelude::*;
use vstd::string::StringExecFns;
use crate::text::{str_chars, chars_eq};

verus! {

/// The kinds of One ROM plugins a listing can be filtered by.
#[derive(Clone, Copy, Debug, PartialEq, Eq, Structural)]
pub enum PluginType {
    System,
    User,
}

/// The plugin type a command-line word names, if any: exactly `system` or
/// `user`.
pub open spec fn plugin_type_named(s: Seq<char>) -> Option<PluginType> {
    if s == "system"@ {
        Some(PluginType::System)
    } else if s == "user"@ {
        Some(PluginType::User)
    } else {
        None
    }
}

/// The message given for a word that names no plugin type.
pub open spec fn invalid_type_message(s: Seq<char>) -> Seq<char> {
    "invalid plugin type '"@ + s + "': expected 'system' or 'user'"@
}

impl PluginType {
    /// The plugin type named by `s`: `system` or `user`, nothing else.
    pub fn try_from_str(s: &str) -> (r: Option<PluginType>)
        ensures
            r == plugin_type_named(s@),
    {
        let chars = str_chars(s);
        let system = str_chars("system");
        let user = str_chars("user");
        proof {
            reveal_strlit("system");
            reveal_strlit("user");
        }
        if chars_eq(&chars, &system) {
            Some(PluginType::System)
        } else if chars_eq(&chars, &user) {
            Some(PluginType::User)
        } else {
            None
        }
    }
}

/// Reads the value of `--type`: the plugin type `s` names, or the message
/// `invalid plugin type '<s>': expected 'system' or 'user'`.
pub fn parse_plugin_type(s: &str) -> (r: Result<PluginType, String>)
    ensures
        plugin_type_named(s@) matches Some(t) ==> r == Ok::<PluginType, String>(t),
        plugin_type_named(s@) is None ==> (r matches Err(m) && m@ == invalid_type_message(s@)),
{
    match PluginType::try_from_str(s) {
        Some(t) => Ok(t),
        None => {
            let mut m = String::new();
            m.append("invalid plugin type '");
            m.append(s);
            m.append("': expected 'system' or 'user'");
            proof {
                reveal_strlit("invalid plugin type '");
                reveal_strlit("': expected 'system' or 'user'");
            }
            Err(m)
        },
    }
}

/// The options of the plugin listing: every version or only the latest, a
/// filter by plugin type, and a firmware version to check compatibility
/// against.
pub struct PluginArgs {
    pub all_versions: bool,
    pub plugin_type: Option<PluginType>,
    pub fw_version: Option<String>,
}

impl PluginArgs {
    /// Listing plugins works without a connected device.
    pub fn requires_device(&self) -> (b: bool)
        ensures
            !b,
    {
        false
    }
}

} // verus!
