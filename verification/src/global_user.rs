//! The user's global credentials, as the global configuration gives them.

use crate::text::{views, warn_mark, warn_text};
use vstd::prelude::*;

verus! {

/// The account's e-mail address and API key.
#[derive(Clone, Debug)]
pub struct GlobalUser {
    pub email: String,
    pub api_key: String,
}

/// The model of a `GlobalUser`: its e-mail address and its API key.
pub struct GlobalUserView {
    pub email: Seq<char>,
    pub api_key: Seq<char>,
}

impl View for GlobalUser {
    type V = GlobalUserView;

    open spec fn view(&self) -> GlobalUserView {
        GlobalUserView { email: self.email@, api_key: self.api_key@ }
    }
}

/// The message for a global configuration that does not give a user; it
/// ends with what the configuration reader reported.
pub open spec fn config_error_message(reason: Seq<char>) -> Seq<char> {
    warn_mark() + " Your global config has an error, run `wrangler config`: "@ + reason
}

impl GlobalUser {
    /// The user that the global configuration gives. `loaded` is what reading
    /// the configuration file and the `CF_` environment variables gave: the
    /// user, or the reader's complaint, which is then explained.
    pub fn new(loaded: Result<GlobalUser, String>) -> (r: Result<GlobalUser, String>)
        ensures
            match loaded {
                Ok(u) => r matches Ok(v) && v@ == u@,
                Err(reason) => r matches Err(m) && m@ == config_error_message(reason@),
            },
    {
        match loaded {
            Ok(u) => Ok(u),
            Err(reason) => Err(
                warn_text().concat(" Your global config has an error, run `wrangler config`: ").concat(
                    reason.as_str(),
                ),
            ),
        }
    }
}

/// Where the global configuration directory lies: below `base`, or below
/// the user's home directory where `base` is `None`, along `components`.
pub struct ConfigDirPlan {
    pub base: Option<String>,
    pub components: Vec<String>,
}

/// The global configuration directory: `config` in `WRANGLER_HOME` where
/// that is set, else `.wrangler/config` in the user's home directory.
pub open spec fn config_dir_spec(wrangler_home: Option<Seq<char>>) -> (Option<Seq<char>>, Seq<Seq<char>>) {
    match wrangler_home {
        Some(h) => (Some(h), seq!["config"@]),
        None => (None, seq![".wrangler"@, "config"@]),
    }
}

/// The global configuration directory, given the value of `WRANGLER_HOME`
/// where it is set.
pub fn global_config_dir_plan(wrangler_home: Option<String>) -> (p: ConfigDirPlan)
    ensures
        wrangler_home matches Some(h) ==> (p.base matches Some(b) && b@ == h@),
        wrangler_home is Some ==> views(p.components@) == seq!["config"@],
        wrangler_home is None ==> p.base is None,
        wrangler_home is None ==> views(p.components@) == seq![".wrangler"@, "config"@],
        ((match p.base {
            Some(b) => Some(b@),
            None => None,
        }), views(p.components@)) == config_dir_spec(
            match wrangler_home {
                Some(h) => Some(h@),
                None => None,
            },
        ),
{
    let mut components: Vec<String> = Vec::new();
    let base = match wrangler_home {
        Some(h) => Some(h),
        None => {
            components.push(String::from_str(".wrangler"));
            None
        },
    };
    components.push(String::from_str("config"));
    let ghost home_view = match &base {
        Some(b) => Some(b@),
        None => None::<Seq<char>>,
    };
    assert(views(components@) =~= config_dir_spec(home_view).1);
    ConfigDirPlan { base, components }
}

/// Whenever `WRANGLER_HOME` is set, whatever its value, the configuration
/// directory is `config` directly in it; only where it is unset is the
/// user's home directory used, with `.wrangler/config`.
pub proof fn law_wrangler_home_is_honoured(h: Seq<char>)
    ensures
        config_dir_spec(Some(h)).0 == Some(h),
        config_dir_spec(Some(h)).1 == seq!["config"@],
        config_dir_spec(None).0 is None,
        config_dir_spec(None).1 == seq![".wrangler"@, "config"@],
{
}

} // verus!
