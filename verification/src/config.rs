//! The client's configuration and the rules for assembling it at startup.
//! Reading and writing the configuration file happen outside the library.

use vstd::prelude::*;
use crate::credential::Credential;

verus! {

/// Everything the client is configured with: the user's credential.
#[derive(Debug)]
pub struct Config {
    pub credential: Credential,
}

/// Which credential the client starts with, given a configuration already
/// loaded from disk (if any was found) and the three credential values
/// passed on the command line (each optional):
/// - with a loaded configuration, each command-line value overrides its
///   field and the rest keep their loaded values;
/// - with none, all three command-line values together make the
///   configuration, and anything less is refused.
pub fn resolve_config(loaded: Option<Config>, sessdata: Option<String>, bili_jct: Option<String>, buvid3: Option<String>) -> (r: Option<Config>)
    ensures
        match loaded {
            Some(c) => (r matches Some(out) && {
                &&& out.credential.session_data == (match sessdata {
                    Some(s) => s,
                    None => c.credential.session_data,
                })
                &&& out.credential.bili_jct == (match bili_jct {
                    Some(s) => s,
                    None => c.credential.bili_jct,
                })
                &&& out.credential.buvid3 == (match buvid3 {
                    Some(s) => s,
                    None => c.credential.buvid3,
                })
            }),
            None => match (sessdata, bili_jct, buvid3) {
                (Some(s), Some(j), Some(b)) => (r matches Some(out) && {
                    &&& out.credential.session_data == s
                    &&& out.credential.bili_jct == j
                    &&& out.credential.buvid3 == b
                }),
                _ => r is None,
            },
        },
{
    match loaded {
        Some(mut c) => {
            if let Some(s) = sessdata {
                c.credential.session_data = s;
            }
            if let Some(j) = bili_jct {
                c.credential.bili_jct = j;
            }
            if let Some(b) = buvid3 {
                c.credential.buvid3 = b;
            }
            Some(c)
        },
        None => {
            match (sessdata, bili_jct, buvid3) {
                (Some(s), Some(j), Some(b)) => Some(
                    Config {
                        credential: Credential { session_data: s, bili_jct: j, buvid3: b },
                    },
                ),
                _ => None,
            }
        },
    }
}

} // verus!
