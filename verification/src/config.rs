//! Policy configuration: the operating mode read from the environment
//! toggle, the resolved working directory, and the sanctioned base
//! directories for interpreter scripts.  All environment values reach the
//! engine as plain parameters, fetched fresh by the caller at each
//! evaluation, so the engine itself stays a pure decision function.

use crate::paths::{join_path, spec_join};
use crate::text::{chars_of, lower_seq, lower_vec, string_from_chars, vec_eq_str};
use vstd::prelude::*;
use vstd::string::StringExecFns;

verus! {

/// The two operating modes: the strict allowlist-first mode, and the
/// permissive escape hatch that disables every stage but the static
/// blocklist.
#[derive(Clone, Copy, Debug, PartialEq, Eq, Structural)]
pub enum PolicyMode {
    Whitelist,
    Legacy,
}

/// The per-call snapshot of the policy environment: the mode toggle and
/// the platform directories used to build the script base set.  Absent
/// environment variables are `None` and simply omit their base directory.
#[derive(Clone, Debug)]
pub struct PolicyConfig {
    /// The operating mode, from the policy environment toggle.
    pub mode: PolicyMode,
    /// The user profile directory, when the environment names one.
    pub user_profile: Option<String>,
    /// The temporary directory, when the environment names one.
    pub temp_dir: Option<String>,
    /// The shared public directory, on platforms that have one.
    pub public_dir: Option<String>,
}

/// The mode selected by a raw toggle value: `legacy` (compared after
/// lowercasing) selects the permissive mode; anything else, an absent
/// variable included, selects the strict whitelist mode.
pub open spec fn spec_policy_mode(raw: Option<Seq<char>>) -> PolicyMode {
    match raw {
        Option::Some(s) => if lower_seq(s) == "legacy"@ {
            PolicyMode::Legacy
        } else {
            PolicyMode::Whitelist
        },
        Option::None => PolicyMode::Whitelist,
    }
}

/// The operating mode, from the raw value of the policy environment
/// toggle (`None` when the variable is absent).
pub fn command_policy_mode(raw: Option<&str>) -> (r: PolicyMode)
    ensures
        r == spec_policy_mode(raw.deep_view()),
{
    match raw {
        Option::Some(s) => {
            let cs = chars_of(s);
            let lv = lower_vec(&cs);
            if vec_eq_str(&lv, "legacy") {
                PolicyMode::Legacy
            } else {
                PolicyMode::Whitelist
            }
        },
        Option::None => PolicyMode::Whitelist,
    }
}

/// The working directory a request resolves to: the declared one when
/// present, else the user profile, else the home directory, else the
/// platform root.
pub open spec fn spec_work_dir(
    cwd: Option<Seq<char>>,
    profile: Option<Seq<char>>,
    home: Option<Seq<char>>,
    windows: bool,
) -> Seq<char> {
    match cwd {
        Option::Some(c) => c,
        Option::None => match profile {
            Option::Some(p) => p,
            Option::None => match home {
                Option::Some(h) => h,
                Option::None => if windows {
                    "C:\\"@
                } else {
                    "/"@
                },
            },
        },
    }
}

/// Resolves the working directory of a request from the declared value
/// and the environment fallbacks, matching `spec_work_dir`.
pub fn resolve_work_dir(
    cwd: Option<String>,
    profile: Option<String>,
    home: Option<String>,
    windows: bool,
) -> (r: String)
    ensures
        r@ == spec_work_dir(cwd.deep_view(), profile.deep_view(), home.deep_view(), windows),
{
    match cwd {
        Option::Some(c) => c,
        Option::None => match profile {
            Option::Some(p) => p,
            Option::None => match home {
                Option::Some(h) => h,
                Option::None => if windows {
                    String::from_str("C:\\")
                } else {
                    String::from_str("/")
                },
            },
        },
    }
}

/// The sanctioned base directories for interpreter scripts: the working
/// directory; the user profile with its download and desktop folders,
/// when the profile is known; the temporary directory, when known; and
/// the shared public directory, when the platform has one.
pub open spec fn spec_script_bases(
    work_dir: Seq<char>,
    profile: Option<Seq<char>>,
    temp: Option<Seq<char>>,
    public: Option<Seq<char>>,
) -> Seq<Seq<char>> {
    let with_profile = match profile {
        Option::Some(p) => seq![work_dir, p, spec_join(p, "Downloads"@), spec_join(p, "Desktop"@)],
        Option::None => seq![work_dir],
    };
    let with_temp = match temp {
        Option::Some(t) => with_profile.push(t),
        Option::None => with_profile,
    };
    match public {
        Option::Some(u) => with_temp.push(u),
        Option::None => with_temp,
    }
}

/// Builds the sanctioned base directory list for one evaluation, matching
/// `spec_script_bases`.
pub fn allowed_script_bases(work_dir: &str, cfg: &PolicyConfig) -> (r: Vec<String>)
    ensures
        r.deep_view() == spec_script_bases(
            work_dir@,
            cfg.user_profile.deep_view(),
            cfg.temp_dir.deep_view(),
            cfg.public_dir.deep_view(),
        ),
{
    let mut bases: Vec<String> = Vec::new();
    bases.push(String::from_str(work_dir));
    match &cfg.user_profile {
        Option::Some(p) => {
            let pv = chars_of(p.as_str());
            bases.push(p.clone());
            let downloads = join_path(&pv, &chars_of("Downloads"));
            bases.push(string_from_chars(&downloads));
            let desktop = join_path(&pv, &chars_of("Desktop"));
            bases.push(string_from_chars(&desktop));
        },
        Option::None => {},
    }
    match &cfg.temp_dir {
        Option::Some(t) => {
            bases.push(t.clone());
        },
        Option::None => {},
    }
    match &cfg.public_dir {
        Option::Some(u) => {
            bases.push(u.clone());
        },
        Option::None => {},
    }
    proof {
        assert(bases.deep_view() =~~= spec_script_bases(
            work_dir@,
            cfg.user_profile.deep_view(),
            cfg.temp_dir.deep_view(),
            cfg.public_dir.deep_view(),
        ));
    }
    bases
}

} // verus!
