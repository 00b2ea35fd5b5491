//! Where to find the Aeron media driver executable.
//!
//! The search looks, in order, at the path named by the
//! `AERON_MEDIA_DRIVER_PATH` environment variable (if that file exists), at
//! what `which aeronmd` prints (if it succeeded and printed a path), and at
//! the common install locations `/usr/local/bin/aeronmd` and
//! `/opt/homebrew/bin/aeronmd`. The probing itself is I/O; this module holds
//! the choice among what the probes found.
use vstd::prelude::*;

verus! {

/// `r` is the media driver the search settles on, given what the probes
/// found: the environment path and whether it exists, the trimmed output of
/// a successful `which aeronmd`, and whether each common location exists.
pub open spec fn is_media_driver_choice(
    env_path: Option<String>,
    env_path_exists: bool,
    which_path: Option<String>,
    usr_local_exists: bool,
    homebrew_exists: bool,
    r: Result<String, String>,
) -> bool {
    if env_path is Some && env_path_exists {
        r matches Ok(p) && p@ == env_path->0@
    } else if which_path is Some && which_path->0@.len() > 0 {
        r matches Ok(p) && p@ == which_path->0@
    } else if usr_local_exists {
        r matches Ok(p) && p@ == "/usr/local/bin/aeronmd"@
    } else if homebrew_exists {
        r matches Ok(p) && p@ == "/opt/homebrew/bin/aeronmd"@
    } else {
        r matches Err(msg) && msg@ == "Media driver not found. Please install Aeron or set AERON_MEDIA_DRIVER_PATH"@
    }
}

/// The search only ever settles on a driver whose presence a probe
/// confirmed: the environment path when that file exists, a non-empty
/// `which` output, or a common location that exists; it fails, with the
/// not-found message, exactly when no probe found one. An existing
/// environment path wins over everything else, and `which` over the common
/// locations.
pub proof fn lemma_chosen_driver_was_found(
    env_path: Option<String>,
    env_path_exists: bool,
    which_path: Option<String>,
    usr_local_exists: bool,
    homebrew_exists: bool,
    r: Result<String, String>,
)
    requires
        is_media_driver_choice(env_path, env_path_exists, which_path, usr_local_exists, homebrew_exists, r),
    ensures
        r matches Ok(p) ==> (env_path matches Some(q) && env_path_exists && p@ == q@)
            || (which_path matches Some(q) && q@.len() > 0 && p@ == q@)
            || (usr_local_exists && p@ == "/usr/local/bin/aeronmd"@)
            || (homebrew_exists && p@ == "/opt/homebrew/bin/aeronmd"@),
        (r is Err) == !((env_path is Some && env_path_exists) || (which_path matches Some(q) && q@.len() > 0)
            || usr_local_exists || homebrew_exists),
        r matches Err(msg) ==> msg@ == "Media driver not found. Please install Aeron or set AERON_MEDIA_DRIVER_PATH"@,
        env_path is Some && env_path_exists ==> (r matches Ok(p) && p@ == env_path->0@),
        !(env_path is Some && env_path_exists) && which_path is Some && which_path->0@.len() > 0
            ==> (r matches Ok(p) && p@ == which_path->0@),
{
}

/// Whether the search still needs to ask `which aeronmd`: only when the
/// environment path is unset or names no existing file. Otherwise the choice
/// is already made, whatever `which` would print.
pub fn needs_which_probe(env_path: &Option<String>, env_path_exists: bool) -> (r: bool)
    ensures
        r == !(env_path is Some && env_path_exists),
        !r ==> forall|which_path: Option<String>, usr_local_exists: bool, homebrew_exists: bool, res: Result<String, String>|
            #[trigger] is_media_driver_choice(*env_path, env_path_exists, which_path, usr_local_exists, homebrew_exists, res)
                == is_media_driver_choice(*env_path, env_path_exists, None, false, false, res),
{
    match env_path {
        Some(_) => !env_path_exists,
        None => true,
    }
}

/// Chooses the media driver executable from what the probes found; fails
/// with a message saying how to install or point to one when none was.
pub fn choose_media_driver(
    env_path: Option<String>,
    env_path_exists: bool,
    which_path: Option<String>,
    usr_local_exists: bool,
    homebrew_exists: bool,
) -> (r: Result<String, String>)
    ensures
        is_media_driver_choice(
            env_path,
            env_path_exists,
            which_path,
            usr_local_exists,
            homebrew_exists,
            r,
        ),
{
    if let Some(path) = env_path {
        if env_path_exists {
            return Ok(path);
        }
    }
    if let Some(path) = which_path {
        if !path.as_str().is_empty() {
            return Ok(path);
        }
    }
    if usr_local_exists {
        return Ok(String::from_str("/usr/local/bin/aeronmd"));
    }
    if homebrew_exists {
        return Ok(String::from_str("/opt/homebrew/bin/aeronmd"));
    }
    Err(String::from_str("Media driver not found. Please install Aeron or set AERON_MEDIA_DRIVER_PATH"))
}

} // verus!
