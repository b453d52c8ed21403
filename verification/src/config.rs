//! Deployment-mode configuration: the two recognized modes and the store
//! path each one selects.

use vstd::prelude::*;
use crate::error::HelloError;
use crate::text::str_eq;

verus! {

/// Maps a deployment mode to the filesystem path of the store.
///
/// Exactly two values are recognized: `"local"` and `"prod"`. Any other
/// value is a fatal configuration error and yields `ConfigError`.
pub fn store_path(mode: &str) -> (r: Result<&'static str, HelloError>)
    ensures
        mode@ == "local"@ ==> (r matches Ok(p) && p@ == "./db.sqlite"@),
        mode@ == "prod"@ ==> (r matches Ok(p) && p@ == "/mnt/efs/db.sqlite"@),
        mode@ != "local"@ && mode@ != "prod"@ ==> (r matches Err(e) && e is ConfigError),
{
    proof {
        reveal_strlit("local");
        reveal_strlit("prod");
        assert("local"@.len() == 5);
        assert("prod"@.len() == 4);
        assert("local"@ != "prod"@);
    }
    if str_eq(mode, "local") {
        Ok("./db.sqlite")
    } else if str_eq(mode, "prod") {
        Ok("/mnt/efs/db.sqlite")
    } else {
        Err(HelloError::ConfigError)
    }
}

} // verus!
