//! The restart of an archive that is on the remote host already: its old
//! process is stopped, checked to be gone, and the archive is started anew.

use vstd::prelude::*;
use vstd::string::*;
use crate::deploy::target_of;
use crate::machine::{created, Deployment};
use crate::retry::{retrying_plan, Plan};
use crate::unit::{DeployTarget, DeploymentUnit, DeploymentUnitView, UnitKind};

verus! {

/// The deployment that runs the archive at `jar_path` on `server` anew, by
/// `java_path` with the profile `env`: not yet begun, with nothing to read or
/// send, and with the standard budget for the session and for the stopping of
/// the old process.
pub fn run_jar(
    server: &str,
    username: &str,
    password: &str,
    jar_path: &str,
    java_path: &str,
    env: &str,
) -> (r: Deployment)
    ensures
        r@ == created(
            target_of(server@, username@, password@),
            DeploymentUnitView {
                local_path: Seq::empty(),
                remote_path: jar_path@,
                kind: UnitKind::InstalledArchive,
            },
            java_path@,
            env@,
            retrying_plan(),
        ),
{
    proof {
        reveal_strlit("");
    }
    let local_path = String::from_str("");
    assert(local_path@ =~= Seq::<char>::empty());
    Deployment::new(
        DeployTarget {
            server: String::from_str(server),
            username: String::from_str(username),
            password: String::from_str(password),
        },
        DeploymentUnit {
            local_path,
            remote_path: String::from_str(jar_path),
            kind: UnitKind::InstalledArchive,
        },
        String::from_str(java_path),
        String::from_str(env),
        Plan::retrying(),
    )
}

} // verus!
