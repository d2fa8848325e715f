//! The staged-launch planner: turns an ordered launch request
//! (layers × services) into the deterministic sequence of launch steps
//! the driver is to issue, one by one, with a fixed pause after each
//! launch to keep the container engine from racing.

use vstd::prelude::*;
use crate::registry::Directory;
use crate::registry::Nub;
use crate::registry::frontend_url_spec;
use crate::registry::has_frontend_url;
use crate::registry::key_spec;
use crate::registry::working_dir_spec;

verus! {

/// Seconds the driver waits after each launch before issuing the next one.
pub const LAUNCH_DELAY_SECS: u64 = 1;

/// One launch the driver is to issue: which service and layer, the
/// working directory the spawned process must run in, the line announced
/// for it, and the pause that follows the launch.
pub struct LaunchStep {
    /// The service this step starts.
    pub nub: Nub,
    /// The layer this step starts.
    pub dir: Directory,
    /// The working directory for the spawned runner.
    pub working_dir: String,
    /// What the informational message names: the frontend peer URL for a
    /// frontend launch, the canonical key for a backend launch.
    pub subject: String,
    /// Seconds to pause after this launch before the next step.
    pub pause_secs: u64,
}

/// What a launch step announces: the frontend peer URL of the service for
/// a frontend launch, its canonical key for a backend launch.
pub open spec fn subject_spec(n: Nub, d: Directory) -> Seq<char> {
    match d {
        Directory::Frontend => frontend_url_spec(n)->0,
        Directory::Backend => key_spec(n),
    }
}

/// The step is exactly the launch of service `n` at layer `d` under the
/// given services root: right pair, right working directory, right
/// announcement, and the fixed inter-launch pause.
pub open spec fn step_ok(step: LaunchStep, root: Seq<char>, n: Nub, d: Directory) -> bool {
    &&& step.nub == n
    &&& step.dir == d
    &&& step.working_dir@ == working_dir_spec(root, n, d)
    &&& step.subject@ == subject_spec(n, d)
    &&& step.pause_secs == LAUNCH_DELAY_SECS
}

impl Directory {
    /// The external runner launched for this layer.
    pub fn runner_command(&self) -> (r: &'static str)
        ensures
            r@ == (match *self {
                Directory::Frontend => "yarn"@,
                Directory::Backend => "docker-compose"@,
            }),
    {
        match self {
            Directory::Frontend => "yarn",
            Directory::Backend => "docker-compose",
        }
    }

    /// The action passed to this layer's runner.
    pub fn runner_action(&self) -> (r: &'static str)
        ensures
            r@ == (match *self {
                Directory::Frontend => "serve"@,
                Directory::Backend => "up"@,
            }),
    {
        match self {
            Directory::Frontend => "serve",
            Directory::Backend => "up",
        }
    }
}

/// Builds one launch step.
fn make_step(nub: &Nub, dir: &Directory, services_root: &str) -> (r: LaunchStep)
    requires
        *dir == Directory::Frontend ==> has_frontend_url(*nub),
    ensures
        step_ok(r, services_root@, *nub, *dir),
{
    let working_dir = nub.set_as_wd(dir, services_root);
    let subject = if *dir == Directory::Frontend {
        nub.as_local_frontend_url()
    } else {
        nub.as_string()
    };
    LaunchStep { nub: *nub, dir: *dir, working_dir, subject, pause_secs: LAUNCH_DELAY_SECS }
}

/// Plans a whole run: every requested layer in caller-supplied order, and
/// within each layer every requested service in caller-supplied order, so
/// all services of one layer launch before any service of the next. The
/// plan is the Cartesian product (layers × services) in that nested order:
/// step `d * services.len() + s` launches service `s` at layer `d`.
///
/// Requesting a frontend launch for a service without a frontend URL is a
/// contract violation, ruled out by the precondition.
pub fn plan_launches(nubs: &Vec<Nub>, dirs: &Vec<Directory>, services_root: &str) -> (r: Vec<
    LaunchStep,
>)
    requires
        (exists|d: int| 0 <= d < dirs@.len() && dirs@[d] == Directory::Frontend) ==> (forall|
            s: int,
        | 0 <= s < nubs@.len() ==> has_frontend_url(#[trigger] nubs@[s])),
    ensures
        r@.len() == dirs@.len() * nubs@.len(),
        forall|d: int, s: int|
            #![trigger dirs@[d], nubs@[s]]
            0 <= d < dirs@.len() && 0 <= s < nubs@.len() ==> step_ok(
                r@[d * nubs@.len() + s],
                services_root@,
                nubs@[s],
                dirs@[d],
            ),
{
    let mut r: Vec<LaunchStep> = Vec::new();
    let mut d: usize = 0;
    while d < dirs.len()
        invariant
            d <= dirs@.len(),
            r@.len() == d * nubs@.len(),
            (exists|i: int| 0 <= i < dirs@.len() && dirs@[i] == Directory::Frontend) ==> (forall|
                s: int,
            | 0 <= s < nubs@.len() ==> has_frontend_url(#[trigger] nubs@[s])),
            forall|i: int, s: int|
                #![trigger dirs@[i], nubs@[s]]
                0 <= i < d && 0 <= s < nubs@.len() ==> step_ok(
                    r@[i * nubs@.len() + s],
                    services_root@,
                    nubs@[s],
                    dirs@[i],
                ),
        decreases dirs@.len() - d,
    {
        let dir = dirs[d];
        let mut s: usize = 0;
        while s < nubs.len()
            invariant
                d < dirs@.len(),
                s <= nubs@.len(),
                dir == dirs@[d as int],
                r@.len() == d * nubs@.len() + s,
                dir == Directory::Frontend ==> (forall|j: int|
                    0 <= j < nubs@.len() ==> has_frontend_url(#[trigger] nubs@[j])),
                forall|i: int, j: int|
                    #![trigger dirs@[i], nubs@[j]]
                    0 <= i < d && 0 <= j < nubs@.len() ==> step_ok(
                        r@[i * nubs@.len() + j],
                        services_root@,
                        nubs@[j],
                        dirs@[i],
                    ),
                forall|j: int|
                    0 <= j < s ==> step_ok(
                        r@[d * nubs@.len() + j],
                        services_root@,
                        #[trigger] nubs@[j],
                        dirs@[d as int],
                    ),
            decreases nubs@.len() - s,
        {
            let step = make_step(&nubs[s], &dir, services_root);
            r.push(step);
            proof {
                let n = nubs@.len() as int;
                assert forall|i: int, j: int|
                    #![trigger dirs@[i], nubs@[j]]
                    0 <= i < d && 0 <= j < n implies step_ok(
                    r@[i * n + j],
                    services_root@,
                    nubs@[j],
                    dirs@[i],
                ) by {
                    assert(i * n + j < d * n) by (nonlinear_arith)
                        requires
                            0 <= i < d,
                            0 <= j < n,
                    ;
                };
            }
            s = s + 1;
        }
        proof {
            assert(d * nubs@.len() + nubs@.len() == (d + 1) * nubs@.len()) by (nonlinear_arith);
        }
        d = d + 1;
    }
    r
}

} // verus!
