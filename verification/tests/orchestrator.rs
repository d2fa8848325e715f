use nublink::orchestrator::plan_launches;
use nublink::orchestrator::LAUNCH_DELAY_SECS;
use nublink::registry::Directory;
use nublink::registry::Nub;

#[test]
fn plan_is_the_cartesian_product_in_nested_order() {
    let nubs = vec![Nub::Users, Nub::Billing];
    let dirs = vec![Directory::Backend, Directory::Frontend];
    let plan = plan_launches(&nubs, &dirs, "/srv/nubs");
    let order: Vec<(Directory, Nub)> = plan.iter().map(|s| (s.dir, s.nub)).collect();
    assert_eq!(
        order,
        vec![
            (Directory::Backend, Nub::Users),
            (Directory::Backend, Nub::Billing),
            (Directory::Frontend, Nub::Users),
            (Directory::Frontend, Nub::Billing),
        ]
    );
}

#[test]
fn backend_only_run_issues_three_launches_and_pauses_between_them() {
    let nubs = vec![Nub::Users, Nub::Billing, Nub::Forms];
    let dirs = vec![Directory::Backend];
    let plan = plan_launches(&nubs, &dirs, "/srv/nubs");
    assert_eq!(plan.len(), 3);
    // A pause follows every launch, so at least the two pauses between
    // consecutive launches are always issued.
    let pauses = plan.iter().filter(|s| s.pause_secs > 0).count();
    assert!(pauses >= 2);
    for step in &plan {
        assert_eq!(step.pause_secs, LAUNCH_DELAY_SECS);
    }
}

#[test]
fn steps_carry_working_dir_and_announcement() {
    let nubs = vec![Nub::Billing];
    let dirs = vec![Directory::Frontend, Directory::Backend];
    let plan = plan_launches(&nubs, &dirs, "/srv/nubs");
    assert_eq!(plan.len(), 2);
    assert_eq!(plan[0].working_dir, "/srv/nubs/billing/frontend");
    assert_eq!(plan[0].subject, "VUE_APP_BILLING_URL=https://localhost.imtins.com:8022");
    assert_eq!(plan[1].working_dir, "/srv/nubs/billing/project/settings");
    assert_eq!(plan[1].subject, "billing");
}

#[test]
fn empty_requests_plan_nothing() {
    let no_nubs: Vec<Nub> = Vec::new();
    let no_dirs: Vec<Directory> = Vec::new();
    assert_eq!(plan_launches(&no_nubs, &vec![Directory::Backend], "/srv/nubs").len(), 0);
    assert_eq!(plan_launches(&vec![Nub::Users], &no_dirs, "/srv/nubs").len(), 0);
}

#[test]
fn runners_match_their_layer() {
    assert_eq!(Directory::Frontend.runner_command(), "yarn");
    assert_eq!(Directory::Frontend.runner_action(), "serve");
    assert_eq!(Directory::Backend.runner_command(), "docker-compose");
    assert_eq!(Directory::Backend.runner_action(), "up");
}
