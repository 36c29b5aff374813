use elfo_addr::group::{ActorGroup, RestartMode, RestartPolicy, TerminationPolicy};
use elfo_addr::network::{NetworkConfig, NetworkRouter};

#[test]
fn restart_policies() {
    assert_eq!(RestartPolicy::always().mode, RestartMode::Always);
    assert_eq!(RestartPolicy::on_failures().mode, RestartMode::OnFailures);
    assert_eq!(RestartPolicy::never().mode, RestartMode::Never);
    assert_eq!(RestartPolicy::default(), RestartPolicy::on_failures());

    assert!(RestartPolicy::always().restarts(false));
    assert!(RestartPolicy::always().restarts(true));
    assert!(RestartPolicy::on_failures().restarts(true));
    assert!(!RestartPolicy::on_failures().restarts(false));
    assert!(!RestartPolicy::never().restarts(true));
    assert!(!RestartPolicy::never().restarts(false));
}

#[test]
fn termination_policies() {
    let closing = TerminationPolicy::closing();
    assert!(closing.stop_spawning && closing.close_mailbox);
    let manually = TerminationPolicy::manually();
    assert!(manually.stop_spawning && !manually.close_mailbox);
    assert_eq!(TerminationPolicy::default(), closing);
}

#[test]
fn group_builder() {
    let blueprint = ActorGroup::new()
        .config::<NetworkConfig>()
        .restart_policy(RestartPolicy::always())
        .termination_policy(TerminationPolicy::manually())
        .router(NetworkRouter {})
        .exec(17u32);
    assert_eq!(blueprint.restart_policy, RestartPolicy::always());
    assert_eq!(blueprint.termination_policy, TerminationPolicy::manually());
    assert_eq!(blueprint.router, NetworkRouter {});
    assert_eq!(blueprint.body, 17);
}

#[test]
fn group_builder_defaults() {
    let blueprint = ActorGroup::new().config::<NetworkConfig>().router(NetworkRouter {}).exec(());
    assert_eq!(blueprint.restart_policy, RestartPolicy::on_failures());
    assert_eq!(blueprint.termination_policy, TerminationPolicy::closing());
}
