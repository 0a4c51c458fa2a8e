use dispatch_sim::shutdown::{run_round, ListenerStep, ShutdownCoordinator};

#[test]
fn firing_wakes_every_waiting_listener_in_one_round() {
    let mut coordinator = ShutdownCoordinator::new();
    let mut listeners = vec![
        coordinator.subscribe(),
        coordinator.subscribe(),
        coordinator.subscribe(),
    ];

    // Before the signal, a round is plain work: nobody terminates.
    run_round(&mut listeners, &coordinator);
    for listener in &listeners {
        assert!(!listener.terminated);
        assert!(!listener.cleaned_up);
    }

    coordinator.fire();

    // One round after the fire, all three have cleaned up and exited.
    run_round(&mut listeners, &coordinator);
    for listener in &listeners {
        assert!(listener.terminated);
        assert!(listener.cleaned_up);
    }
}

#[test]
fn firing_is_idempotent() {
    let mut coordinator = ShutdownCoordinator::new();
    coordinator.fire();
    assert!(coordinator.fired);
    coordinator.fire();
    assert!(coordinator.fired);
}

#[test]
fn late_subscriber_never_observes_the_signal() {
    let mut coordinator = ShutdownCoordinator::new();
    coordinator.fire();
    let mut late = coordinator.subscribe();
    assert!(late.missed);
    assert!(!late.observes_signal(&coordinator));
    match late.step(&coordinator) {
        ListenerStep::Work => (),
        ListenerStep::CleanupAndExit => panic!("a late subscriber must keep working"),
    }
    assert!(!late.terminated);
}

#[test]
fn listener_races_work_until_the_signal() {
    let mut coordinator = ShutdownCoordinator::new();
    let mut listener = coordinator.subscribe();
    assert!(matches!(listener.step(&coordinator), ListenerStep::Work));
    assert!(matches!(listener.step(&coordinator), ListenerStep::Work));
    coordinator.fire();
    assert!(listener.observes_signal(&coordinator));
    assert!(matches!(
        listener.step(&coordinator),
        ListenerStep::CleanupAndExit
    ));
    assert!(listener.terminated);
    assert!(listener.cleaned_up);
}
