use crunch::config::Config;
use crunch::mode::{Collaborator, LaunchStep, OperatingMode};

fn invocations(steps: &[LaunchStep], collaborator: Collaborator) -> usize {
    steps.iter().filter(|step| **step == LaunchStep::Invoke(collaborator)).count()
}

fn supervisions(steps: &[LaunchStep]) -> usize {
    steps.iter().filter(|step| **step == LaunchStep::Supervise).count()
}

#[test]
fn only_view_selects_view_whatever_the_era_flag() {
    for is_mode_era in [false, true] {
        for is_debug in [false, true] {
            let config = Config::new(true, is_mode_era, is_debug);
            let mode = OperatingMode::select(&config);
            assert_eq!(mode, OperatingMode::View);
            assert_eq!(mode.collaborator(), Collaborator::ViewReport);
            assert!(!mode.is_supervised());
            let plan = mode.plan();
            assert_eq!(invocations(&plan, Collaborator::ViewReport), 1);
            assert_eq!(invocations(&plan, Collaborator::SubscribeToEvents), 0);
            assert_eq!(invocations(&plan, Collaborator::ScanAndReport), 0);
            assert_eq!(supervisions(&plan), 0);
        }
    }
}

#[test]
fn era_flag_alone_selects_subscribe() {
    for is_debug in [false, true] {
        let config = Config::new(false, true, is_debug);
        let mode = OperatingMode::select(&config);
        assert_eq!(mode, OperatingMode::Subscribe);
        assert_eq!(mode.collaborator(), Collaborator::SubscribeToEvents);
        assert!(!mode.is_supervised());
        let plan = mode.plan();
        assert_eq!(invocations(&plan, Collaborator::SubscribeToEvents), 1);
        assert_eq!(invocations(&plan, Collaborator::ViewReport), 0);
        assert_eq!(invocations(&plan, Collaborator::ScanAndReport), 0);
        assert_eq!(supervisions(&plan), 0);
    }
}

#[test]
fn no_flag_selects_flakes_and_supervision() {
    for is_debug in [false, true] {
        let config = Config::new(false, false, is_debug);
        let mode = OperatingMode::select(&config);
        assert_eq!(mode, OperatingMode::Flakes);
        assert_eq!(mode.collaborator(), Collaborator::ScanAndReport);
        assert!(mode.is_supervised());
        let plan = mode.plan();
        assert_eq!(invocations(&plan, Collaborator::ScanAndReport), 1);
        assert_eq!(invocations(&plan, Collaborator::ViewReport), 0);
        assert_eq!(invocations(&plan, Collaborator::SubscribeToEvents), 0);
        assert_eq!(supervisions(&plan), 1);
    }
}

#[test]
fn view_plan_is_report_then_exit() {
    assert_eq!(
        OperatingMode::View.plan(),
        vec![LaunchStep::Invoke(Collaborator::ViewReport), LaunchStep::Exit]
    );
}

#[test]
fn subscribe_plan_is_subscribe_then_exit() {
    assert_eq!(
        OperatingMode::Subscribe.plan(),
        vec![LaunchStep::Invoke(Collaborator::SubscribeToEvents), LaunchStep::Exit]
    );
}

#[test]
fn flakes_plan_is_scan_then_supervise_then_exit() {
    assert_eq!(
        OperatingMode::Flakes.plan(),
        vec![
            LaunchStep::Invoke(Collaborator::ScanAndReport),
            LaunchStep::Supervise,
            LaunchStep::Exit
        ]
    );
}

#[test]
fn view_run_never_makes_a_cancellation_signal() {
    let config = Config { only_view: true, is_mode_era: false, is_debug: false };
    let plan = OperatingMode::select(&config).plan();
    assert_eq!(plan.len(), 2);
    assert_eq!(plan[0], LaunchStep::Invoke(Collaborator::ViewReport));
    assert_eq!(plan[1], LaunchStep::Exit);
    assert!(!plan.contains(&LaunchStep::Supervise));
}

#[test]
fn every_plan_ends_with_its_only_exit() {
    for mode in [OperatingMode::View, OperatingMode::Subscribe, OperatingMode::Flakes] {
        let plan = mode.plan();
        assert_eq!(plan.last(), Some(&LaunchStep::Exit));
        assert_eq!(plan.iter().filter(|step| **step == LaunchStep::Exit).count(), 1);
        assert_eq!(plan[0], LaunchStep::Invoke(mode.collaborator()));
        assert_eq!(plan.contains(&LaunchStep::Supervise), mode.is_supervised());
    }
}
