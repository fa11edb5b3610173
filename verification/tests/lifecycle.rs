use fibonacci_server::lifecycle::{Action, Lifecycle, Report};

fn run(reports: &[Report]) -> Vec<Action> {
    let mut lifecycle = Lifecycle::new();
    let mut actions = vec![lifecycle.pending()];
    for report in reports {
        actions.push(lifecycle.advance(*report));
    }
    actions
}

fn startup() -> Vec<Action> {
    vec![
        Action::BuildResource,
        Action::ConfigureExporters,
        Action::RegisterPropagator,
        Action::InstallTracePipeline,
        Action::InstallMetricsPipeline,
        Action::PublishProviders,
        Action::CreateInstruments,
        Action::Bind,
        Action::Serve,
    ]
}

#[test]
fn starts_with_the_resource() {
    let lifecycle = Lifecycle::new();
    assert_eq!(lifecycle.pending(), Action::BuildResource);
    assert!(!lifecycle.finished());
}

#[test]
fn clean_run_goes_through_every_action() {
    let actions = run(&[Report::Done; 12]);
    let mut wanted = startup();
    wanted.extend([
        Action::Drain,
        Action::ShutdownTracer,
        Action::ShutdownMeter,
        Action::Exit { code: 0 },
    ]);
    assert_eq!(actions, wanted);
}

#[test]
fn failed_startup_step_exits_without_serving() {
    for failing in 0..8usize {
        let mut reports = vec![Report::Done; failing];
        reports.push(Report::Failed);
        reports.extend([Report::Done; 6]);
        let actions = run(&reports);
        assert_eq!(&actions[..=failing], &startup()[..=failing]);
        for action in &actions[failing + 1..] {
            assert_eq!(*action, Action::Exit { code: 1 });
        }
        assert!(!actions.contains(&Action::Serve));
    }
}

#[test]
fn failed_trace_pipeline_is_fatal() {
    let actions = run(&[Report::Done, Report::Done, Report::Done, Report::Failed]);
    assert_eq!(actions[3], Action::InstallTracePipeline);
    assert_eq!(actions[4], Action::Exit { code: 1 });
}

#[test]
fn failed_metrics_pipeline_is_fatal() {
    let actions = run(&[Report::Done, Report::Done, Report::Done, Report::Done, Report::Failed]);
    assert_eq!(actions[4], Action::InstallMetricsPipeline);
    assert_eq!(actions[5], Action::Exit { code: 1 });
}

#[test]
fn failed_bind_is_fatal() {
    let mut reports = vec![Report::Done; 7];
    reports.push(Report::Failed);
    let actions = run(&reports);
    assert_eq!(actions[7], Action::Bind);
    assert_eq!(actions[8], Action::Exit { code: 1 });
}

#[test]
fn failed_server_exits_at_once() {
    let mut reports = vec![Report::Done; 8];
    reports.push(Report::Failed);
    let actions = run(&reports);
    assert_eq!(actions[8], Action::Serve);
    assert_eq!(actions[9], Action::Exit { code: 1 });
}

#[test]
fn shutdown_goes_on_after_a_failed_step() {
    for failing in 9..12usize {
        let mut reports = vec![Report::Done; 12];
        reports[failing] = Report::Failed;
        let actions = run(&reports);
        assert_eq!(
            &actions[9..],
            &[
                Action::Drain,
                Action::ShutdownTracer,
                Action::ShutdownMeter,
                Action::Exit { code: 1 },
            ]
        );
    }
}

#[test]
fn exit_stays() {
    let mut lifecycle = Lifecycle::new();
    for _ in 0..12 {
        lifecycle.advance(Report::Done);
    }
    assert!(lifecycle.finished());
    assert_eq!(lifecycle.pending(), Action::Exit { code: 0 });
    assert_eq!(lifecycle.advance(Report::Failed), Action::Exit { code: 0 });
    assert_eq!(lifecycle.advance(Report::Done), Action::Exit { code: 0 });

    let mut aborted = Lifecycle::new();
    aborted.advance(Report::Failed);
    assert!(aborted.finished());
    assert_eq!(aborted.advance(Report::Done), Action::Exit { code: 1 });
}

#[test]
fn tracer_is_flushed_before_the_meter_is_closed() {
    let actions = run(&[Report::Done; 12]);
    let position = |wanted: Action| actions.iter().position(|a| *a == wanted).unwrap();
    assert!(position(Action::Serve) < position(Action::Drain));
    assert!(position(Action::Drain) < position(Action::ShutdownTracer));
    assert!(position(Action::ShutdownTracer) < position(Action::ShutdownMeter));
    assert!(position(Action::ShutdownMeter) < position(Action::Exit { code: 0 }));
    assert!(position(Action::CreateInstruments) < position(Action::Bind));
    assert!(position(Action::PublishProviders) < position(Action::CreateInstruments));
}
