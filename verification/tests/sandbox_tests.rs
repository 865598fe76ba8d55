use coding_tutor::sandbox::RunPhase;
use coding_tutor::sandbox::SandboxEvent;
use coding_tutor::sandbox::SandboxFailure;
use coding_tutor::sandbox::SandboxRun;
use coding_tutor::sandbox::SandboxStep;
use coding_tutor::sandbox::combine_with_tests;
use coding_tutor::sandbox::plan_sandbox;
use coding_tutor::text::to_dec_string;

#[test]
fn plan_has_resource_ceilings_and_no_network() {
    let cfg = plan_sandbox(7, 10);
    assert_eq!(cfg.name, "student-code-7");
    assert_eq!(cfg.memory_bytes, 256 * 1024 * 1024);
    assert_eq!(cfg.nano_cpus, 500_000_000);
    assert_eq!(cfg.network_mode, "none");
    assert!(!cfg.tty);
    assert!(cfg.attach_stdout);
    assert!(cfg.attach_stderr);
    assert_eq!(cfg.cmd, vec!["sleep".to_string(), "10".to_string()]);
}

#[test]
fn distinct_nonces_give_distinct_names() {
    let a = plan_sandbox(123456789012345678901234567890, 10);
    let b = plan_sandbox(123456789012345678901234567891, 10);
    assert_ne!(a.name, b.name);
}

#[test]
fn decimal_rendering_is_exact() {
    assert_eq!(to_dec_string(0), "0");
    assert_eq!(to_dec_string(9), "9");
    assert_eq!(to_dec_string(10), "10");
    assert_eq!(to_dec_string(105), "105");
    assert_eq!(to_dec_string(340282366920938463463374607431768211455), "340282366920938463463374607431768211455");
}

#[test]
fn successful_run_collects_output_and_removes() {
    let mut run = SandboxRun::new();
    assert!(matches!(run.next_step(), SandboxStep::Create));
    run.advance(SandboxEvent::Succeeded);
    assert!(matches!(run.next_step(), SandboxStep::Start));
    run.advance(SandboxEvent::Succeeded);
    assert!(matches!(run.next_step(), SandboxStep::Launch));
    run.advance(SandboxEvent::Succeeded);
    assert!(matches!(run.next_step(), SandboxStep::AwaitOutput));
    run.advance(SandboxEvent::Stdout("hello".to_string()));
    run.advance(SandboxEvent::Stdout(" world".to_string()));
    run.advance(SandboxEvent::OtherOutput);
    run.advance(SandboxEvent::OutputDone);
    assert!(matches!(run.next_step(), SandboxStep::Remove));
    run.advance(SandboxEvent::Succeeded);
    assert!(matches!(run.next_step(), SandboxStep::Finished));
    assert!(run.created);
    assert!(run.remove_attempted);
    assert!(run.removed);
    let result = run.finish(42).expect("run succeeded");
    assert!(result.success);
    assert_eq!(result.output, "hello world");
    assert_eq!(result.error, None);
    assert_eq!(result.execution_time_ms, 42);
}

#[test]
fn stderr_means_unsuccessful_result_regardless_of_stdout() {
    let mut run = SandboxRun::new();
    run.advance(SandboxEvent::Succeeded);
    run.advance(SandboxEvent::Succeeded);
    run.advance(SandboxEvent::Succeeded);
    run.advance(SandboxEvent::Stdout("partial".to_string()));
    run.advance(SandboxEvent::Stderr("Traceback".to_string()));
    run.advance(SandboxEvent::Stderr(": boom".to_string()));
    run.advance(SandboxEvent::OutputDone);
    run.advance(SandboxEvent::Succeeded);
    let result = run.finish(5).expect("infrastructure was healthy");
    assert!(!result.success);
    assert_eq!(result.output, "partial");
    assert_eq!(result.error, Some("Traceback: boom".to_string()));
}

#[test]
fn create_failure_is_fatal_and_needs_no_removal() {
    let mut run = SandboxRun::new();
    run.advance(SandboxEvent::Failed);
    assert!(matches!(run.next_step(), SandboxStep::Finished));
    assert!(!run.created);
    assert!(matches!(
        run.phase,
        RunPhase::Done { outcome: Err(SandboxFailure::CreateFailed) }
    ));
    assert!(matches!(run.finish(1), Err(SandboxFailure::CreateFailed)));
}

#[test]
fn start_failure_still_tears_down_the_environment() {
    let mut run = SandboxRun::new();
    run.advance(SandboxEvent::Succeeded);
    run.advance(SandboxEvent::Failed);
    assert!(matches!(run.next_step(), SandboxStep::Remove));
    run.advance(SandboxEvent::Succeeded);
    assert!(run.created);
    assert!(run.remove_attempted);
    assert!(run.removed);
    assert!(matches!(run.finish(1), Err(SandboxFailure::StartFailed)));
}

#[test]
fn launch_failure_still_tears_down_the_environment() {
    let mut run = SandboxRun::new();
    run.advance(SandboxEvent::Succeeded);
    run.advance(SandboxEvent::Succeeded);
    run.advance(SandboxEvent::Failed);
    assert!(matches!(run.next_step(), SandboxStep::Remove));
    run.advance(SandboxEvent::Succeeded);
    assert!(run.removed);
    assert!(matches!(run.finish(1), Err(SandboxFailure::LaunchFailed)));
}

#[test]
fn teardown_failure_is_reported_distinctly() {
    let mut run = SandboxRun::new();
    run.advance(SandboxEvent::Succeeded);
    run.advance(SandboxEvent::Succeeded);
    run.advance(SandboxEvent::Succeeded);
    run.advance(SandboxEvent::OutputDone);
    run.advance(SandboxEvent::Failed);
    assert!(run.created);
    assert!(run.remove_attempted);
    assert!(!run.removed);
    assert!(matches!(run.finish(1), Err(SandboxFailure::RemoveFailed)));
}

#[test]
fn combine_with_tests_concatenates_with_blank_line() {
    let combined = combine_with_tests("def f():\n    return 1", "assert f() == 1");
    assert_eq!(combined, "def f():\n    return 1\n\nassert f() == 1");
}
