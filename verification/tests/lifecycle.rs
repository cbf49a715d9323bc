use moodlight::color::{Channel, ColorCommand, RenderCall, Variant};
use moodlight::document::{DocumentError, Field};
use moodlight::lifecycle::{exit_status, Action, Failure, Lifecycle, LifecycleEvent, Outcome, Stage};
use moodlight::observer::Observer;
use moodlight::startup::ConfigError;

fn arguments(texts: &[&str]) -> Vec<String> {
    let mut tokens = Vec::new();
    for text in texts {
        tokens.push(text.to_string());
    }
    tokens
}

#[test]
fn the_steps_come_in_order() {
    let mut lifecycle = Lifecycle::launch(&arguments(&["1", "2", "3"]), None);
    assert_eq!(
        lifecycle.pending_action(),
        Action::Render(RenderCall {
            variant: Variant::Standard,
            color: ColorCommand { red: 1, green: 2, blue: 3 }
        })
    );
    assert_eq!(lifecycle.report(true), Action::StartSync);
    assert_eq!(lifecycle.pending_action(), Action::StartSync);
    assert_eq!(lifecycle.report(true), Action::Subscribe(Observer::new(Variant::Standard)));
    assert_eq!(lifecycle.report(true), Action::AwaitKey);
    assert_eq!(lifecycle.stage, Stage::Running);
    assert_eq!(lifecycle.report(true), Action::Exit(Outcome::Clean));
    assert_eq!(lifecycle.stage, Stage::Stopped(Outcome::Clean));
}

#[test]
fn a_failed_render_ends_the_process() {
    let mut lifecycle = Lifecycle::launch(&arguments(&[]), None);
    assert_eq!(lifecycle.report(false), Action::Exit(Outcome::Fatal(Failure::Driver)));
    assert_eq!(lifecycle.stage, Stage::Stopped(Outcome::Fatal(Failure::Driver)));
}

#[test]
fn a_failed_start_of_the_sync_client_ends_the_process() {
    let mut lifecycle = Lifecycle::launch(&arguments(&[]), None);
    assert_eq!(lifecycle.report(true), Action::StartSync);
    assert_eq!(lifecycle.report(false), Action::Exit(Outcome::Fatal(Failure::Sync)));
}

#[test]
fn a_failed_subscription_ends_the_process() {
    let mut lifecycle = Lifecycle::launch(&arguments(&[]), Some(true));
    assert_eq!(lifecycle.report(true), Action::StartSync);
    assert_eq!(lifecycle.report(true), Action::Subscribe(Observer::new(Variant::Mini)));
    assert_eq!(lifecycle.report(false), Action::Exit(Outcome::Fatal(Failure::Subscription)));
}

#[test]
fn a_console_that_cannot_be_read_ends_the_process() {
    let mut lifecycle = Lifecycle::launch(&arguments(&[]), None);
    lifecycle.report(true);
    lifecycle.report(true);
    assert_eq!(lifecycle.report(true), Action::AwaitKey);
    assert_eq!(lifecycle.report(false), Action::Exit(Outcome::Fatal(Failure::Console)));
}

#[test]
fn malformed_arguments_end_the_process_before_any_step() {
    let lifecycle = Lifecycle::launch(&arguments(&["12", "teal"]), None);
    let expected = Outcome::Fatal(Failure::Configuration(ConfigError::Malformed(Channel::Green)));
    assert_eq!(lifecycle.pending_action(), Action::Exit(expected));
    assert_eq!(lifecycle.stage, Stage::Stopped(expected));
    assert_ne!(exit_status(expected), 0);
}

#[test]
fn the_end_is_final() {
    let mut lifecycle = Lifecycle::launch(&arguments(&[]), None);
    assert_eq!(lifecycle.report(false), Action::Exit(Outcome::Fatal(Failure::Driver)));
    assert_eq!(lifecycle.report(true), Action::Exit(Outcome::Fatal(Failure::Driver)));
    assert_eq!(lifecycle.report(false), Action::Exit(Outcome::Fatal(Failure::Driver)));
    let mut stopped = Lifecycle::launch(&arguments(&["x"]), Some(true));
    let before = stopped;
    stopped.report(true);
    assert_eq!(stopped, before);
    let mut clean = Lifecycle::launch(&arguments(&[]), None);
    clean.report(true);
    clean.report(true);
    clean.report(true);
    clean.report(true);
    assert_eq!(clean.report(false), Action::Exit(Outcome::Clean));
}

#[test]
fn a_failure_of_the_render_loop_ends_the_process() {
    let mut lifecycle = Lifecycle::launch(&arguments(&[]), None);
    lifecycle.report(true);
    lifecycle.report(true);
    assert_eq!(lifecycle.report(true), Action::AwaitKey);
    let broken = Failure::Document(DocumentError::MissingField(Field::IsOff));
    assert_eq!(lifecycle.abort(broken), Action::Exit(Outcome::Fatal(broken)));
    assert_eq!(lifecycle.stage, Stage::Stopped(Outcome::Fatal(broken)));
    assert_eq!(lifecycle.report(true), Action::Exit(Outcome::Fatal(broken)));
    assert_eq!(exit_status(Outcome::Fatal(broken)), 1);

    let mut other = Lifecycle::launch(&arguments(&[]), None);
    other.report(true);
    other.report(true);
    other.report(true);
    assert_eq!(other.abort(Failure::Driver), Action::Exit(Outcome::Fatal(Failure::Driver)));
}

#[test]
fn the_first_reason_to_stop_counts() {
    let mut lifecycle = Lifecycle::launch(&arguments(&[]), None);
    assert_eq!(lifecycle.abort(Failure::Sync), Action::Exit(Outcome::Fatal(Failure::Sync)));
    assert_eq!(lifecycle.abort(Failure::Driver), Action::Exit(Outcome::Fatal(Failure::Sync)));
    let mut clean = Lifecycle::launch(&arguments(&[]), None);
    clean.report(true);
    clean.report(true);
    clean.report(true);
    assert_eq!(clean.report(true), Action::Exit(Outcome::Clean));
    assert_eq!(clean.abort(Failure::Driver), Action::Exit(Outcome::Clean));
}

#[test]
fn lifecycle_events_and_named_calls_agree() {
    let mut by_event = Lifecycle::launch(&arguments(&["7"]), Some(true));
    let mut by_name = by_event;
    assert_eq!(by_event.handle(LifecycleEvent::Finished(true)), by_name.report(true));
    assert_eq!(by_event, by_name);
    assert_eq!(by_event.handle(LifecycleEvent::Finished(true)), by_name.report(true));
    assert_eq!(
        by_event.handle(LifecycleEvent::Failed(Failure::Driver)),
        by_name.abort(Failure::Driver)
    );
    assert_eq!(by_event, by_name);
    assert_eq!(by_event.handle(LifecycleEvent::Finished(false)), by_name.report(false));
    assert_eq!(by_event, by_name);
}

#[test]
fn only_a_clean_end_has_status_zero() {
    assert_eq!(exit_status(Outcome::Clean), 0);
    assert_eq!(exit_status(Outcome::Fatal(Failure::Driver)), 1);
    assert_eq!(exit_status(Outcome::Fatal(Failure::Sync)), 1);
    assert_eq!(exit_status(Outcome::Fatal(Failure::Subscription)), 1);
    assert_eq!(exit_status(Outcome::Fatal(Failure::Console)), 1);
    assert_eq!(
        exit_status(Outcome::Fatal(Failure::Document(DocumentError::MissingField(Field::Red)))),
        1
    );
    for channel in [Channel::Red, Channel::Green, Channel::Blue] {
        assert_eq!(
            exit_status(Outcome::Fatal(Failure::Configuration(ConfigError::Malformed(channel)))),
            1
        );
    }
}

#[test]
fn the_variant_stays_through_the_whole_life() {
    for (flag, variant) in [
        (None, Variant::Standard),
        (Some(false), Variant::Standard),
        (Some(true), Variant::Mini),
    ] {
        let mut lifecycle = Lifecycle::launch(&arguments(&["1"]), flag);
        assert_eq!(lifecycle.variant, variant);
        let mut step = 0;
        while step < 6 {
            lifecycle.report(true);
            assert_eq!(lifecycle.variant, variant);
            step += 1;
        }
    }
}
