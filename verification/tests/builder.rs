use startup::bootstrap::{run, BootEvent, Builder};
use startup::error::FatalStartupError;
use startup::plugin::PluginDescriptor;

#[test]
fn with_setup_twice_keeps_only_the_second_callback() {
    let config = Builder::new()
        .with_plugin(PluginDescriptor::new("a".to_string(), Ok(())))
        .with_setup(Err("first callback".to_string()))
        .with_setup(Ok(()))
        .build();
    let report = run(config);
    assert!(report.outcome.is_ok(), "second registration wins, so setup succeeds");
    assert!(report.trace.contains(&BootEvent::Handoff));
}

#[test]
fn with_setup_twice_second_failure_wins() {
    let config = Builder::new()
        .with_setup(Ok(()))
        .with_setup(Err("second callback".to_string()))
        .build();
    let report = run(config);
    assert_eq!(
        report.outcome.err().expect("second registration wins, so setup fails"),
        FatalStartupError::Setup { message: "second callback".to_string() },
    );
}

#[test]
fn default_builder_equals_new_builder() {
    let from_default = run(Builder::default().build());
    let from_new = run(Builder::new().build());
    assert_eq!(from_default.trace, from_new.trace);
    assert!(from_default.outcome.is_ok());
    assert!(from_new.outcome.is_ok());
}

#[test]
fn descriptor_keeps_name_and_outcome() {
    let p = PluginDescriptor::new("http".to_string(), Err("offline".to_string()));
    assert_eq!(p.name, "http");
    assert_eq!(p.init, Err("offline".to_string()));
}
