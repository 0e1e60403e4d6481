use component_actor::component_a;
use component_actor::component_b;
use component_actor::config::{Component, Config, Container, Logging};
use component_actor::messages::example_message::ExampleMessage;

#[test]
fn component_a_raises_the_value_and_signs() {
    let response = component_a::process_message(ExampleMessage::new("in".to_string(), 10), 5);
    assert_eq!(response.value, 15);
    assert_eq!(response.message, "Message from ComponentA!");
}

#[test]
fn component_b_raises_the_value_and_signs() {
    let response = component_b::process_message(ExampleMessage::new("in".to_string(), 0), 255);
    assert_eq!(response.value, 255);
    assert_eq!(response.message, "Message from ComponentB!");
}

#[test]
fn the_handler_reaches_the_largest_value() {
    let response =
        component_a::process_message(ExampleMessage::new(String::new(), u64::MAX - 255), 255);
    assert_eq!(response.value, u64::MAX);
}

#[test]
fn equal_inputs_give_equal_responses() {
    let first = component_a::process_message(ExampleMessage::new("a".to_string(), 7), 3);
    let second = component_a::process_message(ExampleMessage::new("a".to_string(), 7), 3);
    assert_eq!(first.value, second.value);
    assert_eq!(first.message, second.message);
}

#[test]
fn a_zero_increment_keeps_the_value() {
    let response = component_b::process_message(ExampleMessage::new("in".to_string(), 99), 0);
    assert_eq!(response.value, 99);
}

#[test]
fn the_simulated_work_takes_one_second() {
    assert_eq!(component_a::PROCESSING_DELAY_SECS, 1);
    assert_eq!(component_b::PROCESSING_DELAY_SECS, 1);
}

fn sample_config() -> Config {
    Config {
        container: Container {
            name: "ComponentB".to_string(),
            version: "1.2.3".to_string(),
            version_title: "First".to_string(),
            software_collection: "Examples".to_string(),
        },
        logging: Logging { level: "debug".to_string() },
        component: Component { increment: 4 },
    }
}

#[test]
fn container_identity_lists_the_four_entries() {
    let identity = sample_config().container_identity();
    let expected = vec![
        ("name".to_string(), "ComponentB".to_string()),
        ("version".to_string(), "1.2.3".to_string()),
        ("version_title".to_string(), "First".to_string()),
        ("software_collection".to_string(), "Examples".to_string()),
    ];
    assert_eq!(identity, expected);
}

#[test]
fn log_level_is_the_configured_level() {
    assert_eq!(sample_config().log_level(), "debug");
}
