use rxcanvas::controller::{Controller, UpdateError};

#[test]
fn scenario_mount_default() {
    // Mount with the default size 50: readout "50", canvas 100 x 100.
    let (controller, pass) = Controller::initialize();
    assert_eq!(controller.size_value(), 50);
    assert_eq!(pass.readout, "50");
    assert_eq!(pass.plan.dim, 100);
    assert_eq!(pass.plan.cx, 50);
    assert_eq!(pass.plan.cy, 50);
    assert_eq!(pass.plan.radius, 50);
}

#[test]
fn scenario_slider_minimum() {
    // Change event with slider value "5": readout "5", canvas 10 x 10,
    // circle of radius 5 centered at (5, 5).
    let (mut controller, _) = Controller::initialize();
    let pass = controller.on_slider_change("5").unwrap();
    assert_eq!(controller.size_value(), 5);
    assert_eq!(pass.readout, "5");
    assert_eq!(pass.plan.dim, 10);
    assert_eq!(pass.plan.cx, 5);
    assert_eq!(pass.plan.cy, 5);
    assert_eq!(pass.plan.radius, 5);
    assert!(pass.plan.covers_pixel(9, 5));
    assert!(!pass.plan.covers_pixel(0, 0));
}

#[test]
fn scenario_slider_maximum() {
    // Change event with slider value "100": canvas 200 x 200 and the circle
    // touches all four edges of the bounding box.
    let (mut controller, _) = Controller::initialize();
    let pass = controller.on_slider_change("100").unwrap();
    assert_eq!(pass.readout, "100");
    assert_eq!(pass.plan.dim, 200);
    assert!(pass.plan.covers_pixel(0, 100));
    assert!(pass.plan.covers_pixel(200, 100));
    assert!(pass.plan.covers_pixel(100, 0));
    assert!(pass.plan.covers_pixel(100, 200));
    assert!(!pass.plan.covers_pixel(0, 0));
    assert!(!pass.plan.covers_pixel(200, 200));
    assert!(!pass.plan.covers_pixel(0, 200));
    assert!(!pass.plan.covers_pixel(200, 0));
}

#[test]
fn readout_matches_input_text() {
    let (mut controller, _) = Controller::initialize();
    let pass = controller.on_slider_change("35").unwrap();
    assert_eq!(pass.readout, "35");
    assert_eq!(controller.size_value(), 35);
}

#[test]
fn every_slider_value_is_accepted() {
    let (mut controller, _) = Controller::initialize();
    let mut v: u32 = 5;
    while v <= 100 {
        let text = format!("{}", v);
        let pass = controller.on_slider_change(&text).unwrap();
        assert_eq!(pass.readout, text);
        assert_eq!(pass.plan.dim, 2 * v);
        assert_eq!(pass.plan.cx, v);
        assert_eq!(pass.plan.cy, v);
        assert_eq!(pass.plan.radius, v);
        assert_eq!(controller.size_value(), v);
        v += 5;
    }
}

#[test]
fn repeated_pass_is_identical() {
    let (mut controller, _) = Controller::initialize();
    let first = controller.on_slider_change("40").unwrap();
    let second = controller.on_slider_change("40").unwrap();
    assert_eq!(first.readout, second.readout);
    assert_eq!(first.plan, second.plan);
    assert_eq!(controller.size_value(), 40);
}

#[test]
fn rejected_text_is_surfaced_and_state_kept() {
    let (mut controller, _) = Controller::initialize();
    let rejected = [
        "", "abc", "0", "4", "101", "105", "12", "-5", " 5", "5 ", "5.0", "4294967296",
    ];
    for text in rejected {
        let r = controller.on_slider_change(text);
        assert_eq!(r.unwrap_err(), UpdateError::InvalidInputValue);
        assert_eq!(controller.size_value(), 50);
    }
}

#[test]
fn leading_zeros_read_as_the_same_value() {
    let (mut controller, _) = Controller::initialize();
    let pass = controller.on_slider_change("050").unwrap();
    assert_eq!(pass.readout, "50");
    assert_eq!(controller.size_value(), 50);
}

#[test]
fn error_descriptions() {
    assert_eq!(
        UpdateError::SetupFailure.describe(),
        "a required element or drawing context is missing"
    );
    assert_eq!(
        UpdateError::InvalidInputValue.describe(),
        "the slider reported an out-of-contract value"
    );
}
