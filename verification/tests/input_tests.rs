use ingress::input::Error;
use ingress::input::InputEvent;
use ingress::input::InputManager;

#[test]
fn new_manager_reports_threshold() {
    let imgr = InputManager::new(100);
    assert_eq!(imgr.threshold(), 100);
}

#[test]
fn no_input_when_vector_unchanged() {
    let mut imgr = InputManager::new(100);
    assert_eq!(imgr.output(), Err(Error::NoInput));
}

#[test]
fn single_presses_map_to_events() {
    // pins are sampled round-robin: left, middle, right
    let mut imgr = InputManager::new(100);
    imgr.update_input(true);
    imgr.update_input(false);
    imgr.update_input(false);
    assert_eq!(imgr.output(), Ok(InputEvent::Left));

    let mut imgr = InputManager::new(100);
    imgr.update_input(false);
    imgr.update_input(true);
    imgr.update_input(false);
    assert_eq!(imgr.output(), Ok(InputEvent::Middle));

    let mut imgr = InputManager::new(100);
    imgr.update_input(false);
    imgr.update_input(false);
    imgr.update_input(true);
    assert_eq!(imgr.output(), Ok(InputEvent::Right));
}

#[test]
fn combinations_map_to_events() {
    let mut imgr = InputManager::new(100);
    imgr.update_input(true);
    imgr.update_input(true);
    imgr.update_input(true);
    assert_eq!(imgr.output(), Ok(InputEvent::Multi));

    let mut imgr = InputManager::new(100);
    imgr.update_input(true);
    imgr.update_input(false);
    imgr.update_input(true);
    assert_eq!(imgr.output(), Ok(InputEvent::Dual));

    let mut imgr = InputManager::new(100);
    imgr.update_input(true);
    imgr.update_input(true);
    imgr.update_input(false);
    assert_eq!(imgr.output(), Ok(InputEvent::LeftMiddle));

    let mut imgr = InputManager::new(100);
    imgr.update_input(false);
    imgr.update_input(true);
    imgr.update_input(true);
    assert_eq!(imgr.output(), Ok(InputEvent::RightMiddle));
}

#[test]
fn output_reports_each_change_once() {
    let mut imgr = InputManager::new(100);
    imgr.update_input(true);
    imgr.update_input(false);
    imgr.update_input(false);
    assert_eq!(imgr.output(), Ok(InputEvent::Left));
    // unchanged vector: no new event
    assert_eq!(imgr.output(), Err(Error::NoInput));
    // release: back to no input
    imgr.update_input(false);
    imgr.update_input(false);
    imgr.update_input(false);
    assert_eq!(imgr.output(), Err(Error::NoInput));
}

#[test]
fn start_new_refuses_while_acquiring() {
    let mut imgr = InputManager::new(100);
    assert_eq!(imgr.start_new(), Ok(0));
    assert_eq!(imgr.start_new(), Err(Error::AcquisitionInProgress));
}

#[test]
fn process_result_completes_after_third_pin() {
    let mut imgr = InputManager::new(100);
    assert_eq!(imgr.start_new(), Ok(0));
    assert_eq!(imgr.process_result(50), Err(Error::Incomplete));
    assert_eq!(imgr.start_new(), Ok(1));
    assert_eq!(imgr.process_result(200), Ok(()));
    assert_eq!(imgr.start_new(), Ok(2));
    assert_eq!(imgr.process_result(50), Err(Error::Incomplete));
    // left and right read below the threshold: both pressed
    assert_eq!(imgr.output(), Ok(InputEvent::Dual));
}
