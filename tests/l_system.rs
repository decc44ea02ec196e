use music_sheet_gen::lsystem::{CSSLRuleSet, CSSLSystem, ControlPanel, LSystem};

#[test]
fn system_steps_and_counts() {
    let mut sys = CSSLSystem::from("ab".to_owned(), &["a -> b % 1/1", "b -> a % 1/1"]);
    assert_eq!(*sys.state().iter_num(), 0);
    assert_eq!(sys.state().word(), "ab");
    let used = sys.step();
    assert_eq!(sys.state().word(), "ba");
    assert_eq!(*sys.state().iter_num(), 1);
    assert_eq!(used.len(), 2);
    let history = sys.steps(3);
    assert_eq!(history.len(), 3);
    assert_eq!(*sys.state().iter_num(), 4);
    assert_eq!(sys.state().word(), "ab");
    assert_eq!(sys.state().to_string(), "(iter 4): ab");
    sys.reset();
    assert_eq!(*sys.state().iter_num(), 0);
    assert_eq!(sys.state().word(), "ab");
}

#[test]
fn system_growth() {
    let rules = CSSLRuleSet::from_str_rules(&["F -> F+F % 1/1"]).unwrap();
    let mut sys = CSSLSystem::new("F".to_owned(), rules);
    sys.steps(2);
    assert_eq!(sys.state().word(), "F+F+F+F");
}

#[test]
fn control_panel_back_and_retry() {
    let mut sys = CSSLSystem::from("F".to_owned(), &["F -> FF % 1/1"]);
    let mut panel = ControlPanel::new(&sys);
    assert_eq!(panel.n_steps(), 1);
    panel.step(&mut sys, 2);
    assert_eq!(sys.state().word(), "FFFF");
    assert_eq!(*sys.state().iter_num(), 2);
    panel.back(&mut sys);
    assert_eq!(sys.state().word(), "F");
    assert_eq!(*sys.state().iter_num(), 1);
    let again = panel.retry_step(&mut sys);
    assert_eq!(again.len(), 1);
    assert_eq!(sys.state().word(), "FF");
    assert_eq!(*sys.state().iter_num(), 1);
}

#[test]
fn control_panel_back_at_start_does_nothing() {
    let mut sys = CSSLSystem::from("F".to_owned(), &["F -> FF % 1/1"]);
    let mut panel = ControlPanel::new(&sys);
    panel.back(&mut sys);
    assert_eq!(sys.state().word(), "F");
    assert_eq!(*sys.state().iter_num(), 0);
}

#[test]
fn state_setters() {
    let mut sys = CSSLSystem::from("F".to_owned(), &["F -> FF % 1/1"]);
    sys.step();
    sys.state_mut().set_word("G".to_owned()).set_iter_num(7);
    assert_eq!(sys.state().word(), "G");
    assert_eq!(*sys.state().iter_num(), 7);
}

#[test]
fn system_text() {
    let sys = CSSLSystem::from("F".to_owned(), &["F -> FF % 1/2", "F -> F % 1/2"]);
    assert_eq!(
        sys.to_string(),
        "CSSLSystem: {\n\tstart = F\n\trules = { F -> FF % 1/2, F -> F % 1/2 }\n}"
    );
}
