use rpi_home::services::switches::Switches;

#[test]
fn a_switch_not_seen_before_is_off() {
    let mut switches = Switches::new();
    assert!(!switches.is_enabled("lamp", &None, &None));
    assert!(!switches.is_enabled("lamp", &None, &None));
}

#[test]
fn asking_makes_the_switch() {
    let mut switches = Switches::new();
    assert!(!switches.is_enabled("lamp", &None, &None));
    assert_eq!(switches.set("lamp", true), (false, None, None));
}

#[test]
fn set_makes_a_switch_once() {
    let mut switches = Switches::new();
    assert_eq!(switches.set("pump1", true), (true, None, None));
    assert!(switches.is_enabled("pump1", &None, &None));
    assert_eq!(switches.set("pump1", false), (false, None, None));
    assert!(!switches.is_enabled("pump1", &None, &None));
    assert_eq!(switches.set("pump1", true), (false, None, None));
    assert!(switches.is_enabled("pump1", &None, &None));
}

#[test]
fn asking_again_gives_the_same_answer() {
    let mut switches = Switches::new();
    switches.set("fan", true);
    switches.set("heater", false);
    for round in 0..4u16 {
        let ip = Some(format!("10.0.0.{}", round));
        assert!(switches.is_enabled("fan", &ip, &Some(round)));
        assert!(!switches.is_enabled("heater", &None, &Some(round)));
        assert!(!switches.is_enabled("other", &ip, &None));
    }
}

#[test]
fn the_address_of_the_last_asker_is_kept() {
    let mut switches = Switches::new();
    switches.is_enabled("door", &Some("10.0.0.1".to_string()), &Some(1000));
    switches.is_enabled("door", &Some("10.0.0.2".to_string()), &Some(2000));
    assert_eq!(switches.set("door", true), (false, Some("10.0.0.2".to_string()), Some(2000)));
    assert_eq!(switches.set("door", false), (false, Some("10.0.0.2".to_string()), Some(2000)));
    switches.is_enabled("door", &None, &Some(3000));
    assert_eq!(switches.set("door", true), (false, None, Some(3000)));
    switches.is_enabled("door", &None, &None);
    assert_eq!(switches.set("door", true), (false, None, None));
}

#[test]
fn names_differ_by_more_than_the_case_of_ascii_letters() {
    let mut switches = Switches::new();
    assert_eq!(switches.set("Pump", true), (true, None, None));
    assert_eq!(switches.set("pUMP", true), (false, None, None));
    assert!(switches.is_enabled("PUMP", &None, &None));
    assert!(switches.is_enabled("pump", &None, &None));
    assert_eq!(switches.set("pump ", true), (true, None, None));
    assert_eq!(switches.set("", false), (true, None, None));
    assert_eq!(switches.set("", false), (false, None, None));
    assert_eq!(switches.set("\u{e9}", true), (true, None, None));
    assert_eq!(switches.set("\u{c9}", true), (true, None, None));
}

#[test]
fn one_switch_does_not_touch_another() {
    let mut switches = Switches::new();
    switches.set("a", true);
    switches.is_enabled("a", &Some("h".to_string()), &Some(1));
    switches.set("b", false);
    switches.is_enabled("b", &None, &Some(2));
    assert_eq!(switches.set("a", true), (false, Some("h".to_string()), Some(1)));
    assert_eq!(switches.set("b", true), (false, None, Some(2)));
    assert!(switches.is_enabled("a", &None, &None));
    assert!(switches.is_enabled("b", &None, &None));
}
