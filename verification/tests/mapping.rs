use mypaint_rs::mapping::{Mapping, MAX_POINTS};

#[test]
fn test_inputs_used_tracking() {
    let mut m: Mapping<f32> = Mapping::new(3);
    assert_eq!(m.inputs_used_n(), 0);
    m.set_n(0, 2);
    assert_eq!(m.inputs_used_n(), 1);
    m.set_n(2, 2);
    assert_eq!(m.inputs_used_n(), 2);
    m.set_n(0, 0);
    assert_eq!(m.inputs_used_n(), 1);
    assert!(m.is_constant() == false);
    m.set_n(2, 0);
    assert!(m.is_constant());
}

#[test]
fn new_mapping_is_constant_with_default_values() {
    let m: Mapping<f32> = Mapping::new(4);
    assert!(m.is_constant());
    assert_eq!(m.inputs(), 4);
    assert_eq!(m.get_base_value(), 0.0);
    for i in 0..4 {
        assert_eq!(m.get_n(i), 0);
    }
}

#[test]
fn points_are_stored_per_input() {
    let mut m: Mapping<i64> = Mapping::new(2);
    m.set_n(0, 3);
    m.set_n(1, MAX_POINTS);
    m.set_point(0, 2, 7, 8);
    m.set_point(1, 0, -1, -2);
    m.set_point(1, MAX_POINTS - 1, 5, 6);
    assert_eq!(m.get_point(0, 2), (7, 8));
    assert_eq!(m.get_point(1, 0), (-1, -2));
    assert_eq!(m.get_point(1, MAX_POINTS - 1), (5, 6));
    assert_eq!(m.get_point(0, 0), (0, 0));
    assert_eq!(m.get_n(1), MAX_POINTS);
}

#[test]
fn setting_the_same_count_twice_counts_once() {
    let mut m: Mapping<f32> = Mapping::new(2);
    m.set_n(1, 2);
    m.set_n(1, 5);
    assert_eq!(m.inputs_used_n(), 1);
    m.set_n(1, 0);
    m.set_n(1, 0);
    assert_eq!(m.inputs_used_n(), 0);
}

#[test]
fn reset_removes_curves_and_base_value() {
    let mut m: Mapping<f32> = Mapping::new(2);
    m.set_base_value(1.5);
    m.set_n(0, 2);
    m.set_n(1, 2);
    m.set_point(0, 1, 1.0, 2.0);
    m.reset();
    assert!(m.is_constant());
    assert_eq!(m.inputs_used_n(), 0);
    assert_eq!(m.get_base_value(), 0.0);
    assert_eq!(m.get_n(0), 0);
    m.set_n(0, 2);
    assert_eq!(m.get_point(0, 1), (1.0, 2.0));
}
