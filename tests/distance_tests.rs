use my_hal::distance::{DistanceMeasurer, Measurements};

#[test]
fn fresh_measurer_reports_sentinel_distance() {
    let m = DistanceMeasurer::new();
    assert_eq!(m.get_distance_cm(), u16::MAX / 58);
    assert_eq!(m.get_distance_cm(), 1129);
}

#[test]
fn pair_100_300_gives_3_cm() {
    let mut m = DistanceMeasurer::new();
    m.update_measurment(100);
    m.update_measurment(300);
    assert_eq!(m.get_distance_cm(), (300 - 100) / 58);
    assert_eq!(m.get_distance_cm(), 3);
}

#[test]
fn single_edge_keeps_previous_distance() {
    let mut m = DistanceMeasurer::new();
    m.update_measurment(100);
    assert_eq!(m.get_distance_cm(), 1129);
    m.update_measurment(5900);
    assert_eq!(m.get_distance_cm(), 100);
    m.update_measurment(7000);
    assert_eq!(m.get_distance_cm(), 100);
}

#[test]
fn pair_across_counter_wrap() {
    let mut m = DistanceMeasurer::new();
    m.update_measurment(65000);
    m.update_measurment(100);
    // (100 - 65000) mod 65536 = 636
    assert_eq!(m.get_distance_cm(), 636 / 58);
    assert_eq!(m.get_distance_cm(), 10);
}

#[test]
fn pairs_of_arbitrary_edges_match_wrapped_difference() {
    let cases: [(u16, u16); 6] = [(0, 0), (0, 65535), (65535, 0), (1234, 1234 + 58 * 7), (40000, 39999), (17, 75)];
    for (t1, t2) in cases {
        let mut m = DistanceMeasurer::new();
        m.update_measurment(t1);
        m.update_measurment(t2);
        let expected = ((t2 as i64 - t1 as i64).rem_euclid(65536) / 58) as u16;
        assert_eq!(m.get_distance_cm(), expected);
    }
}

#[test]
fn equal_edges_give_zero_distance() {
    let mut m = DistanceMeasurer::new();
    m.update_measurment(500);
    m.update_measurment(500);
    assert_eq!(m.get_distance_cm(), 0);
}

#[test]
fn captures_go_to_their_own_channel() {
    let mut ms = Measurements::new();
    ms.record_captures(Some(100), None);
    ms.record_captures(Some(680), Some(1000));
    assert_eq!(ms.front.get_distance_cm(), 10);
    assert_eq!(ms.side.get_distance_cm(), 1129);
    ms.record_captures(None, Some(1000 + 58 * 42));
    assert_eq!(ms.side.get_distance_cm(), 42);
    assert_eq!(ms.front.get_distance_cm(), 10);
}
