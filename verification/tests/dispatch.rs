use render_bridge::dispatch::dispatch_count;

#[test]
fn dispatch_count_rounds_up() {
    assert_eq!(dispatch_count(0, 8), 0);
    assert_eq!(dispatch_count(1, 8), 1);
    assert_eq!(dispatch_count(8, 8), 1);
    assert_eq!(dispatch_count(9, 8), 2);
    assert_eq!(dispatch_count(1920, 8), 240);
    assert_eq!(dispatch_count(1080, 8), 135);
    assert_eq!(dispatch_count(u32::MAX, 8), 536870912);
}
