use bass_rs::sync::BassSync;
use bass_rs::dsp::BassDsp;

#[test]
fn syncs_keep_their_handles_and_compare_by_handle() {
    let a = BassSync::from_set_result(3, 10, "a").unwrap();
    let b = BassSync::from_set_result(3, 11, "b").unwrap();
    let c = BassSync::from_set_result(4, 10, "a").unwrap();
    assert_eq!(a.handle(), 3);
    assert_eq!(a.channel(), 10);
    assert!(a == b);
    assert!(a != c);
    let d = BassDsp::from_set_result(8, 1, ()).unwrap();
}
