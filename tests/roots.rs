use jshost::roots::{RootError, RootHandle, RootStack};

#[test]
fn root_get_set_and_release_in_reverse_order() {
    let mut s = RootStack::new();
    let a = s.root(10);
    let b = s.root(20);
    let c = s.root(30);
    assert_eq!(s.live_count(), 3);
    assert_eq!(s.get(b), 20);
    s.set(b, 25);
    assert_eq!(s.get(b), 25);
    assert_eq!(s.release(c), Ok(30));
    assert_eq!(s.release(b), Ok(25));
    assert_eq!(s.release(a), Ok(10));
    assert_eq!(s.live_count(), 0);
}

#[test]
fn release_out_of_order_is_refused() {
    let mut s = RootStack::new();
    let a = s.root(1);
    let b = s.root(2);
    assert_eq!(s.release(a), Err(RootError::OutOfOrder));
    assert_eq!(s.live_count(), 2);
    assert_eq!(s.get(a), 1);
    assert_eq!(s.release(b), Ok(2));
    assert_eq!(s.release(a), Ok(1));
}

#[test]
fn release_of_a_released_handle_is_refused() {
    let mut s = RootStack::new();
    let a = s.root(5);
    assert_eq!(s.release(a), Ok(5));
    assert_eq!(s.release(a), Err(RootError::NotLive));
    assert_eq!(s.release(RootHandle { index: 3 }), Err(RootError::NotLive));
}

#[test]
fn only_exact_reverse_order_releases_all_roots() {
    // Every order of three releases but the reverse one hits a refusal.
    let orders = [[0, 1, 2], [0, 2, 1], [1, 0, 2], [1, 2, 0], [2, 0, 1], [2, 1, 0]];
    for order in orders {
        let mut s = RootStack::new();
        let hs = [s.root(100), s.root(101), s.root(102)];
        let all_ok = order.iter().all(|&i| s.release(hs[i]).is_ok());
        assert_eq!(all_ok, order == [2, 1, 0], "order {:?}", order);
    }
}
