use load_balancer::pool::{Direction, LoadBalancer, PoolError, Transition};

fn three() -> LoadBalancer {
    match LoadBalancer::new(vec![
        "A:9001".to_string(),
        "A:9002".to_string(),
        "A:9003".to_string(),
    ]) {
        Ok(lb) => lb,
        Err(e) => panic!("three addresses were refused: {:?}", e),
    }
}

#[test]
fn empty_list_is_refused() {
    assert_eq!(LoadBalancer::new(Vec::new()).err(), Some(PoolError::NoBackends));
}

#[test]
fn new_pool_is_all_healthy_in_order() {
    let lb = three();
    assert_eq!(lb.len(), 3);
    assert_eq!(lb.address(0), Some("A:9001".to_string()));
    assert_eq!(lb.address(1), Some("A:9002".to_string()));
    assert_eq!(lb.address(2), Some("A:9003".to_string()));
    assert_eq!(lb.address(3), None);
    assert_eq!(lb.is_healthy(0), Some(true));
    assert_eq!(lb.is_healthy(1), Some(true));
    assert_eq!(lb.is_healthy(2), Some(true));
    assert_eq!(lb.is_healthy(3), None);
    assert_eq!(lb.cursor(), 2);
}

#[test]
fn three_selections_in_insertion_order_then_repeat() {
    let mut lb = three();
    assert_eq!(lb.next_backend(), Some("A:9001".to_string()));
    assert_eq!(lb.next_backend(), Some("A:9002".to_string()));
    assert_eq!(lb.next_backend(), Some("A:9003".to_string()));
    assert_eq!(lb.next_backend(), Some("A:9001".to_string()));
}

#[test]
fn cycle_visits_each_backend_once() {
    let mut lb = three();
    let mut seen = vec![0usize, 0, 0];
    for _ in 0..3 {
        let a = lb.next_backend();
        for i in 0..3 {
            if lb.address(i) == a {
                seen[i] += 1;
            }
        }
    }
    assert_eq!(seen, vec![1, 1, 1]);
}

#[test]
fn cursor_follows_the_selection() {
    let mut lb = three();
    assert_eq!(lb.next_backend(), Some("A:9001".to_string()));
    assert_eq!(lb.cursor(), 0);
    assert_eq!(lb.next_backend(), Some("A:9002".to_string()));
    assert_eq!(lb.cursor(), 1);
    assert_eq!(lb.next_backend(), Some("A:9003".to_string()));
    assert_eq!(lb.cursor(), 2);
}

#[test]
fn unhealthy_backend_is_skipped() {
    let mut lb = three();
    assert_eq!(
        lb.set_health(1, false),
        Some(Transition { index: 1, address: "A:9002".to_string(), direction: Direction::Down })
    );
    assert_eq!(lb.next_backend(), Some("A:9001".to_string()));
    assert_eq!(lb.next_backend(), Some("A:9003".to_string()));
    assert_eq!(lb.next_backend(), Some("A:9001".to_string()));
    assert_eq!(lb.next_backend(), Some("A:9003".to_string()));
}

#[test]
fn scan_resumes_where_the_last_selection_stopped() {
    let mut lb = three();
    assert_eq!(lb.next_backend(), Some("A:9001".to_string()));
    assert_eq!(lb.set_health(1, false).map(|t| t.direction), Some(Direction::Down));
    assert_eq!(lb.next_backend(), Some("A:9003".to_string()));
    assert_eq!(lb.cursor(), 2);
    assert_eq!(lb.set_health(1, true).map(|t| t.direction), Some(Direction::Up));
    assert_eq!(lb.next_backend(), Some("A:9001".to_string()));
    assert_eq!(lb.next_backend(), Some("A:9002".to_string()));
}

#[test]
fn single_healthy_backend_is_always_selected() {
    for start in 0..3 {
        let mut lb = three();
        for _ in 0..start {
            lb.next_backend();
        }
        lb.set_health(0, false);
        lb.set_health(2, false);
        for _ in 0..5 {
            assert_eq!(lb.next_backend(), Some("A:9002".to_string()));
            assert_eq!(lb.cursor(), 1);
        }
    }
}

#[test]
fn no_healthy_backend_selects_nothing() {
    let mut lb = three();
    lb.set_health(0, false);
    lb.set_health(1, false);
    assert_eq!(lb.next_backend(), Some("A:9003".to_string()));
    assert_eq!(
        lb.set_health(2, false),
        Some(Transition { index: 2, address: "A:9003".to_string(), direction: Direction::Down })
    );
    assert_eq!(lb.next_backend(), None);
    assert_eq!(lb.next_backend(), None);
}

#[test]
fn full_cycle_without_a_hit_leaves_the_cursor() {
    let mut lb = three();
    assert_eq!(lb.next_backend(), Some("A:9001".to_string()));
    lb.set_health(0, false);
    lb.set_health(1, false);
    lb.set_health(2, false);
    assert_eq!(lb.next_backend(), None);
    assert_eq!(lb.cursor(), 0);
    lb.set_health(1, true);
    assert_eq!(lb.next_backend(), Some("A:9002".to_string()));
}

#[test]
fn set_health_reports_each_flip_once() {
    let mut lb = three();
    assert_eq!(lb.set_health(0, true), None);
    assert_eq!(
        lb.set_health(0, false),
        Some(Transition { index: 0, address: "A:9001".to_string(), direction: Direction::Down })
    );
    assert_eq!(lb.set_health(0, false), None);
    assert_eq!(lb.is_healthy(0), Some(false));
    assert_eq!(
        lb.set_health(0, true),
        Some(Transition { index: 0, address: "A:9001".to_string(), direction: Direction::Up })
    );
    assert_eq!(lb.set_health(0, true), None);
    assert_eq!(lb.is_healthy(0), Some(true));
}

#[test]
fn set_health_touches_one_backend_only() {
    let mut lb = three();
    lb.set_health(1, false);
    assert_eq!(lb.is_healthy(0), Some(true));
    assert_eq!(lb.is_healthy(1), Some(false));
    assert_eq!(lb.is_healthy(2), Some(true));
    assert_eq!(lb.address(1), Some("A:9002".to_string()));
    assert_eq!(lb.cursor(), 2);
    assert_eq!(lb.len(), 3);
}

#[test]
fn pool_of_one_returns_it_every_time() {
    let mut lb = match LoadBalancer::new(vec!["only:1".to_string()]) {
        Ok(lb) => lb,
        Err(e) => panic!("one address was refused: {:?}", e),
    };
    assert_eq!(lb.cursor(), 0);
    assert_eq!(lb.next_backend(), Some("only:1".to_string()));
    assert_eq!(lb.next_backend(), Some("only:1".to_string()));
    lb.set_health(0, false);
    assert_eq!(lb.next_backend(), None);
}
