use load_balancer::pool::LoadBalancer;
use load_balancer::proxy::{Connection, ConnectionAction, ConnectionEvent, DropReason};

fn pool_of_three() -> LoadBalancer {
    match LoadBalancer::new(vec![
        "A:9001".to_string(),
        "A:9002".to_string(),
        "A:9003".to_string(),
    ]) {
        Ok(lb) => lb,
        Err(e) => panic!("three addresses were refused: {:?}", e),
    }
}

fn connect(address: &str) -> ConnectionAction {
    ConnectionAction::Connect { address: address.to_string() }
}

#[test]
fn sequential_clients_are_routed_round_robin() {
    let mut lb = pool_of_three();
    let mut routed: Vec<ConnectionAction> = Vec::new();
    for _ in 0..4 {
        let mut c = Connection::new();
        routed.push(c.select(&mut lb));
    }
    assert_eq!(
        routed,
        vec![connect("A:9001"), connect("A:9002"), connect("A:9003"), connect("A:9001")]
    );
}

#[test]
fn clients_skip_the_unhealthy_backend() {
    let mut lb = pool_of_three();
    lb.set_health(1, false);
    let mut routed: Vec<ConnectionAction> = Vec::new();
    for _ in 0..4 {
        let mut c = Connection::new();
        routed.push(c.select(&mut lb));
    }
    assert_eq!(
        routed,
        vec![connect("A:9001"), connect("A:9003"), connect("A:9001"), connect("A:9003")]
    );
}

#[test]
fn client_is_dropped_when_all_backends_are_down() {
    let mut lb = pool_of_three();
    lb.set_health(0, false);
    lb.set_health(1, false);
    lb.set_health(2, false);
    let mut c = Connection::new();
    assert!(!c.is_terminal());
    assert_eq!(
        c.select(&mut lb),
        ConnectionAction::DropClient { reason: DropReason::NoHealthyBackend }
    );
    assert!(c.is_terminal());
    assert_eq!(c.backend(), None);
    assert_eq!(c.on_event(ConnectionEvent::ConnectSucceeded), ConnectionAction::Ignore);
    assert_eq!(c.on_event(ConnectionEvent::ConnectFailed), ConnectionAction::Ignore);
    assert_eq!(c.on_event(ConnectionEvent::RelayEnded), ConnectionAction::Ignore);
    assert_eq!(c.select(&mut lb), ConnectionAction::Ignore);
    assert!(c.is_terminal());
}

#[test]
fn connection_relays_then_closes() {
    let mut lb = pool_of_three();
    let mut c = Connection::new();
    assert_eq!(c.backend(), None);
    assert_eq!(c.select(&mut lb), connect("A:9001"));
    assert_eq!(c.backend(), Some("A:9001".to_string()));
    assert!(!c.is_terminal());
    assert_eq!(c.on_event(ConnectionEvent::ConnectSucceeded), ConnectionAction::Relay);
    assert_eq!(c.backend(), Some("A:9001".to_string()));
    assert!(!c.is_terminal());
    assert_eq!(c.on_event(ConnectionEvent::RelayEnded), ConnectionAction::CloseBoth);
    assert!(c.is_terminal());
    assert_eq!(c.backend(), None);
    assert_eq!(c.on_event(ConnectionEvent::RelayEnded), ConnectionAction::Ignore);
}

#[test]
fn connect_failure_drops_without_a_second_choice() {
    let mut lb = pool_of_three();
    let mut c = Connection::new();
    assert_eq!(c.select(&mut lb), connect("A:9001"));
    assert_eq!(
        c.on_event(ConnectionEvent::ConnectFailed),
        ConnectionAction::DropClient { reason: DropReason::ConnectFailed }
    );
    assert!(c.is_terminal());
    assert_eq!(c.backend(), Some("A:9001".to_string()));
    assert_eq!(c.select(&mut lb), ConnectionAction::Ignore);
    assert_eq!(lb.cursor(), 0);
    assert_eq!(lb.is_healthy(0), Some(true));
    let mut next = Connection::new();
    assert_eq!(next.select(&mut lb), connect("A:9002"));
}

#[test]
fn selection_happens_once_per_connection() {
    let mut lb = pool_of_three();
    let mut c = Connection::new();
    assert_eq!(c.select(&mut lb), connect("A:9001"));
    assert_eq!(c.select(&mut lb), ConnectionAction::Ignore);
    assert_eq!(lb.cursor(), 0);
    assert_eq!(c.backend(), Some("A:9001".to_string()));
}

#[test]
fn events_out_of_turn_are_ignored() {
    let mut lb = pool_of_three();
    let mut c = Connection::new();
    assert_eq!(c.on_event(ConnectionEvent::ConnectSucceeded), ConnectionAction::Ignore);
    assert_eq!(c.on_event(ConnectionEvent::RelayEnded), ConnectionAction::Ignore);
    assert_eq!(c.select(&mut lb), connect("A:9001"));
    assert_eq!(c.on_event(ConnectionEvent::RelayEnded), ConnectionAction::Ignore);
    assert_eq!(c.on_event(ConnectionEvent::ConnectSucceeded), ConnectionAction::Relay);
    assert_eq!(c.on_event(ConnectionEvent::ConnectSucceeded), ConnectionAction::Ignore);
    assert_eq!(c.on_event(ConnectionEvent::ConnectFailed), ConnectionAction::Ignore);
    assert_eq!(c.on_event(ConnectionEvent::RelayEnded), ConnectionAction::CloseBoth);
}

#[test]
fn connections_are_independent() {
    let mut lb = pool_of_three();
    let mut first = Connection::new();
    let mut second = Connection::new();
    assert_eq!(first.select(&mut lb), connect("A:9001"));
    assert_eq!(second.select(&mut lb), connect("A:9002"));
    assert_eq!(
        first.on_event(ConnectionEvent::ConnectFailed),
        ConnectionAction::DropClient { reason: DropReason::ConnectFailed }
    );
    assert_eq!(second.on_event(ConnectionEvent::ConnectSucceeded), ConnectionAction::Relay);
    assert!(first.is_terminal());
    assert!(!second.is_terminal());
}
