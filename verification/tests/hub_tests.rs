use exact::hub::{RunnerEntry, RunnerHub};
use exact::proto::{Board, ServerToRunner};

fn entry(id: &str, board: Board) -> (RunnerEntry, tokio::sync::mpsc::UnboundedReceiver<ServerToRunner>) {
    let (tx, rx) = tokio::sync::mpsc::unbounded_channel();
    (
        RunnerEntry { device_id: id.to_string(), board, cclk_hz: 1, synthetic: false, tx },
        rx,
    )
}

#[test]
fn registered_runner_is_found_and_removed() {
    let mut hub = RunnerHub::new();
    let (e, mut rx) = entry("a", Board::Lpc1768);
    hub.insert(e);
    let got = hub.get("a").unwrap();
    assert_eq!(got.device_id, "a");
    assert_eq!(got.board, Board::Lpc1768);
    got.tx.send(ServerToRunner::Ping).unwrap();
    assert!(matches!(rx.try_recv(), Ok(ServerToRunner::Ping)));
    assert!(hub.get("b").is_none());
    hub.remove("a");
    assert!(hub.get("a").is_none());
}

#[test]
fn runners_are_found_by_board() {
    let mut hub = RunnerHub::new();
    let (a, _ra) = entry("a", Board::Lpc1768);
    let (b, _rb) = entry("b", Board::Lm3s6965evb);
    hub.insert(a);
    hub.insert(b);
    assert_eq!(hub.find_for_board(Board::Lm3s6965evb).unwrap().device_id, "b");
    assert_eq!(hub.find_for_board(Board::Lpc1768).unwrap().device_id, "a");
    assert!(hub.find_for_board(Board::Stm32f429zi).is_none());
    let mut ids: Vec<String> = hub.list().into_iter().map(|e| e.device_id).collect();
    ids.sort();
    assert_eq!(ids, vec!["a".to_string(), "b".to_string()]);
}

#[test]
fn reregistering_replaces() {
    let mut hub = RunnerHub::new();
    let (a, _ra) = entry("a", Board::Lpc1768);
    let (a2, _rb) = entry("a", Board::Stm32f429zi);
    hub.insert(a);
    hub.insert(a2);
    assert_eq!(hub.list().len(), 1);
    assert_eq!(hub.get("a").unwrap().board, Board::Stm32f429zi);
}

#[test]
fn lookups_hand_out_each_runners_own_sender() {
    let mut hub = RunnerHub::new();
    let (a, mut ra) = entry("a", Board::Lpc1768);
    let (b, mut rb) = entry("b", Board::Lm3s6965evb);
    let a_tx = a.tx.clone();
    let b_tx = b.tx.clone();
    hub.insert(a);
    hub.insert(b);
    assert!(hub.get("a").unwrap().tx.same_channel(&a_tx));
    assert!(hub.find_for_board(Board::Lm3s6965evb).unwrap().tx.same_channel(&b_tx));
    for e in hub.list() {
        let own = if e.device_id == "a" { &a_tx } else { &b_tx };
        assert!(e.tx.same_channel(own));
    }
    hub.find_for_board(Board::Lm3s6965evb).unwrap().tx.send(ServerToRunner::Ping).unwrap();
    assert!(matches!(rb.try_recv(), Ok(ServerToRunner::Ping)));
    assert!(ra.try_recv().is_err());
}

#[test]
fn other_devices_coming_and_going_leave_a_runner_as_registered() {
    let mut hub = RunnerHub::new();
    let (a, _ra) = entry("a", Board::Lpc1768);
    let a_tx = a.tx.clone();
    hub.insert(a);
    let (b, _rb) = entry("b", Board::Lpc1768);
    hub.insert(b);
    hub.remove("b");
    let (c, _rc) = entry("c", Board::Stm32f429zi);
    hub.insert(c);
    hub.remove("zzz");
    let got = hub.get("a").unwrap();
    assert_eq!((got.device_id.as_str(), got.board, got.cclk_hz, got.synthetic), ("a", Board::Lpc1768, 1, false));
    assert!(got.tx.same_channel(&a_tx));
}
