use w3p_ups::ipc::IpcServer;
use w3p_ups::ups_data::UpsData;
use w3p_ups::wire::{decode, encode};

fn sample() -> UpsData {
    UpsData { soc: 55, sd: 54, vi: 12000, ba: -10, ..UpsData::zeroed() }
}

#[test]
fn new_hub_has_no_observers() {
    let hub = IpcServer::new("/tmp/ups.sock");
    assert_eq!(hub.client_count(), 0);
    assert_eq!(hub.socket_path(), "/tmp/ups.sock");
    assert_eq!(hub.clients(), Vec::<u64>::new());
}

#[test]
fn every_observer_gets_the_same_line_once() {
    let mut hub = IpcServer::new("/tmp/ups.sock");
    let ids = hub.accept_clients(5);
    assert_eq!(ids, vec![0, 1, 2, 3, 4]);
    assert_eq!(hub.client_count(), 5);
    let sent = hub.broadcast(&sample());
    assert_eq!(sent.recipients, vec![0, 1, 2, 3, 4]);
    assert_eq!(sent.message, format!("{}\n", encode(&sample())));
    assert!(sent.message.ends_with("}\n"));
    assert_eq!(sent.message.matches('\n').count(), 1);
    assert_eq!(decode(&sent.message), Ok(sample()));
}

#[test]
fn broadcast_without_observers_has_no_recipients() {
    let hub = IpcServer::new("x");
    let sent = hub.broadcast(&sample());
    assert!(sent.recipients.is_empty());
    assert_eq!(sent.message, format!("{}\n", encode(&sample())));
}

#[test]
fn failed_observers_are_dropped_and_the_rest_keep_their_order() {
    let mut hub = IpcServer::new("x");
    hub.accept_clients(5);
    let dropped = hub.settle(&vec![true, false, true, false, true]);
    assert_eq!(dropped, vec![1, 3]);
    assert_eq!(hub.clients(), vec![0, 2, 4]);
    assert_eq!(hub.client_count(), 3);
    let sent = hub.broadcast(&sample());
    assert_eq!(sent.recipients, vec![0, 2, 4]);
}

#[test]
fn dropped_observer_never_comes_back() {
    let mut hub = IpcServer::new("x");
    hub.accept_clients(2);
    assert_eq!(hub.settle(&vec![false, true]), vec![0]);
    assert_eq!(hub.accept_client(), Some(2));
    assert_eq!(hub.accept_clients(2), vec![3, 4]);
    assert_eq!(hub.clients(), vec![1, 2, 3, 4]);
    assert_eq!(hub.settle(&vec![true, true, true, true]), Vec::<u64>::new());
    assert!(!hub.clients().contains(&0));
}

#[test]
fn settle_with_all_writes_good_keeps_everyone() {
    let mut hub = IpcServer::new("x");
    hub.accept_clients(3);
    assert_eq!(hub.settle(&vec![true, true, true]), Vec::<u64>::new());
    assert_eq!(hub.clients(), vec![0, 1, 2]);
}

#[test]
fn settle_with_all_writes_failed_drops_everyone() {
    let mut hub = IpcServer::new("x");
    hub.accept_clients(3);
    assert_eq!(hub.settle(&vec![false, false, false]), vec![0, 1, 2]);
    assert_eq!(hub.client_count(), 0);
}

#[test]
fn settle_keeps_observers_without_a_reported_outcome() {
    let mut hub = IpcServer::new("x");
    hub.accept_clients(4);
    assert_eq!(hub.settle(&vec![false]), vec![0]);
    assert_eq!(hub.clients(), vec![1, 2, 3]);
    assert_eq!(hub.settle(&vec![]), Vec::<u64>::new());
    assert_eq!(hub.settle(&vec![true, false, true, false, false]), vec![2]);
    assert_eq!(hub.clients(), vec![1, 3]);
}

#[test]
fn accept_zero_clients_changes_nothing() {
    let mut hub = IpcServer::new("x");
    assert_eq!(hub.accept_clients(0), Vec::<u64>::new());
    assert_eq!(hub.client_count(), 0);
    assert_eq!(hub.accept_client(), Some(0));
}
