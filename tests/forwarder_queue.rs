use multisig::address::Address;
use multisig::forwarder_queue::{EsdtTokenPayment, ForwarderQueue, Payment, QueuedCallType};

fn to() -> Address {
    Address::repeat_byte(5)
}

fn kinds(q: &ForwarderQueue) -> Vec<QueuedCallType> {
    q.queued_calls().iter().map(|c| c.call_type).collect()
}

#[test]
fn test_queue_starts_empty() {
    let mut q = ForwarderQueue::init();
    assert!(q.queued_calls().is_empty());
    assert!(q.forward_queued_calls().is_empty());
}

#[test]
fn test_add_each_kind_in_order() {
    let mut q = ForwarderQueue::init();
    q.add_queued_call_sync(to(), b"a".to_vec(), vec![], Payment::Egld(1));
    q.add_queued_call_transfer_execute(to(), 5000, b"b".to_vec(), vec![vec![1]], Payment::Egld(0));
    q.add_queued_call_promise(to(), 7000, b"c".to_vec(), vec![], Payment::Egld(2));
    q.add_queued_call_legacy_async(to(), b"d".to_vec(), vec![], Payment::Egld(3));
    assert_eq!(
        kinds(&q),
        vec![
            QueuedCallType::Sync,
            QueuedCallType::TransferExecute,
            QueuedCallType::Promise,
            QueuedCallType::LegacyAsync
        ]
    );
    let gas: Vec<u64> = q.queued_calls().iter().map(|c| c.gas_limit).collect();
    assert_eq!(gas, vec![0, 5000, 7000, 0]);
}

#[test]
fn test_forward_all_without_legacy_async() {
    let mut q = ForwarderQueue::init();
    q.add_queued_call_sync(to(), b"first".to_vec(), vec![], Payment::Egld(10));
    q.add_queued_call(
        QueuedCallType::TransferExecute,
        to(),
        4000,
        b"second".to_vec(),
        vec![b"x".to_vec()],
        Payment::MultiEsdt(vec![EsdtTokenPayment {
            token_identifier: b"TOK-123456".to_vec(),
            token_nonce: 0,
            amount: 100,
        }]),
    );
    q.add_queued_call_promise(to(), 9000, b"third".to_vec(), vec![], Payment::Egld(0));
    let out = q.forward_queued_calls();
    let names: Vec<Vec<u8>> = out.iter().map(|c| c.endpoint_name.clone()).collect();
    assert_eq!(names, vec![b"first".to_vec(), b"second".to_vec(), b"third".to_vec()]);
    let gas: Vec<Option<u64>> = out.iter().map(|c| c.gas_limit_to_apply()).collect();
    assert_eq!(gas, vec![None, Some(4000), Some(9000)]);
    let callbacks: Vec<bool> = out.iter().map(|c| c.has_callback()).collect();
    assert_eq!(callbacks, vec![false, false, true]);
    match &out[1].payments {
        Payment::MultiEsdt(p) => {
            assert_eq!(p.len(), 1);
            assert_eq!(p[0].amount, 100);
        },
        Payment::Egld(_) => panic!("payment changed"),
    }
    assert!(q.queued_calls().is_empty());
}

#[test]
fn test_forward_stops_after_legacy_async() {
    let mut q = ForwarderQueue::init();
    q.add_queued_call_sync(to(), b"one".to_vec(), vec![], Payment::Egld(0));
    q.add_queued_call_legacy_async(to(), b"two".to_vec(), vec![], Payment::Egld(0));
    q.add_queued_call_sync(to(), b"three".to_vec(), vec![], Payment::Egld(0));
    let out = q.forward_queued_calls();
    assert_eq!(out.len(), 2);
    assert_eq!(out[1].call_type, QueuedCallType::LegacyAsync);
    assert_eq!(out[1].gas_limit_to_apply(), None);
    assert_eq!(kinds(&q), vec![QueuedCallType::Sync]);
    assert_eq!(q.queued_calls()[0].endpoint_name, b"three".to_vec());
    let rest = q.forward_queued_calls();
    assert_eq!(rest.len(), 1);
    assert!(q.queued_calls().is_empty());
}
