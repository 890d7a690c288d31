//! A queue of calls to other contracts, filled one call per transaction and
//! forwarded in one go.
use vstd::prelude::*;

use crate::address::Address;

verus! {

/// How a queued call is made when it is forwarded.
#[derive(Clone, Copy, Debug, PartialEq, Eq, Structural)]
pub enum QueuedCallType {
    /// A synchronous call on the destination's context.
    Sync,
    /// An asynchronous call that ends the current transaction.
    LegacyAsync,
    /// A transfer with execution, with an explicit gas limit.
    TransferExecute,
    /// An asynchronous call registered as a promise, with an explicit gas limit.
    Promise,
}

/// One fungible or semi-fungible token transfer.
#[derive(Debug)]
pub struct EsdtTokenPayment {
    pub token_identifier: Vec<u8>,
    pub token_nonce: u64,
    pub amount: u128,
}

/// The value attached to a call: either native currency or a list of token
/// transfers.
#[derive(Debug)]
pub enum Payment {
    Egld(u128),
    MultiEsdt(Vec<EsdtTokenPayment>),
}

/// A call waiting in the queue.
#[derive(Debug)]
pub struct QueuedCall {
    pub call_type: QueuedCallType,
    pub to: Address,
    pub gas_limit: u64,
    pub endpoint_name: Vec<u8>,
    pub args: Vec<Vec<u8>>,
    pub payments: Payment,
}

/// The number of calls, from the front of `q`, that one forwarding round
/// sends: all of them, unless a legacy asynchronous call ends the transaction
/// first, in which case the calls up to and including it.
pub open spec fn forwarded_len(q: Seq<QueuedCall>) -> nat
    decreases q.len(),
{
    if q.len() == 0 {
        0
    } else if q[0].call_type == QueuedCallType::LegacyAsync {
        1
    } else {
        1 + forwarded_len(q.drop_first())
    }
}

/// The gas limit that the forwarded call states: the queued one for transfers
/// with execution and promises; none for the other kinds, which run with the
/// gas that is left.
pub open spec fn spec_gas_limit_to_apply(c: QueuedCall) -> Option<u64> {
    match c.call_type {
        QueuedCallType::TransferExecute | QueuedCallType::Promise => Some(c.gas_limit),
        _ => None,
    }
}

impl QueuedCall {
    /// The gas limit to set on the call when it is forwarded.
    pub fn gas_limit_to_apply(&self) -> (r: Option<u64>)
        ensures
            r == spec_gas_limit_to_apply(*self),
    {
        match self.call_type {
            QueuedCallType::TransferExecute | QueuedCallType::Promise => Some(self.gas_limit),
            _ => None,
        }
    }

    /// Whether the call is registered with the queue's completion callback.
    pub fn has_callback(&self) -> (r: bool)
        ensures
            r == (self.call_type == QueuedCallType::Promise),
    {
        self.call_type == QueuedCallType::Promise
    }
}

/// The forwarding contract's state: the calls in the order in which they were
/// queued.
pub struct ForwarderQueue {
    queued_calls: Vec<QueuedCall>,
}

impl View for ForwarderQueue {
    type V = Seq<QueuedCall>;

    closed spec fn view(&self) -> Seq<QueuedCall> {
        self.queued_calls@
    }
}

impl ForwarderQueue {
    /// A queue with no calls.
    pub fn init() -> (r: ForwarderQueue)
        ensures
            r@ == Seq::<QueuedCall>::empty(),
    {
        ForwarderQueue { queued_calls: Vec::new() }
    }

    /// The queued calls, front first.
    pub fn queued_calls(&self) -> (r: &Vec<QueuedCall>)
        ensures
            r@ == self@,
    {
        &self.queued_calls
    }

    /// Queues a synchronous call.
    pub fn add_queued_call_sync(
        &mut self,
        to: Address,
        endpoint_name: Vec<u8>,
        args: Vec<Vec<u8>>,
        payments: Payment,
    )
        ensures
            final(self)@ == old(self)@.push(
                QueuedCall {
                    call_type: QueuedCallType::Sync,
                    to,
                    gas_limit: 0,
                    endpoint_name,
                    args,
                    payments,
                },
            ),
    {
        self.add_queued_call(QueuedCallType::Sync, to, 0, endpoint_name, args, payments);
    }

    /// Queues a legacy asynchronous call.
    pub fn add_queued_call_legacy_async(
        &mut self,
        to: Address,
        endpoint_name: Vec<u8>,
        args: Vec<Vec<u8>>,
        payments: Payment,
    )
        ensures
            final(self)@ == old(self)@.push(
                QueuedCall {
                    call_type: QueuedCallType::LegacyAsync,
                    to,
                    gas_limit: 0,
                    endpoint_name,
                    args,
                    payments,
                },
            ),
    {
        self.add_queued_call(QueuedCallType::LegacyAsync, to, 0, endpoint_name, args, payments);
    }

    /// Queues a transfer with execution, with the given gas limit.
    pub fn add_queued_call_transfer_execute(
        &mut self,
        to: Address,
        gas_limit: u64,
        endpoint_name: Vec<u8>,
        args: Vec<Vec<u8>>,
        payments: Payment,
    )
        ensures
            final(self)@ == old(self)@.push(
                QueuedCall {
                    call_type: QueuedCallType::TransferExecute,
                    to,
                    gas_limit,
                    endpoint_name,
                    args,
                    payments,
                },
            ),
    {
        self.add_queued_call(
            QueuedCallType::TransferExecute,
            to,
            gas_limit,
            endpoint_name,
            args,
            payments,
        );
    }

    /// Queues a promise, with the given gas limit.
    pub fn add_queued_call_promise(
        &mut self,
        to: Address,
        gas_limit: u64,
        endpoint_name: Vec<u8>,
        args: Vec<Vec<u8>>,
        payments: Payment,
    )
        ensures
            final(self)@ == old(self)@.push(
                QueuedCall {
                    call_type: QueuedCallType::Promise,
                    to,
                    gas_limit,
                    endpoint_name,
                    args,
                    payments,
                },
            ),
    {
        self.add_queued_call(QueuedCallType::Promise, to, gas_limit, endpoint_name, args, payments);
    }

    /// Queues a call of the given kind at the back of the queue. The payment
    /// is the one that came with the transaction that queues the call.
    pub fn add_queued_call(
        &mut self,
        call_type: QueuedCallType,
        to: Address,
        gas_limit: u64,
        endpoint_name: Vec<u8>,
        args: Vec<Vec<u8>>,
        payments: Payment,
    )
        ensures
            final(self)@ == old(self)@.push(
                QueuedCall { call_type, to, gas_limit, endpoint_name, args, payments },
            ),
    {
        self.queued_calls.push(QueuedCall { call_type, to, gas_limit, endpoint_name, args, payments });
    }

    /// Takes calls from the front of the queue, in order, and returns them to
    /// be made. It stops after the first legacy asynchronous call, since that
    /// call ends the transaction; the calls behind it stay queued.
    pub fn forward_queued_calls(&mut self) -> (r: Vec<QueuedCall>)
        ensures
            r@ == old(self)@.take(forwarded_len(old(self)@) as int),
            final(self)@ == old(self)@.skip(forwarded_len(old(self)@) as int),
    {
        let ghost start = self@;
        let mut out: Vec<QueuedCall> = Vec::new();
        proof {
            lemma_forwarded_len_bounded(start);
        }
        while self.queued_calls.len() > 0
            invariant_except_break
                out@ + self@ == start,
                forall|i: int|
                    0 <= i < out@.len() ==> #[trigger] out@[i].call_type
                        != QueuedCallType::LegacyAsync,
                forwarded_len(start) == out@.len() + forwarded_len(self@),
            ensures
                out@ + self@ == start,
                out@.len() == forwarded_len(start),
            decreases self@.len(),
        {
            proof {
                lemma_forwarded_len_bounded(self@);
            }
            let call = self.queued_calls.remove(0);
            let stop = call.call_type == QueuedCallType::LegacyAsync;
            out.push(call);
            proof {
                assert(out@ + self@ =~= start);
            }
            if stop {
                break;
            }
        }
        proof {
            assert(out@ =~= start.take(forwarded_len(start) as int));
            assert(self@ =~= start.skip(forwarded_len(start) as int));
        }
        out
    }
}

/// A forwarding round never sends more calls than are queued.
proof fn lemma_forwarded_len_bounded(q: Seq<QueuedCall>)
    ensures
        forwarded_len(q) <= q.len(),
        q.len() > 0 ==> forwarded_len(q) >= 1,
    decreases q.len(),
{
    if q.len() > 0 && q[0].call_type != QueuedCallType::LegacyAsync {
        lemma_forwarded_len_bounded(q.drop_first());
    }
}

} // verus!
