//! The bridge's channel plumbing: trusted declarations of the channel
//! endpoints, the per-tick exchange between the engine and its remote
//! clients, and the dispatcher state that routes responses back to the
//! connection each request came from.

use vstd::prelude::*;

use crate::bridge::{handle_request, Request, Response};

verus! {

/// crossbeam_channel::Sender, the sending end of a cross-thread channel,
/// declared so it can stand in signatures and fields; Verus sees nothing
/// inside a value of it.
#[verifier::external_type_specification]
#[verifier::external_body]
#[verifier::reject_recursive_types(T)]
pub struct ExSender<T>(crossbeam_channel::Sender<T>);

/// crossbeam_channel::Receiver, the receiving end of a cross-thread channel,
/// declared like the sender.
#[verifier::external_type_specification]
#[verifier::external_body]
#[verifier::reject_recursive_types(T)]
pub struct ExReceiver<T>(crossbeam_channel::Receiver<T>);

/// Relies on crossbeam_channel::Sender::send: it fails only when every
/// receiver is gone, and the error then carries the undelivered message back.
#[verifier::external_body]
pub(crate) fn channel_send<T>(tx: &crossbeam_channel::Sender<T>, msg: T) -> (r: Result<(), T>)
    ensures
        r matches Err(m) ==> m == msg,
{
    tx.send(msg).map_err(|e| e.0)
}

/// Relies on crossbeam_channel::Receiver::try_recv: non-blocking; what it
/// returns depends on the other threads, so nothing is promised of the value.
#[verifier::external_body]
pub(crate) fn channel_try_recv<T>(rx: &crossbeam_channel::Receiver<T>) -> (r: Option<T>) {
    rx.try_recv().ok()
}

/// Relies on crossbeam_channel::Receiver::recv: blocks until a message
/// arrives, and returns nothing only once the channel is empty with every
/// sender gone. What arrives depends on the other threads.
#[verifier::external_body]
pub(crate) fn channel_recv<T>(rx: &crossbeam_channel::Receiver<T>) -> (r: Option<T>) {
    rx.recv().ok()
}

/// One per-tick, non-blocking exchange with the bridge: repeatedly takes the
/// next available request, answers it against the external image (the policy
/// proved on `bridge::handle_request`), and sends the response back. The pass
/// ends when the channel runs empty, after the first in-range write (so the
/// next tick observes it before further reads), or after `max` requests,
/// keeping one tick's work bounded. An undeliverable response is dropped.
#[verifier::loop_isolation(false)]
pub fn data_exchange<T>(
    requests: &crossbeam_channel::Receiver<Request<T>>,
    responses: &crossbeam_channel::Sender<Response<T>>,
    image: &mut Vec<u8>,
    max: usize,
)
    ensures
        final(image)@.len() == old(image)@.len(),
{
    let mut i: usize = 0;
    while i < max
        invariant
            image@.len() == old(image)@.len(),
        decreases max - i,
    {
        let req = match channel_try_recv(requests) {
            None => {
                return;
            },
            Some(q) => q,
        };
        // A request whose payload length disagrees with its count never comes
        // out of this library's parsers; one is dropped rather than answered.
        let wf = match &req.write {
            Some(bytes) => bytes.len() == req.count,
            None => true,
        };
        if wf {
            let stopper = match &req.write {
                Some(_) => req.count <= image.len() && req.addr <= image.len() - req.count,
                None => false,
            };
            let resp = handle_request(req, image);
            let _ = channel_send(responses, resp);
            if stopper {
                return;
            }
        }
        i = i + 1;
    }
}

// ---------------------------------------------------------------------------
// Dispatcher
// ---------------------------------------------------------------------------

/// The choice of running without an external server: no listener is started
/// and the engine never exchanges data with remote clients.
pub struct NoServer;

/// What a connection handler tells the dispatcher.
#[verifier::reject_recursive_types(T)]
pub enum HandlerEvent<T> {
    /// A parsed client request to forward to the engine.
    Request(Request<T>),
    /// A new connection: its handler id and the channel its replies go to.
    New((usize, crossbeam_channel::Sender<Response<T>>)),
    /// The connection with this handler id is gone.
    Finished(usize),
}

/// First position of `id` among the table entries; the length when absent.
pub open spec fn find_id<T>(
    entries: Seq<(usize, crossbeam_channel::Sender<Response<T>>)>,
    id: usize,
) -> int
    decreases entries.len(),
{
    if entries.len() == 0 {
        0
    } else if entries.first().0 == id {
        0
    } else {
        1 + find_id(entries.drop_first(), id)
    }
}

pub proof fn lemma_find_id_bounds<T>(
    entries: Seq<(usize, crossbeam_channel::Sender<Response<T>>)>,
    id: usize,
)
    ensures
        0 <= find_id(entries, id) <= entries.len(),
        find_id(entries, id) < entries.len() ==> entries[find_id(entries, id)].0 == id,
        forall|k: int| 0 <= k < find_id(entries, id) ==> (#[trigger] entries[k]).0 != id,
    decreases entries.len(),
{
    if entries.len() > 0 && entries.first().0 != id {
        lemma_find_id_bounds(entries.drop_first(), id);
        assert forall|k: int| 0 <= k < find_id(entries, id) implies (#[trigger] entries[k]).0
            != id by {
            if k > 0 {
                assert(entries.drop_first()[k - 1] == entries[k]);
            }
        }
        if find_id(entries, id) < entries.len() {
            assert(entries.drop_first()[find_id(entries, id) - 1] == entries[find_id(
                entries,
                id,
            )]);
        }
    }
}

/// Handler id → reply channel, with each id held at most once: the
/// dispatcher's routing table.
#[verifier::reject_recursive_types(T)]
pub struct HandlerTable<T> {
    pub entries: Vec<(usize, crossbeam_channel::Sender<Response<T>>)>,
}

/// Each handler id appears at most once.
pub open spec fn table_wf<T>(
    entries: Seq<(usize, crossbeam_channel::Sender<Response<T>>)>,
) -> bool {
    forall|i: int, j: int|
        0 <= i < j < entries.len() ==> (#[trigger] entries[i]).0 != (#[trigger] entries[j]).0
}

impl<T> HandlerTable<T> {
    pub open spec fn wf(&self) -> bool {
        table_wf(self.entries@)
    }

    pub fn new() -> (t: Self)
        ensures
            t.wf(),
            t.entries@.len() == 0,
    {
        HandlerTable { entries: Vec::new() }
    }

    /// Registers the reply channel of handler `id`, replacing any it had.
    #[verifier::loop_isolation(false)]
    pub fn insert(&mut self, id: usize, tx: crossbeam_channel::Sender<Response<T>>)
        requires
            old(self).wf(),
        ensures
            final(self).wf(),
            ({
                let k = find_id(old(self).entries@, id);
                if k < old(self).entries@.len() {
                    final(self).entries@ == old(self).entries@.update(k, (id, tx))
                } else {
                    final(self).entries@ == old(self).entries@.push((id, tx))
                }
            }),
    {
        proof {
            lemma_find_id_bounds(self.entries@, id);
        }
        let mut i: usize = 0;
        let n = self.entries.len();
        while i < n
            invariant
                0 <= i <= n,
                self.entries@ == old(self).entries@,
                n == self.entries@.len(),
                forall|k: int| 0 <= k < i ==> (#[trigger] self.entries@[k]).0 != id,
            decreases n - i,
        {
            if self.entries[i].0 == id {
                proof {
                    lemma_find_id_skip(self.entries@, id, i as int);
                }
                self.entries.set(i, (id, tx));
                return;
            }
            i = i + 1;
        }
        proof {
            lemma_find_id_skip(self.entries@, id, n as int);
        }
        self.entries.push((id, tx));
    }

    /// Drops the entry of handler `id`, if any.
    #[verifier::loop_isolation(false)]
    pub fn remove(&mut self, id: usize)
        requires
            old(self).wf(),
        ensures
            final(self).wf(),
            ({
                let k = find_id(old(self).entries@, id);
                if k < old(self).entries@.len() {
                    final(self).entries@ == old(self).entries@.remove(k)
                } else {
                    final(self).entries@ == old(self).entries@
                }
            }),
    {
        proof {
            lemma_find_id_bounds(self.entries@, id);
        }
        let mut i: usize = 0;
        let n = self.entries.len();
        while i < n
            invariant
                0 <= i <= n,
                self.entries@ == old(self).entries@,
                n == self.entries@.len(),
                forall|k: int| 0 <= k < i ==> (#[trigger] self.entries@[k]).0 != id,
            decreases n - i,
        {
            if self.entries[i].0 == id {
                proof {
                    lemma_find_id_skip(self.entries@, id, i as int);
                }
                self.entries.remove(i);
                return;
            }
            i = i + 1;
        }
        proof {
            lemma_find_id_skip(self.entries@, id, n as int);
        }
    }

    /// The reply channel of handler `id`, if registered.
    #[verifier::loop_isolation(false)]
    pub fn get(&self, id: usize) -> (r: Option<&crossbeam_channel::Sender<Response<T>>>)
        ensures
            ({
                let k = find_id(self.entries@, id);
                if k < self.entries@.len() {
                    r matches Some(tx) && *tx == self.entries@[k].1
                } else {
                    r is None
                }
            }),
    {
        proof {
            lemma_find_id_bounds(self.entries@, id);
        }
        let mut i: usize = 0;
        let n = self.entries.len();
        while i < n
            invariant
                0 <= i <= n,
                forall|k: int| 0 <= k < i ==> (#[trigger] self.entries@[k]).0 != id,
            decreases n - i,
        {
            if self.entries[i].0 == id {
                proof {
                    lemma_find_id_skip(self.entries@, id, i as int);
                }
                return Some(&self.entries[i].1);
            }
            i = i + 1;
        }
        proof {
            lemma_find_id_skip(self.entries@, id, n as int);
        }
        None
    }
}

proof fn lemma_find_id_skip<T>(
    entries: Seq<(usize, crossbeam_channel::Sender<Response<T>>)>,
    id: usize,
    i: int,
)
    requires
        0 <= i <= entries.len(),
        forall|k: int| 0 <= k < i ==> (#[trigger] entries[k]).0 != id,
    ensures
        i < entries.len() && entries[i].0 == id ==> find_id(entries, id) == i,
        i == entries.len() ==> find_id(entries, id) >= entries.len(),
    decreases i,
{
    lemma_find_id_bounds(entries, id);
    if i < entries.len() && entries[i].0 == id {
        if find_id(entries, id) < i {
            assert(entries[find_id(entries, id)].0 == id);
            assert(false);
        }
        if find_id(entries, id) > i {
            assert((#[trigger] entries[i]).0 != id);
            assert(false);
        }
    } else if i == entries.len() {
        if find_id(entries, id) < entries.len() {
            assert(entries[find_id(entries, id)].0 == id);
            assert(false);
        }
    }
}

/// One dispatcher step: consumes one handler event. A new handler is entered
/// into the table, a finished one leaves it. A request is forwarded to the
/// engine; relying on the engine answering exactly one response per request
/// in submission order, the dispatcher then waits for that one response and
/// routes it to the originating handler by its id (dropping it when that
/// handler is already gone). The table is untouched by a request.
pub fn dispatch_event<T>(
    table: &mut HandlerTable<T>,
    to_plc: &crossbeam_channel::Sender<Request<T>>,
    from_plc: &crossbeam_channel::Receiver<Response<T>>,
    event: HandlerEvent<T>,
)
    requires
        old(table).wf(),
    ensures
        final(table).wf(),
        event matches HandlerEvent::Request(_) ==> final(table).entries@ == old(table).entries@,
        event matches HandlerEvent::New((id, tx)) ==> ({
            let k = find_id(old(table).entries@, id);
            if k < old(table).entries@.len() {
                final(table).entries@ == old(table).entries@.update(k, (id, tx))
            } else {
                final(table).entries@ == old(table).entries@.push((id, tx))
            }
        }),
        event matches HandlerEvent::Finished(id) ==> ({
            let k = find_id(old(table).entries@, id);
            if k < old(table).entries@.len() {
                final(table).entries@ == old(table).entries@.remove(k)
            } else {
                final(table).entries@ == old(table).entries@
            }
        }),
{
    match event {
        HandlerEvent::New((id, tx)) => {
            table.insert(id, tx);
        },
        HandlerEvent::Finished(id) => {
            table.remove(id);
        },
        HandlerEvent::Request(req) => {
            let hid = req.hid;
            match channel_send(to_plc, req) {
                Err(_) => {},
                Ok(()) => {
                    match channel_recv(from_plc) {
                        None => {},
                        Some(resp) => {
                            match table.get(hid) {
                                None => {},
                                Some(tx) => {
                                    let _ = channel_send(tx, resp);
                                },
                            }
                        },
                    }
                },
            }
        },
    }
}

} // verus!
