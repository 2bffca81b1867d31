//! The access bridge: byte-range requests from remote clients against the
//! engine-owned external image, and the non-blocking per-tick drain policy.

use vstd::prelude::*;

verus! {

/// Error code answered for a request whose range exceeds the image.
pub const RANGE_ERROR: u8 = 2;

/// One byte-range request against the external image. `extra` carries
/// whatever a wire-protocol handler needs to frame the reply.
#[derive(Debug)]
pub struct Request<T> {
    pub hid: usize,
    pub addr: usize,
    pub count: usize,
    pub write: Option<Vec<u8>>,
    pub extra: T,
}

/// The bridge's answer to one request: the request handed back together with
/// the bytes read or echoed, or an error code.
#[derive(Debug)]
pub enum Response<T> {
    Data(Request<T>, Vec<u8>),
    Error(Request<T>, u8),
}

/// A well-formed request carries exactly `count` bytes when it is a write.
pub open spec fn req_wf<T>(req: Request<T>) -> bool {
    req.write matches Some(bytes) ==> bytes@.len() == req.count
}

/// The request as it is echoed after its write payload was consumed.
pub open spec fn write_consumed<T>(req: Request<T>, r: Request<T>) -> bool {
    &&& r.hid == req.hid
    &&& r.addr == req.addr
    &&& r.count == req.count
    &&& r.write is None
    &&& r.extra == req.extra
}

/// The image after `bytes` were copied to `[addr, addr + bytes.len())`.
pub open spec fn written(img: Seq<u8>, addr: int, bytes: Seq<u8>) -> Seq<u8> {
    img.subrange(0, addr) + bytes + img.subrange(addr + bytes.len(), img.len() as int)
}

/// The one correct answer to `req` against image contents `img`: an
/// out-of-range request gets `Error(RANGE_ERROR)` and nothing else, never a
/// partial result; an in-range write is echoed back; an in-range read gets
/// the addressed bytes.
pub open spec fn response_matches<T>(resp: Response<T>, req: Request<T>, img: Seq<u8>) -> bool {
    if req.addr + req.count > img.len() {
        resp matches Response::Error(r, code) && r == req && code == RANGE_ERROR
    } else {
        match req.write {
            Some(bytes) => resp matches Response::Data(r, vals) && write_consumed(req, r) && vals
                == bytes,
            None => resp matches Response::Data(r, vals) && r == req && vals@ == img.subrange(
                req.addr as int,
                req.addr + req.count,
            ),
        }
    }
}

/// Whether the image changes when `req` is answered against an image of
/// `size` bytes: only an in-range write does. An in-range write is also what
/// ends a drain pass.
pub open spec fn stops_drain<T>(req: Request<T>, size: int) -> bool {
    req.write is Some && req.addr + req.count <= size
}

/// Answers one request against the external image.
#[verifier::loop_isolation(false)]
pub fn handle_request<T>(req: Request<T>, image: &mut Vec<u8>) -> (resp: Response<T>)
    requires
        req_wf(req),
    ensures
        response_matches(resp, req, old(image)@),
        stops_drain(req, old(image)@.len() as int) ==> final(image)@ == written(
            old(image)@,
            req.addr as int,
            req.write->Some_0@,
        ),
        !stops_drain(req, old(image)@.len() as int) ==> final(image)@ == old(image)@,
        final(image)@.len() == old(image)@.len(),
{
    let size = image.len();
    if req.count > size || req.addr > size - req.count {
        return Response::Error(req, RANGE_ERROR);
    }
    let Request { hid, addr, count, write, extra } = req;
    match write {
        Some(bytes) => {
            let mut i: usize = 0;
            while i < count
                invariant
                    0 <= i <= count,
                    image@.len() == old(image)@.len(),
                    forall|k: int| 0 <= k < i ==> image@[addr + k] == #[trigger] bytes@[k],
                    forall|k: int|
                        0 <= k < image@.len() && !(addr <= k < addr + i) ==> #[trigger] image@[k]
                            == old(image)@[k],
                decreases count - i,
            {
                image.set(addr + i, bytes[i]);
                i = i + 1;
            }
            proof {
                assert(image@ =~= written(old(image)@, addr as int, bytes@));
            }
            Response::Data(Request { hid, addr, count, write: None, extra }, bytes)
        },
        None => {
            let mut vals: Vec<u8> = Vec::new();
            let mut i: usize = 0;
            while i < count
                invariant
                    0 <= i <= count,
                    vals@.len() == i,
                    forall|k: int| 0 <= k < i ==> #[trigger] vals@[k] == image@[addr + k],
                decreases count - i,
            {
                vals.push(image[addr + i]);
                i = i + 1;
            }
            proof {
                assert(vals@ =~= image@.subrange(addr as int, addr + count));
            }
            Response::Data(Request { hid, addr, count, write: None, extra }, vals)
        },
    }
}

/// 0-based position of the request that ends a drain pass (the first in-range
/// write); the queue length when none does.
pub open spec fn drain_stop_at<T>(reqs: Seq<Request<T>>, size: int) -> int
    decreases reqs.len(),
{
    if reqs.len() == 0 {
        0
    } else if stops_drain(reqs.first(), size) {
        0
    } else {
        1 + drain_stop_at(reqs.drop_first(), size)
    }
}

/// 0-based position of the first write request of any kind; the queue length
/// when there is none.
pub open spec fn first_write_at<T>(reqs: Seq<Request<T>>) -> int
    decreases reqs.len(),
{
    if reqs.len() == 0 {
        0
    } else if reqs.first().write is Some {
        0
    } else {
        1 + first_write_at(reqs.drop_first())
    }
}

/// How many requests one drain pass answers: every request up to and
/// including the one that ends the pass, or the whole queue.
pub open spec fn drain_count<T>(reqs: Seq<Request<T>>, size: int) -> int {
    if drain_stop_at(reqs, size) < reqs.len() {
        drain_stop_at(reqs, size) + 1
    } else {
        reqs.len() as int
    }
}

pub proof fn lemma_drain_stop_at_bounds<T>(reqs: Seq<Request<T>>, size: int)
    ensures
        0 <= drain_stop_at(reqs, size) <= reqs.len(),
        drain_stop_at(reqs, size) < reqs.len() ==> stops_drain(
            reqs[drain_stop_at(reqs, size)],
            size,
        ),
        forall|j: int|
            0 <= j < drain_stop_at(reqs, size) ==> !stops_drain(#[trigger] reqs[j], size),
    decreases reqs.len(),
{
    if reqs.len() > 0 && !stops_drain(reqs.first(), size) {
        lemma_drain_stop_at_bounds(reqs.drop_first(), size);
        assert forall|j: int| 0 <= j < drain_stop_at(reqs, size) implies !stops_drain(
            #[trigger] reqs[j],
            size,
        ) by {
            if j > 0 {
                assert(reqs.drop_first()[j - 1] == reqs[j]);
            }
        }
        if drain_stop_at(reqs, size) < reqs.len() {
            assert(reqs.drop_first()[drain_stop_at(reqs, size) - 1] == reqs[drain_stop_at(
                reqs,
                size,
            )]);
        }
    }
}

pub proof fn lemma_first_write_at_bounds<T>(reqs: Seq<Request<T>>)
    ensures
        0 <= first_write_at(reqs) <= reqs.len(),
    decreases reqs.len(),
{
    if reqs.len() > 0 && !(reqs.first().write is Some) {
        lemma_first_write_at_bounds(reqs.drop_first());
    }
}

/// Drain termination in the terms of the queue alone: the pass ends at the
/// first write, provided that write (if there is one) addresses the image in
/// range. A queue whose first write is out of range is answered with an
/// error there and the pass continues past it.
pub proof fn lemma_drain_stops_at_first_write<T>(reqs: Seq<Request<T>>, size: int)
    requires
        first_write_at(reqs) < reqs.len() ==> reqs[first_write_at(reqs)].addr + reqs[first_write_at(
            reqs,
        )].count <= size,
    ensures
        drain_stop_at(reqs, size) == first_write_at(reqs),
    decreases reqs.len(),
{
    if reqs.len() > 0 {
        if reqs.first().write is Some {
        } else {
            let k = first_write_at(reqs.drop_first());
            lemma_first_write_at_bounds(reqs.drop_first());
            if k < reqs.drop_first().len() {
                assert(reqs.drop_first()[k] == reqs[k + 1]);
            }
            lemma_drain_stops_at_first_write(reqs.drop_first(), size);
        }
    }
}

/// One drain pass answers exactly `min(queue length, K)` requests, where `K`
/// is the 1-indexed position of the first write in the queue (the queue
/// length when it has no write) — provided that write, if there is one,
/// addresses the image in range.
pub proof fn lemma_drain_count_is_min<T>(reqs: Seq<Request<T>>, size: int)
    requires
        first_write_at(reqs) < reqs.len() ==> reqs[first_write_at(reqs)].addr + reqs[first_write_at(
            reqs,
        )].count <= size,
    ensures
        drain_count(reqs, size) == vstd::math::min(reqs.len() as int, first_write_at(reqs) + 1),
{
    lemma_drain_stops_at_first_write(reqs, size);
    lemma_first_write_at_bounds(reqs);
}

/// Round trip: once an in-range write of some bytes is answered, a read of
/// the same range against the updated image is answered with exactly those
/// bytes.
pub proof fn lemma_write_then_read_round_trip<T>(
    w: Request<T>,
    wr: Response<T>,
    r: Request<T>,
    rr: Response<T>,
    img: Seq<u8>,
)
    requires
        req_wf(w),
        w.write is Some,
        w.addr + w.count <= img.len(),
        response_matches(wr, w, img),
        r.write is None,
        r.addr == w.addr,
        r.count == w.count,
        response_matches(rr, r, written(img, w.addr as int, w.write->Some_0@)),
    ensures
        rr matches Response::Data(rq, vals) && vals@ == w.write->Some_0@,
{
    let img2 = written(img, w.addr as int, w.write->Some_0@);
    assert(img2.len() == img.len());
    assert(img2.subrange(r.addr as int, r.addr + r.count) =~= w.write->Some_0@);
}

/// One non-blocking drain pass over a queue of pending requests.
///
/// Requests are answered in arrival order. Reads and out-of-range requests
/// are answered and the pass continues; the first in-range write is copied
/// into the image, answered with an echo, and ends the pass, so per-tick work
/// stays bounded and the next tick observes the write before further reads.
/// Returns the responses in order and the requests the pass did not reach.
#[verifier::loop_isolation(false)]
pub fn drain_pending<T>(pending: Vec<Request<T>>, image: &mut Vec<u8>) -> (out: (
    Vec<Response<T>>,
    Vec<Request<T>>,
))
    requires
        forall|j: int| 0 <= j < pending@.len() ==> req_wf(#[trigger] pending@[j]),
    ensures
        final(image)@.len() == old(image)@.len(),
        out.0@.len() == drain_count(pending@, old(image)@.len() as int),
        out.1@ == pending@.skip(drain_count(pending@, old(image)@.len() as int)),
        forall|j: int|
            0 <= j < out.0@.len() ==> response_matches(
                #[trigger] out.0@[j],
                pending@[j],
                old(image)@,
            ),
        ({
            let stop = drain_stop_at(pending@, old(image)@.len() as int);
            if stop < pending@.len() {
                final(image)@ == written(
                    old(image)@,
                    pending@[stop].addr as int,
                    pending@[stop].write->Some_0@,
                )
            } else {
                final(image)@ == old(image)@
            }
        }),
{
    let ghost orig = pending@;
    let ghost size = old(image)@.len() as int;
    proof {
        lemma_drain_stop_at_bounds(orig, size);
        assert(orig.skip(0) =~= orig);
    }
    let mut pending = pending;
    let mut out: Vec<Response<T>> = Vec::new();
    let mut done = false;
    while !done && pending.len() > 0
        invariant
            out@.len() <= orig.len(),
            pending@ == orig.skip(out@.len() as int),
            forall|j: int|
                0 <= j < out@.len() ==> response_matches(#[trigger] out@[j], orig[j], old(image)@),
            !done ==> {
                &&& out@.len() <= drain_stop_at(orig, size)
                &&& image@ == old(image)@
            },
            done ==> {
                &&& out@.len() == drain_stop_at(orig, size) + 1
                &&& image@ == written(
                    old(image)@,
                    orig[drain_stop_at(orig, size)].addr as int,
                    orig[drain_stop_at(orig, size)].write->Some_0@,
                )
            },
            image@.len() == old(image)@.len(),
        decreases orig.len() - out@.len(), (if done { 0int } else { 1int }),
    {
        let ghost processed = out@.len() as int;
        let req = pending.remove(0);
        proof {
            assert(req == orig[processed]);
            assert(pending@ =~= orig.skip(processed + 1));
        }
        let is_stopper = match &req.write {
            Some(_) => req.count <= image.len() && req.addr <= image.len() - req.count,
            None => false,
        };
        proof {
            assert(is_stopper == stops_drain(orig[processed], size));
            if !is_stopper && processed == drain_stop_at(orig, size) {
                // the stop position is exactly the first stopping request
                assert(false);
            }
        }
        let resp = handle_request(req, image);
        out.push(resp);
        if is_stopper {
            done = true;
        }
    }
    proof {
        if !done {
            assert(out@.len() == orig.len());
            assert(drain_stop_at(orig, size) >= orig.len() || out@.len() > drain_stop_at(
                orig,
                size,
            ));
        }
        assert(out@.len() == drain_count(orig, size));
    }
    (out, pending)
}

} // verus!
