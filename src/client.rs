use crate::buffer::RingBuffer;
use crate::command::{encoding, Command};
use crate::telemetry::{REQUEST_HEADER_LEN, RESPONSE_HEADER_LEN};
use vstd::prelude::*;
use vstd::slice::slice_to_vec;

verus! {

/// A complete response frame (length byte, type byte, that many payload bytes) is queued.
pub open spec fn response_ready(q: Seq<u8>) -> bool {
    q.len() > 0 && q.len() >= q[0] + RESPONSE_HEADER_LEN
}

/// Queues the request frame `[length][command bytes]`. A command that does not fit in
/// the free space is dropped and nothing changes. Returns whether it was queued.
pub fn enqueue_command<const N: usize>(tx_buffer: &mut RingBuffer<N>, command: &Command) -> (queued: bool)
    requires
        old(tx_buffer).wf(),
    ensures
        final(tx_buffer).wf(),
        queued == (encoding(*command).len() + REQUEST_HEADER_LEN <= N - old(tx_buffer)@.len()),
        queued ==> final(tx_buffer)@ == old(tx_buffer)@ + seq![encoding(*command).len() as u8]
            + encoding(*command),
        !queued ==> final(tx_buffer)@ == old(tx_buffer)@,
{
    let len = command.buf_len();
    if tx_buffer.free_len() < len + REQUEST_HEADER_LEN {
        return false;
    }
    let mut bytes: Vec<u8> = Vec::new();
    while bytes.len() < len
        invariant
            bytes@.len() <= len,
        decreases len - bytes@.len(),
    {
        bytes.push(0);
    }
    command.write(bytes.as_mut_slice());
    let ghost start = tx_buffer@;
    let _ = tx_buffer.enqueue_one(len as u8);
    let mut i: usize = 0;
    while i < len
        invariant
            tx_buffer.wf(),
            i <= len,
            len == bytes@.len(),
            bytes@ == encoding(*command),
            start.len() + REQUEST_HEADER_LEN + len <= N,
            tx_buffer@ == start + seq![len as u8] + bytes@.subrange(0, i as int),
        decreases len - i,
    {
        let _ = tx_buffer.enqueue_one(bytes[i]);
        proof {
            assert(bytes@.subrange(0, i as int).push(bytes@[i as int]) =~= bytes@.subrange(0, i + 1));
        }
        i = i + 1;
    }
    proof {
        assert(bytes@.subrange(0, i as int) =~= bytes@);
    }
    true
}

/// Takes the next complete response frame off the inbound bytes: its type byte and
/// its payload. `None` while no complete frame is queued.
pub fn next_response<const N: usize>(rx_buffer: &mut RingBuffer<N>) -> (r: Option<(u8, Vec<u8>)>)
    requires
        old(rx_buffer).wf(),
    ensures
        final(rx_buffer).wf(),
        response_ready(old(rx_buffer)@) ==> r is Some && r->Some_0.0 == old(rx_buffer)@[1]
            && r->Some_0.1@ == old(rx_buffer)@.subrange(2, 2 + old(rx_buffer)@[0])
            && final(rx_buffer)@ == old(rx_buffer)@.subrange(
            2 + old(rx_buffer)@[0],
            old(rx_buffer)@.len() as int,
        ),
        !response_ready(old(rx_buffer)@) ==> r is None && final(rx_buffer)@ == old(rx_buffer)@,
{
    match rx_buffer.peek_one() {
        None => None,
        Some(len) => {
            if rx_buffer.len() >= len as usize + RESPONSE_HEADER_LEN {
                let ghost q = rx_buffer@;
                let _ = rx_buffer.dequeue_one();
                let response_type = match rx_buffer.dequeue_one() {
                    Some(t) => t,
                    None => 0,
                };
                rx_buffer.congestion_alloced(len as usize);
                let payload = rx_buffer.dequeue_with(len as usize, slice_to_vec::<u8>);
                proof {
                    assert(q.drop_first().drop_first().subrange(0, len as int) =~= q.subrange(
                        2,
                        2 + len,
                    ));
                    assert(q.drop_first().drop_first().subrange(len as int, q.len() - 2)
                        =~= q.subrange(2 + len, q.len() as int));
                }
                Some((response_type, payload))
            } else {
                None
            }
        },
    }
}

} // verus!
