//! System-call forwarding queue. The instance posts system calls as
//! descriptor indices on a request ring; the host daemon takes them in
//! order, performs them and posts each index back on a response ring with
//! the descriptor's return value filled in. Ring positions are `u16`
//! counters that wrap; a position's slot is the counter masked by the
//! capacity (a power of two).
use vstd::prelude::*;

verus! {

/// One forwarded system call, as the instance wrote it.
#[derive(Debug, Clone, Copy)]
pub struct ScfDescriptor {
    pub sysno: u64,
    pub args: [u64; 6],
    pub ret: u64,
}

/// The daemon's side of a queue: the capacity mask and its two counters.
#[derive(Debug, Clone, Copy, PartialEq, Eq, Structural)]
pub struct SyscallQueueBuffer {
    pub capacity_mask: u16,
    /// Requests taken so far (wrapping).
    pub req_index_last: u16,
    /// Responses posted so far (wrapping).
    pub rsp_index_shadow: u16,
}

/// The slot of ring position `pos`.
pub open spec fn slot(mask: u16, pos: u16) -> int {
    (pos & mask) as int
}

proof fn lemma_slot_in_ring(mask: u16, pos: u16)
    ensures
        0 <= slot(mask, pos) <= mask,
{
    assert(pos & mask <= mask) by (bit_vector);
}

/// The counter after `pos` (wrapping).
pub open spec fn next_pos(pos: u16) -> u16 {
    ((pos as int + 1) % 0x1_0000) as u16
}

impl SyscallQueueBuffer {
    /// A queue of `capacity` slots whose response counter starts at
    /// `rsp_index`, with no request taken yet.
    pub fn new(capacity: u16, rsp_index: u16) -> (r: Self)
        requires
            capacity > 0,
        ensures
            r.capacity_mask == capacity - 1,
            r.req_index_last == 0,
            r.rsp_index_shadow == rsp_index,
    {
        SyscallQueueBuffer { capacity_mask: capacity - 1, req_index_last: 0, rsp_index_shadow: rsp_index }
    }

    /// Whether the instance has posted a request not yet taken, given the
    /// instance's request counter.
    pub fn has_request(&self, req_index: u16) -> (r: bool)
        ensures
            r == (self.req_index_last != req_index),
    {
        self.req_index_last != req_index
    }

    /// Takes the next request: the descriptor index at the next request
    /// slot, or `None` when all posted requests have been taken.
    pub fn pop_syscall_request(&mut self, req_index: u16, req_ring: &Vec<u16>) -> (r: Option<usize>)
        requires
            req_ring@.len() > old(self).capacity_mask,
        ensures
            final(self).capacity_mask == old(self).capacity_mask,
            final(self).rsp_index_shadow == old(self).rsp_index_shadow,
            old(self).req_index_last == req_index ==> r is None && final(self).req_index_last == old(self).req_index_last,
            old(self).req_index_last != req_index ==> {
                &&& r == Some(req_ring@[slot(old(self).capacity_mask, old(self).req_index_last)] as usize)
                &&& final(self).req_index_last == next_pos(old(self).req_index_last)
            },
    {
        if !self.has_request(req_index) {
            return None;
        }
        let last = self.req_index_last;
        let mask = self.capacity_mask;
        let pos = last & mask;
        assert(pos <= mask) by (bit_vector)
            requires
                pos == last & mask,
        ;
        let index = req_ring[pos as usize] as usize;
        self.req_index_last = self.req_index_last.wrapping_add(1);
        Some(index)
    }

    /// Posts the answer to the request at `index`: sets the descriptor's
    /// return value and puts `index` on the next response slot. Refused
    /// (`false`, nothing changed) for an index beyond the capacity.
    pub fn push_syscall_response(
        &mut self,
        index: usize,
        ret_val: u64,
        descs: &mut Vec<ScfDescriptor>,
        rsp_ring: &mut Vec<u16>,
    ) -> (r: bool)
        requires
            old(descs)@.len() > old(self).capacity_mask,
            old(rsp_ring)@.len() > old(self).capacity_mask,
        ensures
            r == (index <= old(self).capacity_mask),
            final(self).capacity_mask == old(self).capacity_mask,
            final(self).req_index_last == old(self).req_index_last,
            !r ==> *final(self) == *old(self) && final(descs)@ == old(descs)@ && final(rsp_ring)@ == old(rsp_ring)@,
            r ==> {
                &&& final(descs)@ == old(descs)@.update(index as int, ScfDescriptor { ret: ret_val, ..old(descs)@[index as int] })
                &&& final(rsp_ring)@ == old(rsp_ring)@.update(slot(old(self).capacity_mask, old(self).rsp_index_shadow), index as u16)
                &&& final(self).rsp_index_shadow == next_pos(old(self).rsp_index_shadow)
            },
    {
        if index > self.capacity_mask as usize {
            return false;
        }
        let mut d = descs[index];
        d.ret = ret_val;
        descs.set(index, d);
        let shadow = self.rsp_index_shadow;
        let mask = self.capacity_mask;
        let pos = shadow & mask;
        assert(pos <= mask) by (bit_vector)
            requires
                pos == shadow & mask,
        ;
        rsp_ring.set(pos as usize, index as u16);
        self.rsp_index_shadow = self.rsp_index_shadow.wrapping_add(1);
        true
    }
}

/// The value returned to the instance for a system call: the result, or
/// the negated error number.
pub open spec fn syscall_answer(res: Result<u64, i32>) -> u64 {
    match res {
        Ok(v) => v,
        Err(code) => ((0x1_0000_0000_0000_0000int - code as int) % 0x1_0000_0000_0000_0000int) as u64,
    }
}

/// Encodes a system-call outcome for the instance (see [`syscall_answer`]).
pub fn encode_syscall_answer(res: Result<u64, i32>) -> (r: u64)
    requires
        res matches Err(code) ==> code > 0,
    ensures
        r == syscall_answer(res),
{
    match res {
        Ok(v) => v,
        Err(code) => {
            let c = code as u64;
            0u64.wrapping_sub(c)
        },
    }
}

/// One request taken by [`poll`]: its descriptor index, system-call number
/// and arguments.
#[derive(Debug, Clone, Copy)]
pub struct ScfRequest {
    pub index: usize,
    pub sysno: u64,
    pub args: [u64; 6],
}

/// One step of the forwarding daemon: take the next request, if any, and
/// read its descriptor.
pub fn poll(queue: &mut SyscallQueueBuffer, req_index: u16, req_ring: &Vec<u16>, descs: &Vec<ScfDescriptor>) -> (r:
    Option<ScfRequest>)
    requires
        req_ring@.len() > old(queue).capacity_mask,
        forall|i: int| 0 <= i < req_ring@.len() ==> (#[trigger] req_ring@[i]) < descs@.len(),
    ensures
        final(queue).capacity_mask == old(queue).capacity_mask,
        final(queue).rsp_index_shadow == old(queue).rsp_index_shadow,
        old(queue).req_index_last == req_index ==> r is None && *final(queue) == *old(queue),
        old(queue).req_index_last != req_index ==> {
            let index = req_ring@[slot(old(queue).capacity_mask, old(queue).req_index_last)] as usize;
            &&& r == Some(ScfRequest { index, sysno: descs@[index as int].sysno, args: descs@[index as int].args })
            &&& final(queue).req_index_last == next_pos(old(queue).req_index_last)
        },
{
    proof {
        lemma_slot_in_ring(queue.capacity_mask, queue.req_index_last);
    }
    match queue.pop_syscall_request(req_index, req_ring) {
        None => None,
        Some(index) => {
            let d = descs[index];
            Some(ScfRequest { index, sysno: d.sysno, args: d.args })
        },
    }
}

/// Answers a request taken by [`poll`] with the outcome of performing it
/// (see [`encode_syscall_answer`]); `false` when the queue refused the
/// index.
pub fn answer(
    queue: &mut SyscallQueueBuffer,
    index: usize,
    res: Result<u64, i32>,
    descs: &mut Vec<ScfDescriptor>,
    rsp_ring: &mut Vec<u16>,
) -> (r: bool)
    requires
        res matches Err(code) ==> code > 0,
        old(descs)@.len() > old(queue).capacity_mask,
        old(rsp_ring)@.len() > old(queue).capacity_mask,
    ensures
        r == (index <= old(queue).capacity_mask),
        r ==> {
            &&& final(descs)@ == old(descs)@.update(index as int, ScfDescriptor { ret: syscall_answer(res), ..old(descs)@[index as int] })
            &&& final(rsp_ring)@ == old(rsp_ring)@.update(slot(old(queue).capacity_mask, old(queue).rsp_index_shadow), index as u16)
            &&& final(queue).rsp_index_shadow == next_pos(old(queue).rsp_index_shadow)
            &&& final(queue).req_index_last == old(queue).req_index_last
        },
        !r ==> *final(queue) == *old(queue) && final(descs)@ == old(descs)@ && final(rsp_ring)@ == old(rsp_ring)@,
{
    let ans = encode_syscall_answer(res);
    queue.push_syscall_response(index, ans, descs, rsp_ring)
}

} // verus!
