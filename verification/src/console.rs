//! The microVM console: a pair of byte rings shared with the guest. The
//! guest writes its output into one ring and the host drains it; the host
//! puts keyboard input into the other. Both sides count with free-running
//! `u32` cursors; a byte's slot is its cursor modulo the ring size.
use vstd::prelude::*;

verus! {

/// Bytes of data in each direction of the console ring.
pub const MICROVM_CONSOLE_RING_DATA_SIZE: usize = 4096;

/// The value a valid console ring header starts with.
pub const MICROVM_CONSOLE_RING_MAGIC: u32 = 0x4e4f_4343;

/// The number of cursor values (`u32` wraps at this).
pub open spec fn cursor_span() -> int {
    0x1_0000_0000
}

/// How far `head` is ahead of `tail`, counting as the `u32` cursors wrap.
pub open spec fn ring_distance(tail: u32, head: u32) -> nat {
    ((head as int - tail as int + cursor_span()) % cursor_span()) as nat
}

/// The slot of the byte at cursor `tail + k`.
pub open spec fn ring_slot(tail: u32, k: int) -> int {
    ((tail as int + k) % cursor_span()) % (MICROVM_CONSOLE_RING_DATA_SIZE as int)
}

/// The bytes between cursors `tail` and `head`, oldest first.
pub open spec fn ring_bytes(data: Seq<u8>, tail: u32, head: u32) -> Seq<u8> {
    Seq::new(ring_distance(tail, head), |k: int| data[ring_slot(tail, k)])
}

/// The host's cursors on a console ring.
#[derive(Debug, Clone, Copy, PartialEq, Eq, Structural)]
pub struct MicroVmConsoleSession {
    /// The next guest-output byte the host will read.
    pub guest_to_host_tail: u32,
    /// The next input slot the host will fill.
    pub host_to_guest_head: u32,
}

/// What the host reads of a freshly mapped console ring's header.
#[derive(Debug, Clone, Copy, PartialEq, Eq, Structural)]
pub struct ConsoleRingHeader {
    pub magic: u32,
    pub guest_to_host_tail: u32,
    pub host_to_guest_head: u32,
}

/// Attaches to the console ring at `ring_gpa`. A zero address means the
/// instance has no console ring, and nothing is attached. Otherwise
/// `header` is what mapping the ring gave: the mapping error, or the
/// header, whose magic must match; the session starts at its cursors.
pub fn attach_console(ring_gpa: usize, header: Result<ConsoleRingHeader, String>) -> (r: Result<
    Option<MicroVmConsoleSession>,
    String,
>)
    ensures
        ring_gpa == 0 ==> r == Ok::<Option<MicroVmConsoleSession>, String>(None),
        ring_gpa != 0 ==> match header {
            Err(e) => r is Err && r->Err_0@ == e@,
            Ok(h) => if h.magic != MICROVM_CONSOLE_RING_MAGIC {
                r is Err && r->Err_0@ == "microVM console ring magic mismatch"@
            } else {
                r == Ok::<Option<MicroVmConsoleSession>, String>(Some(MicroVmConsoleSession {
                    guest_to_host_tail: h.guest_to_host_tail,
                    host_to_guest_head: h.host_to_guest_head,
                }))
            },
        },
{
    if ring_gpa == 0 {
        return Ok(None);
    }
    match header {
        Err(e) => Err(e),
        Ok(h) => {
            if h.magic != MICROVM_CONSOLE_RING_MAGIC {
                let mut m = String::new();
                crate::text::push_str(&mut m, "microVM console ring magic mismatch");
                Err(m)
            } else {
                Ok(Some(MicroVmConsoleSession {
                    guest_to_host_tail: h.guest_to_host_tail,
                    host_to_guest_head: h.host_to_guest_head,
                }))
            }
        },
    }
}

/// The shared ring as the host sees it at one poll.
#[derive(Debug, Clone)]
pub struct ConsoleRingView {
    /// Where the guest's next output byte will go.
    pub guest_to_host_head: u32,
    /// The guest-output data area.
    pub guest_to_host: Vec<u8>,
    /// The guest's cursors on the input direction.
    pub host_to_guest_head: u32,
    pub host_to_guest_tail: u32,
}

/// What the host does with one byte of keyboard input.
#[derive(Debug, Clone, Copy, PartialEq, Eq, Structural)]
pub enum ConsoleInput {
    /// The input ring is full: the byte is counted as dropped.
    Dropped,
    /// Store `byte` at `slot` of the input data area, then publish `head`
    /// as the new input head.
    Store { slot: usize, byte: u8, head: u32 },
}

/// The effects of one console poll.
#[derive(Debug, Clone)]
pub struct ConsolePoll {
    /// Guest output to write to the terminal, in order.
    pub output: Vec<u8>,
    /// The output tail to publish back to the guest.
    pub guest_to_host_tail: u32,
    /// What to do with the input byte, if one was read.
    pub input: Option<ConsoleInput>,
}

/// What one input byte does, given the host's input cursor and the ring's
/// input cursors.
pub open spec fn input_effect(host_head: u32, ring_head: u32, ring_tail: u32, byte: u8) -> ConsoleInput {
    if ring_distance(ring_tail, ring_head) >= MICROVM_CONSOLE_RING_DATA_SIZE {
        ConsoleInput::Dropped
    } else {
        ConsoleInput::Store {
            slot: (host_head as int % MICROVM_CONSOLE_RING_DATA_SIZE as int) as usize,
            byte,
            head: ((host_head as int + 1) % cursor_span()) as u32,
        }
    }
}

fn cursor_gap(tail: u32, head: u32) -> (r: u32)
    ensures
        r == ring_distance(tail, head),
{
    head.wrapping_sub(tail)
}

/// One poll of the console: drain all guest output between the session's
/// tail and the ring's head, then handle the keyboard byte read, if any.
pub fn poll_console_once(session: &mut MicroVmConsoleSession, ring: &ConsoleRingView, input: Option<u8>) -> (r:
    ConsolePoll)
    requires
        ring.guest_to_host@.len() == MICROVM_CONSOLE_RING_DATA_SIZE,
    ensures
        r.output@ == ring_bytes(ring.guest_to_host@, old(session).guest_to_host_tail, ring.guest_to_host_head),
        r.guest_to_host_tail == ring.guest_to_host_head,
        final(session).guest_to_host_tail == ring.guest_to_host_head,
        match input {
            None => r.input is None && final(session).host_to_guest_head == old(session).host_to_guest_head,
            Some(b) => {
                let e = input_effect(old(session).host_to_guest_head, ring.host_to_guest_head, ring.host_to_guest_tail, b);
                &&& r.input == Some(e)
                &&& final(session).host_to_guest_head == match e {
                    ConsoleInput::Store { head, .. } => head,
                    ConsoleInput::Dropped => old(session).host_to_guest_head,
                }
            },
        },
{
    let ghost start = session.guest_to_host_tail;
    let head = ring.guest_to_host_head;
    let mut out: Vec<u8> = Vec::new();
    let mut t = session.guest_to_host_tail;
    while t != head
        invariant
            ring.guest_to_host@.len() == MICROVM_CONSOLE_RING_DATA_SIZE,
            ring_distance(start, t) + ring_distance(t, head) == ring_distance(start, head),
            out@ == ring_bytes(ring.guest_to_host@, start, t),
        decreases ring_distance(t, head),
    {
        let slot = (t as usize) % MICROVM_CONSOLE_RING_DATA_SIZE;
        proof {
            assert(ring_distance(start, t) < ring_distance(start, head));
            assert(slot == ring_slot(start, ring_distance(start, t) as int));
        }
        out.push(ring.guest_to_host[slot]);
        let ghost prev = t;
        t = t.wrapping_add(1);
        proof {
            assert(ring_distance(start, t) == ring_distance(start, prev) + 1);
            assert(out@ =~= ring_bytes(ring.guest_to_host@, start, t));
        }
    }
    session.guest_to_host_tail = head;
    let action = match input {
        None => None,
        Some(b) => {
            let used = cursor_gap(ring.host_to_guest_tail, ring.host_to_guest_head);
            if used as usize >= MICROVM_CONSOLE_RING_DATA_SIZE {
                Some(ConsoleInput::Dropped)
            } else {
                let slot = (session.host_to_guest_head as usize) % MICROVM_CONSOLE_RING_DATA_SIZE;
                session.host_to_guest_head = session.host_to_guest_head.wrapping_add(1);
                Some(ConsoleInput::Store { slot, byte: b, head: session.host_to_guest_head })
            }
        },
    };
    ConsolePoll { output: out, guest_to_host_tail: head, input: action }
}

/// Draining in two polls gives the same bytes, in the same order, as
/// draining in one: for any cursor `mid` on the way from `tail` to `head`,
/// the bytes up to `mid` followed by the bytes from `mid` are the bytes
/// from `tail` to `head`.
pub proof fn lemma_console_drain_split(data: Seq<u8>, tail: u32, mid: u32, head: u32)
    requires
        data.len() == MICROVM_CONSOLE_RING_DATA_SIZE,
        ring_distance(tail, mid) <= ring_distance(tail, head),
    ensures
        ring_bytes(data, tail, mid) + ring_bytes(data, mid, head) == ring_bytes(data, tail, head),
{
    let a = ring_distance(tail, mid) as int;
    assert(ring_distance(tail, mid) + ring_distance(mid, head) == ring_distance(tail, head));
    assert forall|k: int| 0 <= k < ring_distance(mid, head) implies ring_slot(mid, k) == ring_slot(tail, a + k) by {
        assert((mid as int + k) % cursor_span() == (tail as int + a + k) % cursor_span());
    }
    assert(ring_bytes(data, tail, mid) + ring_bytes(data, mid, head) =~= ring_bytes(data, tail, head));
}

} // verus!
