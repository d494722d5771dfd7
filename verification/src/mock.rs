//! A recording kernel for exercising the runtime.
//!
//! `MockKernel` implements [`Syscalls`] entirely inside the crate: it records
//! every call it is handed and answers from a programmable queue of replies
//! (falling back to the plain success reply once the queue is spent). Its
//! ghost log is, provably, just the view of its recorded calls, so a test can
//! observe at run time exactly what the contracts speak of.

use vstd::prelude::*;

use crate::abi::{Reply, SUCCESS};
use crate::boundary::{AllowClass, CallbackBinding, Event, Syscalls};

verus! {

/// One recorded syscall, the executable mirror of [`Event`].
#[derive(Clone, Debug)]
pub enum Call {
    Command { driver: u32, cmd: u32, arg0: u32, arg1: u32, reply: Reply },
    Allow { class: AllowClass, driver: u32, slot: u32, data: Vec<u8>, reply: Reply },
    Subscribe { driver: u32, slot: u32, binding: CallbackBinding, reply: Reply },
    Yield,
}

impl Call {
    /// The event a recorded call stands for.
    pub open spec fn event(self) -> Event {
        match self {
            Call::Command { driver, cmd, arg0, arg1, reply } => Event::Command {
                driver,
                cmd,
                arg0,
                arg1,
                reply,
            },
            Call::Allow { class, driver, slot, data, reply } => Event::Allow {
                class,
                driver,
                slot,
                data: data@,
                reply,
            },
            Call::Subscribe { driver, slot, binding, reply } => Event::Subscribe {
                driver,
                slot,
                binding,
                reply,
            },
            Call::Yield => Event::Yield,
        }
    }
}

/// The events a sequence of recorded calls stands for.
pub open spec fn events_of(calls: Seq<Call>) -> Seq<Event> {
    calls.map_values(|c: Call| c.event())
}

proof fn lemma_events_of_push(calls: Seq<Call>, c: Call)
    ensures
        events_of(calls.push(c)) == events_of(calls).push(c.event()),
{
    assert(events_of(calls.push(c)) =~= events_of(calls).push(c.event()));
}

/// Copy a byte slice into an owned buffer.
fn copy_bytes(data: &[u8]) -> (v: Vec<u8>)
    ensures
        v@ == data@,
{
    let mut v: Vec<u8> = Vec::new();
    let mut i: usize = 0;
    while i < data.len()
        invariant
            i <= data@.len(),
            v@ == data@.subrange(0, i as int),
        decreases data@.len() - i,
    {
        v.push(data[i]);
        i = i + 1;
    }
    assert(v@ =~= data@);
    v
}

/// A kernel double that records every syscall and answers from a programmed
/// queue of replies.
pub struct MockKernel {
    /// Every syscall received so far, in order.
    pub calls: Vec<Call>,
    /// Replies to hand out, front to back.
    pub replies: Vec<Reply>,
    /// How many programmed replies were already handed out.
    pub served: usize,
}

impl MockKernel {
    /// A kernel that answers every call with the plain success reply.
    pub fn new() -> (k: MockKernel)
        ensures
            k.log() == Seq::<Event>::empty(),
            k.replies@.len() == 0,
            k.served == 0,
    {
        let k = MockKernel { calls: Vec::new(), replies: Vec::new(), served: 0 };
        proof {
            assert(events_of(k.calls@) =~= Seq::<Event>::empty());
        }
        k
    }

    /// A kernel that answers with `replies`, front to back, then with the
    /// plain success reply.
    pub fn with_replies(replies: Vec<Reply>) -> (k: MockKernel)
        ensures
            k.log() == Seq::<Event>::empty(),
            k.replies@ == replies@,
            k.served == 0,
    {
        let k = MockKernel { calls: Vec::new(), replies, served: 0 };
        proof {
            assert(events_of(k.calls@) =~= Seq::<Event>::empty());
        }
        k
    }

    /// The reply the next syscall is answered with: the front of what is
    /// left of the programmed queue, or plain success once it is spent.
    pub open spec fn spec_next_reply(&self) -> Reply {
        if self.served < self.replies@.len() {
            self.replies@[self.served as int]
        } else {
            Reply { r0: SUCCESS, r1: 0, r2: 0, r3: 0 }
        }
    }

    /// How many programmed replies the next syscall leaves consumed.
    pub open spec fn spec_served_next(&self) -> int {
        if self.served < self.replies@.len() {
            self.served + 1
        } else {
            self.served as int
        }
    }

    /// Take the next programmed reply, or plain success once the queue is
    /// spent.
    fn next_reply(&mut self) -> (r: Reply)
        ensures
            final(self).calls@ == old(self).calls@,
            final(self).replies@ == old(self).replies@,
            r == old(self).spec_next_reply(),
            final(self).served == old(self).spec_served_next(),
    {
        if self.served < self.replies.len() {
            let r = self.replies[self.served];
            self.served = self.served + 1;
            r
        } else {
            Reply { r0: SUCCESS, r1: 0, r2: 0, r3: 0 }
        }
    }

    /// How many syscalls were received so far.
    pub fn call_count(&self) -> (n: usize)
        ensures
            n == self.log().len(),
    {
        self.calls.len()
    }
}

impl Syscalls for MockKernel {
    open spec fn log(&self) -> Seq<Event> {
        events_of(self.calls@)
    }

    fn command(&mut self, driver: u32, cmd: u32, arg0: u32, arg1: u32) -> (r: Reply)
        ensures
            r == old(self).spec_next_reply(),
            final(self).replies@ == old(self).replies@,
            final(self).served == old(self).spec_served_next(),
    {
        let r = self.next_reply();
        let ghost before = self.calls@;
        let c = Call::Command { driver, cmd, arg0, arg1, reply: r };
        proof {
            lemma_events_of_push(before, c);
        }
        self.calls.push(c);
        r
    }

    fn allow(&mut self, class: AllowClass, driver: u32, slot: u32, data: &[u8]) -> (r: Reply)
        ensures
            r == old(self).spec_next_reply(),
            final(self).replies@ == old(self).replies@,
            final(self).served == old(self).spec_served_next(),
    {
        let r = self.next_reply();
        let owned = copy_bytes(data);
        let ghost before = self.calls@;
        let c = Call::Allow { class, driver, slot, data: owned, reply: r };
        proof {
            lemma_events_of_push(before, c);
        }
        self.calls.push(c);
        r
    }

    fn subscribe(&mut self, driver: u32, slot: u32, binding: CallbackBinding) -> (r: Reply)
        ensures
            r == old(self).spec_next_reply(),
            final(self).replies@ == old(self).replies@,
            final(self).served == old(self).spec_served_next(),
    {
        let r = self.next_reply();
        let ghost before = self.calls@;
        let c = Call::Subscribe { driver, slot, binding, reply: r };
        proof {
            lemma_events_of_push(before, c);
        }
        self.calls.push(c);
        r
    }

    fn yield_no_wait(&mut self)
        ensures
            final(self).replies@ == old(self).replies@,
            final(self).served == old(self).served,
    {
        let ghost before = self.calls@;
        proof {
            lemma_events_of_push(before, Call::Yield);
        }
        self.calls.push(Call::Yield);
    }
}

} // verus!
