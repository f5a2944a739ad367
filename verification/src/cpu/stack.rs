//! The stack discipline: what is pushed comes back, last in first out.
use vstd::prelude::*;
use crate::cpu::machine::Machine;
use crate::cpu::CentralProcessor;
use crate::fault::Fault;
use crate::memory::is_ram;
use crate::memory::lemma_ram_write;
use crate::types::address::Address;
use crate::types::byte::Byte;

verus! {

impl Machine {
    /// The outcome of pushing each of `addrs` in turn.
    pub open spec fn pushed_all(self, addrs: Seq<Address>) -> (Machine, Result<(), Fault>)
        decreases addrs.len(),
    {
        if addrs.len() == 0 {
            (self, Ok(()))
        } else {
            match self.pushed(addrs.first()) {
                (next, Ok(_)) => next.pushed_all(addrs.drop_first()),
                (next, Err(fault)) => (next, Err(fault)),
            }
        }
    }

    /// The outcome of popping `n` pairs: the pairs in the order in which
    /// they came off.
    pub open spec fn popped_all(self, n: nat) -> (Machine, Result<Seq<Address>, Fault>)
        decreases n,
    {
        if n == 0 {
            (self, Ok(Seq::empty()))
        } else {
            match self.popped() {
                (next, Ok(first)) => match next.popped_all((n - 1) as nat) {
                    (last, Ok(rest)) => (last, Ok(seq![first] + rest)),
                    (last, Err(fault)) => (last, Err(fault)),
                },
                (next, Err(fault)) => (next, Err(fault)),
            }
        }
    }
}

/// Whether the `n` pairs below `sp` lie in work RAM or high RAM.
pub open spec fn stack_room(sp: Address, n: nat) -> bool {
    forall|k: int| 1 <= k <= 2 * n ==> is_ram(#[trigger] sp.offset(-k))
}

/// Whether `b` is one of the `2 * n` addresses below `sp`.
pub open spec fn in_stack(b: Address, sp: Address, n: nat) -> bool {
    sp.0 - 2 * n <= b.0 < sp.0
}

/// What the stack holds of `addrs` after they were pushed from `sp`: each
/// pair with its high byte above its low byte, the first pair uppermost.
pub open spec fn holds_pairs(m: Machine, sp: Address, addrs: Seq<Address>) -> bool {
    forall|i: int|
        0 <= i < addrs.len() ==> {
            &&& #[trigger] m.bus.read(sp.offset(-2 * i - 1)) == Ok::<Byte, Fault>(addrs[i].high())
            &&& m.bus.read(sp.offset(-2 * i - 2)) == Ok::<Byte, Fault>(addrs[i].low())
        }
}

/// A stack that lies in RAM does not wrap round the end of the bus.
proof fn lemma_stack_in_range(sp: Address, n: nat, k: int)
    requires
        stack_room(sp, n),
        1 <= k <= 2 * n,
    ensures
        sp.0 - k >= 0xC000,
        sp.offset(-k).0 == sp.0 - k,
    decreases k,
{
    if k > 1 {
        lemma_stack_in_range(sp, n, k - 1);
    }
    assert(is_ram(sp.offset(-k)));
}

/// One push into RAM: the pair lands below the stack pointer and nothing
/// else in RAM changes.
proof fn lemma_push_one(m: Machine, addr: Address)
    requires
        m.wf(),
        stack_room(m.cpu.sp, 1),
    ensures
        m.pushed(addr).1 is Ok,
        m.pushed(addr).0.wf(),
        m.pushed(addr).0.cpu == (CentralProcessor { sp: m.cpu.sp.offset(-2), ..m.cpu }),
        m.pushed(addr).0.bus.read(m.cpu.sp.offset(-1)) == Ok::<Byte, Fault>(addr.high()),
        m.pushed(addr).0.bus.read(m.cpu.sp.offset(-2)) == Ok::<Byte, Fault>(addr.low()),
        forall|b: Address|
            is_ram(b) && !in_stack(b, m.cpu.sp, 1) ==> #[trigger] m.pushed(addr).0.bus.read(b)
                == m.bus.read(b),
{
    let sp = m.cpu.sp;
    lemma_stack_in_range(sp, 1, 1);
    lemma_stack_in_range(sp, 1, 2);
    let upper = sp.offset(-1);
    let lower = sp.offset(-2);
    assert(upper.offset(-1) == lower);
    lemma_ram_write(m.bus, upper, addr.high(), lower);
    let after = m.bus.written(upper, addr.high())->Ok_0;
    lemma_ram_write(after, lower, addr.low(), upper);
    let done = after.written(lower, addr.low())->Ok_0;
    assert forall|b: Address| is_ram(b) && !in_stack(b, sp, 1) implies #[trigger] done.read(b)
        == m.bus.read(b) by {
        lemma_ram_write(m.bus, upper, addr.high(), b);
        lemma_ram_write(after, lower, addr.low(), b);
    }
}

/// Pushing pairs into RAM succeeds, leaves them on the stack in order, and
/// changes nothing else in RAM.
proof fn lemma_pushes(m: Machine, addrs: Seq<Address>)
    requires
        m.wf(),
        stack_room(m.cpu.sp, addrs.len()),
    ensures
        m.pushed_all(addrs).1 is Ok,
        m.pushed_all(addrs).0.wf(),
        m.pushed_all(addrs).0.cpu == (CentralProcessor {
            sp: m.cpu.sp.offset(-2 * addrs.len()),
            ..m.cpu
        }),
        holds_pairs(m.pushed_all(addrs).0, m.cpu.sp, addrs),
        forall|b: Address|
            is_ram(b) && !in_stack(b, m.cpu.sp, addrs.len()) ==> #[trigger] m.pushed_all(
                addrs,
            ).0.bus.read(b) == m.bus.read(b),
    decreases addrs.len(),
{
    let sp = m.cpu.sp;
    let n = addrs.len();
    if n > 0 {
        assert(stack_room(sp, 1)) by {
            assert forall|k: int| 1 <= k <= 2 implies is_ram(#[trigger] sp.offset(-k)) by {
                assert(1 <= k <= 2 * n);
            }
        }
        lemma_push_one(m, addrs.first());
        lemma_stack_in_range(sp, n, 1);
        lemma_stack_in_range(sp, n, 2);
        let first = m.pushed(addrs.first()).0;
        let rest = addrs.drop_first();
        let below = first.cpu.sp;
        assert(below.0 == sp.0 - 2);
        assert(stack_room(below, rest.len())) by {
            assert forall|k: int| 1 <= k <= 2 * rest.len() implies is_ram(
                #[trigger] below.offset(-k),
            ) by {
                lemma_stack_in_range(sp, n, k + 2);
                assert(below.offset(-k) == sp.offset(-(k + 2)));
            }
        }
        lemma_pushes(first, rest);
        let done = first.pushed_all(rest).0;
        assert(m.pushed_all(addrs) == first.pushed_all(rest));
        assert(below.offset(-2 * rest.len()) == sp.offset(-2 * n)) by {
            if rest.len() > 0 {
                lemma_stack_in_range(sp, n, 2 * n as int);
            }
        }
        assert forall|i: int| 0 <= i < n implies {
            &&& #[trigger] done.bus.read(sp.offset(-2 * i - 1)) == Ok::<Byte, Fault>(
                addrs[i].high(),
            )
            &&& done.bus.read(sp.offset(-2 * i - 2)) == Ok::<Byte, Fault>(addrs[i].low())
        } by {
            lemma_stack_in_range(sp, n, 2 * i + 1);
            lemma_stack_in_range(sp, n, 2 * i + 2);
            if i == 0 {
                assert(!in_stack(sp.offset(-1), below, rest.len()));
                assert(!in_stack(sp.offset(-2), below, rest.len()));
            } else {
                assert(addrs[i] == rest[i - 1]);
                assert(sp.offset(-2 * i - 1) == below.offset(-2 * (i - 1) - 1));
                assert(sp.offset(-2 * i - 2) == below.offset(-2 * (i - 1) - 2));
            }
        }
        assert forall|b: Address| is_ram(b) && !in_stack(b, sp, n) implies #[trigger] done.bus.read(
            b,
        ) == m.bus.read(b) by {
            if rest.len() > 0 {
                lemma_stack_in_range(sp, n, 2 * n as int);
            }
            assert(!in_stack(b, below, rest.len()));
            assert(!in_stack(b, sp, 1));
        }
    }
}

/// Popping from a stack that holds the pairs of `addrs` gives them back
/// last first and returns the stack pointer to `sp`.
proof fn lemma_pops(m: Machine, sp: Address, addrs: Seq<Address>)
    requires
        stack_room(sp, addrs.len()),
        m.cpu.sp == sp.offset(-2 * addrs.len()),
        holds_pairs(m, sp, addrs),
    ensures
        m.popped_all(addrs.len()) == (m.with_sp(sp), Ok::<Seq<Address>, Fault>(addrs.reverse())),
    decreases addrs.len(),
{
    let n = addrs.len();
    if n == 0 {
        assert(addrs.reverse() =~= Seq::<Address>::empty());
        assert(m.with_sp(sp) == m);
    } else {
        let top = addrs.last();
        let rest = addrs.drop_last();
        lemma_stack_in_range(sp, n, 2 * n as int);
        lemma_stack_in_range(sp, n, 2 * n - 1);
        let i = n - 1;
        assert(m.bus.read(sp.offset(-2 * i - 1)) == Ok::<Byte, Fault>(top.high()));
        assert(m.cpu.sp == sp.offset(-2 * i - 2));
        assert(m.cpu.sp.offset(1) == sp.offset(-2 * i - 1));
        let next = m.popped().0;
        assert(m.popped().1 == Ok::<Address, Fault>(top)) by {
            crate::types::address::lemma_split_join(top, Byte(0), Byte(0));
        }
        assert(next.cpu.sp == sp.offset(-2 * rest.len())) by {
            if rest.len() > 0 {
                lemma_stack_in_range(sp, n, 2 * rest.len() as int);
            }
        }
        assert(stack_room(sp, rest.len())) by {
            assert forall|k: int| 1 <= k <= 2 * rest.len() implies is_ram(
                #[trigger] sp.offset(-k),
            ) by {
                assert(1 <= k <= 2 * n);
            }
        }
        assert(holds_pairs(next, sp, rest)) by {
            assert forall|j: int| 0 <= j < rest.len() implies {
                &&& #[trigger] next.bus.read(sp.offset(-2 * j - 1)) == Ok::<Byte, Fault>(
                    rest[j].high(),
                )
                &&& next.bus.read(sp.offset(-2 * j - 2)) == Ok::<Byte, Fault>(rest[j].low())
            } by {
                assert(rest[j] == addrs[j]);
                assert(m.bus.read(sp.offset(-2 * j - 1)) == Ok::<Byte, Fault>(addrs[j].high()));
            }
        }
        lemma_pops(next, sp, rest);
        assert(seq![top] + rest.reverse() =~= addrs.reverse());
        assert(next.with_sp(sp) == m.with_sp(sp));
    }
}

/// Pairs pushed on a stack that lies in work RAM or high RAM come back in
/// reverse order when as many are popped, and the processor, its stack
/// pointer included, is then as it was before the pushes.
pub proof fn lemma_push_pop(m: Machine, addrs: Seq<Address>)
    requires
        m.wf(),
        stack_room(m.cpu.sp, addrs.len()),
    ensures
        m.pushed_all(addrs).1 is Ok,
        m.pushed_all(addrs).0.popped_all(addrs.len()).1 == Ok::<Seq<Address>, Fault>(
            addrs.reverse(),
        ),
        m.pushed_all(addrs).0.popped_all(addrs.len()).0.cpu == m.cpu,
{
    lemma_pushes(m, addrs);
    lemma_pops(m.pushed_all(addrs).0, m.cpu.sp, addrs);
}

} // verus!
