use vstd::hash_map::HashMapWithView;
use vstd::prelude::*;

verus! {

broadcast use vstd::std_specs::hash::group_hash_axioms;

/// Why the arena refused a request.
#[derive(Debug, PartialEq, Eq, Structural)]
pub enum ArenaError {
    /// The address does not start a live block: never allocated, or already released.
    NotAllocated,
    /// The size given on release is not the size the block was allocated with.
    SizeMismatch,
    /// The data written does not have the block's exact length.
    LengthMismatch,
    /// No address range of that size is left.
    Exhausted,
}

/// Guest memory through which buffers cross the boundary. Every block is allocated once, and
/// leaves the arena on its one successful release; addresses are never handed out twice.
pub struct Arena {
    blocks: HashMapWithView<u64, Vec<u8>>,
    next: u64,
}

/// The address range a block of `size` bytes takes up.
pub open spec fn span(size: nat) -> nat {
    if size == 0 {
        1
    } else {
        size
    }
}

/// A block of `size` bytes as allocated.
pub open spec fn fresh_block(size: nat) -> Seq<u8> {
    Seq::new(size, |i: int| 0u8)
}

/// The live blocks after releasing `addr` with `size`, or why that release is refused.
pub open spec fn release_outcome(live: Map<u64, Seq<u8>>, addr: u64, size: nat) -> Result<
    Map<u64, Seq<u8>>,
    ArenaError,
> {
    if !live.contains_key(addr) {
        Err(ArenaError::NotAllocated)
    } else if live[addr].len() != size {
        Err(ArenaError::SizeMismatch)
    } else {
        Ok(live.remove(addr))
    }
}

impl View for Arena {
    type V = Map<u64, Seq<u8>>;

    closed spec fn view(&self) -> Map<u64, Seq<u8>> {
        self.blocks@.map_values(|v: Vec<u8>| v@)
    }
}

impl Arena {
    /// The first address not yet handed out.
    pub closed spec fn frontier(&self) -> nat {
        self.next as nat
    }

    pub closed spec fn wf(&self) -> bool {
        forall|a: u64| #[trigger] self.blocks@.contains_key(a) ==> a < self.next
    }

    /// This arena as plain values.
    pub open spec fn state(&self) -> ArenaState {
        ArenaState { live: self@, frontier: self.frontier() }
    }

    /// A well-formed arena is a well-formed state.
    pub proof fn lemma_state_wf(&self)
        requires
            self.wf(),
        ensures
            state_wf(self.state()),
    {
        assert forall|a: u64| #[trigger] self.state().live.contains_key(a) implies a
            < self.state().frontier by {
            assert(self.blocks@.contains_key(a));
        }
    }

    pub fn new() -> (r: Arena)
        ensures
            r.wf(),
            r@ == Map::<u64, Seq<u8>>::empty(),
            r.frontier() == 0,
    {
        let r = Arena { blocks: HashMapWithView::new(), next: 0 };
        assert(r@ =~= Map::<u64, Seq<u8>>::empty());
        r
    }

    /// Reserves a block of `size` bytes at a fresh address.
    pub fn allocate(&mut self, size: usize) -> (r: Result<u64, ArenaError>)
        requires
            old(self).wf(),
        ensures
            final(self).wf(),
            final(self).state() == step(old(self).state(), ArenaOp::Allocate(size)),
            old(self).frontier() + span(size as nat) <= u64::MAX ==> r is Ok,
            r matches Ok(a) ==> {
                &&& a == old(self).frontier()
                &&& !old(self)@.contains_key(a)
                &&& final(self)@ == old(self)@.insert(a, fresh_block(size as nat))
                &&& final(self).frontier() == a + span(size as nat)
            },
            r matches Err(e) ==> {
                &&& e == ArenaError::Exhausted
                &&& final(self)@ == old(self)@
                &&& final(self).frontier() == old(self).frontier()
            },
    {
        let step: u64 = if size == 0 {
            1
        } else {
            size as u64
        };
        if self.next > u64::MAX - step {
            return Err(ArenaError::Exhausted);
        }
        let addr = self.next;
        let block: Vec<u8> = vec![0u8; size];
        assert(block@ =~= fresh_block(size as nat));
        self.blocks.insert(addr, block);
        self.next = addr + step;
        assert(self@ =~= old(self)@.insert(addr, fresh_block(size as nat)));
        Ok(addr)
    }

    /// Fills the block at `addr` with `data`, which must have the block's exact length.
    pub fn write(&mut self, addr: u64, data: Vec<u8>) -> (r: Result<(), ArenaError>)
        requires
            old(self).wf(),
        ensures
            final(self).wf(),
            final(self).frontier() == old(self).frontier(),
            !old(self)@.contains_key(addr) ==> r == Err::<(), ArenaError>(ArenaError::NotAllocated),
            old(self)@.contains_key(addr) && old(self)@[addr].len() != data@.len() ==> r == Err::<
                (),
                ArenaError,
            >(ArenaError::LengthMismatch),
            old(self)@.contains_key(addr) && old(self)@[addr].len() == data@.len() ==> r is Ok,
            r is Ok ==> final(self)@ == old(self)@.insert(addr, data@),
            r is Err ==> final(self)@ == old(self)@,
    {
        let len = match self.blocks.get(&addr) {
            Some(b) => b.len(),
            None => {
                return Err(ArenaError::NotAllocated);
            },
        };
        if len != data.len() {
            return Err(ArenaError::LengthMismatch);
        }
        let ghost d = data@;
        self.blocks.insert(addr, data);
        assert(self@ =~= old(self)@.insert(addr, d));
        Ok(())
    }

    /// A copy of the live block at `addr`; `None` once it is released.
    pub fn read(&self, addr: u64) -> (r: Option<Vec<u8>>)
        ensures
            r is Some <==> self@.contains_key(addr),
            r matches Some(v) ==> v@ == self@[addr],
    {
        match self.blocks.get(&addr) {
            Some(b) => Some(b.clone()),
            None => None,
        }
    }

    /// Gives back the block at `addr`, which must be live and of exactly `size` bytes.
    pub fn release(&mut self, addr: u64, size: usize) -> (r: Result<(), ArenaError>)
        requires
            old(self).wf(),
        ensures
            final(self).wf(),
            final(self).frontier() == old(self).frontier(),
            final(self).state() == step(old(self).state(), ArenaOp::Release(addr, size)),
            match release_outcome(old(self)@, addr, size as nat) {
                Ok(m) => r is Ok && final(self)@ == m,
                Err(e) => r == Err::<(), ArenaError>(e) && final(self)@ == old(self)@,
            },
    {
        let len = match self.blocks.get(&addr) {
            Some(b) => b.len(),
            None => {
                return Err(ArenaError::NotAllocated);
            },
        };
        if len != size {
            return Err(ArenaError::SizeMismatch);
        }
        self.blocks.remove(&addr);
        assert(self@ =~= old(self)@.remove(addr));
        Ok(())
    }
}

/// No double release, no read after release: once a release of `addr` succeeds, the block is
/// gone, and a second release of `addr`, with any size, is refused.
pub proof fn lemma_release_once(live: Map<u64, Seq<u8>>, addr: u64, size: nat, again: nat)
    requires
        release_outcome(live, addr, size) is Ok,
    ensures
        !release_outcome(live, addr, size)->Ok_0.contains_key(addr),
        release_outcome(release_outcome(live, addr, size)->Ok_0, addr, again) == Err::<
            Map<u64, Seq<u8>>,
            ArenaError,
        >(ArenaError::NotAllocated),
{
}

/// One request to the arena.
pub enum ArenaOp {
    Allocate(usize),
    Release(u64, usize),
}

/// The arena as plain values: its live blocks and its frontier.
pub struct ArenaState {
    pub live: Map<u64, Seq<u8>>,
    pub frontier: nat,
}

/// Every live block lies below the frontier.
pub open spec fn state_wf(s: ArenaState) -> bool {
    forall|a: u64| #[trigger] s.live.contains_key(a) ==> a < s.frontier
}

/// The state after one request, as `allocate` and `release` state it.
pub open spec fn step(s: ArenaState, op: ArenaOp) -> ArenaState {
    match op {
        ArenaOp::Allocate(size) => if s.frontier + span(size as nat) <= u64::MAX {
            ArenaState {
                live: s.live.insert(s.frontier as u64, fresh_block(size as nat)),
                frontier: s.frontier + span(size as nat),
            }
        } else {
            s
        },
        ArenaOp::Release(addr, size) => match release_outcome(s.live, addr, size as nat) {
            Ok(m) => ArenaState { live: m, frontier: s.frontier },
            Err(_) => s,
        },
    }
}

/// The addresses that the successful releases of `ops`, run from `s`, gave back, in order.
pub open spec fn released(s: ArenaState, ops: Seq<ArenaOp>) -> Seq<u64>
    decreases ops.len(),
{
    if ops.len() == 0 {
        seq![]
    } else {
        let rest = released(step(s, ops[0]), ops.drop_first());
        match ops[0] {
            ArenaOp::Release(addr, size) => if release_outcome(s.live, addr, size as nat) is Ok {
                seq![addr] + rest
            } else {
                rest
            },
            ArenaOp::Allocate(_) => rest,
        }
    }
}

/// The state after all of `ops`, run from `s`.
pub open spec fn run(s: ArenaState, ops: Seq<ArenaOp>) -> ArenaState
    decreases ops.len(),
{
    if ops.len() == 0 {
        s
    } else {
        run(step(s, ops[0]), ops.drop_first())
    }
}

proof fn lemma_step_wf(s: ArenaState, op: ArenaOp)
    requires
        state_wf(s),
    ensures
        state_wf(step(s, op)),
        step(s, op).frontier >= s.frontier,
        forall|a: u64| a < s.frontier && !s.live.contains_key(a) ==> !step(s, op).live.contains_key(a),
{
}

/// A block that is gone stays gone: an address below the frontier that is not live never
/// becomes live again, and no release of it succeeds.
proof fn lemma_gone_stays_gone(s: ArenaState, ops: Seq<ArenaOp>, a: u64)
    requires
        state_wf(s),
        a < s.frontier,
        !s.live.contains_key(a),
    ensures
        !run(s, ops).live.contains_key(a),
        !released(s, ops).contains(a),
    decreases ops.len(),
{
    if ops.len() > 0 {
        lemma_step_wf(s, ops[0]);
        lemma_gone_stays_gone(step(s, ops[0]), ops.drop_first(), a);
    }
}

/// For every sequence of requests: no address is released twice, and a released address is
/// never live again, so it is never read after its release.
pub proof fn lemma_arena_discipline(s: ArenaState, ops: Seq<ArenaOp>)
    requires
        state_wf(s),
    ensures
        forall|i: int, j: int|
            0 <= i < j < released(s, ops).len() ==> released(s, ops)[i] != released(s, ops)[j],
        forall|i: int|
            0 <= i < released(s, ops).len() ==> !run(s, ops).live.contains_key(
                #[trigger] released(s, ops)[i],
            ),
    decreases ops.len(),
{
    if ops.len() > 0 {
        let next = step(s, ops[0]);
        let rest = ops.drop_first();
        lemma_step_wf(s, ops[0]);
        lemma_arena_discipline(next, rest);
        match ops[0] {
            ArenaOp::Release(addr, size) => {
                if release_outcome(s.live, addr, size as nat) is Ok {
                    lemma_gone_stays_gone(next, rest, addr);
                    let all = released(s, ops);
                    assert(all == seq![addr] + released(next, rest));
                    assert forall|i: int, j: int| 0 <= i < j < all.len() implies all[i] != all[j] by {
                        if i == 0 {
                            assert(released(next, rest).contains(all[j]) ==> all[j] != addr);
                            assert(released(next, rest)[j - 1] == all[j]);
                        } else {
                            assert(all[i] == released(next, rest)[i - 1]);
                            assert(all[j] == released(next, rest)[j - 1]);
                        }
                    }
                    assert forall|i: int| 0 <= i < all.len() implies !run(s, ops).live.contains_key(
                        #[trigger] all[i],
                    ) by {
                        if i > 0 {
                            assert(all[i] == released(next, rest)[i - 1]);
                        }
                    }
                }
            },
            ArenaOp::Allocate(_) => {},
        }
    }
}

} // verus!
