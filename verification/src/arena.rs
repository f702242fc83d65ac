//! The static memory arena.
//!
//! The arena accounts for one region of memory of fixed size. Part of the
//! region is claimed; the rest is held in reserve and is claimed, all at
//! once, the first time a request does not fit. A request that does not fit
//! even then fails, and the node halts on it. Nothing is ever given back to
//! the machine and nothing is moved.

use vstd::prelude::*;

verus! {

/// Bytes of the central node's arena.
pub const CENTRAL_ARENA_BYTES: usize = 5120;

/// Bytes of a peripheral node's arena: it allocates nothing.
pub const PERIPHERAL_ARENA_BYTES: usize = 0;

/// The arena cannot serve a request, not even with its reserve.
#[derive(Clone, Copy, Debug, PartialEq, Eq, Structural)]
pub struct OutOfMemory;

/// What a live allocation takes up.
#[derive(Clone, Copy, Debug, PartialEq, Eq, Structural)]
pub struct Block {
    pub size: usize,
    pub align: usize,
}

/// The handle of an allocation: the slot that the arena keeps for it and
/// the block that was asked for.
#[derive(Clone, Copy, Debug, PartialEq, Eq, Structural)]
pub struct Allocation {
    pub slot: usize,
    pub size: usize,
    pub align: usize,
}

/// The bytes that the first `n` slots of `blocks` account for.
pub open spec fn bytes_in(blocks: Seq<Option<Block>>, n: nat) -> nat
    decreases n,
{
    if n == 0 {
        0
    } else {
        bytes_in(blocks, (n - 1) as nat) + match blocks[n - 1] {
            Some(b) => b.size as nat,
            None => 0,
        }
    }
}

/// Whether `slot` is the first slot of `blocks` that holds nothing, or the
/// slot after the last where all are taken.
pub open spec fn is_first_free(blocks: Seq<Option<Block>>, slot: nat) -> bool {
    &&& slot <= blocks.len()
    &&& slot < blocks.len() ==> blocks[slot as int] is None
    &&& forall|i: int| 0 <= i < slot ==> (#[trigger] blocks[i]) is Some
}

/// The first slot of `blocks` that holds nothing, or the slot after the
/// last.
pub open spec fn first_free(blocks: Seq<Option<Block>>) -> nat {
    choose|slot: nat| is_first_free(blocks, slot)
}

/// `blocks` with `block` in `slot`, which may be the slot after the last.
pub open spec fn placed(blocks: Seq<Option<Block>>, slot: nat, block: Block) -> Seq<Option<Block>> {
    if slot < blocks.len() {
        blocks.update(slot as int, Some(block))
    } else {
        blocks.push(Some(block))
    }
}

/// The arena as the contracts see it.
pub struct ArenaView {
    /// Bytes that are claimed.
    pub claimed: nat,
    /// Bytes that the escalation can still claim.
    pub reserve: nat,
    /// The live allocations, each in its slot.
    pub blocks: Seq<Option<Block>>,
}

impl ArenaView {
    /// Bytes of all live allocations.
    pub open spec fn in_use(self) -> nat {
        bytes_in(self.blocks, self.blocks.len())
    }

    /// Bytes that the arena can serve at most: what is claimed and what is
    /// in reserve.
    pub open spec fn capacity(self) -> nat {
        self.claimed + self.reserve
    }

    /// The live allocations never take more than is claimed.
    pub open spec fn wf(self) -> bool {
        self.in_use() <= self.claimed
    }

    /// The arena after its one escalation: the reserve is claimed whole.
    pub open spec fn escalated(self) -> ArenaView {
        ArenaView { claimed: self.claimed + self.reserve, reserve: 0, ..self }
    }

    /// Whether `handle` names a live allocation of this arena.
    pub open spec fn is_live(self, handle: Allocation) -> bool {
        &&& handle.slot < self.blocks.len()
        &&& self.blocks[handle.slot as int] == Some(Block { size: handle.size, align: handle.align })
    }

    /// A request for `size` bytes.
    ///
    /// A request that fits in what is claimed is served. One that does not
    /// makes the arena claim its reserve; it is served if it fits then, and
    /// fails otherwise. A served request takes the first free slot.
    pub open spec fn allocate(self, size: usize, align: usize) -> (ArenaView, Option<Allocation>) {
        let grown = if self.in_use() + size <= self.claimed {
            self
        } else {
            self.escalated()
        };
        if grown.in_use() + size <= grown.claimed {
            let slot = first_free(self.blocks);
            (
                ArenaView { blocks: placed(self.blocks, slot, Block { size, align }), ..grown },
                Some(Allocation { slot: slot as usize, size, align }),
            )
        } else {
            (grown, None)
        }
    }

    /// The allocation that `handle` names is given back. A handle that names
    /// no live allocation changes nothing.
    pub open spec fn deallocate(self, handle: Allocation) -> ArenaView {
        if self.is_live(handle) {
            ArenaView { blocks: self.blocks.update(handle.slot as int, None), ..self }
        } else {
            self
        }
    }

    /// The arena after one call.
    pub open spec fn step(self, call: Call) -> ArenaView {
        match call {
            Call::Allocate { size, align } => self.allocate(size, align).0,
            Call::Deallocate(handle) => self.deallocate(handle),
        }
    }

    /// The arena after a run of calls.
    pub open spec fn after(self, calls: Seq<Call>) -> ArenaView
        decreases calls.len(),
    {
        if calls.len() == 0 {
            self
        } else {
            self.after(calls.drop_last()).step(calls.last())
        }
    }
}

/// A call on the arena.
pub enum Call {
    Allocate { size: usize, align: usize },
    Deallocate(Allocation),
}

/// There is exactly one first free slot.
pub proof fn lemma_first_free(blocks: Seq<Option<Block>>)
    ensures
        is_first_free(blocks, first_free(blocks)),
        forall|slot: nat| is_first_free(blocks, slot) ==> slot == first_free(blocks),
{
    lemma_first_free_exists(blocks, blocks.len());
    let from_scan = choose|slot: nat| is_first_free_below(blocks, slot, blocks.len());
    assert(is_first_free(blocks, from_scan));
    let chosen = first_free(blocks);
    assert forall|slot: nat| is_first_free(blocks, slot) implies slot == chosen by {
        if slot < chosen {
            assert(blocks[slot as int] is Some);
        } else if chosen < slot {
            assert(blocks[chosen as int] is Some);
        }
    }
}

spec fn is_first_free_below(blocks: Seq<Option<Block>>, slot: nat, n: nat) -> bool {
    &&& slot <= n
    &&& slot < n ==> blocks[slot as int] is None
    &&& forall|i: int| 0 <= i < slot ==> (#[trigger] blocks[i]) is Some
}

proof fn lemma_first_free_exists(blocks: Seq<Option<Block>>, n: nat)
    requires
        n <= blocks.len(),
    ensures
        exists|slot: nat| is_first_free_below(blocks, slot, n),
    decreases n,
{
    if n == 0 {
        assert(is_first_free_below(blocks, 0, 0));
    } else {
        let m = (n - 1) as nat;
        lemma_first_free_exists(blocks, m);
        let before = choose|slot: nat| is_first_free_below(blocks, slot, m);
        if before < n - 1 {
            assert(is_first_free_below(blocks, before, n));
        } else if blocks[n - 1] is None {
            assert(is_first_free_below(blocks, before, n));
        } else {
            assert(is_first_free_below(blocks, n, n));
        }
    }
}

/// Slots beyond the first `n` do not count among the first `n`.
proof fn lemma_bytes_in_prefix(a: Seq<Option<Block>>, b: Seq<Option<Block>>, n: nat)
    requires
        n <= a.len(),
        n <= b.len(),
        forall|i: int| 0 <= i < n ==> a[i] == b[i],
    ensures
        bytes_in(a, n) == bytes_in(b, n),
    decreases n,
{
    if n > 0 {
        lemma_bytes_in_prefix(a, b, (n - 1) as nat);
    }
}

/// Changing one slot changes the total by the difference of what the slot
/// held and what it holds.
proof fn lemma_bytes_in_update(blocks: Seq<Option<Block>>, slot: int, value: Option<Block>, n: nat)
    requires
        0 <= slot < blocks.len(),
        n <= blocks.len(),
    ensures
        slot < n ==> bytes_in(blocks.update(slot, value), n) + weight(blocks[slot]) == bytes_in(
            blocks,
            n,
        ) + weight(value),
        slot >= n ==> bytes_in(blocks.update(slot, value), n) == bytes_in(blocks, n),
    decreases n,
{
    if n > 0 {
        lemma_bytes_in_update(blocks, slot, value, (n - 1) as nat);
    }
}

/// The bytes that a slot accounts for.
pub open spec fn weight(entry: Option<Block>) -> nat {
    match entry {
        Some(b) => b.size as nat,
        None => 0,
    }
}

/// Placing a block in a free slot adds its size to the total.
proof fn lemma_placed_adds(blocks: Seq<Option<Block>>, slot: nat, block: Block)
    requires
        is_first_free(blocks, slot),
    ensures
        bytes_in(placed(blocks, slot, block), placed(blocks, slot, block).len()) == bytes_in(
            blocks,
            blocks.len(),
        ) + block.size,
{
    if slot < blocks.len() {
        lemma_bytes_in_update(blocks, slot as int, Some(block), blocks.len());
    } else {
        lemma_bytes_in_prefix(blocks, blocks.push(Some(block)), blocks.len());
    }
}

/// A request succeeds exactly when the live bytes and the request together
/// stay within the arena's capacity; it then adds its size to the live
/// bytes, and its handle names a live allocation that was not live before.
/// A failed request leaves the live bytes as they were. Neither changes the
/// capacity.
pub proof fn request_succeeds_iff_within_capacity(a: ArenaView, size: usize, align: usize)
    requires
        a.wf(),
    ensures
        a.allocate(size, align).1 is Some <==> a.in_use() + size <= a.capacity(),
        a.allocate(size, align).0.wf(),
        a.allocate(size, align).0.capacity() == a.capacity(),
        a.allocate(size, align).0.in_use() == if a.in_use() + size <= a.capacity() {
            a.in_use() + size
        } else {
            a.in_use() as int
        },
        a.blocks.len() <= usize::MAX ==> (a.allocate(size, align).1 matches Some(handle) ==> {
            &&& handle.slot == first_free(a.blocks)
            &&& a.allocate(size, align).0.is_live(handle)
            &&& !a.is_live(handle)
        }),
{
    lemma_first_free(a.blocks);
    lemma_placed_adds(a.blocks, first_free(a.blocks), Block { size, align });
}

/// Giving an allocation back takes its size off the live bytes and changes
/// neither what is claimed nor the capacity.
pub proof fn release_returns_the_bytes(a: ArenaView, handle: Allocation)
    requires
        a.wf(),
    ensures
        a.deallocate(handle).wf(),
        a.deallocate(handle).capacity() == a.capacity(),
        a.deallocate(handle).claimed == a.claimed,
        a.is_live(handle) ==> a.deallocate(handle).in_use() + handle.size == a.in_use(),
        !a.is_live(handle) ==> a.deallocate(handle) == a,
        !a.deallocate(handle).is_live(handle),
{
    if a.is_live(handle) {
        lemma_bytes_in_update(a.blocks, handle.slot as int, None, a.blocks.len());
    }
}

/// Whatever calls were made, the arena is well formed and its capacity is
/// the one it was set up with.
pub proof fn capacity_is_fixed(a: ArenaView, calls: Seq<Call>)
    requires
        a.wf(),
    ensures
        a.after(calls).wf(),
        a.after(calls).capacity() == a.capacity(),
    decreases calls.len(),
{
    if calls.len() > 0 {
        capacity_is_fixed(a, calls.drop_last());
        let before = a.after(calls.drop_last());
        match calls.last() {
            Call::Allocate { size, align } => {
                request_succeeds_iff_within_capacity(before, size, align);
            },
            Call::Deallocate(handle) => {
                release_returns_the_bytes(before, handle);
            },
        }
    }
}

/// After any run of calls, the next request succeeds exactly when the live
/// bytes and the request together stay within the capacity that the arena
/// was set up with: as long as the total stays within it every request is
/// served, and the first request that would exceed it fails.
pub proof fn requests_within_capacity_never_fail(
    a: ArenaView,
    calls: Seq<Call>,
    size: usize,
    align: usize,
)
    requires
        a.wf(),
    ensures
        a.after(calls).allocate(size, align).1 is Some <==> a.after(calls).in_use() + size
            <= a.capacity(),
{
    capacity_is_fixed(a, calls);
    request_succeeds_iff_within_capacity(a.after(calls), size, align);
}

/// The arena.
pub struct Arena {
    claimed: usize,
    reserve: usize,
    used: usize,
    blocks: Vec<Option<Block>>,
}

impl View for Arena {
    type V = ArenaView;

    closed spec fn view(&self) -> ArenaView {
        ArenaView { claimed: self.claimed as nat, reserve: self.reserve as nat, blocks: self.blocks@ }
    }
}

impl Arena {
    /// The arena's own books agree with its view: the running total is the
    /// sum of the live blocks, and the capacity fits the machine's word.
    pub closed spec fn wf(&self) -> bool {
        &&& self@.wf()
        &&& self.used == self@.in_use()
        &&& self.claimed + self.reserve <= usize::MAX
    }

    /// An arena with `claimed` bytes at hand and `reserve` bytes for its one
    /// escalation, and no allocation. There is none where the two together
    /// exceed the machine's word.
    pub fn new(claimed: usize, reserve: usize) -> (arena: Option<Arena>)
        ensures
            arena is Some <==> claimed + reserve <= usize::MAX,
            arena matches Some(a) ==> {
                &&& a.wf()
                &&& a@.claimed == claimed
                &&& a@.reserve == reserve
                &&& a@.blocks.len() == 0
                &&& a@.in_use() == 0
            },
    {
        if claimed.checked_add(reserve).is_none() {
            return None;
        }
        Some(Arena { claimed, reserve, used: 0, blocks: Vec::new() })
    }

    /// Bytes of all live allocations.
    pub fn in_use(&self) -> (bytes: usize)
        requires
            self.wf(),
        ensures
            bytes == self@.in_use(),
    {
        self.used
    }

    /// Bytes that the arena can serve at most.
    pub fn capacity(&self) -> (bytes: usize)
        requires
            self.wf(),
        ensures
            bytes == self@.capacity(),
    {
        self.claimed + self.reserve
    }

    /// Bytes that are claimed.
    pub fn claimed(&self) -> (bytes: usize)
        ensures
            bytes == self@.claimed,
    {
        self.claimed
    }

    /// Whether the arena has claimed its reserve, or had none.
    pub fn is_escalated(&self) -> (yes: bool)
        ensures
            yes <==> self@.reserve == 0,
    {
        self.reserve == 0
    }

    fn free_slot(&self) -> (slot: usize)
        ensures
            slot == first_free(self.blocks@),
    {
        let mut i: usize = 0;
        while i < self.blocks.len()
            invariant
                i <= self.blocks@.len(),
                forall|k: int| 0 <= k < i ==> (#[trigger] self.blocks@[k]) is Some,
            decreases self.blocks@.len() - i,
        {
            if self.blocks[i].is_none() {
                proof {
                    assert(is_first_free(self.blocks@, i as nat));
                    lemma_first_free(self.blocks@);
                }
                return i;
            }
            i += 1;
        }
        proof {
            assert(is_first_free(self.blocks@, i as nat));
            lemma_first_free(self.blocks@);
        }
        i
    }

    /// Serves a request for `size` bytes aligned to `align`, or fails with
    /// `OutOfMemory`.
    ///
    /// The request succeeds exactly when the live bytes and `size` together
    /// stay within the arena's capacity. Where it does not fit in what is
    /// claimed, the arena first claims its reserve, whether or not that is
    /// enough.
    pub fn allocate(&mut self, size: usize, align: usize) -> (result: Result<
        Allocation,
        OutOfMemory,
    >)
        requires
            old(self).wf(),
        ensures
            final(self).wf(),
            final(self)@ == old(self)@.allocate(size, align).0,
            result is Ok <==> old(self)@.in_use() + size <= old(self)@.capacity(),
            match result {
                Ok(handle) => {
                    &&& old(self)@.allocate(size, align).1 == Some(handle)
                    &&& handle.size == size
                    &&& handle.align == align
                    &&& final(self)@.is_live(handle)
                    &&& !old(self)@.is_live(handle)
                    &&& final(self)@.in_use() == old(self)@.in_use() + size
                },
                Err(_) => {
                    &&& old(self)@.allocate(size, align).1 is None
                    &&& final(self)@.blocks == old(self)@.blocks
                    &&& final(self)@ == old(self)@.escalated()
                },
            },
            final(self)@.capacity() == old(self)@.capacity(),
    {
        proof {
            request_succeeds_iff_within_capacity(old(self)@, size, align);
            lemma_first_free(self.blocks@);
        }
        let needed: Option<usize> = self.used.checked_add(size);
        let fits_now: bool = match needed {
            Some(n) => n <= self.claimed,
            None => false,
        };
        if !fits_now {
            self.claimed = self.claimed + self.reserve;
            self.reserve = 0;
        }
        let fits: bool = match needed {
            Some(n) => n <= self.claimed,
            None => false,
        };
        if !fits {
            return Err(OutOfMemory);
        }
        let slot: usize = self.free_slot();
        let block = Block { size, align };
        if slot < self.blocks.len() {
            self.blocks.set(slot, Some(block));
        } else {
            self.blocks.push(Some(block));
        }
        self.used = self.used + size;
        Ok(Allocation { slot, size, align })
    }

    /// Whether `handle` names a live allocation of this arena.
    pub fn is_live(&self, handle: &Allocation) -> (yes: bool)
        ensures
            yes == self@.is_live(*handle),
    {
        if handle.slot >= self.blocks.len() {
            return false;
        }
        match self.blocks[handle.slot] {
            Some(b) => b.size == handle.size && b.align == handle.align,
            None => false,
        }
    }

    /// Gives an allocation back and says whether `handle` named one. A
    /// handle that names no live allocation changes nothing.
    pub fn deallocate(&mut self, handle: Allocation) -> (released: bool)
        requires
            old(self).wf(),
        ensures
            final(self).wf(),
            released == old(self)@.is_live(handle),
            final(self)@ == old(self)@.deallocate(handle),
            released ==> final(self)@.in_use() + handle.size == old(self)@.in_use(),
            final(self)@.capacity() == old(self)@.capacity(),
    {
        proof {
            release_returns_the_bytes(old(self)@, handle);
        }
        if !self.is_live(&handle) {
            return false;
        }
        self.blocks.set(handle.slot, None);
        self.used = self.used - handle.size;
        true
    }
}

} // verus!
