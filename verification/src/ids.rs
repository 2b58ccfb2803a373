//! Identifiers of the simulated node. Each is a plain number with its own type.
use vstd::prelude::*;
use crate::table::Key;

verus! {

/// One allocation.
#[derive(Clone, Copy, PartialEq, Eq, PartialOrd, Ord, Hash, Debug, Structural)]
pub struct AllocId(pub u64);

impl View for AllocId {
    type V = AllocId;

    open spec fn view(&self) -> AllocId {
        *self
    }
}

impl Key for AllocId {
    open spec fn rank(self) -> int {
        self.0 as int
    }

    proof fn rank_injective(a: Self, b: Self) {
    }

    proof fn view_same(a: Self) {
    }

    fn before(self, other: Self) -> bool {
        self.0 < other.0
    }

    fn same(self, other: Self) -> bool {
        self.0 == other.0
    }
}

/// One conditional handle of a graph.
#[derive(Clone, Copy, PartialEq, Eq, PartialOrd, Ord, Hash, Debug, Structural)]
pub struct CondId(pub u32);

impl View for CondId {
    type V = CondId;

    open spec fn view(&self) -> CondId {
        *self
    }
}

impl Key for CondId {
    open spec fn rank(self) -> int {
        self.0 as int
    }

    proof fn rank_injective(a: Self, b: Self) {
    }

    proof fn view_same(a: Self) {
    }

    fn before(self, other: Self) -> bool {
        self.0 < other.0
    }

    fn same(self, other: Self) -> bool {
        self.0 == other.0
    }
}

/// One GPU.
#[derive(Clone, Copy, PartialEq, Eq, PartialOrd, Ord, Hash, Debug, Structural)]
pub struct DeviceId(pub u16);

impl View for DeviceId {
    type V = DeviceId;

    open spec fn view(&self) -> DeviceId {
        *self
    }
}

impl Key for DeviceId {
    open spec fn rank(self) -> int {
        self.0 as int
    }

    proof fn rank_injective(a: Self, b: Self) {
    }

    proof fn view_same(a: Self) {
    }

    fn before(self, other: Self) -> bool {
        self.0 < other.0
    }

    fn same(self, other: Self) -> bool {
        self.0 == other.0
    }
}

/// One event.
#[derive(Clone, Copy, PartialEq, Eq, PartialOrd, Ord, Hash, Debug, Structural)]
pub struct EventId(pub u32);

impl View for EventId {
    type V = EventId;

    open spec fn view(&self) -> EventId {
        *self
    }
}

impl Key for EventId {
    open spec fn rank(self) -> int {
        self.0 as int
    }

    proof fn rank_injective(a: Self, b: Self) {
    }

    proof fn view_same(a: Self) {
    }

    fn before(self, other: Self) -> bool {
        self.0 < other.0
    }

    fn same(self, other: Self) -> bool {
        self.0 == other.0
    }
}

/// One graph definition or executable graph.
#[derive(Clone, Copy, PartialEq, Eq, PartialOrd, Ord, Hash, Debug, Structural)]
pub struct GraphId(pub u32);

impl View for GraphId {
    type V = GraphId;

    open spec fn view(&self) -> GraphId {
        *self
    }
}

impl Key for GraphId {
    open spec fn rank(self) -> int {
        self.0 as int
    }

    proof fn rank_injective(a: Self, b: Self) {
    }

    proof fn view_same(a: Self) {
    }

    fn before(self, other: Self) -> bool {
        self.0 < other.0
    }

    fn same(self, other: Self) -> bool {
        self.0 == other.0
    }
}

/// An exported event handle.
#[derive(Clone, Copy, PartialEq, Eq, PartialOrd, Ord, Hash, Debug, Structural)]
pub struct IpcEventHandleId(pub u64);

impl View for IpcEventHandleId {
    type V = IpcEventHandleId;

    open spec fn view(&self) -> IpcEventHandleId {
        *self
    }
}

impl Key for IpcEventHandleId {
    open spec fn rank(self) -> int {
        self.0 as int
    }

    proof fn rank_injective(a: Self, b: Self) {
    }

    proof fn view_same(a: Self) {
    }

    fn before(self, other: Self) -> bool {
        self.0 < other.0
    }

    fn same(self, other: Self) -> bool {
        self.0 == other.0
    }
}

/// An exported allocation handle.
#[derive(Clone, Copy, PartialEq, Eq, PartialOrd, Ord, Hash, Debug, Structural)]
pub struct IpcHandleId(pub u64);

impl View for IpcHandleId {
    type V = IpcHandleId;

    open spec fn view(&self) -> IpcHandleId {
        *self
    }
}

impl Key for IpcHandleId {
    open spec fn rank(self) -> int {
        self.0 as int
    }

    proof fn rank_injective(a: Self, b: Self) {
    }

    proof fn view_same(a: Self) {
    }

    fn before(self, other: Self) -> bool {
        self.0 < other.0
    }

    fn same(self, other: Self) -> bool {
        self.0 == other.0
    }
}

/// A physical memory handle.
#[derive(Clone, Copy, PartialEq, Eq, PartialOrd, Ord, Hash, Debug, Structural)]
pub struct MemHandleId(pub u64);

impl View for MemHandleId {
    type V = MemHandleId;

    open spec fn view(&self) -> MemHandleId {
        *self
    }
}

impl Key for MemHandleId {
    open spec fn rank(self) -> int {
        self.0 as int
    }

    proof fn rank_injective(a: Self, b: Self) {
    }

    proof fn view_same(a: Self) {
    }

    fn before(self, other: Self) -> bool {
        self.0 < other.0
    }

    fn same(self, other: Self) -> bool {
        self.0 == other.0
    }
}

/// A multicast team.
#[derive(Clone, Copy, PartialEq, Eq, PartialOrd, Ord, Hash, Debug, Structural)]
pub struct MulticastId(pub u32);

impl View for MulticastId {
    type V = MulticastId;

    open spec fn view(&self) -> MulticastId {
        *self
    }
}

impl Key for MulticastId {
    open spec fn rank(self) -> int {
        self.0 as int
    }

    proof fn rank_injective(a: Self, b: Self) {
    }

    proof fn view_same(a: Self) {
    }

    fn before(self, other: Self) -> bool {
        self.0 < other.0
    }

    fn same(self, other: Self) -> bool {
        self.0 == other.0
    }
}

/// One submitted operation.
#[derive(Clone, Copy, PartialEq, Eq, PartialOrd, Ord, Hash, Debug, Structural)]
pub struct OpId(pub u64);

impl View for OpId {
    type V = OpId;

    open spec fn view(&self) -> OpId {
        *self
    }
}

impl Key for OpId {
    open spec fn rank(self) -> int {
        self.0 as int
    }

    proof fn rank_injective(a: Self, b: Self) {
    }

    proof fn view_same(a: Self) {
    }

    fn before(self, other: Self) -> bool {
        self.0 < other.0
    }

    fn same(self, other: Self) -> bool {
        self.0 == other.0
    }
}

/// One memory pool.
#[derive(Clone, Copy, PartialEq, Eq, PartialOrd, Ord, Hash, Debug, Structural)]
pub struct PoolId(pub u32);

impl View for PoolId {
    type V = PoolId;

    open spec fn view(&self) -> PoolId {
        *self
    }
}

impl Key for PoolId {
    open spec fn rank(self) -> int {
        self.0 as int
    }

    proof fn rank_injective(a: Self, b: Self) {
    }

    proof fn view_same(a: Self) {
    }

    fn before(self, other: Self) -> bool {
        self.0 < other.0
    }

    fn same(self, other: Self) -> bool {
        self.0 == other.0
    }
}

/// A pointer exported from a shareable pool.
#[derive(Clone, Copy, PartialEq, Eq, PartialOrd, Ord, Hash, Debug, Structural)]
pub struct PtrExportId(pub u64);

impl View for PtrExportId {
    type V = PtrExportId;

    open spec fn view(&self) -> PtrExportId {
        *self
    }
}

impl Key for PtrExportId {
    open spec fn rank(self) -> int {
        self.0 as int
    }

    proof fn rank_injective(a: Self, b: Self) {
    }

    proof fn view_same(a: Self) {
    }

    fn before(self, other: Self) -> bool {
        self.0 < other.0
    }

    fn same(self, other: Self) -> bool {
        self.0 == other.0
    }
}

/// An exported pool handle.
#[derive(Clone, Copy, PartialEq, Eq, PartialOrd, Ord, Hash, Debug, Structural)]
pub struct ShareableHandleId(pub u64);

impl View for ShareableHandleId {
    type V = ShareableHandleId;

    open spec fn view(&self) -> ShareableHandleId {
        *self
    }
}

impl Key for ShareableHandleId {
    open spec fn rank(self) -> int {
        self.0 as int
    }

    proof fn rank_injective(a: Self, b: Self) {
    }

    proof fn view_same(a: Self) {
    }

    fn before(self, other: Self) -> bool {
        self.0 < other.0
    }

    fn same(self, other: Self) -> bool {
        self.0 == other.0
    }
}

/// One stream of a GPU.
#[derive(Clone, Copy, PartialEq, Eq, PartialOrd, Ord, Hash, Debug, Structural)]
pub struct StreamId(pub u16);

impl View for StreamId {
    type V = StreamId;

    open spec fn view(&self) -> StreamId {
        *self
    }
}

impl Key for StreamId {
    open spec fn rank(self) -> int {
        self.0 as int
    }

    proof fn rank_injective(a: Self, b: Self) {
    }

    proof fn view_same(a: Self) {
    }

    fn before(self, other: Self) -> bool {
        self.0 < other.0
    }

    fn same(self, other: Self) -> bool {
        self.0 == other.0
    }
}

/// A reference-counted user object.
#[derive(Clone, Copy, PartialEq, Eq, PartialOrd, Ord, Hash, Debug, Structural)]
pub struct UserObjectId(pub u32);

impl View for UserObjectId {
    type V = UserObjectId;

    open spec fn view(&self) -> UserObjectId {
        *self
    }
}

impl Key for UserObjectId {
    open spec fn rank(self) -> int {
        self.0 as int
    }

    proof fn rank_injective(a: Self, b: Self) {
    }

    proof fn view_same(a: Self) {
    }

    fn before(self, other: Self) -> bool {
        self.0 < other.0
    }

    fn same(self, other: Self) -> bool {
        self.0 == other.0
    }
}

impl StreamId {
    /// The default stream.
    #[verifier::allow_in_spec]
    pub fn null() -> StreamId
        returns
            StreamId(0),
    {
        StreamId(0)
    }

    /// Whether this is the default stream.
    #[verifier::allow_in_spec]
    pub fn is_null(self) -> bool
        returns
            self.0 == 0,
    {
        self.0 == 0
    }
}

impl Key for usize {
    open spec fn rank(self) -> int {
        self as int
    }

    proof fn rank_injective(a: Self, b: Self) {
    }

    proof fn view_same(a: Self) {
    }

    fn before(self, other: Self) -> bool {
        self < other
    }

    fn same(self, other: Self) -> bool {
        self == other
    }
}

impl Key for u64 {
    open spec fn rank(self) -> int {
        self as int
    }

    proof fn rank_injective(a: Self, b: Self) {
    }

    proof fn view_same(a: Self) {
    }

    fn before(self, other: Self) -> bool {
        self < other
    }

    fn same(self, other: Self) -> bool {
        self == other
    }
}

/// One stream on one GPU.
#[derive(Clone, Copy, PartialEq, Eq, PartialOrd, Ord, Hash, Debug, Structural)]
pub struct Lane(pub DeviceId, pub StreamId);

impl View for Lane {
    type V = Lane;

    open spec fn view(&self) -> Lane {
        *self
    }
}

impl Key for Lane {
    open spec fn rank(self) -> int {
        self.0.0 * 0x1_0000 + self.1.0
    }

    proof fn rank_injective(a: Self, b: Self) {
    }

    proof fn view_same(a: Self) {
    }

    fn before(self, other: Self) -> bool {
        self.0.0 < other.0.0 || (self.0.0 == other.0.0 && (self.1.0 < other.1.0))
    }

    fn same(self, other: Self) -> bool {
        self.0.0 == other.0.0 && self.1.0 == other.1.0
    }
}

/// A directed pair of GPUs.
#[derive(Clone, Copy, PartialEq, Eq, PartialOrd, Ord, Hash, Debug, Structural)]
pub struct Peer(pub DeviceId, pub DeviceId);

impl View for Peer {
    type V = Peer;

    open spec fn view(&self) -> Peer {
        *self
    }
}

impl Key for Peer {
    open spec fn rank(self) -> int {
        self.0.0 * 0x1_0000 + self.1.0
    }

    proof fn rank_injective(a: Self, b: Self) {
    }

    proof fn view_same(a: Self) {
    }

    fn before(self, other: Self) -> bool {
        self.0.0 < other.0.0 || (self.0.0 == other.0.0 && (self.1.0 < other.1.0))
    }

    fn same(self, other: Self) -> bool {
        self.0.0 == other.0.0 && self.1.0 == other.1.0
    }
}

/// A mailbox word: allocation and byte offset.
#[derive(Clone, Copy, PartialEq, Eq, PartialOrd, Ord, Hash, Debug, Structural)]
pub struct Word(pub AllocId, pub u64);

impl View for Word {
    type V = Word;

    open spec fn view(&self) -> Word {
        *self
    }
}

impl Key for Word {
    open spec fn rank(self) -> int {
        self.0.0 * 0x1_0000_0000_0000_0000 + self.1
    }

    proof fn rank_injective(a: Self, b: Self) {
    }

    proof fn view_same(a: Self) {
    }

    fn before(self, other: Self) -> bool {
        self.0.0 < other.0.0 || (self.0.0 == other.0.0 && (self.1 < other.1))
    }

    fn same(self, other: Self) -> bool {
        self.0.0 == other.0.0 && self.1 == other.1
    }
}

/// A number is fixed by its digit and the rest, and numbers compare by them in turn.
proof fn lemma_digits(x: int, y: int, p: int, q: int, m: int)
    requires
        0 <= y < m,
        0 <= q < m,
    ensures
        (x * m + y < p * m + q) == (x < p || (x == p && y < q)),
        x * m + y == p * m + q ==> x == p && y == q,
{
    if x < p {
        assert(x * m + m <= p * m) by (nonlinear_arith)
            requires
                x < p,
                m > 0,
        ;
    } else if p < x {
        assert(p * m + m <= x * m) by (nonlinear_arith)
            requires
                p < x,
                m > 0,
        ;
    }
}

/// A physical map: reserved range, GPU, offset, bytes.
#[derive(Clone, Copy, PartialEq, Eq, PartialOrd, Ord, Hash, Debug, Structural)]
pub struct Piece(pub AllocId, pub DeviceId, pub u64, pub u64);

impl View for Piece {
    type V = Piece;

    open spec fn view(&self) -> Piece {
        *self
    }
}

/// Range and GPU of a map as one number.
pub open spec fn piece_place(p: Piece) -> int {
    p.0.0 * 0x1_0000 + p.1.0
}

/// Range, GPU and offset of a map as one number.
pub open spec fn piece_high(p: Piece) -> int {
    piece_place(p) * 0x1_0000_0000_0000_0000 + p.2
}

proof fn lemma_piece_order(a: Piece, b: Piece)
    ensures
        a.rank() == b.rank() ==> a == b,
        (a.rank() < b.rank()) == (a.0.0 < b.0.0 || (a.0.0 == b.0.0 && (a.1.0 < b.1.0 || (a.1.0
            == b.1.0 && (a.2 < b.2 || (a.2 == b.2 && a.3 < b.3)))))),
{
    lemma_digits(a.0.0 as int, a.1.0 as int, b.0.0 as int, b.1.0 as int, 0x1_0000);
    lemma_digits(piece_place(a), a.2 as int, piece_place(b), b.2 as int, 0x1_0000_0000_0000_0000);
    lemma_digits(piece_high(a), a.3 as int, piece_high(b), b.3 as int, 0x1_0000_0000_0000_0000);
}

impl Key for Piece {
    open spec fn rank(self) -> int {
        piece_high(self) * 0x1_0000_0000_0000_0000 + self.3
    }

    proof fn rank_injective(a: Self, b: Self) {
        lemma_piece_order(a, b);
    }

    proof fn view_same(a: Self) {
    }

    fn before(self, other: Self) -> bool {
        proof {
            lemma_piece_order(self, other);
        }
        self.0.0 < other.0.0 || (
            self.0.0 == other.0.0 && (
                self.1.0 < other.1.0 || (
                    self.1.0 == other.1.0 && (
                        self.2 < other.2 || (self.2 == other.2 && (self.3 < other.3))
                    )
                )
            )
        )
    }

    fn same(self, other: Self) -> bool {
        self.0.0 == other.0.0 && self.1.0 == other.1.0 && self.2 == other.2 && self.3 == other.3
    }
}

} // verus!
