//! Persisting L2 lines: which ranges stay cached, oldest leaving first.
use vstd::prelude::*;
use crate::ids::AllocId;
use crate::num::{max_u64, min_u64, mul_sat};
use crate::spans::range_overlap;
use crate::state::PersistLine;

verus! {

/// Bytes of the lines, saturating.
pub open spec fn lines_used(q: Seq<PersistLine>) -> u64
    decreases q.len(),
{
    if q.len() == 0 {
        0
    } else {
        lines_used(q.drop_last()).saturating_add(q.last().bytes)
    }
}

/// Bytes of the lines.
pub fn persist_used(v: &Vec<PersistLine>) -> (r: u64)
    ensures
        r == lines_used(v@),
{
    let mut acc: u64 = 0;
    let mut i: usize = 0;
    while i < v.len()
        invariant
            i <= v@.len(),
            acc == lines_used(v@.take(i as int)),
        decreases v@.len() - i,
    {
        acc = acc.saturating_add(v[i].bytes);
        i += 1;
        assert(v@.take(i as int).drop_last() =~= v@.take(i - 1));
    }
    assert(v@.take(i as int) =~= v@);
    acc
}

/// Bytes of `[off, off + n)` of an allocation that the lines hold, line by line.
pub open spec fn lines_overlap(q: Seq<PersistLine>, id: AllocId, off: u64, n: u64) -> u64
    decreases q.len(),
{
    if q.len() == 0 {
        0
    } else {
        let before = lines_overlap(q.drop_last(), id, off, n);
        if q.last().id == id {
            before.saturating_add(range_overlap(off, n, q.last().offset, q.last().bytes))
        } else {
            before
        }
    }
}

/// Bytes of a range that the lines hold.
pub fn span_overlap_with(id: AllocId, off: u64, n: u64, v: &Vec<PersistLine>) -> (r: u64)
    ensures
        r == lines_overlap(v@, id, off, n),
{
    let mut acc: u64 = 0;
    let mut i: usize = 0;
    while i < v.len()
        invariant
            i <= v@.len(),
            acc == lines_overlap(v@.take(i as int), id, off, n),
        decreases v@.len() - i,
    {
        let s = v[i];
        if s.id == id {
            acc = acc.saturating_add(range_overlap(off, n, s.offset, s.bytes));
        }
        i += 1;
        assert(v@.take(i as int).drop_last() =~= v@.take(i - 1));
    }
    assert(v@.take(i as int) =~= v@);
    acc
}

/// The lines that do not meet `[off, off + n)` of an allocation.
pub open spec fn lines_apart(q: Seq<PersistLine>, id: AllocId, off: u64, n: u64) -> Seq<PersistLine>
    decreases q.len(),
{
    if q.len() == 0 {
        q
    } else {
        let before = lines_apart(q.drop_last(), id, off, n);
        if q.last().id != id || range_overlap(off, n, q.last().offset, q.last().bytes) == 0 {
            before.push(q.last())
        } else {
            before
        }
    }
}

/// The lines that are left when the oldest leave until `room` more bytes fit into `limit`.
pub open spec fn lines_trimmed(q: Seq<PersistLine>, room: u64, limit: u64) -> Seq<PersistLine>
    decreases q.len(),
{
    if q.len() > 0 && lines_used(q).saturating_add(room) > limit {
        lines_trimmed(q.skip(1), room, limit)
    } else {
        q
    }
}

/// The lines after `[off, off + n)` of an allocation was brought in.
pub open spec fn lines_filled(
    q: Seq<PersistLine>,
    limit: u64,
    id: AllocId,
    off: u64,
    n: u64,
) -> Seq<PersistLine> {
    if n == 0 || limit == 0 {
        q
    } else {
        let n = min_u64(n, limit);
        let kept = lines_trimmed(lines_trimmed(lines_apart(q, id, off, n), 0, limit), n, limit);
        if lines_used(kept).saturating_add(n) <= limit {
            kept.push(PersistLine { id, offset: off, bytes: n })
        } else {
            kept
        }
    }
}

/// Drop the oldest lines until `room` more bytes fit.
pub fn persist_trim(v: &mut Vec<PersistLine>, room: u64, limit: u64)
    ensures
        final(v)@ == lines_trimmed(old(v)@, room, limit),
{
    let ghost whole = lines_trimmed(v@, room, limit);
    while v.len() > 0 && persist_used(v).saturating_add(room) > limit
        invariant
            whole == lines_trimmed(v@, room, limit),
        decreases v@.len(),
    {
        let ghost q = v@;
        let _gone = v.remove(0);
        assert(v@ =~= q.skip(1));
    }
}

/// Bring a range in.
pub fn persist_fill(v: &mut Vec<PersistLine>, limit: u64, id: AllocId, off: u64, n: u64)
    ensures
        final(v)@ == lines_filled(old(v)@, limit, id, off, n),
{
    if n == 0 || limit == 0 {
        return;
    }
    let n: u64 = min_u64(n, limit);
    let mut kept: Vec<PersistLine> = Vec::new();
    let mut i: usize = 0;
    while i < v.len()
        invariant
            i <= v@.len(),
            v@ == old(v)@,
            kept@ == lines_apart(v@.take(i as int), id, off, n),
        decreases v@.len() - i,
    {
        let l = v[i];
        if l.id != id || range_overlap(off, n, l.offset, l.bytes) == 0 {
            kept.push(l);
        }
        i += 1;
        assert(v@.take(i as int).drop_last() =~= v@.take(i - 1));
    }
    assert(v@.take(i as int) =~= v@);
    persist_trim(&mut kept, 0, limit);
    persist_trim(&mut kept, n, limit);
    if persist_used(&kept).saturating_add(n) <= limit {
        kept.push(PersistLine { id, offset: off, bytes: n });
    }
    *v = kept;
}

/// Traffic that is left when `hit` of `touch` bytes come from persisting lines.
#[verifier::allow_in_spec]
pub fn persist_discount(kind_bytes: u64, hit: u64, touch: u64, persist_permille: u64) -> u64
    returns
        (if hit == 0 || touch == 0 {
            kind_bytes
        } else {
            let frac = mul_sat(hit, 1000) / touch;
            let discount = mul_sat(frac, persist_permille) / 1000;
            mul_sat(kind_bytes, 1000u64.saturating_sub(min_u64(discount, 1000))) / 1000
        }),
{
    if hit == 0 || touch == 0 {
        return kind_bytes;
    }
    let frac: u64 = mul_sat(hit, 1000) / touch;
    let discount: u64 = mul_sat(frac, persist_permille) / 1000;
    mul_sat(kind_bytes, 1000u64.saturating_sub(min_u64(discount, 1000))) / 1000
}

/// Whether `a` goes behind `b` in allocation and offset order.
#[verifier::allow_in_spec]
pub fn line_after(a: PersistLine, b: PersistLine) -> bool
    returns
        (a.id.0 > b.id.0 || (a.id.0 == b.id.0 && a.offset > b.offset)),
{
    a.id.0 > b.id.0 || (a.id.0 == b.id.0 && a.offset > b.offset)
}

/// Ordered insertion: `x` goes behind the last line that is not after it.
pub open spec fn put_line(q: Seq<PersistLine>, x: PersistLine) -> Seq<PersistLine>
    decreases q.len(),
{
    if q.len() == 0 || !line_after(q.last(), x) {
        q.push(x)
    } else {
        put_line(q.drop_last(), x).push(q.last())
    }
}

/// The lines in allocation and offset order.
pub open spec fn lines_ordered(q: Seq<PersistLine>) -> Seq<PersistLine>
    decreases q.len(),
{
    if q.len() == 0 {
        q
    } else {
        put_line(lines_ordered(q.drop_last()), q.last())
    }
}

/// Append a line, growing the last one when they touch.
pub open spec fn join_line(q: Seq<PersistLine>, x: PersistLine) -> Seq<PersistLine> {
    if q.len() > 0 && q.last().id == x.id && q.last().offset.saturating_add(q.last().bytes)
        >= x.offset {
        let end = max_u64(
            q.last().offset.saturating_add(q.last().bytes),
            x.offset.saturating_add(x.bytes),
        );
        q.drop_last().push(
            PersistLine { bytes: end.saturating_sub(q.last().offset), ..q.last() },
        )
    } else {
        q.push(x)
    }
}

/// Ordered lines with touching neighbours merged.
pub open spec fn lines_joined(q: Seq<PersistLine>) -> Seq<PersistLine>
    decreases q.len(),
{
    if q.len() == 0 {
        q
    } else {
        join_line(lines_joined(q.drop_last()), q.last())
    }
}

fn put_in_order(v: &mut Vec<PersistLine>, x: PersistLine)
    ensures
        final(v)@ == put_line(old(v)@, x),
{
    let ghost q = v@;
    let mut i: usize = v.len();
    assert(q.take(i as int) =~= q);
    assert(put_line(q, x) + q.skip(i as int) =~= put_line(q, x));
    while i > 0 && line_after(v[i - 1], x)
        invariant
            i <= v@.len(),
            v@ == q,
            put_line(q, x) == put_line(q.take(i as int), x) + q.skip(i as int),
        decreases i,
    {
        proof {
            let t = q.take(i as int);
            assert(t.drop_last() =~= q.take(i - 1));
            assert(
                put_line(t, x) + q.skip(i as int) =~= put_line(q.take(i - 1), x) + q.skip(i - 1)
            );
        }
        i -= 1;
    }
    v.insert(i, x);
    assert(v@ =~= q.take(i as int).push(x) + q.skip(i as int));
}

/// Sort lines and merge those that touch.
pub fn merge_persist_spans(v: &Vec<PersistLine>) -> (r: Vec<PersistLine>)
    ensures
        r@ == lines_joined(lines_ordered(v@)),
{
    let mut sorted: Vec<PersistLine> = Vec::new();
    let mut i: usize = 0;
    while i < v.len()
        invariant
            i <= v@.len(),
            sorted@ == lines_ordered(v@.take(i as int)),
        decreases v@.len() - i,
    {
        put_in_order(&mut sorted, v[i]);
        i += 1;
        assert(v@.take(i as int).drop_last() =~= v@.take(i - 1));
    }
    assert(v@.take(i as int) =~= v@);
    let mut out: Vec<PersistLine> = Vec::new();
    let mut k: usize = 0;
    while k < sorted.len()
        invariant
            k <= sorted@.len(),
            out@ == lines_joined(sorted@.take(k as int)),
        decreases sorted@.len() - k,
    {
        let s = sorted[k];
        let ghost q = out@;
        let n: usize = out.len();
        if n > 0 && out[n - 1].id == s.id && out[n - 1].offset.saturating_add(out[n - 1].bytes)
            >= s.offset {
            let last = out[n - 1];
            let end: u64 = max_u64(
                last.offset.saturating_add(last.bytes),
                s.offset.saturating_add(s.bytes),
            );
            out.set(
                n - 1,
                PersistLine {
                    id: last.id,
                    offset: last.offset,
                    bytes: end.saturating_sub(last.offset),
                },
            );
        } else {
            out.push(s);
        }
        assert(out@ =~= join_line(q, s));
        k += 1;
        assert(sorted@.take(k as int).drop_last() =~= sorted@.take(k - 1));
    }
    assert(sorted@.take(k as int) =~= sorted@);
    out
}

} // verus!
