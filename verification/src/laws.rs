//! What holds of every sequence of operations on a channel.

use crate::channel::input;
use crate::channel::is_idle;
use crate::channel::written;
use crate::channel::Channel;
use crate::channel::Op;
use vstd::prelude::*;

verus! {

/// The chunk limit never changes: whatever operations are applied, the channel
/// keeps the limit it was made with.
pub proof fn lemma_chunk_size_is_fixed(c: Channel, ops: Seq<Op>)
    ensures
        c.run(ops).chunk_size == c.chunk_size,
    decreases ops.len(),
{
    if ops.len() > 0 {
        lemma_chunk_size_is_fixed(c, ops.drop_last());
    }
}

/// Order preservation. Whatever operations are applied, in whatever order and
/// however the reads and pulls cut the bytes up: the bytes handed out so far,
/// followed by the bytes still buffered, are the bytes buffered at the start
/// followed by all bytes written since, in the order of the writes. No byte is
/// lost, repeated or moved.
pub proof fn lemma_order_preserved(c: Channel, ops: Seq<Op>)
    ensures
        c.delivered(ops) + c.run(ops).buf == c.buf + written(ops),
    decreases ops.len(),
{
    if ops.len() == 0 {
        assert(c.delivered(ops) + c.run(ops).buf =~= c.buf + written(ops));
    } else {
        let before = ops.drop_last();
        let op = ops.last();
        let mid = c.run(before);
        lemma_order_preserved(c, before);
        assert(mid.output(op) + mid.step(op).buf =~= mid.buf + input(op));
        assert(c.delivered(ops) + c.run(ops).buf =~= c.delivered(before) + (mid.output(op)
            + mid.step(op).buf));
        assert(c.buf + written(ops) =~= (c.buf + written(before)) + input(op));
        assert(c.delivered(before) + (mid.buf + input(op)) =~= (c.delivered(before) + mid.buf)
            + input(op));
    }
}

/// On a channel that starts empty, what the readers have seen is always a
/// prefix of what the writers wrote, and it is all of it as soon as nothing is
/// left in the buffer.
pub proof fn lemma_readers_see_what_was_written(chunk_size: nat, ops: Seq<Op>)
    ensures
        Channel::new(chunk_size).delivered(ops).is_prefix_of(written(ops)),
        Channel::new(chunk_size).run(ops).buf.len() == 0 ==> Channel::new(chunk_size).delivered(
            ops,
        ) == written(ops),
{
    let c = Channel::new(chunk_size);
    lemma_order_preserved(c, ops);
    assert(c.buf + written(ops) =~= written(ops));
    let seen = c.delivered(ops);
    let rest = c.run(ops).buf;
    assert(seen =~= (seen + rest).subrange(0, seen.len() as int));
    if rest.len() == 0 {
        assert(seen + rest =~= seen);
    }
}

/// Read exactness. A read of `n` bytes delivers exactly `n` bytes, the first
/// `n` that are buffered, and leaves the rest; or, while fewer than `n` are
/// buffered, it delivers nothing and leaves the channel as it is. It never
/// delivers fewer than `n`. A read of no bytes always completes.
pub proof fn lemma_read_all_or_nothing(c: Channel, n: nat)
    ensures
        c.can_read(n) ==> c.read_out(n).len() == n && c.read_out(n) + c.read(n).buf == c.buf,
        !c.can_read(n) ==> c.read_out(n).len() == 0 && c.read(n) == c,
        c.can_read(0),
{
    if c.can_read(n) {
        assert(c.read_out(n) + c.read(n).buf =~= c.buf);
    }
}

/// Chunk bound. A pull never yields more than the chunk limit. It yields at
/// least one byte exactly when the limit is positive and something is
/// buffered; it does not wait for a full chunk. What it yields is the head of
/// the buffer, and the rest stays. A pull that yields nothing changes nothing.
pub proof fn lemma_chunk_bound(c: Channel)
    ensures
        c.next_out().len() <= c.chunk_size,
        c.next_out().len() >= 1 <==> c.chunk_size >= 1 && c.buf.len() >= 1,
        c.next_out() + c.next().buf == c.buf,
        c.buf.len() <= c.chunk_size ==> c.next_out() == c.buf,
        c.chunk_len() == 0 ==> c.next() == c,
{
    assert(c.next_out() + c.next().buf =~= c.buf);
    if c.chunk_len() == 0 {
        assert(c.next().buf =~= c.buf);
    }
    if c.buf.len() <= c.chunk_size {
        assert(c.next_out() =~= c.buf);
    }
}

/// The operations of `k` pulls in a row.
pub open spec fn pulls(k: nat) -> Seq<Op> {
    Seq::new(k, |i: int| Op::Next)
}

/// How many bytes `k` pulls in a row take from `buffered` bytes under the
/// chunk limit `chunk_size`.
pub open spec fn pulled(chunk_size: nat, buffered: nat, k: nat) -> nat {
    if k * chunk_size <= buffered {
        k * chunk_size
    } else {
        buffered
    }
}

/// Pulls cut the buffer at multiples of the chunk limit: `k` pulls in a row
/// hand out the first `k * chunk_size` buffered bytes, in order, or all of
/// them where fewer are buffered.
pub proof fn lemma_pulls_split_at_chunk_size(c: Channel, k: nat)
    ensures
        c.delivered(pulls(k)) == c.buf.take(pulled(c.chunk_size, c.buf.len(), k) as int),
        c.run(pulls(k)).buf == c.buf.skip(pulled(c.chunk_size, c.buf.len(), k) as int),
        c.run(pulls(k)).chunk_size == c.chunk_size,
    decreases k,
{
    let size = c.chunk_size;
    let len = c.buf.len();
    if k == 0 {
        assert(pulls(0).len() == 0);
        assert(k * size == 0) by (nonlinear_arith)
            requires
                k == 0,
        ;
        assert(c.buf.take(0) =~= Seq::<u8>::empty());
        assert(c.buf.skip(0) =~= c.buf);
    } else {
        let j = (k - 1) as nat;
        lemma_pulls_split_at_chunk_size(c, j);
        assert(pulls(k).drop_last() =~= pulls(j));
        assert(pulls(k).last() == Op::Next);
        let mid = c.run(pulls(j));
        let done = pulled(size, len, j);
        let more = pulled(size, len, k);
        assert(k * size == j * size + size) by (nonlinear_arith)
            requires
                k == j + 1,
        ;
        assert(done <= more <= len);
        assert(mid.chunk_len() == more - done);
        assert(c.delivered(pulls(k)) == c.buf.take(done as int) + mid.next_out());
        assert(c.buf.take(done as int) + c.buf.skip(done as int).take(more - done) =~= c.buf.take(
            more as int,
        ));
        assert(c.buf.skip(done as int).skip(more - done) =~= c.buf.skip(more as int));
    }
}

/// Writes never mix. Where only writes are applied, nothing is handed out and
/// the buffer is what it was, followed by the argument of each write in the
/// order in which the writes were applied, each in one piece.
pub proof fn lemma_writes_concatenate(c: Channel, ops: Seq<Op>)
    requires
        forall|i: int| 0 <= i < ops.len() ==> ops[i] is Write,
    ensures
        c.delivered(ops) == Seq::<u8>::empty(),
        c.run(ops).buf == c.buf + written(ops),
    decreases ops.len(),
{
    if ops.len() > 0 {
        let before = ops.drop_last();
        lemma_writes_concatenate(c, before);
        assert(ops.last() is Write);
        assert(c.delivered(ops) =~= Seq::<u8>::empty());
    }
    lemma_order_preserved(c, ops);
    assert(c.delivered(ops) + c.run(ops).buf =~= c.run(ops).buf);
}

/// Two writers. A write is one step on the state, made with exclusive access
/// to it, so two writers that append `a` and `b` at the same time are served
/// in one of two orders. Either way the buffer afterwards is what it was,
/// followed by the two arguments, each in one piece: `a` then `b`, or `b` then
/// `a`.
pub proof fn lemma_two_writers_serialize(c: Channel, a: Seq<u8>, b: Seq<u8>)
    ensures
        c.write(a).write(b).buf == c.buf + a + b,
        c.write(b).write(a).buf == c.buf + b + a,
{
}

/// Flush and close do nothing: applied any number of times, in any order,
/// they leave the channel as it is and hand nothing out.
pub proof fn lemma_flush_and_close_change_nothing(c: Channel, ops: Seq<Op>)
    requires
        forall|i: int| 0 <= i < ops.len() ==> is_idle(#[trigger] ops[i]),
    ensures
        c.run(ops) == c,
        c.delivered(ops) == Seq::<u8>::empty(),
        written(ops) == Seq::<u8>::empty(),
    decreases ops.len(),
{
    if ops.len() > 0 {
        lemma_flush_and_close_change_nothing(c, ops.drop_last());
        assert(is_idle(ops.last()));
        assert(c.delivered(ops) =~= Seq::<u8>::empty());
        assert(written(ops) =~= Seq::<u8>::empty());
    }
}

/// A flush or a close among other operations goes unnoticed: with it or
/// without it, the operations before and after it leave the same channel and
/// hand out the same bytes.
pub proof fn lemma_flush_and_close_go_unnoticed(c: Channel, before: Seq<Op>, op: Op, after: Seq<Op>)
    requires
        is_idle(op),
    ensures
        c.run(before.push(op) + after) == c.run(before + after),
        c.delivered(before.push(op) + after) == c.delivered(before + after),
    decreases after.len(),
{
    let with = before.push(op) + after;
    let without = before + after;
    if after.len() == 0 {
        assert(with =~= before.push(op));
        assert(without =~= before);
        assert(with.drop_last() =~= before);
        assert(c.delivered(with) =~= c.delivered(before));
    } else {
        lemma_flush_and_close_go_unnoticed(c, before, op, after.drop_last());
        assert(with.drop_last() =~= before.push(op) + after.drop_last());
        assert(without.drop_last() =~= before + after.drop_last());
        assert(with.last() == after.last());
        assert(without.last() == after.last());
    }
}

} // verus!
