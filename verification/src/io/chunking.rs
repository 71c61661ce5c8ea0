//! Cutting a byte stream into chunks of one size.
//!
//! Every chunk that goes onto a block's stream is exactly one chunk size long,
//! save at the end of the block or at an explicit flush. A shorter rest stays
//! pending until the next write completes it.

use vstd::prelude::*;
use vstd::slice::slice_subrange;

verus! {

/// The chunks of `size` bytes that stand at the front of `s`, in order.
pub open spec fn full_chunks(s: Seq<u8>, size: nat) -> Seq<Seq<u8>>
    decreases s.len(),
{
    if size == 0 || s.len() < size {
        Seq::empty()
    } else {
        seq![s.take(size as int)] + full_chunks(s.skip(size as int), size)
    }
}

/// What is left of `s` behind its full chunks.
pub open spec fn chunk_rest(s: Seq<u8>, size: nat) -> Seq<u8>
    decreases s.len(),
{
    if size == 0 || s.len() < size {
        s
    } else {
        chunk_rest(s.skip(size as int), size)
    }
}

/// The chunks one behind the other.
pub open spec fn joined_chunks(chunks: Seq<Seq<u8>>) -> Seq<u8>
    decreases chunks.len(),
{
    if chunks.len() == 0 {
        Seq::empty()
    } else {
        chunks[0] + joined_chunks(chunks.drop_first())
    }
}

/// The bytes of each chunk.
pub open spec fn chunk_views(chunks: Seq<Vec<u8>>) -> Seq<Seq<u8>> {
    chunks.map_values(|c: Vec<u8>| c@)
}

/// Appends `data[from..end]` to `out`.
pub fn append_range(out: &mut Vec<u8>, data: &[u8], from: usize, end: usize)
    requires
        from <= end <= data@.len(),
    ensures
        final(out)@ == old(out)@ + data@.subrange(from as int, end as int),
{
    out.extend_from_slice(slice_subrange(data, from, end));
    proof {
        assert(out@ =~= old(out)@ + data@.subrange(from as int, end as int));
    }
}

/// A copy of `data[from..end]`.
pub fn owned_chunk(data: &[u8], from: usize, end: usize) -> (r: Vec<u8>)
    requires
        from <= end <= data@.len(),
    ensures
        r@ == data@.subrange(from as int, end as int),
{
    let mut out: Vec<u8> = Vec::new();
    append_range(&mut out, data, from, end);
    proof {
        assert(out@ =~= data@.subrange(from as int, end as int));
    }
    out
}

/// Completes the pending bytes with the front of `incoming[from..]`.
///
/// Where the two fill a chunk, the chunk is handed out. Otherwise, and if
/// something is pending, all of the incoming bytes become pending. The second
/// result is the place in `incoming` of the first byte that was not used.
pub fn take_completed_pending(
    pending: &mut Vec<u8>,
    incoming: &[u8],
    from: usize,
    chunk_size: usize,
) -> (r: (Option<Vec<u8>>, usize))
    requires
        old(pending)@.len() < chunk_size,
        from <= incoming@.len(),
    ensures
        from <= r.1 <= incoming@.len(),
        match r.0 {
            Some(full) => {
                &&& old(pending)@.len() > 0
                &&& full@.len() == chunk_size
                &&& final(pending)@.len() == 0
                &&& full@ == old(pending)@ + incoming@.subrange(from as int, r.1 as int)
            },
            None => if old(pending)@.len() == 0 {
                r.1 == from && final(pending)@ == old(pending)@
            } else {
                &&& r.1 == incoming@.len()
                &&& final(pending)@ == old(pending)@ + incoming@.skip(from as int)
                &&& final(pending)@.len() < chunk_size
            },
        },
{
    if pending.len() == 0 {
        return (None, from);
    }
    let need: usize = chunk_size - pending.len();
    if incoming.len() - from < need {
        append_range(pending, incoming, from, incoming.len());
        proof {
            assert(incoming@.subrange(from as int, incoming@.len() as int) =~= incoming@.skip(
                from as int,
            ));
        }
        return (None, incoming.len());
    }
    let next: usize = from + need;
    append_range(pending, incoming, from, next);
    let mut full: Vec<u8> = Vec::new();
    std::mem::swap(pending, &mut full);
    (Some(full), next)
}

/// Takes the next chunk of the pending bytes followed by `incoming[from..]`.
///
/// Where they do not fill a chunk, all of them become pending. The second
/// result is the place in `incoming` of the first byte that was not used.
pub fn next_chunk(
    pending: &mut Vec<u8>,
    incoming: &[u8],
    from: usize,
    chunk_size: usize,
) -> (r: (Option<Vec<u8>>, usize))
    requires
        old(pending)@.len() < chunk_size,
        from <= incoming@.len(),
    ensures
        from <= r.1 <= incoming@.len(),
        final(pending)@.len() < chunk_size,
        ({
            let stream = old(pending)@ + incoming@.skip(from as int);
            match r.0 {
                Some(chunk) => {
                    &&& stream.len() >= chunk_size
                    &&& chunk@ == stream.take(chunk_size as int)
                    &&& final(pending)@.len() == 0
                    &&& incoming@.skip(r.1 as int) == stream.skip(chunk_size as int)
                    &&& from < r.1
                },
                None => {
                    &&& stream.len() < chunk_size
                    &&& final(pending)@ == stream
                    &&& r.1 == incoming@.len()
                },
            }
        }),
{
    let ghost stream = pending@ + incoming@.skip(from as int);
    let (completed, next) = take_completed_pending(pending, incoming, from, chunk_size);
    if let Some(full) = completed {
        proof {
            assert(full@ =~= stream.take(chunk_size as int));
            assert(incoming@.skip(next as int) =~= stream.skip(chunk_size as int));
        }
        return (Some(full), next);
    }
    if incoming.len() - next >= chunk_size {
        let end: usize = next + chunk_size;
        let chunk = owned_chunk(incoming, next, end);
        proof {
            assert(chunk@ =~= stream.take(chunk_size as int));
            assert(incoming@.skip(end as int) =~= stream.skip(chunk_size as int));
        }
        return (Some(chunk), end);
    }
    append_range(pending, incoming, next, incoming.len());
    proof {
        assert(pending@ =~= stream);
    }
    (None, incoming.len())
}

/// Takes all full chunks of the pending bytes followed by `incoming`; the rest
/// becomes pending.
pub fn take_full_chunks(pending: &mut Vec<u8>, incoming: &[u8], chunk_size: usize) -> (r: Vec<
    Vec<u8>,
>)
    requires
        old(pending)@.len() < chunk_size,
    ensures
        chunk_views(r@) == full_chunks(old(pending)@ + incoming@, chunk_size as nat),
        final(pending)@ == chunk_rest(old(pending)@ + incoming@, chunk_size as nat),
        final(pending)@.len() < chunk_size,
{
    let ghost stream = pending@ + incoming@;
    let ghost size = chunk_size as nat;
    let mut chunks: Vec<Vec<u8>> = Vec::new();
    let mut from: usize = 0;
    let mut going = true;
    proof {
        assert(incoming@.skip(0) =~= incoming@);
        assert(chunk_views(chunks@) =~= Seq::<Seq<u8>>::empty());
        assert(Seq::<Seq<u8>>::empty() + full_chunks(stream, size) =~= full_chunks(stream, size));
    }
    while going
        invariant
            size == chunk_size,
            from <= incoming@.len(),
            pending@.len() < chunk_size,
            stream == old(pending)@ + incoming@,
            chunk_views(chunks@) + full_chunks(pending@ + incoming@.skip(from as int), size)
                == full_chunks(stream, size),
            chunk_rest(pending@ + incoming@.skip(from as int), size) == chunk_rest(stream, size),
            !going ==> (pending@ + incoming@.skip(from as int)).len() < chunk_size && from
                == incoming@.len(),
        decreases incoming@.len() - from + (if going { 1int } else { 0int }),
    {
        let ghost before = pending@ + incoming@.skip(from as int);
        let ghost done = chunks@;
        let (chunk, next) = next_chunk(pending, incoming, from, chunk_size);
        match chunk {
            Some(c) => {
                proof {
                    let after = pending@ + incoming@.skip(next as int);
                    assert(after =~= before.skip(chunk_size as int));
                    assert(full_chunks(before, size) =~= seq![c@] + full_chunks(after, size));
                    assert(chunk_views(done.push(c)) =~= chunk_views(done).push(c@));
                    assert(chunk_views(done) + (seq![c@] + full_chunks(after, size)) =~= chunk_views(
                        done,
                    ).push(c@) + full_chunks(after, size));
                }
                chunks.push(c);
            },
            None => {
                proof {
                    assert(pending@ + incoming@.skip(next as int) =~= before);
                }
                going = false;
            },
        }
        from = next;
    }
    proof {
        assert(pending@ + incoming@.skip(from as int) =~= pending@);
        assert(chunk_views(chunks@) + Seq::<Seq<u8>>::empty() =~= chunk_views(chunks@));
    }
    chunks
}

/// No byte is lost, doubled or moved: the chunks followed by the rest are the
/// stream. Every chunk has the chunk size, and the rest is shorter than one.
pub proof fn law_chunks_keep_the_stream(s: Seq<u8>, size: nat)
    requires
        size > 0,
    ensures
        joined_chunks(full_chunks(s, size)) + chunk_rest(s, size) == s,
        forall|i: int|
            0 <= i < full_chunks(s, size).len() ==> (#[trigger] full_chunks(s, size)[i]).len()
                == size,
        chunk_rest(s, size).len() < size,
    decreases s.len(),
{
    if s.len() >= size {
        let rest = s.skip(size as int);
        law_chunks_keep_the_stream(rest, size);
        let chunks = full_chunks(s, size);
        assert(chunks.drop_first() =~= full_chunks(rest, size));
        assert(s.take(size as int) + rest =~= s);
        assert((chunks[0] + joined_chunks(chunks.drop_first())) + chunk_rest(rest, size)
            =~= chunks[0] + (joined_chunks(chunks.drop_first()) + chunk_rest(rest, size)));
        assert forall|i: int| 0 <= i < chunks.len() implies (#[trigger] chunks[i]).len() == size by {
            if i > 0 {
                assert(chunks[i] == full_chunks(rest, size)[i - 1]);
            }
        }
    } else {
        assert(joined_chunks(full_chunks(s, size)) + s =~= s);
    }
}

/// It does not matter how a stream is divided among writes: the chunks of the
/// first part, then those of its rest followed by the second part, are the
/// chunks of the whole, with the same rest.
pub proof fn law_writes_divide_freely(a: Seq<u8>, b: Seq<u8>, size: nat)
    requires
        size > 0,
    ensures
        full_chunks(a, size) + full_chunks(chunk_rest(a, size) + b, size) == full_chunks(a + b, size),
        chunk_rest(chunk_rest(a, size) + b, size) == chunk_rest(a + b, size),
    decreases a.len(),
{
    if a.len() >= size {
        let rest = a.skip(size as int);
        law_writes_divide_freely(rest, b, size);
        assert((a + b).take(size as int) =~= a.take(size as int));
        assert((a + b).skip(size as int) =~= rest + b);
        assert((seq![a.take(size as int)] + full_chunks(rest, size)) + full_chunks(
            chunk_rest(rest, size) + b,
            size,
        ) =~= seq![a.take(size as int)] + (full_chunks(rest, size) + full_chunks(
            chunk_rest(rest, size) + b,
            size,
        )));
    } else {
        assert(Seq::<Seq<u8>>::empty() + full_chunks(a + b, size) =~= full_chunks(a + b, size));
    }
}

} // verus!
