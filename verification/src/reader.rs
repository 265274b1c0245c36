use vstd::prelude::*;

verus! {

/// The byte that ends a line.
pub const NEWLINE: u8 = 10;

/// How many bytes one bounded line read consumes from the front of `data`:
/// everything up to and including the first newline byte, but never more
/// than `max` bytes and never more than the stream holds.
pub open spec fn chunk_len(data: Seq<u8>, max: nat) -> nat
    decreases data.len(),
{
    if data.len() == 0 || max == 0 {
        0
    } else if data[0] == NEWLINE {
        1
    } else {
        (1 + chunk_len(data.skip(1), (max - 1) as nat)) as nat
    }
}

/// One bounded read never consumes more than `max` bytes, nor more than the
/// stream holds.
pub proof fn lemma_chunk_len_le(data: Seq<u8>, max: nat)
    ensures
        chunk_len(data, max) <= data.len(),
        chunk_len(data, max) <= max,
    decreases data.len(),
{
    if data.len() == 0 || max == 0 {
    } else if data[0] == NEWLINE {
    } else {
        lemma_chunk_len_le(data.skip(1), (max - 1) as nat);
    }
}

/// The sequence of byte sequences that repeated bounded line reads return,
/// in order, against a stream that holds `data` and then ends.
pub open spec fn chunks_of(data: Seq<u8>, max: nat) -> Seq<Seq<u8>>
    decreases data.len(),
    via chunks_of_decreases
{
    if data.len() == 0 || max == 0 {
        Seq::empty()
    } else {
        seq![data.take(chunk_len(data, max) as int)] + chunks_of(
            data.skip(chunk_len(data, max) as int),
            max,
        )
    }
}

#[via_fn]
proof fn chunks_of_decreases(data: Seq<u8>, max: nat) {
    if data.len() > 0 && max > 0 {
        lemma_chunk_len_le(data, max);
        assert(chunk_len(data, max) >= 1);
    }
}

/// If the first newline of `data` sits at position `n - 1`, within both the
/// bound and the stream, one bounded read consumes exactly those `n` bytes.
pub proof fn lemma_chunk_len_at_newline(data: Seq<u8>, max: nat, n: nat)
    requires
        1 <= n <= data.len(),
        n <= max,
        forall|k: int| 0 <= k < n - 1 ==> data[k] != NEWLINE,
        data[n - 1] == NEWLINE,
    ensures
        chunk_len(data, max) == n,
    decreases n,
{
    if n == 1 {
    } else {
        assert(data[0] != NEWLINE);
        let tail = data.skip(1);
        assert forall|k: int| 0 <= k < n - 2 implies tail[k] != NEWLINE by {
            assert(tail[k] == data[k + 1]);
        }
        assert(tail[n - 2] == data[n - 1]);
        lemma_chunk_len_at_newline(tail, (max - 1) as nat, (n - 1) as nat);
    }
}

/// If no newline sits within the first `n` bytes and `n` is as far as either
/// the bound or the stream reaches, one bounded read consumes exactly `n`
/// bytes.
pub proof fn lemma_chunk_len_no_newline(data: Seq<u8>, max: nat, n: nat)
    requires
        n <= data.len(),
        n <= max,
        n == max || n == data.len(),
        forall|k: int| 0 <= k < n ==> data[k] != NEWLINE,
    ensures
        chunk_len(data, max) == n,
    decreases n,
{
    if n == 0 {
    } else {
        assert(data[0] != NEWLINE);
        let tail = data.skip(1);
        assert forall|k: int| 0 <= k < n - 1 implies tail[k] != NEWLINE by {
            assert(tail[k] == data[k + 1]);
        }
        lemma_chunk_len_no_newline(tail, (max - 1) as nat, (n - 1) as nat);
    }
}

/// No single returned sequence exceeds `max` bytes, and every returned
/// sequence holds at least one byte, so a stream of `data.len()` bytes is
/// exhausted after at most `data.len()` reads, after which only the
/// end-of-stream answer remains.
pub proof fn lemma_chunks_bounded(data: Seq<u8>, max: nat)
    ensures
        forall|i: int|
            0 <= i < chunks_of(data, max).len() ==> 1 <= #[trigger] chunks_of(data, max)[i].len()
                <= max,
        chunks_of(data, max).len() <= data.len(),
    decreases data.len(),
{
    if data.len() == 0 || max == 0 {
    } else {
        lemma_chunk_len_le(data, max);
        let n = chunk_len(data, max) as int;
        lemma_chunks_bounded(data.skip(n), max);
        assert forall|i: int| 0 <= i < chunks_of(data, max).len() implies 1 <= #[trigger] chunks_of(
            data,
            max,
        )[i].len() <= max by {
            if i > 0 {
                assert(chunks_of(data, max)[i] == chunks_of(data.skip(n), max)[i - 1]);
            }
        }
    }
}

/// Repeated bounded reads, run until the stream ends, hand back the whole
/// stream: the concatenation of all returned sequences is `data` itself.
pub proof fn lemma_chunks_cover(data: Seq<u8>, max: nat)
    requires
        max > 0,
    ensures
        chunks_of(data, max).flatten() == data,
    decreases data.len(),
{
    if data.len() == 0 {
        assert(chunks_of(data, max).flatten() =~= data);
    } else {
        lemma_chunk_len_le(data, max);
        assert(chunk_len(data, max) >= 1);
        let n = chunk_len(data, max) as int;
        let rest = data.skip(n);
        lemma_chunks_cover(rest, max);
        let cs = chunks_of(data, max);
        assert(cs == seq![data.take(n)] + chunks_of(rest, max));
        assert(cs.len() > 0);
        assert(cs.first() == data.take(n));
        assert(cs.drop_first() =~= chunks_of(rest, max));
        assert(cs.flatten() == cs.first() + cs.drop_first().flatten());
        assert(data.take(n) + rest =~= data);
    }
}

/// A stream holding a single line shorter than the bound and ended by a
/// newline comes back in exactly one read, whole, terminator included.
pub proof fn lemma_single_line_one_read(data: Seq<u8>, max: nat)
    requires
        1 <= data.len() < max,
        data[data.len() - 1] == NEWLINE,
        forall|k: int| 0 <= k < data.len() - 1 ==> data[k] != NEWLINE,
    ensures
        chunks_of(data, max) == seq![data],
{
    lemma_chunk_len_at_newline(data, max, data.len());
    let n = data.len() as int;
    assert(data.take(n) =~= data);
    assert(data.skip(n) =~= Seq::<u8>::empty());
    assert(chunks_of(data.skip(n), max) =~= Seq::<Seq<u8>>::empty());
    assert(chunks_of(data, max) =~= seq![data]);
}

/// One bounded line read against the bytes of `data` from position `start`
/// on: the returned chunk reaches up to and including the first newline, or
/// up to `max` bytes or the end of the data, whichever comes first.
fn next_chunk(data: &Vec<u8>, start: usize, max: u64) -> (chunk: Vec<u8>)
    requires
        start < data@.len(),
        max >= 1,
    ensures
        chunk@.len() == chunk_len(data@.skip(start as int), max as nat),
        chunk@ == data@.subrange(
            start as int,
            start + chunk_len(data@.skip(start as int), max as nat),
        ),
{
    let mut chunk: Vec<u8> = Vec::new();
    let mut i: usize = start;
    let mut found = false;
    while i < data.len() && ((i - start) as u64) < max && !found
        invariant
            start <= i <= data@.len(),
            i - start <= max,
            chunk@ == data@.subrange(start as int, i as int),
            found ==> i - start >= 1 && data@[i - 1] == NEWLINE,
            forall|k: int| start <= k < i && (!found || k < i - 1) ==> data@[k] != NEWLINE,
        decreases data@.len() - i,
    {
        let b = data[i];
        chunk.push(b);
        i = i + 1;
        if b == NEWLINE {
            found = true;
        }
        proof {
            assert(chunk@ =~= data@.subrange(start as int, i as int));
        }
    }
    proof {
        let d = data@.skip(start as int);
        let n = (i - start) as nat;
        assert forall|k: int| 0 <= k < n && (!found || k < n - 1) implies d[k] != NEWLINE by {
            assert(d[k] == data@[start + k]);
        }
        if found {
            assert(d[n - 1] == data@[i - 1]);
            lemma_chunk_len_at_newline(d, max as nat, n);
        } else {
            assert(n == max || start + n == data@.len());
            lemma_chunk_len_no_newline(d, max as nat, n);
        }
    }
    chunk
}

/// Every bounded line read against an in-memory stream, in order: the
/// executable counterpart of [`chunks_of`], usable whenever the whole
/// content is at hand.
pub fn split_chunks(data: &Vec<u8>, max: u64) -> (chunks: Vec<Vec<u8>>)
    requires
        max >= 1,
    ensures
        chunks@.map_values(|c: Vec<u8>| c@) == chunks_of(data@, max as nat),
{
    let mut chunks: Vec<Vec<u8>> = Vec::new();
    let mut start: usize = 0;
    proof {
        assert(data@.skip(0) =~= data@);
        assert(chunks_of(data@, max as nat) =~= chunks@.map_values(|c: Vec<u8>| c@) + chunks_of(
            data@.skip(0),
            max as nat,
        ));
    }
    while start < data.len()
        invariant
            max >= 1,
            start <= data@.len(),
            chunks_of(data@, max as nat) == chunks@.map_values(|c: Vec<u8>| c@) + chunks_of(
                data@.skip(start as int),
                max as nat,
            ),
        decreases data@.len() - start,
    {
        let ghost d = data@.skip(start as int);
        let chunk = next_chunk(data, start, max);
        let n = chunk.len();
        proof {
            lemma_chunk_len_le(d, max as nat);
            assert(chunk_len(d, max as nat) >= 1);
        }
        let ghost old_chunks = chunks@;
        chunks.push(chunk);
        start = start + n;
        proof {
            assert(d.take(n as int) =~= chunk@);
            assert(d.skip(n as int) =~= data@.skip(start as int));
            assert(chunks_of(d, max as nat) == seq![chunk@] + chunks_of(
                data@.skip(start as int),
                max as nat,
            ));
            assert(chunks@.map_values(|c: Vec<u8>| c@) =~= old_chunks.map_values(|c: Vec<u8>| c@)
                + seq![chunk@]);
            assert(chunks_of(data@, max as nat) =~= chunks@.map_values(|c: Vec<u8>| c@)
                + chunks_of(data@.skip(start as int), max as nat));
        }
    }
    proof {
        assert(data@.skip(start as int) =~= Seq::<u8>::empty());
        assert(chunks_of(data@.skip(start as int), max as nat) =~= Seq::<Seq<u8>>::empty());
        assert(chunks@.map_values(|c: Vec<u8>| c@) =~= chunks_of(data@, max as nat));
    }
    chunks
}

/// Classify what one bounded pipe read produced: `n` bytes appended to
/// `line`. Zero bytes before end-of-stream is the end-of-stream answer;
/// anything else hands the accumulated bytes back as one line, whether or
/// not a newline was reached.
pub fn read_outcome(n: usize, line: Vec<u8>) -> (r: Option<Vec<u8>>)
    ensures
        r is Some <==> n != 0,
        n != 0 ==> (r matches Some(l) && l == line),
{
    if n == 0 {
        None
    } else {
        Some(line)
    }
}

} // verus!
