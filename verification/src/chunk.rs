//! Chunking of a byte stream by a fixed buffer size.
//!
//! A copy loop reads at most `buffer_size` bytes per iteration, so the
//! stream it forwards is cut into chunks: every chunk except possibly
//! the last is exactly `buffer_size` bytes long, and concatenating the
//! chunks in order restores the stream unchanged. Chunking is a
//! transport-level detail that must stay invisible to the endpoints.

use vstd::prelude::*;

verus! {

/// The sequence of chunks that reading `s` through a buffer of
/// `b` bytes produces: full chunks of `b` bytes, then the remainder.
pub open spec fn chunks_of(s: Seq<u8>, b: nat) -> Seq<Seq<u8>>
    recommends
        b >= 1,
    decreases s.len(),
{
    if b == 0 || s.len() == 0 {
        Seq::empty()
    } else if s.len() <= b {
        seq![s]
    } else {
        seq![s.take(b as int)] + chunks_of(s.skip(b as int), b)
    }
}

/// Concatenation of a sequence of chunks, in order.
pub open spec fn concat_of(cs: Seq<Seq<u8>>) -> Seq<u8>
    decreases cs.len(),
{
    if cs.len() == 0 {
        Seq::empty()
    } else {
        cs.first() + concat_of(cs.drop_first())
    }
}

/// What the destination of a copy loop receives when the stream `s` is
/// forwarded through a buffer of `b` bytes: the chunks, reassembled.
pub open spec fn relayed(s: Seq<u8>, b: nat) -> Seq<u8> {
    concat_of(chunks_of(s, b))
}

/// The byte sequences held by a vector of chunk vectors, in order.
pub open spec fn views_of(cs: Seq<Vec<u8>>) -> Seq<Seq<u8>> {
    cs.map_values(|c: Vec<u8>| c@)
}

/// Chunking never drops, duplicates or reorders bytes: reassembling
/// the chunks of `s` yields exactly `s`, for every buffer size.
pub proof fn lemma_relay_exact(s: Seq<u8>, b: nat)
    requires
        b >= 1,
    ensures
        relayed(s, b) == s,
    decreases s.len(),
{
    assert(concat_of(Seq::<Seq<u8>>::empty()) == Seq::<u8>::empty());
    if s.len() == 0 {
        assert(relayed(s, b) =~= s);
    } else if s.len() <= b {
        let cs = chunks_of(s, b);
        assert(cs == seq![s]);
        assert(cs.first() == s);
        assert(cs.drop_first() =~= Seq::<Seq<u8>>::empty());
        assert(concat_of(cs) == s + concat_of(Seq::<Seq<u8>>::empty()));
        assert(relayed(s, b) =~= s);
    } else {
        lemma_relay_exact(s.skip(b as int), b);
        let cs = chunks_of(s, b);
        assert(cs.first() == s.take(b as int));
        assert(cs.drop_first() =~= chunks_of(s.skip(b as int), b));
        assert(concat_of(cs) == s.take(b as int) + relayed(s.skip(b as int), b));
        assert(relayed(s, b) =~= s.take(b as int) + s.skip(b as int));
        assert(s.take(b as int) + s.skip(b as int) =~= s);
    }
}

/// The received stream does not depend on the buffer size: any two
/// buffer sizes deliver the identical byte sequence.
pub proof fn lemma_buffer_size_invisible(s: Seq<u8>, b1: nat, b2: nat)
    requires
        b1 >= 1,
        b2 >= 1,
    ensures
        relayed(s, b1) == relayed(s, b2),
        relayed(s, b1) == s,
{
    lemma_relay_exact(s, b1);
    lemma_relay_exact(s, b2);
}

/// Sessions do not cross-contaminate: each relayed direction delivers
/// exactly its own source stream, whatever buffer sizes the sessions
/// use, so two sessions carrying distinct streams deliver distinct
/// streams. Nothing of one session's bytes can appear in another's.
pub proof fn lemma_no_cross_contamination(s1: Seq<u8>, b1: nat, s2: Seq<u8>, b2: nat)
    requires
        b1 >= 1,
        b2 >= 1,
    ensures
        relayed(s1, b1) == s1,
        relayed(s2, b2) == s2,
        s1 != s2 ==> relayed(s1, b1) != relayed(s2, b2),
{
    lemma_relay_exact(s1, b1);
    lemma_relay_exact(s2, b2);
}

/// Every chunk of a stream is non-empty and at most `b` bytes long,
/// and every chunk but the last is exactly `b` bytes long.
pub proof fn lemma_chunk_sizes(s: Seq<u8>, b: nat)
    requires
        b >= 1,
    ensures
        forall|i: int|
            0 <= i < chunks_of(s, b).len() ==> 1 <= (#[trigger] chunks_of(s, b)[i]).len() <= b,
        forall|i: int|
            0 <= i < chunks_of(s, b).len() - 1 ==> (#[trigger] chunks_of(s, b)[i]).len() == b,
    decreases s.len(),
{
    if s.len() == 0 || s.len() <= b {
    } else {
        lemma_chunk_sizes(s.skip(b as int), b);
        let cs = chunks_of(s, b);
        let rest = chunks_of(s.skip(b as int), b);
        assert forall|i: int| 0 <= i < cs.len() implies 1 <= (#[trigger] cs[i]).len() <= b by {
            if i > 0 {
                assert(cs[i] == rest[i - 1]);
            }
        }
        assert forall|i: int| 0 <= i < cs.len() - 1 implies (#[trigger] cs[i]).len() == b by {
            if i > 0 {
                assert(cs[i] == rest[i - 1]);
            }
        }
    }
}

/// Cuts `data` into the chunks that a copy loop with a transfer buffer
/// of `buffer_size` bytes would read, in reading order.
pub fn chunk_bytes(data: &Vec<u8>, buffer_size: usize) -> (chunks: Vec<Vec<u8>>)
    requires
        buffer_size >= 1,
    ensures
        views_of(chunks@) == chunks_of(data@, buffer_size as nat),
{
    let ghost b = buffer_size as nat;
    let mut chunks: Vec<Vec<u8>> = Vec::new();
    let mut pos: usize = 0;
    proof {
        assert(views_of(chunks@) =~= Seq::<Seq<u8>>::empty());
        assert(data@.skip(0) =~= data@);
        assert(chunks_of(data@, b) =~= views_of(chunks@) + chunks_of(data@.skip(pos as int), b));
    }
    while pos < data.len()
        invariant
            b == buffer_size as nat,
            buffer_size >= 1,
            pos <= data.len(),
            chunks_of(data@, b) == views_of(chunks@) + chunks_of(data@.skip(pos as int), b),
        decreases data.len() - pos,
    {
        let remaining = data.len() - pos;
        let take = if remaining < buffer_size {
            remaining
        } else {
            buffer_size
        };
        let mut one: Vec<u8> = Vec::new();
        let mut i: usize = 0;
        while i < take
            invariant
                pos + take <= data.len(),
                i <= take,
                one@ == data@.subrange(pos as int, pos + i),
            decreases take - i,
        {
            one.push(data[pos + i]);
            assert(one@ =~= data@.subrange(pos as int, pos + i + 1));
            i += 1;
        }
        proof {
            let tail = data@.skip(pos as int);
            assert(tail.len() == remaining);
            assert(one@ =~= tail.take(take as int));
            assert(views_of(chunks@.push(one)) =~= views_of(chunks@) + seq![one@]);
            if remaining <= buffer_size {
                assert(one@ =~= tail);
                assert(chunks_of(tail, b) == seq![tail]);
                assert(data@.skip(pos + take) =~= Seq::<u8>::empty());
                assert(chunks_of(data@.skip(pos + take), b) =~= Seq::<Seq<u8>>::empty());
                assert(chunks_of(data@, b) =~~= views_of(chunks@.push(one)) + chunks_of(
                    data@.skip(pos + take),
                    b,
                ));
            } else {
                assert(chunks_of(tail, b) == seq![tail.take(b as int)] + chunks_of(
                    tail.skip(b as int),
                    b,
                ));
                assert(tail.skip(b as int) =~= data@.skip(pos + take));
                assert(chunks_of(data@, b) =~~= views_of(chunks@.push(one)) + chunks_of(
                    data@.skip(pos + take),
                    b,
                ));
            }
        }
        chunks.push(one);
        pos += take;
    }
    proof {
        assert(data@.skip(pos as int) =~= Seq::<u8>::empty());
        assert(chunks_of(data@.skip(pos as int), b) =~= Seq::<Seq<u8>>::empty());
        assert(views_of(chunks@) =~~= chunks_of(data@, b));
    }
    chunks
}

} // verus!
