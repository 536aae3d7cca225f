//! Frame encoder: turns one capture buffer of 32-bit samples (held as their
//! IEEE-754 bit patterns) into its wire frame of little-endian bytes, four
//! bytes per sample, in sample order, with no header or delimiter.

use vstd::prelude::*;
use vstd::bytes::*;

verus! {

/// The wire image of a sample sequence: each sample contributes its four
/// little-endian bytes, in sample order.
pub open spec fn frame_bytes(samples: Seq<u32>) -> Seq<u8>
    decreases samples.len(),
{
    if samples.len() == 0 {
        Seq::empty()
    } else {
        spec_u32_to_le_bytes(samples.first()) + frame_bytes(samples.drop_first())
    }
}

/// Reads a byte sequence back as 32-bit samples, four little-endian bytes at
/// a time; a trailing group of fewer than four bytes yields no sample.
pub open spec fn frame_samples(bytes: Seq<u8>) -> Seq<u32>
    decreases bytes.len(),
{
    if bytes.len() < 4 {
        Seq::empty()
    } else {
        seq![spec_u32_from_le_bytes(bytes.take(4))] + frame_samples(bytes.skip(4))
    }
}

pub proof fn lemma_frame_bytes_len(samples: Seq<u32>)
    ensures
        frame_bytes(samples).len() == 4 * samples.len(),
    decreases samples.len(),
{
    lemma_auto_spec_u32_to_from_le_bytes();
    if samples.len() > 0 {
        lemma_frame_bytes_len(samples.drop_first());
    }
}

pub proof fn lemma_frame_bytes_push(samples: Seq<u32>, s: u32)
    ensures
        frame_bytes(samples.push(s)) == frame_bytes(samples) + spec_u32_to_le_bytes(s),
    decreases samples.len(),
{
    let le = spec_u32_to_le_bytes(s);
    if samples.len() == 0 {
        assert(samples.push(s).first() == s);
        assert(samples.push(s).drop_first() =~= samples);
        assert(frame_bytes(samples.push(s)) == le + frame_bytes(samples));
        assert(le + frame_bytes(samples) =~= frame_bytes(samples) + le);
    } else {
        assert(samples.push(s).first() == samples.first());
        assert(samples.push(s).drop_first() =~= samples.drop_first().push(s));
        lemma_frame_bytes_push(samples.drop_first(), s);
        let head = spec_u32_to_le_bytes(samples.first());
        assert(frame_bytes(samples.push(s)) == head + (frame_bytes(samples.drop_first()) + le));
        assert(head + (frame_bytes(samples.drop_first()) + le) =~= (head + frame_bytes(
            samples.drop_first(),
        )) + le);
    }
}

/// Round-trip law: a frame holds exactly four bytes per sample, and decoding
/// it four bytes at a time with little-endian reconstruction restores the
/// sample sequence unchanged.
pub proof fn lemma_round_trip(samples: Seq<u32>)
    ensures
        frame_bytes(samples).len() == 4 * samples.len(),
        frame_samples(frame_bytes(samples)) == samples,
    decreases samples.len(),
{
    lemma_frame_bytes_len(samples);
    lemma_auto_spec_u32_to_from_le_bytes();
    if samples.len() == 0 {
        assert(frame_samples(frame_bytes(samples)) =~= samples);
    } else {
        let head = spec_u32_to_le_bytes(samples.first());
        let rest = frame_bytes(samples.drop_first());
        lemma_frame_bytes_len(samples.drop_first());
        assert((head + rest).take(4) =~= head);
        assert((head + rest).skip(4) =~= rest);
        lemma_round_trip(samples.drop_first());
        assert(frame_samples(frame_bytes(samples)) =~= samples);
    }
}

/// Encodes one capture buffer as its wire frame.
pub fn encode(samples: &Vec<u32>) -> (frame: Vec<u8>)
    ensures
        frame@ == frame_bytes(samples@),
        frame@.len() == 4 * samples@.len(),
{
    let mut frame: Vec<u8> = Vec::new();
    let mut i: usize = 0;
    while i < samples.len()
        invariant
            i <= samples@.len(),
            frame@ == frame_bytes(samples@.take(i as int)),
            frame@.len() == 4 * i,
        decreases samples@.len() - i,
    {
        let mut b = u32_to_le_bytes(samples[i]);
        frame.append(&mut b);
        proof {
            assert(samples@.take(i as int).push(samples@[i as int]) =~= samples@.take(
                i as int + 1,
            ));
            lemma_frame_bytes_push(samples@.take(i as int), samples@[i as int]);
        }
        i = i + 1;
    }
    proof {
        assert(samples@.take(samples@.len() as int) =~= samples@);
    }
    frame
}

/// Decodes a wire frame back into samples; the inverse of `encode`. A
/// trailing group of fewer than four bytes is dropped.
pub fn decode(frame: &Vec<u8>) -> (samples: Vec<u32>)
    ensures
        samples@ == frame_samples(frame@),
        samples@.len() == frame@.len() / 4,
{
    let mut samples: Vec<u32> = Vec::new();
    let mut i: usize = 0;
    proof {
        assert(frame@.skip(0) =~= frame@);
        assert(samples@ + frame_samples(frame@) =~= frame_samples(frame@));
    }
    while i < frame.len() && frame.len() - i >= 4
        invariant
            i <= frame@.len(),
            samples@.len() * 4 == i,
            frame_samples(frame@) == samples@ + frame_samples(frame@.skip(i as int)),
        decreases frame@.len() - i,
    {
        let chunk = vstd::slice::slice_subrange(frame.as_slice(), i, i + 4);
        let s = u32_from_le_bytes(chunk);
        proof {
            let tail = frame@.skip(i as int);
            assert(tail.take(4) =~= frame@.subrange(i as int, i as int + 4));
            assert(tail.skip(4) =~= frame@.skip(i as int + 4));
            assert(frame_samples(tail) == seq![s] + frame_samples(frame@.skip(i as int + 4)));
            assert(samples@ + frame_samples(tail) =~= samples@.push(s) + frame_samples(
                frame@.skip(i as int + 4),
            ));
        }
        samples.push(s);
        i = i + 4;
    }
    proof {
        assert(frame_samples(frame@.skip(i as int)).len() == 0);
        assert(samples@ + frame_samples(frame@.skip(i as int)) =~= samples@);
    }
    samples
}

} // verus!
