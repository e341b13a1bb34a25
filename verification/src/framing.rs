//! Re-framing of the byte stream: complete frames, delimited by the
//! begin-of-message and end-of-message bytes, are cut out of a buffer that
//! grows by chunks of arbitrary size.

use vstd::prelude::*;
use crate::codec::{frame_end, frame_start, BOM, EOM};
use crate::stream::{all_frames, lemma_reframe_cuts};

verus! {

/// `i` is the position of the first occurrence of `byte` in `bytes`.
pub open spec fn is_first_at(bytes: Seq<u8>, byte: u8, i: int) -> bool {
    &&& 0 <= i < bytes.len()
    &&& bytes[i] == byte
    &&& forall|j: int| 0 <= j < i ==> bytes[j] != byte
}

/// The position of the first occurrence of `byte` in `bytes`, if there is one.
pub open spec fn first_index(bytes: Seq<u8>, byte: u8) -> Option<int> {
    if exists|i: int| is_first_at(bytes, byte, i) {
        Some(choose|i: int| is_first_at(bytes, byte, i))
    } else {
        None
    }
}

/// `byte` does not occur in `bytes`.
pub open spec fn lacks(bytes: Seq<u8>, byte: u8) -> bool {
    forall|i: int| 0 <= i < bytes.len() ==> bytes[i] != byte
}

/// The bounds `(start, end)` of the first frame in `buf`: the first
/// begin-of-message byte, and the first end-of-message byte behind it.
pub open spec fn next_frame(buf: Seq<u8>) -> Option<(int, int)> {
    match first_index(buf, BOM) {
        Some(start) => match first_index(buf.skip(start), EOM) {
            Some(offset) => Some((start, start + offset)),
            None => None,
        },
        None => None,
    }
}

/// What one pass over `buf` yields: the frames cut out of it, in order, and
/// the bytes that stay in the buffer.
///
/// While the buffer holds a frame, the bytes before the frame are dropped
/// and the frame is cut out. Then, if a begin-of-message byte is left, the
/// bytes from it on, among which there is no end-of-message byte, stay for
/// the next pass; if none is left, nothing stays.
pub open spec fn reframe(buf: Seq<u8>) -> (Seq<Seq<u8>>, Seq<u8>)
    decreases buf.len(),
{
    match next_frame(buf) {
        Some((start, end)) => {
            let later = reframe(buf.skip(end + 1));
            (seq![buf.subrange(start, end + 1)] + later.0, later.1)
        },
        None => match first_index(buf, BOM) {
            Some(start) => (Seq::empty(), buf.skip(start)),
            None => (Seq::empty(), Seq::empty()),
        },
    }
}

/// The byte sequences that a vector of frames holds.
pub open spec fn frame_views(frames: Seq<Vec<u8>>) -> Seq<Seq<u8>> {
    frames.map_values(|frame: Vec<u8>| frame@)
}

/// Two first positions of one byte are the same position.
pub proof fn lemma_first_index_is(bytes: Seq<u8>, byte: u8, i: int)
    requires
        is_first_at(bytes, byte, i),
    ensures
        first_index(bytes, byte) == Some(i),
{
    let c = choose|k: int| is_first_at(bytes, byte, k);
    assert(is_first_at(bytes, byte, c));
    if c < i {
        assert(bytes[c] != byte);
    } else if i < c {
        assert(bytes[i] != byte);
    }
}

/// A byte that occurs has a first occurrence.
proof fn lemma_occurrence_has_first(bytes: Seq<u8>, byte: u8, k: int)
    requires
        0 <= k < bytes.len(),
        bytes[k] == byte,
    ensures
        exists|i: int| is_first_at(bytes, byte, i),
    decreases k,
{
    if forall|j: int| 0 <= j < k ==> bytes[j] != byte {
        assert(is_first_at(bytes, byte, k));
    } else {
        let j = choose|j: int| 0 <= j < k && bytes[j] == byte;
        lemma_occurrence_has_first(bytes, byte, j);
    }
}

/// `first_index` finds the first occurrence, and finds none only where the
/// byte does not occur.
pub proof fn lemma_first_index(bytes: Seq<u8>, byte: u8)
    ensures
        match first_index(bytes, byte) {
            Some(i) => is_first_at(bytes, byte, i),
            None => lacks(bytes, byte),
        },
{
    if first_index(bytes, byte) is None {
        assert forall|k: int| 0 <= k < bytes.len() implies bytes[k] != byte by {
            if bytes[k] == byte {
                lemma_occurrence_has_first(bytes, byte, k);
            }
        }
    }
}

/// `start` and `end` are the bounds of the first frame in `buf`: the first
/// begin-of-message byte, and the first end-of-message byte behind it.
pub open spec fn is_next_frame(buf: Seq<u8>, start: int, end: int) -> bool {
    &&& is_first_at(buf, BOM, start)
    &&& start < end < buf.len()
    &&& buf[end] == EOM
    &&& forall|j: int| start <= j < end ==> buf[j] != EOM
}

/// The bounds of the first frame are those that `next_frame` gives.
pub proof fn lemma_next_frame_is(buf: Seq<u8>, start: int, end: int)
    requires
        is_next_frame(buf, start, end),
    ensures
        next_frame(buf) == Some((start, end)),
{
    lemma_first_index_is(buf, BOM, start);
    let from = buf.skip(start);
    assert(is_first_at(from, EOM, end - start)) by {
        assert(from[end - start] == buf[end]);
        assert forall|j: int| 0 <= j < end - start implies from[j] != EOM by {
            assert(from[j] == buf[start + j]);
        }
    }
    lemma_first_index_is(from, EOM, end - start);
}

/// `next_frame` gives the bounds of the first frame, and gives none only
/// where there is no begin-of-message byte, or no end-of-message byte from
/// the first one on.
pub proof fn lemma_next_frame(buf: Seq<u8>)
    ensures
        match next_frame(buf) {
            Some((start, end)) => is_next_frame(buf, start, end),
            None => match first_index(buf, BOM) {
                Some(start) => is_first_at(buf, BOM, start) && lacks(buf.skip(start), EOM),
                None => lacks(buf, BOM),
            },
        },
{
    lemma_first_index(buf, BOM);
    match first_index(buf, BOM) {
        Some(start) => {
            let from = buf.skip(start);
            lemma_first_index(from, EOM);
            match first_index(from, EOM) {
                Some(offset) => {
                    let end = start + offset;
                    assert(buf[end] == from[offset]);
                    assert(from[0] == buf[start]);
                    assert forall|j: int| start <= j < end implies buf[j] != EOM by {
                        assert(buf[j] == from[j - start]);
                    }
                },
                None => {},
            }
        },
        None => {},
    }
}

/// The position of the first occurrence of `byte` in `bytes`.
pub fn position(bytes: &Vec<u8>, byte: u8) -> (found: Option<usize>)
    ensures
        match found {
            Some(i) => first_index(bytes@, byte) == Some(i as int),
            None => first_index(bytes@, byte) is None,
        },
{
    let mut i: usize = 0;
    while i < bytes.len()
        invariant
            i <= bytes.len(),
            forall|j: int| 0 <= j < i ==> bytes@[j] != byte,
        decreases bytes.len() - i,
    {
        if bytes[i] == byte {
            proof {
                lemma_first_index_is(bytes@, byte, i as int);
            }
            return Some(i);
        }
        i += 1;
    }
    proof {
        lemma_first_index(bytes@, byte);
    }
    None
}

/// A copy of `bytes[from..to]`.
fn copy_range(bytes: &Vec<u8>, from: usize, to: usize) -> (out: Vec<u8>)
    requires
        from <= to <= bytes.len(),
    ensures
        out@ == bytes@.subrange(from as int, to as int),
{
    let mut out: Vec<u8> = Vec::new();
    let mut i: usize = from;
    while i < to
        invariant
            from <= i <= to <= bytes.len(),
            out@ == bytes@.subrange(from as int, i as int),
        decreases to - i,
    {
        out.push(bytes[i]);
        i += 1;
        assert(out@ =~= bytes@.subrange(from as int, i as int));
    }
    out
}

/// Cuts the complete frames out of `buffer` and returns them in order.
///
/// Bytes before a frame are dropped. An unfinished frame stays in the buffer
/// for the next call; a buffer without a begin-of-message byte is emptied.
/// So every frame returned is complete, and the buffer is left empty or
/// holding one unfinished frame: it begins with the begin-of-message byte
/// and holds no end-of-message byte.
pub fn process_buffer(buffer: &mut Vec<u8>) -> (frames: Vec<Vec<u8>>)
    ensures
        frame_views(frames@) == reframe(old(buffer)@).0,
        final(buffer)@ == reframe(old(buffer)@).1,
        frames@.len() == reframe(old(buffer)@).0.len(),
        all_frames(frame_views(frames@)),
        final(buffer)@.len() == 0 || (final(buffer)@[0] == BOM && lacks(final(buffer)@, EOM)),
{
    let bom = frame_start();
    let eom = frame_end();
    let mut frames: Vec<Vec<u8>> = Vec::new();
    assert(frame_views(frames@) =~= Seq::<Seq<u8>>::empty());
    loop
        invariant_except_break
            frame_views(frames@) + reframe(buffer@).0 == reframe(old(buffer)@).0,
            reframe(buffer@).1 == reframe(old(buffer)@).1,
        invariant
            bom == BOM,
            eom == EOM,
        ensures
            frame_views(frames@) == reframe(old(buffer)@).0,
            buffer@ == reframe(old(buffer)@).1,
        decreases buffer.len(),
    {
        let ghost whole = buffer@;
        proof {
            lemma_next_frame(whole);
        }
        match position(buffer, bom) {
            Some(start) => {
                // Whatever stands before the frame is dropped.
                let from = buffer.split_off(start);
                *buffer = from;
                proof {
                    assert(buffer@ =~= whole.skip(start as int));
                    lemma_first_index(buffer@, EOM);
                }
                match position(buffer, eom) {
                    Some(end) => {
                        let frame = copy_range(buffer, 0, end + 1);
                        let ghost cut = frame_views(frames@);
                        let tail = buffer.split_off(end + 1);
                        *buffer = tail;
                        frames.push(frame);
                        proof {
                            let later = reframe(whole.skip(start + end + 1));
                            assert(frame@ =~= whole.subrange(start as int, start + end + 1));
                            assert(buffer@ =~= whole.skip(start + end + 1));
                            assert(frame_views(frames@) =~= cut + seq![frame@]);
                            assert((cut + seq![frame@]) + later.0 =~= cut + (seq![frame@]
                                + later.0));
                        }
                    },
                    None => {
                        assert(frame_views(frames@) + Seq::<Seq<u8>>::empty() =~= frame_views(
                            frames@,
                        ));
                        break;
                    },
                }
            },
            None => {
                buffer.clear();
                assert(frame_views(frames@) + Seq::<Seq<u8>>::empty() =~= frame_views(frames@));
                break;
            },
        }
    }
    proof {
        lemma_reframe_cuts(old(buffer)@);
    }
    frames
}

} // verus!
