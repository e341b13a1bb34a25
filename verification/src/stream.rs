//! What the re-framer does to whole streams: frames come out as they went
//! in, however the stream was cut into chunks, and bytes between frames do
//! not disturb them.

use vstd::prelude::*;
use crate::codec::{BOM, EOM};
use crate::framing::{
    first_index, is_first_at, is_next_frame, lacks, lemma_first_index, lemma_first_index_is,
    lemma_next_frame, lemma_next_frame_is, next_frame, reframe,
};

verus! {

/// A complete frame: it starts with the begin-of-message byte, ends with the
/// end-of-message byte and holds no other end-of-message byte.
pub open spec fn is_frame(frame: Seq<u8>) -> bool {
    &&& frame.len() >= 2
    &&& frame[0] == BOM
    &&& frame[frame.len() - 1] == EOM
    &&& forall|i: int| 0 <= i < frame.len() - 1 ==> frame[i] != EOM
}

/// Every element is a complete frame.
pub open spec fn all_frames(frames: Seq<Seq<u8>>) -> bool {
    forall|i: int| 0 <= i < frames.len() ==> is_frame(#[trigger] frames[i])
}

/// A frame that has begun and not ended, or nothing at all.
pub open spec fn is_unfinished(bytes: Seq<u8>) -> bool {
    &&& bytes.len() > 0 ==> bytes[0] == BOM
    &&& lacks(bytes, EOM)
}

/// Bytes that belong to no frame: no begin-of-message byte is among them.
/// Any other byte may be, the end-of-message byte too.
pub open spec fn is_noise(bytes: Seq<u8>) -> bool {
    lacks(bytes, BOM)
}

/// Every element is noise.
pub open spec fn all_noise(noises: Seq<Seq<u8>>) -> bool {
    forall|i: int| 0 <= i < noises.len() ==> is_noise(#[trigger] noises[i])
}

/// What feeding `chunks` one by one yields, starting with `buf` in the
/// buffer: each chunk is appended to the buffer, which is then re-framed.
/// The result is all frames that came out, in order, and the buffer at the
/// end.
pub open spec fn feed(buf: Seq<u8>, chunks: Seq<Seq<u8>>) -> (Seq<Seq<u8>>, Seq<u8>)
    decreases chunks.len(),
{
    if chunks.len() == 0 {
        (Seq::empty(), buf)
    } else {
        let now = reframe(buf + chunks[0]);
        let later = feed(now.1, chunks.drop_first());
        (now.0 + later.0, later.1)
    }
}

/// A stream in which noise may stand before, between and after the frames:
/// `noises[i]` stands before `frames[i]`, and the last of `noises` after the
/// last frame.
pub open spec fn woven(noises: Seq<Seq<u8>>, frames: Seq<Seq<u8>>) -> Seq<u8>
    recommends
        noises.len() == frames.len() + 1,
    decreases frames.len(),
{
    if frames.len() == 0 {
        noises[0]
    } else {
        noises[0] + frames[0] + woven(noises.drop_first(), frames.drop_first())
    }
}

/// `frames` are cut out of `buf` one after the other, without overlap, and
/// `rest` is the end of `buf` from some position behind the last of them.
pub open spec fn cut_in_order(buf: Seq<u8>, frames: Seq<Seq<u8>>, rest: Seq<u8>) -> bool
    decreases frames.len(),
{
    if frames.len() == 0 {
        exists|from: int| 0 <= from <= buf.len() && rest == #[trigger] buf.skip(from)
    } else {
        exists|start: int, end: int|
            #![trigger buf.subrange(start, end + 1)]
            {
                &&& 0 <= start < end < buf.len()
                &&& frames[0] == buf.subrange(start, end + 1)
                &&& cut_in_order(buf.skip(end + 1), frames.drop_first(), rest)
            }
    }
}

/// A byte that does not occur has no first position.
proof fn lemma_absent(bytes: Seq<u8>, byte: u8)
    requires
        lacks(bytes, byte),
    ensures
        first_index(bytes, byte) is None,
{
    lemma_first_index(bytes, byte);
}

/// Frames stay frames where some are left out at either end.
proof fn lemma_tail_frames(frames: Seq<Seq<u8>>, from: int)
    requires
        all_frames(frames),
        0 <= from <= frames.len(),
    ensures
        all_frames(frames.skip(from)),
        all_frames(frames.take(from)),
{
    assert forall|i: int| 0 <= i < frames.skip(from).len() implies is_frame(
        #[trigger] frames.skip(from)[i],
    ) by {
        assert(frames.skip(from)[i] == frames[i + from]);
    }
}

/// Noise stays noise where the first is left out.
proof fn lemma_tail_noise(noises: Seq<Seq<u8>>)
    requires
        all_noise(noises),
        noises.len() > 0,
    ensures
        all_noise(noises.drop_first()),
{
    assert forall|i: int| 0 <= i < noises.drop_first().len() implies is_noise(
        #[trigger] noises.drop_first()[i],
    ) by {
        assert(noises.drop_first()[i] == noises[i + 1]);
    }
}

/// What one pass yields, whatever the buffer holds: every frame that comes
/// out is complete; the frames are parts of the buffer, in its order and
/// without overlap; and what stays is an end of the buffer that is empty or
/// one unfinished frame: it begins with the begin-of-message byte and holds
/// no end-of-message byte.
pub proof fn lemma_reframe_cuts(buf: Seq<u8>)
    ensures
        all_frames(reframe(buf).0),
        cut_in_order(buf, reframe(buf).0, reframe(buf).1),
        is_unfinished(reframe(buf).1),
    decreases buf.len(),
{
    lemma_next_frame(buf);
    let frames = reframe(buf).0;
    match next_frame(buf) {
        Some((start, end)) => {
            let frame = buf.subrange(start, end + 1);
            let later = reframe(buf.skip(end + 1));
            lemma_reframe_cuts(buf.skip(end + 1));
            assert(is_frame(frame));
            assert(frames == seq![frame] + later.0);
            assert(frames.drop_first() =~= later.0);
            assert(all_frames(frames)) by {
                assert forall|i: int| 0 <= i < frames.len() implies is_frame(
                    #[trigger] frames[i],
                ) by {
                    if i > 0 {
                        assert(frames[i] == later.0[i - 1]);
                    }
                }
            }
            assert(frames[0] == buf.subrange(start, end + 1));
        },
        None => {
            match first_index(buf, BOM) {
                Some(start) => {
                    assert(reframe(buf).1 == buf.skip(start));
                    assert(buf.skip(start)[0] == buf[start]);
                },
                None => {
                    assert(reframe(buf).1 =~= buf.skip(buf.len() as int));
                },
            }
        },
    }
}

/// A frame at the head of the buffer is cut out, and the pass goes on with
/// what follows it.
pub proof fn lemma_frame_at_head(frame: Seq<u8>, tail: Seq<u8>)
    requires
        is_frame(frame),
    ensures
        reframe(frame + tail) == (seq![frame] + reframe(tail).0, reframe(tail).1),
{
    let buf = frame + tail;
    let end = frame.len() - 1;
    assert(is_next_frame(buf, 0, end));
    lemma_next_frame_is(buf, 0, end);
    assert(buf.subrange(0, end + 1) =~= frame);
    assert(buf.skip(end + 1) =~= tail);
}

/// Noise at the head of the buffer changes nothing: neither the frames that
/// come out nor what stays. So bytes before a begin-of-message byte that
/// hold none themselves are dropped and never come out.
pub proof fn lemma_noise_at_head(noise: Seq<u8>, tail: Seq<u8>)
    requires
        is_noise(noise),
    ensures
        reframe(noise + tail) == reframe(tail),
{
    let buf = noise + tail;
    let n = noise.len() as int;
    lemma_first_index(tail, BOM);
    match first_index(tail, BOM) {
        Some(start) => {
            assert(is_first_at(buf, BOM, n + start)) by {
                assert(buf[n + start] == tail[start]);
                assert forall|j: int| 0 <= j < n + start implies buf[j] != BOM by {
                    if j >= n {
                        assert(buf[j] == tail[j - n]);
                    }
                }
            }
            lemma_first_index_is(buf, BOM, n + start);
            assert(buf.skip(n + start) =~= tail.skip(start));
            match first_index(tail.skip(start), EOM) {
                Some(offset) => {
                    lemma_first_index(tail.skip(start), EOM);
                    assert(buf.subrange(n + start, n + start + offset + 1) =~= tail.subrange(
                        start,
                        start + offset + 1,
                    ));
                    assert(buf.skip(n + start + offset + 1) =~= tail.skip(start + offset + 1));
                },
                None => {},
            }
        },
        None => {
            assert(lacks(buf, BOM)) by {
                assert forall|j: int| 0 <= j < buf.len() implies buf[j] != BOM by {
                    if j >= n {
                        assert(buf[j] == tail[j - n]);
                    }
                }
            }
            lemma_absent(buf, BOM);
        },
    }
}

/// An unfinished frame yields nothing and stays in the buffer as it is.
pub proof fn lemma_unfinished_stays(bytes: Seq<u8>)
    requires
        is_unfinished(bytes),
    ensures
        reframe(bytes) == (Seq::<Seq<u8>>::empty(), bytes),
{
    if bytes.len() > 0 {
        assert(is_first_at(bytes, BOM, 0));
        lemma_first_index_is(bytes, BOM, 0);
        assert(bytes.skip(0) =~= bytes);
        lemma_absent(bytes, EOM);
    } else {
        assert(lacks(bytes, BOM));
        lemma_absent(bytes, BOM);
        assert(bytes =~= Seq::<u8>::empty());
    }
}

/// Feeding in two parts or in one is the same: a pass over a buffer with
/// more bytes behind it yields the frames that a pass over the buffer alone
/// yields, and then those that a pass yields over what that one kept,
/// followed by the other bytes; and it keeps what the second pass keeps.
pub proof fn lemma_concatenation(first: Seq<u8>, second: Seq<u8>)
    ensures
        reframe(first + second) == (
            reframe(first).0 + reframe(reframe(first).1 + second).0,
            reframe(reframe(first).1 + second).1,
        ),
    decreases first.len(),
{
    let whole = first + second;
    let none = Seq::<u8>::empty();
    let no_frames = Seq::<Seq<u8>>::empty();
    lemma_next_frame(first);
    match next_frame(first) {
        Some((start, end)) => {
            assert(is_next_frame(whole, start, end)) by {
                assert forall|j: int| 0 <= j <= end implies whole[j] == first[j] by {}
            }
            lemma_next_frame_is(whole, start, end);
            assert(whole.subrange(start, end + 1) =~= first.subrange(start, end + 1));
            assert(whole.skip(end + 1) =~= first.skip(end + 1) + second);
            lemma_concatenation(first.skip(end + 1), second);
            let frame = seq![first.subrange(start, end + 1)];
            let later = reframe(first.skip(end + 1));
            let last = reframe(later.1 + second);
            assert(frame + (later.0 + last.0) =~= (frame + later.0) + last.0);
        },
        None => {
            match first_index(first, BOM) {
                Some(start) => {
                    let before = first.take(start);
                    let kept = first.skip(start);
                    assert(is_noise(before));
                    assert(whole =~= before + (kept + second));
                    lemma_noise_at_head(before, kept + second);
                },
                None => {
                    assert(none + second =~= second);
                    lemma_noise_at_head(first, second);
                },
            }
            assert(no_frames + reframe(reframe(first).1 + second).0 =~= reframe(
                reframe(first).1 + second,
            ).0);
        },
    }
}

/// It does not matter how a stream is cut into chunks: whatever the bytes,
/// feeding chunks one by one yields what one pass yields over the buffer
/// followed by all of them, and leaves the same bytes in the buffer.
pub proof fn lemma_feed_is_one_pass(buf: Seq<u8>, chunks: Seq<Seq<u8>>)
    requires
        chunks.len() > 0,
    ensures
        feed(buf, chunks) == reframe(buf + chunks.flatten()),
    decreases chunks.len(),
{
    let chunk = chunks[0];
    let rest = chunks.drop_first();
    let now = reframe(buf + chunk);
    assert(chunks.flatten() == chunk + rest.flatten());
    assert(buf + chunks.flatten() =~= (buf + chunk) + rest.flatten());
    let later = feed(now.1, rest);
    assert(feed(buf, chunks) == (now.0 + later.0, later.1));
    if rest.len() == 0 {
        assert(later == (Seq::<Seq<u8>>::empty(), now.1));
        assert(rest.flatten() =~= Seq::<u8>::empty());
        assert((buf + chunk) + rest.flatten() =~= buf + chunk);
        assert(now.0 + Seq::<Seq<u8>>::empty() =~= now.0);
    } else {
        lemma_feed_is_one_pass(now.1, rest);
        lemma_concatenation(buf + chunk, rest.flatten());
    }
}

/// Complete frames followed by an unfinished one: one pass yields exactly
/// the complete frames and keeps the unfinished one.
pub proof fn lemma_frames_then_unfinished(frames: Seq<Seq<u8>>, last: Seq<u8>)
    requires
        all_frames(frames),
        is_unfinished(last),
    ensures
        reframe(frames.flatten() + last) == (frames, last),
    decreases frames.len(),
{
    if frames.len() == 0 {
        assert(frames.flatten() + last =~= last);
        lemma_unfinished_stays(last);
        assert(frames =~= Seq::<Seq<u8>>::empty());
    } else {
        let head = frames[0];
        let rest = frames.drop_first();
        lemma_tail_frames(frames, 1);
        assert(frames.flatten() + last =~= head + (rest.flatten() + last));
        lemma_frame_at_head(head, rest.flatten() + last);
        lemma_frames_then_unfinished(rest, last);
        assert(seq![head] + rest =~= frames);
    }
}

/// Frames with noise before, between and after them: one pass yields
/// exactly the frames, in order, and keeps nothing.
pub proof fn lemma_frames_through_noise(noises: Seq<Seq<u8>>, frames: Seq<Seq<u8>>)
    requires
        all_frames(frames),
        all_noise(noises),
        noises.len() == frames.len() + 1,
    ensures
        reframe(woven(noises, frames)) == (frames, Seq::<u8>::empty()),
    decreases frames.len(),
{
    let none = Seq::<u8>::empty();
    let noise = noises[0];
    assert(is_noise(noise));
    if frames.len() == 0 {
        lemma_absent(noise, BOM);
        assert(frames =~= Seq::<Seq<u8>>::empty());
    } else {
        let head = frames[0];
        let later = woven(noises.drop_first(), frames.drop_first());
        assert(is_frame(head));
        lemma_tail_frames(frames, 1);
        lemma_tail_noise(noises);
        lemma_frames_through_noise(noises.drop_first(), frames.drop_first());
        assert(noise + head + later =~= noise + (head + later));
        lemma_noise_at_head(noise, head + later);
        lemma_frame_at_head(head, later);
        assert(seq![head] + frames.drop_first() =~= frames);
    }
}

/// Round trip: a stream of complete frames, cut into chunks at any byte
/// boundaries and fed chunk by chunk into an empty buffer, yields exactly
/// those frames, in order, and leaves the buffer empty.
pub proof fn lemma_round_trip(frames: Seq<Seq<u8>>, chunks: Seq<Seq<u8>>)
    requires
        all_frames(frames),
        chunks.flatten() == frames.flatten(),
    ensures
        feed(Seq::empty(), chunks) == (frames, Seq::<u8>::empty()),
{
    let none = Seq::<u8>::empty();
    if chunks.len() == 0 {
        if frames.len() > 0 {
            assert(is_frame(frames[0]));
            assert(frames.flatten() == frames[0] + frames.drop_first().flatten());
            assert(frames.flatten().len() >= 2);
        }
        assert(frames =~= Seq::<Seq<u8>>::empty());
    } else {
        lemma_feed_is_one_pass(none, chunks);
        assert(none + chunks.flatten() =~= frames.flatten() + none);
        lemma_frames_then_unfinished(frames, none);
    }
}

/// Round trip through noise: where bytes without a begin-of-message byte
/// stand before, between and after the frames of a stream, the stream, cut
/// into chunks at any byte boundaries and fed chunk by chunk into an empty
/// buffer, still yields exactly the frames, in order, and leaves the buffer
/// empty.
pub proof fn lemma_round_trip_with_noise(
    noises: Seq<Seq<u8>>,
    frames: Seq<Seq<u8>>,
    chunks: Seq<Seq<u8>>,
)
    requires
        all_frames(frames),
        all_noise(noises),
        noises.len() == frames.len() + 1,
        chunks.flatten() == woven(noises, frames),
    ensures
        feed(Seq::empty(), chunks) == (frames, Seq::<u8>::empty()),
{
    if chunks.len() == 0 {
        if frames.len() > 0 {
            assert(is_frame(frames[0]));
            assert(woven(noises, frames).len() >= 2);
        }
        assert(frames =~= Seq::<Seq<u8>>::empty());
    } else {
        lemma_feed_is_one_pass(Seq::empty(), chunks);
        assert(Seq::<u8>::empty() + chunks.flatten() =~= chunks.flatten());
        lemma_frames_through_noise(noises, frames);
    }
}

/// Noise between frames: after any number of complete frames, bytes
/// without a begin-of-message byte put before what follows change neither
/// the frames that come out nor what stays in the buffer.
pub proof fn lemma_noise_between_frames(before: Seq<Seq<u8>>, noise: Seq<u8>, after: Seq<u8>)
    requires
        all_frames(before),
        is_noise(noise),
    ensures
        reframe(before.flatten() + noise + after) == reframe(before.flatten() + after),
        reframe(before.flatten() + after) == (before + reframe(after).0, reframe(after).1),
    decreases before.len(),
{
    if before.len() == 0 {
        assert(before.flatten() + noise + after =~= noise + after);
        assert(before.flatten() + after =~= after);
        lemma_noise_at_head(noise, after);
        assert(before + reframe(after).0 =~= reframe(after).0);
    } else {
        let head = before[0];
        let rest = before.drop_first();
        lemma_tail_frames(before, 1);
        assert(before.flatten() + noise + after =~= head + (rest.flatten() + noise + after));
        assert(before.flatten() + after =~= head + (rest.flatten() + after));
        lemma_frame_at_head(head, rest.flatten() + noise + after);
        lemma_frame_at_head(head, rest.flatten() + after);
        lemma_noise_between_frames(rest, noise, after);
        assert(seq![head] + (rest + reframe(after).0) =~= before + reframe(after).0);
    }
}

/// An unfinished frame is kept, and the bytes that end it complete it: the
/// next pass yields one frame, the two parts joined, and empties the buffer.
pub proof fn lemma_unfinished_then_completed(head: Seq<u8>, tail: Seq<u8>)
    requires
        head.len() > 0,
        head[0] == BOM,
        lacks(head, EOM),
        tail.len() > 0,
        tail[tail.len() - 1] == EOM,
        lacks(tail.drop_last(), EOM),
    ensures
        reframe(head) == (Seq::<Seq<u8>>::empty(), head),
        reframe(reframe(head).1 + tail) == (seq![head + tail], Seq::<u8>::empty()),
{
    lemma_unfinished_stays(head);
    let frame = head + tail;
    assert(is_frame(frame)) by {
        assert forall|i: int| 0 <= i < frame.len() - 1 implies frame[i] != EOM by {
            if i >= head.len() {
                assert(frame[i] == tail.drop_last()[i - head.len()]);
            }
        }
    }
    let none = Seq::<u8>::empty();
    lemma_frame_at_head(frame, none);
    lemma_unfinished_stays(none);
    assert(frame + none =~= frame);
    assert(seq![frame] + Seq::<Seq<u8>>::empty() =~= seq![frame]);
}

} // verus!
