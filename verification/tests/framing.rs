use buds_link::codec::{BOM, EOM};
use buds_link::framing::{position, process_buffer};

fn frame(id: u8, payload: &[u8]) -> Vec<u8> {
    let mut bytes = vec![BOM, 0x00, 0x05, id];
    bytes.extend_from_slice(payload);
    bytes.push(EOM);
    bytes
}

#[test]
fn delimiters_are_those_of_the_codec() {
    assert_eq!(BOM, galaxy_buds_rs::message::BOM);
    assert_eq!(EOM, galaxy_buds_rs::message::EOM);
    assert_eq!(BOM, 0xFD);
    assert_eq!(EOM, 0xDD);
}

#[test]
fn position_finds_the_first_occurrence() {
    assert_eq!(position(&vec![1, 2, 3, 2], 2), Some(1));
    assert_eq!(position(&vec![1, 2, 3, 2], 1), Some(0));
    assert_eq!(position(&vec![1, 2, 3, 2], 4), None);
    assert_eq!(position(&Vec::new(), 0), None);
}

#[test]
fn single_frame_is_emitted_whole() {
    let chunk = frame(60, &[1, 2, 3, 4, 5]);
    let mut buffer = chunk.clone();
    let frames = process_buffer(&mut buffer);
    assert_eq!(frames, vec![chunk]);
    assert!(buffer.is_empty());
}

#[test]
fn split_frame_is_emitted_on_the_second_call() {
    let mut buffer = vec![BOM, 0x00, 0x05, 97];
    assert!(process_buffer(&mut buffer).is_empty());
    assert_eq!(buffer, vec![BOM, 0x00, 0x05, 97]);
    buffer.extend_from_slice(&[1, 2, 3, 4, 5, EOM]);
    let frames = process_buffer(&mut buffer);
    assert_eq!(frames, vec![vec![BOM, 0x00, 0x05, 97, 1, 2, 3, 4, 5, EOM]]);
    assert!(buffer.is_empty());
}

#[test]
fn garbage_before_a_frame_is_dropped() {
    let mut buffer = vec![0xAA, 0xBB, BOM, 0x00, 0x05, 242, 0, 0, 0, 0, EOM];
    let frames = process_buffer(&mut buffer);
    assert_eq!(frames, vec![vec![BOM, 0x00, 0x05, 242, 0, 0, 0, 0, EOM]]);
    assert!(buffer.is_empty());
}

#[test]
fn two_frames_back_to_back_come_out_in_order() {
    let first = frame(97, &[1, 2, 3, 4, 5]);
    let second = frame(98, &[1, 2, 3, 4, 5]);
    let mut buffer = first.clone();
    buffer.extend_from_slice(&second);
    let frames = process_buffer(&mut buffer);
    assert_eq!(frames, vec![first, second]);
    assert!(buffer.is_empty());
}

#[test]
fn empty_buffer_yields_nothing() {
    let mut buffer: Vec<u8> = Vec::new();
    assert!(process_buffer(&mut buffer).is_empty());
    assert!(buffer.is_empty());
}

#[test]
fn buffer_without_a_start_is_cleared() {
    let mut buffer = vec![1, 2, EOM, 3];
    assert!(process_buffer(&mut buffer).is_empty());
    assert!(buffer.is_empty());
}

#[test]
fn unfinished_frame_is_kept_without_the_bytes_before_it() {
    let mut buffer = vec![7, 8, BOM, 1, 2];
    assert!(process_buffer(&mut buffer).is_empty());
    assert_eq!(buffer, vec![BOM, 1, 2]);
}

#[test]
fn frames_survive_any_chunking() {
    let frames = vec![frame(60, &[1, 2]), frame(61, &[]), frame(62, &[BOM, 9, 9])];
    let stream: Vec<u8> = frames.iter().flatten().copied().collect();
    for size in 1..=stream.len() {
        let mut buffer: Vec<u8> = Vec::new();
        let mut seen: Vec<Vec<u8>> = Vec::new();
        for chunk in stream.chunks(size) {
            buffer.extend_from_slice(chunk);
            seen.extend(process_buffer(&mut buffer));
        }
        assert_eq!(seen, frames);
        assert!(buffer.is_empty());
    }
}

#[test]
fn noise_between_frames_changes_nothing() {
    let first = frame(60, &[1]);
    let second = frame(61, &[2]);
    let mut buffer = first.clone();
    buffer.extend_from_slice(&[0, EOM, 2, EOM]);
    buffer.extend_from_slice(&second);
    assert_eq!(process_buffer(&mut buffer), vec![first, second]);
    assert!(buffer.is_empty());
}

#[test]
fn frames_survive_any_chunking_through_noise() {
    let frames = vec![frame(60, &[1, 2]), frame(61, &[]), frame(62, &[BOM, 9, 9])];
    let noises: Vec<Vec<u8>> = vec![vec![1, EOM, 3], vec![], vec![EOM], vec![7, EOM, EOM, 7]];
    let mut stream: Vec<u8> = Vec::new();
    for (noise, frame) in noises.iter().zip(frames.iter()) {
        stream.extend_from_slice(noise);
        stream.extend_from_slice(frame);
    }
    stream.extend_from_slice(&noises[3]);
    for size in 1..=stream.len() {
        let mut buffer: Vec<u8> = Vec::new();
        let mut seen: Vec<Vec<u8>> = Vec::new();
        for chunk in stream.chunks(size) {
            buffer.extend_from_slice(chunk);
            seen.extend(process_buffer(&mut buffer));
        }
        assert_eq!(seen, frames);
        assert!(buffer.is_empty());
    }
}

#[test]
fn end_before_start_is_dropped_with_what_stands_before_the_frame() {
    let mut buffer = vec![EOM, BOM, 0, 5, 60, EOM];
    assert_eq!(process_buffer(&mut buffer), vec![vec![BOM, 0, 5, 60, EOM]]);
    assert!(buffer.is_empty());
}

#[test]
fn end_between_two_frames_keeps_neither_back() {
    let mut buffer = vec![BOM, 0, 5, 60, EOM, EOM, BOM, 0, 5, 61, EOM];
    assert_eq!(
        process_buffer(&mut buffer),
        vec![vec![BOM, 0, 5, 60, EOM], vec![BOM, 0, 5, 61, EOM]]
    );
    assert!(buffer.is_empty());
}

#[test]
fn bytes_before_a_frame_never_come_out() {
    let mut buffer = vec![1, 2, BOM, 5, EOM];
    assert_eq!(process_buffer(&mut buffer), vec![vec![BOM, 5, EOM]]);
    assert!(buffer.is_empty());
    let mut buffer = vec![1, EOM, 2, BOM, 5, EOM];
    assert_eq!(process_buffer(&mut buffer), vec![vec![BOM, 5, EOM]]);
    assert!(buffer.is_empty());
    let mut buffer = vec![1, EOM, 2, BOM, 5];
    assert!(process_buffer(&mut buffer).is_empty());
    assert_eq!(buffer, vec![BOM, 5]);
}

#[test]
fn fed_at_once_or_in_two_parts_is_the_same() {
    let first = vec![BOM, 1, EOM, 9, EOM];
    let second = vec![BOM, 2, EOM, BOM, 3];

    let mut in_two = first.clone();
    let mut seen_in_two = process_buffer(&mut in_two);
    assert!(in_two.is_empty());
    in_two.extend_from_slice(&second);
    seen_in_two.extend(process_buffer(&mut in_two));

    let mut at_once = first.clone();
    at_once.extend_from_slice(&second);
    let seen_at_once = process_buffer(&mut at_once);

    assert_eq!(seen_at_once, vec![vec![BOM, 1, EOM], vec![BOM, 2, EOM]]);
    assert_eq!(at_once, vec![BOM, 3]);
    assert_eq!(seen_in_two, seen_at_once);
    assert_eq!(in_two, at_once);
}

#[test]
fn every_frame_that_comes_out_is_complete() {
    let mut buffer = vec![9, BOM, BOM, 1, EOM, EOM, BOM, EOM, 3, BOM];
    let frames = process_buffer(&mut buffer);
    assert_eq!(frames, vec![vec![BOM, BOM, 1, EOM], vec![BOM, EOM]]);
    assert_eq!(buffer, vec![BOM]);
    for frame in &frames {
        assert_eq!(frame[0], BOM);
        assert_eq!(frame[frame.len() - 1], EOM);
        assert!(!frame[..frame.len() - 1].contains(&EOM));
    }
}

#[test]
fn frames_come_out_in_one_pass_whatever_stands_between_them() {
    let frames = vec![frame(60, &[1, 2]), frame(61, &[]), frame(62, &[9])];
    let between: Vec<Vec<u8>> = vec![vec![EOM], vec![1, EOM, EOM, 2], vec![], vec![EOM, 7]];
    let mut buffer: Vec<u8> = Vec::new();
    for (bytes, frame) in between.iter().zip(frames.iter()) {
        buffer.extend_from_slice(bytes);
        buffer.extend_from_slice(frame);
    }
    buffer.extend_from_slice(&between[3]);
    assert_eq!(process_buffer(&mut buffer), frames);
    assert!(buffer.is_empty());
}

#[test]
fn chunking_does_not_matter_whatever_the_bytes() {
    let mut state: u32 = 12345;
    for _ in 0..200 {
        let mut stream: Vec<u8> = Vec::new();
        for _ in 0..24 {
            state = state.wrapping_mul(1103515245).wrapping_add(12345);
            stream.push(match (state >> 16) % 4 {
                0 => BOM,
                1 => EOM,
                2 => 7,
                _ => 8,
            });
        }
        let mut whole = stream.clone();
        let expected = process_buffer(&mut whole);
        for size in 1..=stream.len() {
            let mut buffer: Vec<u8> = Vec::new();
            let mut seen: Vec<Vec<u8>> = Vec::new();
            for chunk in stream.chunks(size) {
                buffer.extend_from_slice(chunk);
                seen.extend(process_buffer(&mut buffer));
                assert!(buffer.is_empty() || (buffer[0] == BOM && !buffer.contains(&EOM)));
            }
            assert_eq!(seen, expected);
            assert_eq!(buffer, whole);
        }
    }
}

#[test]
fn buffer_is_left_empty_or_with_one_unfinished_frame() {
    let inputs: Vec<Vec<u8>> = vec![
        vec![],
        vec![EOM],
        vec![1, 2, 3],
        vec![EOM, BOM],
        vec![EOM, BOM, 1, EOM, EOM],
        vec![BOM, 1, EOM, 2, BOM, 3, 4],
        vec![BOM, BOM, BOM],
    ];
    let kept: Vec<Vec<u8>> = vec![
        vec![],
        vec![],
        vec![],
        vec![BOM],
        vec![],
        vec![BOM, 3, 4],
        vec![BOM, BOM, BOM],
    ];
    for (input, kept) in inputs.iter().zip(kept.iter()) {
        let mut buffer = input.clone();
        process_buffer(&mut buffer);
        assert_eq!(&buffer, kept);
        assert!(buffer.is_empty() || (buffer[0] == BOM && !buffer.contains(&EOM)));
    }
}
