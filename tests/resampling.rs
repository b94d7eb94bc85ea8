use scribe::error::Error;
use scribe::resample::{padded_chunk_at, resample_in_chunks, RESAMPLE_CHUNK};
use std::cell::RefCell;

#[test]
fn padded_chunk_pads_past_the_end() {
    let s = [1, 2, 3, 4, 5];
    assert_eq!(padded_chunk_at(&s, 0, 2, 0), vec![1, 2]);
    assert_eq!(padded_chunk_at(&s, 4, 3, 0), vec![5, 0, 0]);
}

#[test]
fn chunks_are_fed_in_order_and_joined() {
    let samples: Vec<i32> = (1..=2500).collect();
    let seen: RefCell<Vec<Vec<i32>>> = RefCell::new(Vec::new());
    let out = resample_in_chunks(&samples, RESAMPLE_CHUNK, 0, |c: &Vec<i32>| {
        seen.borrow_mut().push(c.clone());
        Ok(vec![c[0], c[c.len() - 1]])
    })
    .unwrap();
    let seen = seen.into_inner();
    assert_eq!(seen.len(), 3);
    assert!(seen.iter().all(|c| c.len() == 1024));
    assert_eq!(seen[2][2500 - 2048 - 1], 2500);
    assert_eq!(seen[2][2500 - 2048], 0);
    assert_eq!(out, vec![1, 1024, 1025, 2048, 2049, 0]);
}

#[test]
fn resampled_length_is_within_one_chunk() {
    // Two channels at 48 kHz mixed down, then 3:1 decimation per chunk.
    let frames = 48000usize;
    let mono: Vec<f32> = vec![0.0; frames];
    let per_chunk = RESAMPLE_CHUNK * 16000 / 48000;
    let out = resample_in_chunks(&mono, RESAMPLE_CHUNK, 0.0, |c: &Vec<f32>| {
        Ok(c.iter().step_by(3).take(per_chunk).cloned().collect())
    })
    .unwrap();
    let expected = (frames * 16000 / 48000) as i64;
    assert!((out.len() as i64 - expected).abs() <= RESAMPLE_CHUNK as i64);
}

#[test]
fn empty_input_makes_no_calls() {
    let out = resample_in_chunks(&[] as &[f32], RESAMPLE_CHUNK, 0.0, |_c: &Vec<f32>| {
        panic!("no chunk to process")
    })
    .unwrap();
    assert!(out.is_empty());
}

#[test]
fn first_error_aborts_the_call() {
    let samples = vec![0.5f32; 3000];
    let calls = RefCell::new(0);
    let r = resample_in_chunks(&samples, RESAMPLE_CHUNK, 0.0, |c: &Vec<f32>| {
        *calls.borrow_mut() += 1;
        if *calls.borrow() == 2 {
            Err(Error::Resample("failed to resample".to_string()))
        } else {
            Ok(c.clone())
        }
    });
    assert!(matches!(r, Err(Error::Resample(_))));
    assert_eq!(*calls.borrow(), 2);
}
