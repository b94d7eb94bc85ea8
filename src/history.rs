//! Transcription history records: what is stored for each transcript.
use crate::text::{ascii_punct, is_ascii_punct, is_white_space, white_space};
use vstd::prelude::*;

verus! {

/// Number of transcriptions kept in the history; older ones are removed.
pub const MAX_HISTORY_SIZE: i64 = 50;

/// Rate of the audio that transcripts are made from, in samples per second.
pub const HISTORY_SAMPLE_RATE: u64 = 16000;

/// One stored transcription.
#[derive(Debug, Clone)]
pub struct Transcription {
    pub id: i64,
    pub text: String,
    pub language: String,
    pub duration_ms: i64,
    pub word_count: i32,
    pub created_at: String,
}

/// Characters that separate words.
pub open spec fn is_separator(c: char) -> bool {
    is_white_space(c) || is_ascii_punct(c)
}

/// A word begins at `i`: a non-separator at the start or after a separator.
pub open spec fn starts_word(s: Seq<char>, i: int) -> bool {
    !is_separator(s[i]) && (i == 0 || is_separator(s[i - 1]))
}

/// Number of words of `s`: maximal runs of non-separators.
pub open spec fn word_count_spec(s: Seq<char>) -> nat
    decreases s.len(),
{
    if s.len() == 0 {
        0
    } else {
        word_count_spec(s.drop_last()) + if starts_word(s, s.len() - 1) {
            1nat
        } else {
            0nat
        }
    }
}

/// Milliseconds of audio in `sample_count` samples at the history rate.
pub open spec fn duration_ms_spec(sample_count: nat) -> int {
    (sample_count * 1000) as int / (HISTORY_SAMPLE_RATE as int)
}

proof fn lemma_word_count_bound(s: Seq<char>)
    ensures
        word_count_spec(s) <= s.len(),
    decreases s.len(),
{
    if s.len() > 0 {
        lemma_word_count_bound(s.drop_last());
    }
}

/// Milliseconds of audio in `sample_count` samples at 16 kHz, rounded down.
pub fn duration_ms(sample_count: usize) -> (r: i64)
    ensures
        r == duration_ms_spec(sample_count as nat),
{
    let ms = sample_count / 16;
    assert((sample_count * 1000) / 16000 == sample_count / 16) by (nonlinear_arith);
    ms as i64
}

/// Number of words in `text`, separated by white space or ASCII
/// punctuation.
pub fn word_count(text: &str) -> (r: usize)
    ensures
        r == word_count_spec(text@),
{
    broadcast use vstd::string::axiom_spec_iter;
    let mut count: usize = 0;
    let mut after_separator = true;
    let ghost s = text@;
    let n = text.unicode_len();
    for c in it: text.chars()
        invariant
            s == text@,
            s.len() == n,
            it.seq() == s,
            count <= it.index(),
            count == word_count_spec(s.subrange(0, it.index() as int)),
            after_separator == (it.index() == 0 || is_separator(s[it.index() - 1])),
    {
        let ghost i = it.index() as int;
        let sep = white_space(c) || ascii_punct(c);
        proof {
            let p = s.subrange(0, i + 1);
            assert(p.drop_last() =~= s.subrange(0, i));
            assert(p[i] == c);
            if i > 0 {
                assert(p[i - 1] == s[i - 1]);
            }
        }
        if !sep && after_separator {
            count = count + 1;
        }
        after_separator = sep;
    }
    proof {
        assert(s.subrange(0, s.len() as int) =~= s);
    }
    count
}

impl Transcription {
    /// The record for `text` in `language`, made from `sample_count`
    /// samples, under `id` and the timestamp `created_at`.
    pub fn new(id: i64, text: &str, language: &str, sample_count: usize, created_at: String) -> (r:
        Transcription)
        requires
            text@.len() <= i32::MAX,
        ensures
            r.id == id,
            r.text@ == text@,
            r.language@ == language@,
            r.duration_ms == duration_ms_spec(sample_count as nat),
            r.word_count == word_count_spec(text@),
            r.created_at == created_at,
    {
        let words = word_count(text);
        proof {
            lemma_word_count_bound(text@);
        }
        Transcription {
            id,
            text: text.to_owned(),
            language: language.to_owned(),
            duration_ms: duration_ms(sample_count),
            word_count: words as i32,
            created_at,
        }
    }
}

} // verus!
