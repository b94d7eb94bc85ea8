//! Transcription languages and assembly of the transcript from the
//! segment texts that the inference service returns.
use crate::resample::joined;
use crate::text::{is_white_space, white_space};
use vstd::prelude::*;

verus! {

/// Languages that a recording can be transcribed in.
#[derive(Debug, Clone, Copy, PartialEq, Eq, Structural)]
pub enum Language {
    English,
    German,
}

/// The language tag passed to the inference service and stored in the
/// history.
pub open spec fn language_code(l: Language) -> Seq<char> {
    match l {
        Language::English => "en"@,
        Language::German => "de"@,
    }
}

impl Language {
    /// The language's two-letter tag.
    pub fn code(self) -> (r: &'static str)
        ensures
            r@ == language_code(self),
    {
        match self {
            Language::English => {
                proof {
                    reveal_strlit("en");
                }
                "en"
            },
            Language::German => {
                proof {
                    reveal_strlit("de");
                }
                "de"
            },
        }
    }
}

/// `s[a..b]` is `s` without its leading and trailing white space.
pub open spec fn is_trim_bounds(s: Seq<char>, a: int, b: int) -> bool {
    &&& 0 <= a <= b <= s.len()
    &&& forall|i: int| 0 <= i < a ==> is_white_space(#[trigger] s[i])
    &&& forall|i: int| b <= i < s.len() ==> is_white_space(#[trigger] s[i])
    &&& a < b ==> !is_white_space(s[a]) && !is_white_space(s[b - 1])
}

/// The transcript: the segment texts joined in order, with leading and
/// trailing white space removed.
pub fn transcript_text(segments: &Vec<String>) -> (r: String)
    ensures
        exists|a: int, b: int|
            #[trigger] is_trim_bounds(joined(segments.deep_view()), a, b) && r@ == joined(
                segments.deep_view(),
            ).subrange(a, b),
{
    let mut all = String::new();
    let mut k: usize = 0;
    while k < segments.len()
        invariant
            k <= segments@.len(),
            all@ == joined(segments.deep_view().subrange(0, k as int)),
        decreases segments@.len() - k,
    {
        let ghost before = all@;
        all.append(segments[k].as_str());
        k = k + 1;
        proof {
            let parts = segments.deep_view().subrange(0, k as int);
            assert(parts.drop_last() =~= segments.deep_view().subrange(0, k - 1));
            assert(parts.last() == segments[k - 1]@);
        }
    }
    proof {
        assert(segments.deep_view().subrange(0, segments@.len() as int) =~= segments.deep_view());
    }
    let ghost s = all@;
    let n = all.as_str().unicode_len();
    let mut a: usize = 0;
    while a < n && white_space(all.as_str().get_char(a))
        invariant
            n == s.len(),
            s == all@,
            a <= n,
            forall|i: int| 0 <= i < a ==> is_white_space(#[trigger] s[i]),
        decreases n - a,
    {
        a = a + 1;
    }
    let mut b: usize = n;
    while b > a && white_space(all.as_str().get_char(b - 1))
        invariant
            n == s.len(),
            s == all@,
            a <= b <= n,
            forall|i: int| b <= i < n ==> is_white_space(#[trigger] s[i]),
        decreases b - a,
    {
        b = b - 1;
    }
    let t = all.as_str().substring_char(a, b).to_owned();
    assert(is_trim_bounds(s, a as int, b as int));
    t
}

} // verus!
