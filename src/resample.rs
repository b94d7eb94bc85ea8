//! Fixed-chunk resampling driver. The spectral transform itself belongs to
//! the host; this module splits the input into consecutive chunks of one
//! size, pads the last one, feeds the chunks in order to one transform
//! instance, and concatenates what comes back.
use crate::error::Result;
use vstd::prelude::*;

verus! {

/// Input frames per resampler call.
pub const RESAMPLE_CHUNK: usize = 1024;

/// Number of chunks of `size` needed to cover `n` samples.
pub open spec fn chunk_count(n: nat, size: nat) -> nat
    recommends
        size > 0,
{
    if size == 0 {
        0
    } else {
        ((n + size - 1) / size as int) as nat
    }
}

/// Chunk `k` of `s`: the `size` samples from `k * size` on, with `pad` in
/// place of samples past the end.
pub open spec fn padded_chunk<T>(s: Seq<T>, k: int, size: nat, pad: T) -> Seq<T> {
    Seq::new(size, |j: int| if k * size + j < s.len() { s[k * size + j] } else { pad })
}

/// The parts joined end to end, in order.
pub open spec fn joined<T>(parts: Seq<Seq<T>>) -> Seq<T>
    decreases parts.len(),
{
    if parts.len() == 0 {
        Seq::empty()
    } else {
        joined(parts.drop_last()) + parts.last()
    }
}

/// The `Vec`s' contents, in order.
pub open spec fn contents_of<T>(vs: Seq<Vec<T>>) -> Seq<Seq<T>> {
    vs.map_values(|v: Vec<T>| v@)
}

/// `process` was handed the chunks `ins` in order and returned `outs`.
pub open spec fn fed_in_order<T, F: Fn(&Vec<T>) -> Result<Vec<T>>>(
    s: Seq<T>,
    size: nat,
    pad: T,
    process: F,
    ins: Seq<Vec<T>>,
    outs: Seq<Vec<T>>,
) -> bool {
    &&& outs.len() == ins.len()
    &&& forall|k: int|
        0 <= k < ins.len() ==> (#[trigger] ins[k])@ == padded_chunk(s, k, size, pad)
            && process.ensures((&ins[k],), Ok(outs[k]))
}

/// `process` failed with `e` on chunk `k`, whose contents `c` holds.
pub open spec fn fails_at<T, F: Fn(&Vec<T>) -> Result<Vec<T>>>(
    s: Seq<T>,
    size: nat,
    pad: T,
    process: F,
    k: int,
    c: Vec<T>,
    e: crate::error::Error,
) -> bool {
    &&& 0 <= k < chunk_count(s.len(), size)
    &&& c@ == padded_chunk(s, k, size, pad)
    &&& process.ensures((&c,), Err(e))
}

/// `size` samples of `samples` from `start` on, padded with `pad` past the
/// end.
pub fn padded_chunk_at<T: Copy>(samples: &[T], start: usize, size: usize, pad: T) -> (r: Vec<T>)
    requires
        start + size <= usize::MAX,
    ensures
        r@ == Seq::new(
            size as nat,
            |j: int| if start + j < samples@.len() { samples@[start + j] } else { pad },
        ),
{
    let mut out: Vec<T> = Vec::new();
    let mut j: usize = 0;
    while j < size
        invariant
            j <= size,
            start + size <= usize::MAX,
            out@.len() == j,
            forall|i: int|
                0 <= i < j ==> #[trigger] out@[i] == (if start + i < samples@.len() {
                    samples@[start + i]
                } else {
                    pad
                }),
        decreases size - j,
    {
        if start + j < samples.len() {
            out.push(samples[start + j]);
        } else {
            out.push(pad);
        }
        j = j + 1;
    }
    let ghost want = Seq::new(
        size as nat,
        |j: int| if start + j < samples@.len() { samples@[start + j] } else { pad },
    );
    assert(out@ =~= want);
    out
}

/// Appends `part` to `out`, in order.
fn append_all<T: Copy>(out: &mut Vec<T>, part: &Vec<T>)
    ensures
        final(out)@ == old(out)@ + part@,
{
    let mut i: usize = 0;
    while i < part.len()
        invariant
            i <= part@.len(),
            out@ == old(out)@ + part@.subrange(0, i as int),
        decreases part@.len() - i,
    {
        out.push(part[i]);
        i = i + 1;
        proof {
            assert(part@.subrange(0, i as int) == part@.subrange(0, i - 1) + seq![part@[i - 1]]);
        }
    }
    proof {
        assert(part@.subrange(0, part@.len() as int) == part@);
    }
}

/// Resamples `samples` chunk by chunk with one `process` instance.
///
/// The input is cut into `chunk_count(len, chunk_size)` consecutive chunks
/// of exactly `chunk_size` samples, the last one padded with `pad`. Each is
/// handed to `process` in order and the outputs are concatenated. The first
/// error ends the call and is returned; no partial output is.
pub fn resample_in_chunks<T: Copy, F: Fn(&Vec<T>) -> Result<Vec<T>>>(
    samples: &[T],
    chunk_size: usize,
    pad: T,
    process: F,
) -> (r: Result<Vec<T>>)
    requires
        chunk_size > 0,
        samples@.len() + chunk_size <= usize::MAX,
        forall|c: Vec<T>| #[trigger] process.requires((&c,)),
    ensures
        match r {
            Ok(out) => exists|ins: Seq<Vec<T>>, outs: Seq<Vec<T>>|
                #[trigger] fed_in_order(samples@, chunk_size as nat, pad, process, ins, outs)
                    && ins.len() == chunk_count(samples@.len(), chunk_size as nat)
                    && out@ == joined(contents_of(outs)),
            Err(e) => exists|k: int, c: Vec<T>|
                #[trigger] fails_at(samples@, chunk_size as nat, pad, process, k, c, e),
        },
{
    let n = samples.len();
    let mut output: Vec<T> = Vec::new();
    let mut start: usize = 0;
    let ghost mut ins: Seq<Vec<T>> = Seq::empty();
    let ghost mut outs: Seq<Vec<T>> = Seq::empty();
    assert(0 * chunk_size == 0) by (nonlinear_arith);
    while start < n
        invariant
            n == samples@.len(),
            chunk_size > 0,
            n + chunk_size <= usize::MAX,
            forall|c: Vec<T>| #[trigger] process.requires((&c,)),
            start == ins.len() * chunk_size,
            start < n + chunk_size,
            fed_in_order(samples@, chunk_size as nat, pad, process, ins, outs),
            output@ == joined(contents_of(outs)),
        decreases n + chunk_size - start,
    {
        let chunk = padded_chunk_at(samples, start, chunk_size, pad);
        proof {
            let k = ins.len() as int;
            assert(chunk@ =~= padded_chunk(samples@, k, chunk_size as nat, pad)) by {
                assert(start == k * chunk_size);
            }
        }
        match process(&chunk) {
            Ok(part) => {
                proof {
                    let old_outs = outs;
                    ins = ins.push(chunk);
                    outs = outs.push(part);
                    assert(contents_of(outs).drop_last() =~= contents_of(old_outs));
                    assert(ins.len() * chunk_size == start + chunk_size) by (nonlinear_arith)
                        requires
                            ins.len() == old_outs.len() + 1,
                            start == old_outs.len() * chunk_size,
                    ;
                }
                append_all(&mut output, &part);
                proof {
                    assert(contents_of(outs).last() == part@);
                }
                start = start + chunk_size;
            },
            Err(e) => {
                proof {
                    let k = ins.len() as int;
                    assert(k < chunk_count(n as nat, chunk_size as nat)) by (nonlinear_arith)
                        requires
                            start == k * chunk_size,
                            start < n,
                            chunk_size > 0,
                    {
                        assert((n + chunk_size - 1) as int >= (k + 1) * chunk_size);
                    }
                }
                assert(fails_at(samples@, chunk_size as nat, pad, process, ins.len() as int, chunk, e));
                return Err(e);
            },
        }
    }
    proof {
        assert(ins.len() == chunk_count(n as nat, chunk_size as nat)) by (nonlinear_arith)
            requires
                start == ins.len() * chunk_size,
                start >= n,
                start < n + chunk_size,
                chunk_size > 0,
        {
        }
    }
    Ok(output)
}

/// The chunks cover the input with less than one chunk of padding:
/// `chunk_count(n) * size` lies in `[n, n + size)`.
pub proof fn lemma_padding_under_one_chunk(n: nat, size: nat)
    requires
        size > 0,
    ensures
        n <= chunk_count(n, size) * size < n + size,
{
    let x = (n + size - 1) as int;
    let c = chunk_count(n, size) as int;
    assert(c == x / size as int);
    vstd::arithmetic::div_mod::lemma_fundamental_div_mod(x, size as int);
    assert(0 <= x % (size as int) < size);
    assert(c * size <= x && x < (c + 1) * size) by (nonlinear_arith)
        requires
            x == size * c + x % (size as int),
            0 <= x % (size as int) < size,
    {
    }
}

} // verus!
