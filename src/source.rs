use vstd::prelude::*;

use vstd::string::StringSliceAdditionalSpecFns;

use crate::error::RendererError;

verus! {

/// The byte that opens a preprocessor directive.
pub const HASH: u8 = 35;

/// A line feed.
pub const NEWLINE: u8 = 10;

/// The marker comment line that opens the shared block and names the shared
/// file, `shared.glsl`, as ASCII bytes.
pub const SHARED_BEGIN: [u8; 26] = [
    10, 47, 47, 32, 105, 110, 99, 108, 117, 100, 101, 32, 39, 115, 104, 97, 114, 101, 100, 46,
    103, 108, 115, 108, 39, 10,
];

/// The marker comment line that closes the shared block, as ASCII bytes.
pub const SHARED_END: [u8; 19] = [
    10, 47, 47, 32, 101, 110, 100, 32, 111, 102, 32, 105, 110, 99, 108, 117, 100, 101, 10,
];

/// Index of the last `b` among the first `i` bytes of `s`, or -1.
pub open spec fn rfind_below(s: Seq<u8>, b: u8, i: int) -> int
    decreases i,
{
    if i <= 0 {
        -1
    } else if s[i - 1] == b {
        i - 1
    } else {
        rfind_below(s, b, i - 1)
    }
}

/// Index of the first `b` in `s` at or after `start`, or `s.len()`.
pub open spec fn find_from(s: Seq<u8>, b: u8, start: int) -> int
    decreases s.len() - start,
{
    if start >= s.len() {
        s.len() as int
    } else if s[start] == b {
        start
    } else {
        find_from(s, b, start + 1)
    }
}

/// The shared block: the library text between the two marker comments.
pub open spec fn shared_block(library: Seq<u8>) -> Seq<u8> {
    SHARED_BEGIN@ + library + SHARED_END@
}

/// Where the shared block goes: just past the line that holds the last `#`
/// (the end of the text if that line has no line feed), or the very start
/// where the text has no `#`.
pub open spec fn insertion_point(code: Seq<u8>) -> int {
    let p = rfind_below(code, HASH, code.len() as int);
    if p < 0 {
        0
    } else {
        let e = find_from(code, NEWLINE, p);
        if e < code.len() {
            e + 1
        } else {
            code.len() as int
        }
    }
}

/// The stage text with the shared block put in at its insertion point.
pub open spec fn with_shared(code: Seq<u8>, library: Seq<u8>) -> Seq<u8> {
    let k = insertion_point(code);
    code.take(k) + shared_block(library) + code.skip(k)
}

proof fn lemma_rfind_below_bounds(s: Seq<u8>, b: u8, i: int)
    requires
        0 <= i <= s.len(),
    ensures
        -1 <= rfind_below(s, b, i) < i,
        rfind_below(s, b, i) >= 0 ==> s[rfind_below(s, b, i)] == b,
        rfind_below(s, b, i) < 0 ==> forall|q: int| 0 <= q < i ==> s[q] != b,
    decreases i,
{
    if i > 0 && s[i - 1] != b {
        lemma_rfind_below_bounds(s, b, i - 1);
    }
}

/// Where the text has no `#`, the shared block comes before all of it.
pub proof fn lemma_no_directive_prepends(code: Seq<u8>, library: Seq<u8>)
    requires
        !code.contains(HASH),
    ensures
        with_shared(code, library) == shared_block(library) + code,
{
    lemma_rfind_below_bounds(code, HASH, code.len() as int);
    if rfind_below(code, HASH, code.len() as int) >= 0 {
        assert(code[rfind_below(code, HASH, code.len() as int)] == HASH);
    }
    assert(code.take(0) == Seq::<u8>::empty());
    assert(code.skip(0) == code);
}

/// Where the text is a first line that holds its only `#`s, a line feed,
/// and lines without `#`, the shared block comes just after that line feed
/// and the rest follows unchanged.
pub proof fn lemma_directive_line_kept(first: Seq<u8>, rest: Seq<u8>, library: Seq<u8>)
    requires
        first.contains(HASH),
        !first.contains(NEWLINE),
        !rest.contains(HASH),
    ensures
        with_shared(first.push(NEWLINE) + rest, library) == first.push(NEWLINE) + shared_block(library) + rest,
{
    let code = first.push(NEWLINE) + rest;
    let n = first.len() as int;
    let p = rfind_below(code, HASH, code.len() as int);
    assert forall|q: int| n <= q < code.len() implies code[q] != HASH by {
        if q > n {
            assert(code[q] == rest[q - n - 1]);
        }
    }
    assert forall|i: int| n < i <= code.len() implies rfind_below(code, HASH, i) == rfind_below(code, HASH, n) by {
        lemma_rfind_steps(code, HASH, n, i);
    }
    let h = choose|h: int| 0 <= h < first.len() && first[h] == HASH;
    assert(code[h] == HASH);
    lemma_rfind_below_found(code, HASH, n, h);
    lemma_rfind_below_bounds(code, HASH, n);
    assert(0 <= p < n);
    assert forall|q: int| p <= q < n implies code[q] != NEWLINE by {
        assert(code[q] == first[q]);
    }
    lemma_find_from_reaches(code, NEWLINE, p, n);
    assert(code[n] == NEWLINE);
    assert(find_from(code, NEWLINE, n) == n);
    assert(insertion_point(code) == n + 1);
    assert(code.take(n + 1) == first.push(NEWLINE));
    assert(code.skip(n + 1) == rest);
}

/// Past a stretch without `b`, the last `b` below the end is the last below
/// its start.
proof fn lemma_rfind_steps(s: Seq<u8>, b: u8, n: int, i: int)
    requires
        0 <= n < i <= s.len(),
        forall|q: int| n <= q < s.len() ==> s[q] != b,
    ensures
        rfind_below(s, b, i) == rfind_below(s, b, n),
    decreases i - n,
{
    if i - 1 > n {
        lemma_rfind_steps(s, b, n, i - 1);
    }
}

/// Below a `b` at `h`, the last `b` is found at `h` or later.
proof fn lemma_rfind_below_found(s: Seq<u8>, b: u8, i: int, h: int)
    requires
        0 <= h < i <= s.len(),
        s[h] == b,
    ensures
        rfind_below(s, b, i) >= h,
    decreases i,
{
    if i - 1 > h && s[i - 1] != b {
        lemma_rfind_below_found(s, b, i - 1, h);
    }
}

/// Across a stretch without `b`, the search for the next `b` carries on.
proof fn lemma_find_from_reaches(s: Seq<u8>, b: u8, start: int, n: int)
    requires
        0 <= start <= n <= s.len(),
        forall|q: int| start <= q < n ==> s[q] != b,
    ensures
        find_from(s, b, start) == find_from(s, b, n),
    decreases n - start,
{
    if start < n {
        lemma_find_from_reaches(s, b, start + 1, n);
    }
}

/// Appends the bytes of `src` to `dst`.
fn append_bytes(dst: &mut Vec<u8>, src: &[u8])
    ensures
        final(dst)@ == old(dst)@ + src@,
{
    let mut i: usize = 0;
    while i < src.len()
        invariant
            i <= src@.len(),
            dst@ == old(dst)@ + src@.take(i as int),
        decreases src@.len() - i,
    {
        dst.push(src[i]);
        i = i + 1;
        assert(src@.take(i as int) == src@.take(i - 1 as int).push(src@[i - 1]));
    }
    assert(src@.take(i as int) == src@);
}

/// Whether `s` holds a zero byte.
fn has_zero(s: &Vec<u8>) -> (r: bool)
    ensures
        r == s@.contains(0u8),
{
    let mut i: usize = 0;
    while i < s.len()
        invariant
            i <= s@.len(),
            forall|q: int| 0 <= q < i ==> s@[q] != 0u8,
        decreases s@.len() - i,
    {
        if s[i] == 0u8 {
            assert(s@[i as int] == 0u8);
            return true;
        }
        i = i + 1;
    }
    false
}

/// Builds the text handed to the shader compiler: `code` with the shared
/// block (`library` between two marker comments) put in just after the line
/// that holds the last `#` of `code`, or before all of `code` where it has
/// none, followed by a terminating zero byte. Fails with `EncodingError`
/// exactly when the combined text holds a zero byte.
pub fn prepare_source_code(code: &str, library: &str) -> (r: Result<Vec<u8>, RendererError>)
    ensures
        with_shared(code.spec_bytes(), library.spec_bytes()).contains(0u8) <==> r is Err,
        r is Err ==> r->Err_0 is EncodingError,
        r is Ok ==> r->Ok_0@ == with_shared(code.spec_bytes(), library.spec_bytes()).push(0u8),
{
    let c = code.as_bytes();
    let ghost cs = c@;
    let mut p: usize = c.len();
    while p > 0 && c[p - 1] != HASH
        invariant
            cs == c@,
            p <= cs.len(),
            rfind_below(cs, HASH, cs.len() as int) == rfind_below(cs, HASH, p as int),
        decreases p,
    {
        p = p - 1;
    }
    let k: usize = if p == 0 {
        0
    } else {
        let mut e: usize = p - 1;
        while e < c.len() && c[e] != NEWLINE
            invariant
                cs == c@,
                0 < p <= cs.len(),
                p - 1 <= e <= cs.len(),
                find_from(cs, NEWLINE, (p - 1) as int) == find_from(cs, NEWLINE, e as int),
            decreases cs.len() - e,
        {
            e = e + 1;
        }
        if e < c.len() {
            e + 1
        } else {
            e
        }
    };
    assert(k as int == insertion_point(cs));
    let mut out: Vec<u8> = Vec::new();
    let (head, tail) = c.split_at(k);
    append_bytes(&mut out, head);
    append_bytes(&mut out, SHARED_BEGIN.as_slice());
    append_bytes(&mut out, library.as_bytes());
    append_bytes(&mut out, SHARED_END.as_slice());
    append_bytes(&mut out, tail);
    assert(out@ == with_shared(cs, library.spec_bytes()));
    if has_zero(&out) {
        Err(RendererError::EncodingError)
    } else {
        out.push(0u8);
        Ok(out)
    }
}

} // verus!
