//! The exported-symbol prefix rewrite over extracted C header text.
//!
//! The external header extractor can prefix type names but not function
//! names, so the pipeline post-processes the header: it scans for C-style
//! function signatures — a return-type word, one space, an optional `*`, an
//! identifier, and a parenthesized argument list closed by `);` — and puts
//! the generation unit's unique prefix in front of each matched identifier.
//! An identifier that already carries the prefix is left alone, so the
//! rewrite never stacks prefixes on repeated runs.

use vstd::prelude::*;

verus! {

/// A word byte: a letter, digit or underscore.
pub open spec fn is_word_byte(b: u8) -> bool {
    b == 95 || (48 <= b <= 57) || (65 <= b <= 90) || (97 <= b <= 122)
}

/// A whitespace byte.
pub open spec fn is_space_byte(b: u8) -> bool {
    b == 32 || (9 <= b <= 13)
}

/// A byte admissible inside the argument list: word bytes, whitespace,
/// `*` and `,`.
pub open spec fn is_arg_byte(b: u8) -> bool {
    is_word_byte(b) || is_space_byte(b) || b == 42 || b == 44
}

/// The end of the word-byte run starting at `i`.
pub open spec fn word_end(s: Seq<u8>, i: int) -> int
    decreases s.len() - i
        when 0 <= i <= s.len()
{
    if i >= s.len() || !is_word_byte(s[i]) {
        i
    } else {
        word_end(s, i + 1)
    }
}

/// The end of the argument-byte run starting at `i`.
pub open spec fn arg_end(s: Seq<u8>, i: int) -> int
    decreases s.len() - i
        when 0 <= i <= s.len()
{
    if i >= s.len() || !is_arg_byte(s[i]) {
        i
    } else {
        arg_end(s, i + 1)
    }
}

/// A function signature starting at `i`: the return-type word run, one
/// space, an optional `*`, the identifier run, then `(`, the argument run,
/// and `);`.  Yields the identifier's start and end and the match's end.
pub open spec fn sig_at(s: Seq<u8>, i: int) -> Option<(int, int, int)>
    recommends
        0 <= i <= s.len(),
{
    let a = word_end(s, i);
    if a == i || a >= s.len() || s[a] != 32 {
        None
    } else {
        let b0 = a + 1;
        let b = if b0 < s.len() && s[b0] == 42 {
            b0 + 1
        } else {
            b0
        };
        let c = word_end(s, b);
        if c == b || c >= s.len() || s[c] != 40 {
            None
        } else {
            let d = arg_end(s, c + 1);
            if d + 1 < s.len() && s[d] == 41 && s[d + 1] == 59 {
                Some((b, c, d + 2))
            } else {
                None
            }
        }
    }
}

/// `p` stands at the front of the range `[b, c)` of `s`.
pub open spec fn starts_with_at(s: Seq<u8>, b: int, c: int, p: Seq<u8>) -> bool {
    c - b >= p.len() && s.subrange(b, b + p.len()) == p
}

/// `w` begins with `p`.
pub open spec fn starts_with(w: Seq<u8>, p: Seq<u8>) -> bool {
    w.len() >= p.len() && w.subrange(0, p.len() as int) == p
}

/// The identifier as the rewrite emits it: already-prefixed identifiers are
/// kept, all others get the prefix put in front.
pub open spec fn prefixed_ident(p: Seq<u8>, w: Seq<u8>) -> Seq<u8> {
    if starts_with(w, p) {
        w
    } else {
        p + w
    }
}

/// The rewritten text from position `i` on: bytes outside matches are
/// copied, and each matched signature is copied with its identifier put
/// behind the prefix unless it already carries it.
pub open spec fn rewrite_from(s: Seq<u8>, p: Seq<u8>, i: int) -> Seq<u8>
    decreases s.len() - i
        when 0 <= i <= s.len()
{
    if i >= s.len() {
        Seq::empty()
    } else {
        match sig_at(s, i) {
            Some((b, c, e)) => {
                if i < b <= c <= e <= s.len() {
                    s.subrange(i, b) + (if starts_with_at(s, b, c, p) {
                        Seq::<u8>::empty()
                    } else {
                        p
                    }) + s.subrange(b, e) + rewrite_from(s, p, e)
                } else {
                    s.subrange(i, i + 1) + rewrite_from(s, p, i + 1)
                }
            },
            None => s.subrange(i, i + 1) + rewrite_from(s, p, i + 1),
        }
    }
}

/// The whole text, rewritten.
pub open spec fn rewrite_text(s: Seq<u8>, p: Seq<u8>) -> Seq<u8> {
    rewrite_from(s, p, 0)
}

fn is_word_byte_exec(b: u8) -> (r: bool)
    ensures
        r == is_word_byte(b),
{
    b == 95 || (48 <= b && b <= 57) || (65 <= b && b <= 90) || (97 <= b && b <= 122)
}

fn is_arg_byte_exec(b: u8) -> (r: bool)
    ensures
        r == is_arg_byte(b),
{
    is_word_byte_exec(b) || b == 32 || (9 <= b && b <= 13) || b == 42 || b == 44
}

fn scan_word_end(s: &Vec<u8>, i: usize) -> (r: usize)
    requires
        i <= s@.len(),
    ensures
        r == word_end(s@, i as int),
        i <= r <= s@.len(),
    decreases s@.len() - i,
{
    let mut j = i;
    while j < s.len() && is_word_byte_exec(s[j])
        invariant
            i <= j <= s@.len(),
            word_end(s@, i as int) == word_end(s@, j as int),
        decreases s@.len() - j,
    {
        j += 1;
    }
    j
}

fn scan_arg_end(s: &Vec<u8>, i: usize) -> (r: usize)
    requires
        i <= s@.len(),
    ensures
        r == arg_end(s@, i as int),
        i <= r <= s@.len(),
    decreases s@.len() - i,
{
    let mut j = i;
    while j < s.len() && is_arg_byte_exec(s[j])
        invariant
            i <= j <= s@.len(),
            arg_end(s@, i as int) == arg_end(s@, j as int),
        decreases s@.len() - j,
    {
        j += 1;
    }
    j
}

fn sig_at_exec(s: &Vec<u8>, i: usize) -> (r: Option<(usize, usize, usize)>)
    requires
        i <= s@.len(),
    ensures
        match r {
            Some(t) => sig_at(s@, i as int) == Some(
                (t.0 as int, t.1 as int, t.2 as int),
            ) && i < t.0 <= t.1 <= t.2 <= s@.len(),
            None => sig_at(s@, i as int) is None,
        },
{
    let a = scan_word_end(s, i);
    if a == i || a >= s.len() || s[a] != 32 {
        return None;
    }
    let b0 = a + 1;
    let b = if b0 < s.len() && s[b0] == 42 {
        b0 + 1
    } else {
        b0
    };
    let c = scan_word_end(s, b);
    if c == b || c >= s.len() || s[c] != 40 {
        return None;
    }
    let d = scan_arg_end(s, c + 1);
    if d < s.len() && s[d] == 41 && d + 1 < s.len() && s[d + 1] == 59 {
        Some((b, c, d + 2))
    } else {
        None
    }
}

fn push_range(out: &mut Vec<u8>, src: &Vec<u8>, from: usize, to: usize)
    requires
        from <= to <= src@.len(),
    ensures
        final(out)@ == old(out)@ + src@.subrange(from as int, to as int),
{
    let mut k = from;
    while k < to
        invariant
            from <= k <= to <= src@.len(),
            out@ == old(out)@ + src@.subrange(from as int, k as int),
        decreases to - k,
    {
        out.push(src[k]);
        proof {
            assert(src@.subrange(from as int, k + 1) =~= src@.subrange(from as int, k as int)
                + seq![src@[k as int]]);
        }
        k += 1;
    }
}

fn range_starts_with(s: &Vec<u8>, b: usize, c: usize, p: &Vec<u8>) -> (r: bool)
    requires
        b <= c <= s@.len(),
    ensures
        r == starts_with_at(s@, b as int, c as int, p@),
{
    if c - b < p.len() {
        return false;
    }
    let mut k: usize = 0;
    while k < p.len()
        invariant
            k <= p@.len(),
            b + p@.len() <= c <= s@.len(),
            forall|t: int| 0 <= t < k ==> s@[b + t] == p@[t],
        decreases p@.len() - k,
    {
        if s[b + k] != p[k] {
            proof {
                assert(s@.subrange(b as int, b + p@.len()) != p@) by {
                    assert(s@.subrange(b as int, b + p@.len())[k as int] == s@[b + k]);
                }
            }
            return false;
        }
        k += 1;
    }
    proof {
        assert(s@.subrange(b as int, b + p@.len()) =~= p@);
    }
    true
}

/// Rewrites extracted header text so that every matched function signature's
/// identifier carries the prefix, without stacking it onto identifiers that
/// already do.
pub fn rewrite_header(text: &Vec<u8>, prefix: &Vec<u8>) -> (r: Vec<u8>)
    ensures
        r@ == rewrite_text(text@, prefix@),
{
    let mut out: Vec<u8> = Vec::new();
    let mut i: usize = 0;
    while i < text.len()
        invariant
            i <= text@.len(),
            out@ + rewrite_from(text@, prefix@, i as int) == rewrite_text(text@, prefix@),
        decreases text@.len() - i,
    {
        let ghost out_old = out@;
        match sig_at_exec(text, i) {
            Some((b, c, e)) => {
                push_range(&mut out, text, i, b);
                if !range_starts_with(text, b, c, prefix) {
                    push_range(&mut out, prefix, 0, prefix.len());
                    proof {
                        assert(prefix@.subrange(0, prefix@.len() as int) =~= prefix@);
                    }
                }
                push_range(&mut out, text, b, e);
                proof {
                    assert(out@ + rewrite_from(text@, prefix@, e as int) =~= out_old
                        + rewrite_from(text@, prefix@, i as int));
                }
                i = e;
            },
            None => {
                out.push(text[i]);
                proof {
                    assert(text@.subrange(i as int, i + 1) =~= seq![text@[i as int]]);
                    assert(out@ + rewrite_from(text@, prefix@, i + 1) =~= out_old + rewrite_from(
                        text@,
                        prefix@,
                        i as int,
                    ));
                }
                i += 1;
            },
        }
    }
    proof {
        assert(out@ + Seq::<u8>::empty() =~= out@);
    }
    out
}

/// Law: a rewritten identifier begins with the prefix, and rewriting an
/// already-rewritten identifier changes nothing — the prefix is never
/// stacked by repeated runs.
pub proof fn lemma_prefix_exactly_once(p: Seq<u8>, w: Seq<u8>)
    requires
        p.len() > 0,
    ensures
        starts_with(prefixed_ident(p, w), p),
        prefixed_ident(p, prefixed_ident(p, w)) == prefixed_ident(p, w),
{
    if !starts_with(w, p) {
        assert((p + w).subrange(0, p.len() as int) =~= p);
    }
}

/// Law: what a matched signature contributes to the rewritten text is its
/// identifier behind exactly one prefix, with everything around the
/// identifier copied unchanged.
pub proof fn lemma_match_emits_prefixed_ident(s: Seq<u8>, p: Seq<u8>, b: int, c: int, e: int)
    requires
        0 <= b <= c <= e <= s.len(),
    ensures
        (if starts_with_at(s, b, c, p) {
            Seq::<u8>::empty()
        } else {
            p
        }) + s.subrange(b, c) == prefixed_ident(p, s.subrange(b, c)),
        (if starts_with_at(s, b, c, p) {
            Seq::<u8>::empty()
        } else {
            p
        }) + s.subrange(b, e) == prefixed_ident(p, s.subrange(b, c)) + s.subrange(c, e),
{
    let w = s.subrange(b, c);
    if starts_with_at(s, b, c, p) {
        assert(w.subrange(0, p.len() as int) =~= s.subrange(b, b + p.len()));
        assert(starts_with(w, p));
        assert(Seq::<u8>::empty() + w =~= w);
        assert(Seq::<u8>::empty() + s.subrange(b, e) =~= w + s.subrange(c, e));
    } else {
        if starts_with(w, p) {
            assert(s.subrange(b, b + p.len()) =~= w.subrange(0, p.len() as int));
        }
        assert(!starts_with(w, p));
        assert(p + s.subrange(b, e) =~= (p + w) + s.subrange(c, e));
    }
}

proof fn lemma_word_run(s: Seq<u8>, i: int)
    requires
        0 <= i <= s.len(),
    ensures
        i <= word_end(s, i) <= s.len(),
        forall|k: int| i <= k < word_end(s, i) ==> is_word_byte(s[k]),
        word_end(s, i) < s.len() ==> !is_word_byte(s[word_end(s, i)]),
    decreases s.len() - i,
{
    if i < s.len() && is_word_byte(s[i]) {
        lemma_word_run(s, i + 1);
    }
}

proof fn lemma_word_end_is(o: Seq<u8>, i: int, j: int)
    requires
        0 <= i <= j <= o.len(),
        forall|k: int| i <= k < j ==> is_word_byte(o[k]),
        j < o.len() ==> !is_word_byte(o[j]),
    ensures
        word_end(o, i) == j,
    decreases j - i,
{
    if i < j {
        lemma_word_end_is(o, i + 1, j);
    }
}

proof fn lemma_arg_run(s: Seq<u8>, i: int)
    requires
        0 <= i <= s.len(),
    ensures
        i <= arg_end(s, i) <= s.len(),
        forall|k: int| i <= k < arg_end(s, i) ==> is_arg_byte(s[k]),
        arg_end(s, i) < s.len() ==> !is_arg_byte(s[arg_end(s, i)]),
    decreases s.len() - i,
{
    if i < s.len() && is_arg_byte(s[i]) {
        lemma_arg_run(s, i + 1);
    }
}

proof fn lemma_arg_end_is(o: Seq<u8>, i: int, j: int)
    requires
        0 <= i <= j <= o.len(),
        forall|k: int| i <= k < j ==> is_arg_byte(o[k]),
        j < o.len() ==> !is_arg_byte(o[j]),
    ensures
        arg_end(o, i) == j,
    decreases j - i,
{
    if i < j {
        lemma_arg_end_is(o, i + 1, j);
    }
}

/// Law: on a text that is exactly one matched signature, a second run of the
/// rewrite changes nothing.  The first run leaves the identifier behind
/// exactly one prefix; because the prefix is word bytes, the second scan
/// finds the same signature shape, sees the prefix already in place, and
/// copies the text unchanged.
pub proof fn lemma_rewrite_signature_idempotent(s: Seq<u8>, p: Seq<u8>, b: int, c: int, e: int)
    requires
        p.len() > 0,
        forall|k: int| 0 <= k < p.len() ==> is_word_byte(p[k]),
        sig_at(s, 0) == Some((b, c, e)),
        e == s.len(),
    ensures
        rewrite_text(rewrite_text(s, p), p) == rewrite_text(s, p),
{
    let a = word_end(s, 0);
    lemma_word_run(s, 0);
    assert(a != 0 && a < s.len() && s[a] == 32);
    let b0 = a + 1;
    lemma_word_run(s, b);
    assert(c == word_end(s, b) && c != b && c < s.len() && s[c] == 40);
    let d = arg_end(s, c + 1);
    lemma_arg_run(s, c + 1);
    assert(d + 1 < s.len() && s[d] == 41 && s[d + 1] == 59 && e == d + 2);

    let pp = if starts_with_at(s, b, c, p) {
        Seq::<u8>::empty()
    } else {
        p
    };
    let q = pp.len();
    assert(rewrite_from(s, p, e) == Seq::<u8>::empty());
    let o = rewrite_text(s, p);
    assert(o =~= s.subrange(0, b) + pp + s.subrange(b, e));
    assert(o.len() == e + q);
    assert(forall|k: int| 0 <= k < b ==> o[k] == s[k]);
    assert(forall|k: int| 0 <= k < q ==> o[b + k] == pp[k]);
    assert(forall|k: int| b <= k < e ==> o[k + q] == s[k]);

    lemma_word_end_is(o, 0, a);
    assert(word_end(o, 0) == a);
    assert(o[b] != 42) by {
        if q > 0 {
            assert(o[b + 0] == pp[0]);
        }
    }
    assert(forall|k: int| b <= k < c + q ==> is_word_byte(o[k])) by {
        assert(forall|k: int| b <= k < b + q ==> o[k] == pp[k - b]);
        assert(forall|k: int| b + q <= k < c + q ==> o[k] == s[k - q]);
    }
    assert(o[c + q] == s[c]);
    lemma_word_end_is(o, b, c + q);
    assert(forall|k: int| c + q + 1 <= k < d + q ==> is_arg_byte(o[k])) by {
        assert(forall|k: int| c + q + 1 <= k < d + q ==> o[k] == s[k - q]);
    }
    assert(o[d + q] == s[d] && o[d + q + 1] == s[d + 1]);
    lemma_arg_end_is(o, c + q + 1, d + q);
    assert(sig_at(o, 0) == Some((b, c + q, e + q)));

    assert(starts_with_at(o, b, c + q, p)) by {
        if starts_with_at(s, b, c, p) {
            assert(o.subrange(b, b + p.len()) =~= s.subrange(b, b + p.len()));
        } else {
            assert(o.subrange(b, b + p.len()) =~= p);
        }
    }
    assert(rewrite_from(o, p, e + q) == Seq::<u8>::empty());
    assert(rewrite_text(o, p) == o.subrange(0, b) + Seq::<u8>::empty() + o.subrange(b, e + q)
        + rewrite_from(o, p, e + q));
    assert(rewrite_text(o, p) =~= o);
}

/// The finished header artifact: a comment line naming the unit's unique
/// prefix, then the rewritten header text.  The leading bytes are `/`, `/`
/// and a space; the prefix line ends with a newline.
pub open spec fn stamped_header_text(s: Seq<u8>, p: Seq<u8>) -> Seq<u8> {
    seq![47u8, 47u8, 32u8] + p + seq![10u8] + rewrite_text(s, p)
}

/// Produces the complete header artifact to write back: the prefix comment
/// line followed by the rewritten header.
pub fn stamped_header(text: &Vec<u8>, prefix: &Vec<u8>) -> (r: Vec<u8>)
    ensures
        r@ == stamped_header_text(text@, prefix@),
{
    let mut out: Vec<u8> = Vec::new();
    out.push(47);
    out.push(47);
    out.push(32);
    push_range(&mut out, prefix, 0, prefix.len());
    out.push(10);
    let rewritten = rewrite_header(text, prefix);
    push_range(&mut out, &rewritten, 0, rewritten.len());
    proof {
        assert(prefix@.subrange(0, prefix@.len() as int) =~= prefix@);
        assert(rewritten@.subrange(0, rewritten@.len() as int) =~= rewritten@);
        assert(out@ =~= stamped_header_text(text@, prefix@));
    }
    out
}

} // verus!
