//! Certificate-chain handling: a chain is exactly two PEM blocks in fixed
//! order, the leaf certificate first and the issuing CA certificate second.
//! `parse_cert_chain` splits a PEM-concatenated text into its first two
//! armoured blocks; `serialize_chain` concatenates a leaf block and a CA
//! block with a single blank line between them. Parsing a serialized pair of
//! well-formed blocks gives back the two blocks byte for byte
//! (`lemma_parse_serialize_chain`).

use vstd::prelude::*;
use vstd::slice::{slice_index_get, slice_subrange, slice_to_vec};
use vstd::string::StringSliceAdditionalSpecFns;

use crate::errors::ChainError;

verus! {

broadcast use vstd::string::is_ascii_spec_bytes;

/// The line-feed byte that terminates every armour line.
pub const NL: u8 = 10;

/// The bytes of `"-----BEGIN "`, the prefix of a PEM block's opening line.
pub open spec fn begin_marker() -> Seq<u8> {
    seq![45u8, 45u8, 45u8, 45u8, 45u8, 66u8, 69u8, 71u8, 73u8, 78u8, 32u8]
}

/// The bytes of `"-----END "`, the prefix of a PEM block's closing line.
pub open spec fn end_marker() -> Seq<u8> {
    seq![45u8, 45u8, 45u8, 45u8, 45u8, 69u8, 78u8, 68u8, 32u8]
}

/// `pat` occurs in `s` starting at position `i`.
pub open spec fn matches_at(s: Seq<u8>, pat: Seq<u8>, i: int) -> bool {
    &&& 0 <= i
    &&& i + pat.len() <= s.len()
    &&& forall|j: int| 0 <= j < pat.len() ==> s[i + j] == pat[j]
}

/// `needle` occurs somewhere in `hay`.
pub open spec fn contains_seq(hay: Seq<u8>, needle: Seq<u8>) -> bool {
    exists|i: int| matches_at(hay, needle, i)
}

/// Position `i` is the start of a line of `s`.
pub open spec fn line_start(s: Seq<u8>, i: int) -> bool {
    i == 0 || s[i - 1] == NL
}

/// A PEM block's opening line starts at position `i` of `s`.
pub open spec fn begin_at(s: Seq<u8>, i: int) -> bool {
    line_start(s, i) && matches_at(s, begin_marker(), i)
}

/// A PEM block's closing line starts at position `i` of `s`.
pub open spec fn end_at(s: Seq<u8>, i: int) -> bool {
    line_start(s, i) && matches_at(s, end_marker(), i)
}

/// The least position `>= from` where an opening line starts, if any.
pub open spec fn first_begin_from(s: Seq<u8>, from: int) -> Option<int>
    decreases s.len() - from,
{
    if from < 0 || from >= s.len() {
        None
    } else if begin_at(s, from) {
        Some(from)
    } else {
        first_begin_from(s, from + 1)
    }
}

/// The least position `>= from` where a closing line starts, if any.
pub open spec fn first_end_from(s: Seq<u8>, from: int) -> Option<int>
    decreases s.len() - from,
{
    if from < 0 || from >= s.len() {
        None
    } else if end_at(s, from) {
        Some(from)
    } else {
        first_end_from(s, from + 1)
    }
}

/// The position of the first line feed at or after `from`, or `s.len()`.
pub open spec fn first_nl_from(s: Seq<u8>, from: int) -> int
    decreases s.len() - from,
{
    if from < 0 || from >= s.len() {
        s.len() as int
    } else if s[from] == NL {
        from
    } else {
        first_nl_from(s, from + 1)
    }
}

/// Where a block whose closing line starts at `e` stops: just past that
/// line's line feed, or at the end of the text if the line is unterminated.
pub open spec fn block_end(s: Seq<u8>, e: int) -> int {
    let nl = first_nl_from(s, e);
    if nl == s.len() {
        nl
    } else {
        nl + 1
    }
}

/// The first two PEM blocks of `s`, each taken from its opening line through
/// the end of its closing line; `None` if fewer than two blocks are present.
pub open spec fn spec_parse_chain(s: Seq<u8>) -> Option<(Seq<u8>, Seq<u8>)> {
    match first_begin_from(s, 0) {
        None => None,
        Some(b1) => match first_end_from(s, b1) {
            None => None,
            Some(e1) => {
                let stop1 = block_end(s, e1);
                match first_begin_from(s, stop1) {
                    None => None,
                    Some(b2) => match first_end_from(s, b2) {
                        None => None,
                        Some(e2) => Some(
                            (s.subrange(b1, stop1), s.subrange(b2, block_end(s, e2))),
                        ),
                    },
                }
            },
        },
    }
}

/// A single well-formed PEM block: it opens with a `-----BEGIN ` line, no
/// other line opens a block, it has a `-----END ` line, and every closing
/// line runs to the final byte of the block, a line feed.
pub open spec fn is_pem_block(b: Seq<u8>) -> bool {
    &&& begin_at(b, 0)
    &&& b.len() > 0 && b[b.len() - 1] == NL
    &&& forall|i: int| 0 < i < b.len() ==> !(#[trigger] begin_at(b, i))
    &&& exists|p: int| #[trigger] end_at(b, p)
    &&& forall|p: int| #[trigger] end_at(b, p) ==> first_nl_from(b, p) == b.len() - 1
}

/// The exec bytes of the opening-line prefix.
fn begin_marker_bytes() -> (r: &'static [u8])
    ensures
        r@ == begin_marker(),
{
    let s = "-----BEGIN ";
    proof {
        reveal_strlit("-----BEGIN ");
        assert(s.is_ascii());
        assert(s.spec_bytes() =~= begin_marker());
    }
    s.as_bytes()
}

/// The exec bytes of the closing-line prefix.
fn end_marker_bytes() -> (r: &'static [u8])
    ensures
        r@ == end_marker(),
{
    let s = "-----END ";
    proof {
        reveal_strlit("-----END ");
        assert(s.is_ascii());
        assert(s.spec_bytes() =~= end_marker());
    }
    s.as_bytes()
}

/// Whether `pat` occurs in `s` starting at `i`.
fn matches_prefix_at(s: &[u8], pat: &[u8], i: usize) -> (r: bool)
    requires
        i <= s@.len(),
    ensures
        r == matches_at(s@, pat@, i as int),
{
    if s.len() - i < pat.len() {
        return false;
    }
    let mut j: usize = 0;
    while j < pat.len()
        invariant
            0 <= j <= pat@.len(),
            i + pat@.len() <= s@.len(),
            s@.len() <= usize::MAX,
            forall|k: int| 0 <= k < j ==> s@[i + k] == pat@[k],
        decreases pat@.len() - j,
    {
        if *slice_index_get(s, i + j) != *slice_index_get(pat, j) {
            assert(!matches_at(s@, pat@, i as int));
            return false;
        }
        j += 1;
    }
    true
}

/// Whether a block's opening line starts at `i`.
fn is_begin_at(s: &[u8], i: usize) -> (r: bool)
    requires
        i <= s@.len(),
    ensures
        r == begin_at(s@, i as int),
{
    if i != 0 && *slice_index_get(s, i - 1) != NL {
        return false;
    }
    matches_prefix_at(s, begin_marker_bytes(), i)
}

/// Whether a block's closing line starts at `i`.
fn is_end_at(s: &[u8], i: usize) -> (r: bool)
    requires
        i <= s@.len(),
    ensures
        r == end_at(s@, i as int),
{
    if i != 0 && *slice_index_get(s, i - 1) != NL {
        return false;
    }
    matches_prefix_at(s, end_marker_bytes(), i)
}

/// The least position `>= from` where an opening line starts.
fn find_begin(s: &[u8], from: usize) -> (r: Option<usize>)
    requires
        from <= s@.len(),
    ensures
        match r {
            Some(i) => from <= i < s@.len() && first_begin_from(s@, from as int) == Some(i as int),
            None => first_begin_from(s@, from as int) is None,
        },
{
    let mut i: usize = from;
    while i < s.len()
        invariant
            from <= i <= s@.len(),
            first_begin_from(s@, from as int) == first_begin_from(s@, i as int),
        decreases s@.len() - i,
    {
        if is_begin_at(s, i) {
            return Some(i);
        }
        assert(first_begin_from(s@, i as int) == first_begin_from(s@, i as int + 1));
        i += 1;
    }
    None
}

/// The least position `>= from` where a closing line starts.
fn find_end(s: &[u8], from: usize) -> (r: Option<usize>)
    requires
        from <= s@.len(),
    ensures
        match r {
            Some(i) => from <= i < s@.len() && first_end_from(s@, from as int) == Some(i as int),
            None => first_end_from(s@, from as int) is None,
        },
{
    let mut i: usize = from;
    while i < s.len()
        invariant
            from <= i <= s@.len(),
            first_end_from(s@, from as int) == first_end_from(s@, i as int),
        decreases s@.len() - i,
    {
        if is_end_at(s, i) {
            return Some(i);
        }
        assert(first_end_from(s@, i as int) == first_end_from(s@, i as int + 1));
        i += 1;
    }
    None
}

/// The position of the first line feed at or after `from`, or `s.len()`.
fn find_nl(s: &[u8], from: usize) -> (r: usize)
    requires
        from <= s@.len(),
    ensures
        r == first_nl_from(s@, from as int),
        from <= r <= s@.len(),
{
    let mut i: usize = from;
    while i < s.len()
        invariant
            from <= i <= s@.len(),
            first_nl_from(s@, from as int) == first_nl_from(s@, i as int),
        decreases s@.len() - i,
    {
        if *slice_index_get(s, i) == NL {
            return i;
        }
        assert(first_nl_from(s@, i as int) == first_nl_from(s@, i as int + 1));
        i += 1;
    }
    i
}

/// Split a PEM-concatenated text into its first two blocks, the leaf
/// certificate and the CA certificate, ignoring anything after them. Fails
/// with `ChainTooShort` when fewer than two complete blocks are present.
pub fn parse_cert_chain(chain: &[u8]) -> (r: Result<(Vec<u8>, Vec<u8>), ChainError>)
    ensures
        match r {
            Ok(pair) => spec_parse_chain(chain@) == Some((pair.0@, pair.1@)),
            Err(e) => e == ChainError::ChainTooShort && spec_parse_chain(chain@) is None,
        },
{
    let b1 = match find_begin(chain, 0) {
        Some(i) => i,
        None => {
            return Err(ChainError::ChainTooShort);
        },
    };
    let e1 = match find_end(chain, b1) {
        Some(i) => i,
        None => {
            return Err(ChainError::ChainTooShort);
        },
    };
    let nl1 = find_nl(chain, e1);
    let stop1 = if nl1 < chain.len() {
        nl1 + 1
    } else {
        nl1
    };
    let b2 = match find_begin(chain, stop1) {
        Some(i) => i,
        None => {
            return Err(ChainError::ChainTooShort);
        },
    };
    let e2 = match find_end(chain, b2) {
        Some(i) => i,
        None => {
            return Err(ChainError::ChainTooShort);
        },
    };
    let nl2 = find_nl(chain, e2);
    let stop2 = if nl2 < chain.len() {
        nl2 + 1
    } else {
        nl2
    };
    let leaf = slice_to_vec(slice_subrange(chain, b1, stop1));
    let ca = slice_to_vec(slice_subrange(chain, b2, stop2));
    Ok((leaf, ca))
}

/// Concatenate a leaf block and a CA block, leaf first, with a single blank
/// line between them: each block already ends in a line feed, and one more
/// line feed is placed between the two.
pub fn serialize_chain(leaf: &[u8], ca: &[u8]) -> (r: Vec<u8>)
    ensures
        r@ == leaf@ + seq![NL] + ca@,
{
    let mut out: Vec<u8> = slice_to_vec(leaf);
    out.push(NL);
    let mut rest: Vec<u8> = slice_to_vec(ca);
    out.append(&mut rest);
    proof {
        assert(out@ =~= leaf@ + seq![NL] + ca@);
    }
    out
}


/// Whether `needle` occurs anywhere in `hay`.
pub fn contains_bytes(hay: &[u8], needle: &[u8]) -> (r: bool)
    ensures
        r == contains_seq(hay@, needle@),
{
    if needle.len() == 0 {
        assert(matches_at(hay@, needle@, 0));
        return true;
    }
    if needle.len() > hay.len() {
        assert(forall|k: int| !matches_at(hay@, needle@, k));
        return false;
    }
    let mut i: usize = 0;
    while i <= hay.len() - needle.len()
        invariant
            needle@.len() >= 1,
            needle@.len() <= hay@.len(),
            0 <= i <= hay@.len() - needle@.len() + 1,
            forall|k: int| 0 <= k < i ==> !(#[trigger] matches_at(hay@, needle@, k)),
        decreases hay@.len() - needle@.len() + 1 - i,
    {
        if matches_prefix_at(hay, needle, i) {
            return true;
        }
        i += 1;
    }
    assert(forall|k: int| !matches_at(hay@, needle@, k));
    false
}

/// Bounds and contents of `first_nl_from`: it points at the first line feed
/// at or after `from`, and nothing before it is a line feed.
pub proof fn lemma_first_nl_props(s: Seq<u8>, from: int)
    requires
        0 <= from <= s.len(),
    ensures
        from <= first_nl_from(s, from) <= s.len(),
        first_nl_from(s, from) < s.len() ==> s[first_nl_from(s, from)] == NL,
        forall|i: int| from <= i < first_nl_from(s, from) ==> s[i] != NL,
    decreases s.len() - from,
{
    if from < s.len() && s[from] != NL {
        lemma_first_nl_props(s, from + 1);
    }
}

/// `first_nl_from` finds exactly the position of the first line feed.
pub proof fn lemma_first_nl_char(s: Seq<u8>, from: int, p: int)
    requires
        0 <= from <= p < s.len(),
        s[p] == NL,
        forall|i: int| from <= i < p ==> s[i] != NL,
    ensures
        first_nl_from(s, from) == p,
    decreases p - from,
{
    if from < p {
        lemma_first_nl_char(s, from + 1, p);
    }
}

/// `first_begin_from` finds exactly the first opening line at or after `from`.
pub proof fn lemma_first_begin_char(s: Seq<u8>, from: int, p: int)
    requires
        0 <= from <= p < s.len(),
        begin_at(s, p),
        forall|i: int| from <= i < p ==> !(#[trigger] begin_at(s, i)),
    ensures
        first_begin_from(s, from) == Some(p),
    decreases p - from,
{
    if from < p {
        lemma_first_begin_char(s, from + 1, p);
    }
}

/// `first_end_from` finds exactly the first closing line at or after `from`.
pub proof fn lemma_first_end_char(s: Seq<u8>, from: int, p: int)
    requires
        0 <= from <= p < s.len(),
        end_at(s, p),
        forall|i: int| from <= i < p ==> !(#[trigger] end_at(s, i)),
    ensures
        first_end_from(s, from) == Some(p),
    decreases p - from,
{
    if from < p {
        lemma_first_end_char(s, from + 1, p);
    }
}

/// Inside one well-formed block, no closing line starts before the one at `p`.
proof fn lemma_block_no_end_before(b: Seq<u8>, p: int, i: int)
    requires
        is_pem_block(b),
        end_at(b, p),
        0 <= i < p,
    ensures
        !end_at(b, i),
{
    if end_at(b, i) {
        lemma_first_nl_props(b, i);
        assert(end_marker().len() == 9);
        assert(p + end_marker().len() <= b.len());
        assert(b[p - 1] == NL);
        assert(first_nl_from(b, i) == b.len() - 1);
        assert(false);
    }
}

/// Parsing is a left inverse of serialization: splitting the concatenation
/// of two well-formed PEM blocks, with one blank line between them, yields
/// back exactly those two blocks.
#[verifier::rlimit(100)]
#[verifier::spinoff_prover]
pub proof fn lemma_parse_serialize_chain(l: Seq<u8>, c: Seq<u8>)
    requires
        is_pem_block(l),
        is_pem_block(c),
    ensures
        spec_parse_chain(l + seq![NL] + c) == Some((l, c)),
{
    let t = l + seq![NL] + c;
    let ln = l.len() as int;
    let cn = c.len() as int;
    let p = choose|q: int| end_at(l, q);
    let pc = choose|q: int| end_at(c, q);
    assert(end_at(l, p));
    assert(end_at(c, pc));
    assert(begin_marker().len() == 11);
    assert(end_marker().len() == 9);
    assert(ln >= 11);
    assert(cn >= 11);
    assert(t.len() == ln + 1 + cn);
    assert forall|i: int| 0 <= i < ln implies t[i] == l[i] by {}
    assert(t[ln] == NL);
    assert forall|j: int| 0 <= j < cn implies t[ln + 1 + j] == c[j] by {}

    // The first block opens at position 0.
    assert forall|j: int| 0 <= j < begin_marker().len() implies t[0 + j] == begin_marker()[j] by {
        assert(l[0 + j] == begin_marker()[j]);
        assert(t[j] == l[j]);
    }
    assert(begin_at(t, 0));
    lemma_first_begin_char(t, 0, 0);

    // Its closing line is the first one in the whole text.
    assert forall|i: int| 0 <= i < p implies !(#[trigger] end_at(t, i)) by {
        lemma_block_no_end_before(l, p, i);
        if end_at(t, i) {
            assert(p + end_marker().len() <= ln);
            assert forall|k: int| 0 <= k < end_marker().len() implies l[i + k] == end_marker()[k] by {
                assert(t[i + k] == l[i + k]);
            }
            if i > 0 {
                assert(t[i - 1] == l[i - 1]);
            }
            assert(end_at(l, i));
        }
    }
    assert(p + end_marker().len() <= ln);
    assert forall|k: int| 0 <= k < end_marker().len() implies t[p + k] == end_marker()[k] by {
        assert(t[p + k] == l[p + k]);
        assert(l[p + k] == end_marker()[k]);
    }
    if p > 0 {
        assert(t[p - 1] == l[p - 1]);
    }
    assert(end_at(t, p));
    lemma_first_end_char(t, 0, p);

    // That closing line runs through position ln - 1, the block's last byte.
    assert(first_nl_from(l, p) == ln - 1);
    lemma_first_nl_props(l, p);
    assert forall|i: int| p <= i < ln - 1 implies t[i] != NL by {
        assert(t[i] == l[i]);
        assert(l[i] != NL);
    }
    assert(t[ln - 1] == l[ln - 1]);
    lemma_first_nl_char(t, p, ln - 1);
    assert(first_nl_from(t, p) == ln - 1);
    assert(block_end(t, p) == ln);
    assert(t.subrange(0, ln) =~= l);

    // The second block opens right after the blank line, at ln + 1.
    assert(!begin_at(t, ln)) by {
        if matches_at(t, begin_marker(), ln) {
            assert(t[ln + 0] == begin_marker()[0]);
            assert(false);
        }
    }
    assert forall|j: int| 0 <= j < begin_marker().len() implies t[(ln + 1) + j] == begin_marker()[j]
        by {
        assert(c[0 + j] == begin_marker()[j]);
        assert(t[ln + 1 + j] == c[j]);
    }
    assert(matches_at(t, begin_marker(), ln + 1));
    assert(begin_at(t, ln + 1));
    lemma_first_begin_char(t, ln, ln + 1);

    // Its closing line is the first one at or after ln + 1.
    assert forall|i: int| ln + 1 <= i < ln + 1 + pc implies !(#[trigger] end_at(t, i)) by {
        let j = i - (ln + 1);
        lemma_block_no_end_before(c, pc, j);
        if end_at(t, i) {
            assert(pc + end_marker().len() <= cn);
            assert forall|k: int| 0 <= k < end_marker().len() implies c[j + k] == end_marker()[k]
                by {
                assert(t[ln + 1 + (j + k)] == c[j + k]);
                assert(t[i + k] == t[ln + 1 + (j + k)]);
            }
            if j > 0 {
                assert(t[i - 1] == c[j - 1]);
            }
            assert(line_start(c, j));
            assert(end_at(c, j));
        }
    }
    assert(pc + end_marker().len() <= cn);
    assert forall|k: int| 0 <= k < end_marker().len() implies t[(ln + 1 + pc) + k] == end_marker()[k]
        by {
        assert(t[ln + 1 + (pc + k)] == c[pc + k]);
        assert(c[pc + k] == end_marker()[k]);
    }
    if pc > 0 {
        assert(t[(ln + 1 + pc) - 1] == c[pc - 1]);
        assert(c[pc - 1] == NL);
    }
    assert(line_start(t, ln + 1 + pc));
    assert(matches_at(t, end_marker(), ln + 1 + pc));
    assert(end_at(t, ln + 1 + pc));
    lemma_first_end_char(t, ln + 1, ln + 1 + pc);

    // And it runs through the final byte of the text.
    assert(first_nl_from(c, pc) == cn - 1);
    lemma_first_nl_props(c, pc);
    assert forall|i: int| ln + 1 + pc <= i < t.len() - 1 implies t[i] != NL by {
        let j = i - (ln + 1);
        assert(t[ln + 1 + j] == c[j]);
        assert(c[j] != NL);
    }
    assert(t[t.len() - 1] == c[cn - 1]);
    assert(t[t.len() - 1] == NL);
    lemma_first_nl_char(t, ln + 1 + pc, t.len() - 1);
    assert(first_nl_from(t, ln + 1 + pc) == t.len() - 1);
    assert(block_end(t, ln + 1 + pc) == t.len() as int);
    assert(t.subrange(ln + 1, t.len() as int) =~= c);

    assert(spec_parse_chain(t) == Some((l, c)));
}

} // verus!
