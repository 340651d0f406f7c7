//! Deterministic composition of ordered source fragments.
//!
//! A composite unit is the first fragment's content verbatim, then, for each
//! subsequent fragment, one location-reset directive naming that fragment's
//! original path and resetting the line counter to 1, followed by the
//! fragment's verbatim content. Directives stand only between fragments,
//! never before the first, so a unit of `n` fragments holds `n - 1` of them.

use vstd::prelude::*;

use crate::errors::HarnessError;

verus! {

/// One source fragment: the path it was read from and its byte content.
///
/// The surrounding program reads the file; composition itself works on the
/// bytes alone, which is what makes its output a pure function of the list.
pub struct Fragment {
    /// The fragment's original path, as bytes.
    pub path: Vec<u8>,
    /// The fragment's content, owned for the duration of composition.
    pub content: Vec<u8>,
}

/// The bytes of `#line 1 "`, which open a location-reset directive.
pub open spec fn directive_prefix() -> Seq<u8> {
    seq![35u8, 108u8, 105u8, 110u8, 101u8, 32u8, 49u8, 32u8, 34u8]
}

/// The bytes of `"` and a newline, which close a location-reset directive.
pub open spec fn directive_suffix() -> Seq<u8> {
    seq![34u8, 10u8]
}

/// The full location-reset directive for a fragment at `path`: one line of
/// the form `#line 1 "<path>"` that attributes the lines that follow to the
/// named original file, starting at line 1.
pub open spec fn line_directive(path: Seq<u8>) -> Seq<u8> {
    directive_prefix() + path + directive_suffix()
}

/// The bytes contributed by every fragment after the first: each is a
/// location-reset directive followed by the fragment's content.
pub open spec fn composed_tail(frags: Seq<Fragment>) -> Seq<u8>
    decreases frags.len(),
{
    if frags.len() == 0 {
        Seq::empty()
    } else {
        line_directive(frags[0].path@) + frags[0].content@ + composed_tail(frags.drop_first())
    }
}

/// The composite unit for a non-empty fragment list: the first fragment's
/// content verbatim, then the directive-prefixed rest.
pub open spec fn composed(frags: Seq<Fragment>) -> Seq<u8>
    recommends
        frags.len() > 0,
{
    frags[0].content@ + composed_tail(frags.drop_first())
}

proof fn lemma_composed_tail_push(s: Seq<Fragment>, f: Fragment)
    ensures
        composed_tail(s.push(f)) == composed_tail(s) + line_directive(f.path@) + f.content@,
    decreases s.len(),
{
    if s.len() == 0 {
        assert(s.push(f).drop_first() =~= Seq::<Fragment>::empty());
        assert(composed_tail(Seq::<Fragment>::empty()) =~= Seq::<u8>::empty());
        assert(composed_tail(s.push(f)) =~= composed_tail(s) + line_directive(f.path@)
            + f.content@);
    } else {
        assert(s.push(f).drop_first() =~= s.drop_first().push(f));
        lemma_composed_tail_push(s.drop_first(), f);
        assert(composed_tail(s.push(f)) =~= composed_tail(s) + line_directive(f.path@)
            + f.content@);
    }
}

proof fn lemma_composed_push(s: Seq<Fragment>, f: Fragment)
    requires
        s.len() > 0,
    ensures
        composed(s.push(f)) == composed(s) + line_directive(f.path@) + f.content@,
{
    assert(s.push(f).drop_first() =~= s.drop_first().push(f));
    lemma_composed_tail_push(s.drop_first(), f);
    assert(composed(s.push(f)) =~= composed(s) + line_directive(f.path@) + f.content@);
}

/// Appends `src` to `dst` byte for byte.
fn append_bytes(dst: &mut Vec<u8>, src: &Vec<u8>)
    ensures
        final(dst)@ == old(dst)@ + src@,
{
    let mut j: usize = 0;
    while j < src.len()
        invariant
            j <= src@.len(),
            dst@ == old(dst)@ + src@.take(j as int),
        decreases src@.len() - j,
    {
        dst.push(src[j]);
        assert(old(dst)@ + src@.take(j + 1) =~= (old(dst)@ + src@.take(j as int)).push(
            src@[j as int],
        ));
        j += 1;
    }
    assert(old(dst)@ + src@.take(src@.len() as int) =~= old(dst)@ + src@);
}

/// Appends the location-reset directive for `path` to `dst`.
fn append_directive(dst: &mut Vec<u8>, path: &Vec<u8>)
    ensures
        final(dst)@ == old(dst)@ + line_directive(path@),
{
    dst.push(35u8);
    dst.push(108u8);
    dst.push(105u8);
    dst.push(110u8);
    dst.push(101u8);
    dst.push(32u8);
    dst.push(49u8);
    dst.push(32u8);
    dst.push(34u8);
    assert(dst@ =~= old(dst)@ + directive_prefix());
    append_bytes(dst, path);
    dst.push(34u8);
    dst.push(10u8);
    assert(dst@ =~= old(dst)@ + line_directive(path@));
}

/// Composes the ordered fragment list into one unit.
///
/// An empty list is rejected with [`HarnessError::ConfigurationError`]
/// before any output is produced. Otherwise the result is exactly
/// [`composed`] of the list: the first fragment's content, then, for each
/// later fragment, its location-reset directive and its content. The result
/// is a function of the fragment list alone, so identical inputs give
/// byte-identical output on every call.
pub fn compose(fragments: &Vec<Fragment>) -> (r: Result<Vec<u8>, HarnessError>)
    ensures
        fragments@.len() == 0 <==> r == Err::<Vec<u8>, HarnessError>(
            HarnessError::ConfigurationError,
        ),
        fragments@.len() > 0 ==> (r matches Ok(out) && out@ == composed(fragments@)),
{
    if fragments.len() == 0 {
        return Err(HarnessError::ConfigurationError);
    }
    let mut out: Vec<u8> = Vec::new();
    append_bytes(&mut out, &fragments[0].content);
    proof {
        assert(fragments@.take(1).drop_first() =~= Seq::<Fragment>::empty());
        assert(out@ =~= composed(fragments@.take(1)));
    }
    let mut i: usize = 1;
    while i < fragments.len()
        invariant
            1 <= i <= fragments@.len(),
            out@ == composed(fragments@.take(i as int)),
        decreases fragments@.len() - i,
    {
        let ghost done = fragments@.take(i as int);
        append_directive(&mut out, &fragments[i].path);
        append_bytes(&mut out, &fragments[i].content);
        proof {
            assert(fragments@.take(i + 1) =~= done.push(fragments@[i as int]));
            lemma_composed_push(done, fragments@[i as int]);
        }
        i += 1;
    }
    proof {
        assert(fragments@.take(fragments@.len() as int) =~= fragments@);
    }
    Ok(out)
}

/// The bytes every fragment's content contributes, summed.
pub open spec fn contents_len(frags: Seq<Fragment>) -> int
    decreases frags.len(),
{
    if frags.len() == 0 {
        0
    } else {
        frags[0].content@.len() + contents_len(frags.drop_first())
    }
}

/// The bytes one location-reset directive takes for a fragment at `path`:
/// the nine prefix bytes, the path, the closing quote and the newline.
pub open spec fn directive_len(path: Seq<u8>) -> int {
    path.len() as int + 11
}

/// The bytes the location-reset directives of these fragments take, summed.
pub open spec fn directives_len(frags: Seq<Fragment>) -> int
    decreases frags.len(),
{
    if frags.len() == 0 {
        0
    } else {
        directive_len(frags[0].path@) + directives_len(frags.drop_first())
    }
}

proof fn lemma_composed_tail_len(frags: Seq<Fragment>)
    ensures
        composed_tail(frags).len() == contents_len(frags) + directives_len(frags),
    decreases frags.len(),
{
    if frags.len() > 0 {
        lemma_composed_tail_len(frags.drop_first());
    }
}

/// The composite unit of a non-empty fragment list holds every fragment's
/// content and exactly one location-reset directive per fragment after the
/// first — `n - 1` directives for `n` fragments, none before the first —
/// and not a byte more.
pub proof fn lemma_composed_len(frags: Seq<Fragment>)
    requires
        frags.len() > 0,
    ensures
        composed(frags).len() == contents_len(frags) + directives_len(frags.drop_first()),
{
    lemma_composed_tail_len(frags.drop_first());
}

/// Identical fragment lists compose to byte-identical units: composition is
/// a pure, deterministic function of the ordered list of paths and contents.
pub proof fn lemma_compose_deterministic(a: Seq<Fragment>, b: Seq<Fragment>)
    requires
        a == b,
    ensures
        composed(a) == composed(b),
{
}

} // verus!
