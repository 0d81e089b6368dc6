use vstd::prelude::*;

verus! {

/// What `str::replace` returns for a string, a pattern and a replacement: a
/// function of the three alone.
pub uninterp spec fn replaced(s: Seq<char>, from: Seq<char>, to: Seq<char>) -> Seq<char>;

/// Relies on `str::replace`: the string with every match of `from` replaced
/// by `to`.
#[verifier::external_body]
fn replace_all(s: &str, from: &str, to: &str) -> (r: String)
    ensures
        r@ == replaced(s@, from@, to@),
{
    s.replace(from, to)
}

/// The contents after every placeholder/value pair is applied in order, each
/// application replacing all matches of the placeholder.
pub open spec fn spec_format_contents(s: Seq<char>, pairs: Seq<(String, String)>) -> Seq<char>
    decreases pairs.len(),
{
    if pairs.len() == 0 {
        s
    } else {
        spec_format_contents(replaced(s, pairs[0].0@, pairs[0].1@), pairs.drop_first())
    }
}

proof fn lemma_format_contents_snoc(s: Seq<char>, pairs: Seq<(String, String)>, p: (String, String))
    ensures
        spec_format_contents(s, pairs.push(p)) == replaced(
            spec_format_contents(s, pairs),
            p.0@,
            p.1@,
        ),
    decreases pairs.len(),
{
    let q = pairs.push(p);
    if pairs.len() == 0 {
        assert(q[0] == p);
        assert(q.drop_first() =~= Seq::<(String, String)>::empty());
        assert(spec_format_contents(s, q) == spec_format_contents(
            replaced(s, p.0@, p.1@),
            Seq::<(String, String)>::empty(),
        ));
        assert(spec_format_contents(s, pairs) == s);
    } else {
        assert(q[0] == pairs[0]);
        assert(q.drop_first() =~= pairs.drop_first().push(p));
        lemma_format_contents_snoc(replaced(s, pairs[0].0@, pairs[0].1@), pairs.drop_first(), p);
        assert(spec_format_contents(s, q) == spec_format_contents(
            replaced(s, pairs[0].0@, pairs[0].1@),
            pairs.drop_first().push(p),
        ));
        assert(spec_format_contents(s, pairs) == spec_format_contents(
            replaced(s, pairs[0].0@, pairs[0].1@),
            pairs.drop_first(),
        ));
    }
}

/// Apply each placeholder/value pair to the contents in order.
pub fn format_contents(contents: &str, fmt: Vec<(String, String)>) -> (r: String)
    ensures
        r@ == spec_format_contents(contents@, fmt@),
{
    let mut formatted: String = contents.to_owned();
    let mut i: usize = 0;
    while i < fmt.len()
        invariant
            0 <= i <= fmt@.len(),
            formatted@ == spec_format_contents(contents@, fmt@.take(i as int)),
        decreases fmt@.len() - i,
    {
        proof {
            assert(fmt@.take(i as int).push(fmt@[i as int]) =~= fmt@.take(i + 1));
            lemma_format_contents_snoc(contents@, fmt@.take(i as int), fmt@[i as int]);
        }
        let pair = &fmt[i];
        formatted = replace_all(formatted.as_str(), pair.0.as_str(), pair.1.as_str());
        i = i + 1;
    }
    proof {
        assert(fmt@.take(fmt@.len() as int) =~= fmt@);
    }
    formatted
}

} // verus!
