use vstd::prelude::*;

verus! {

/// Whether the url crate accepts a string as an absolute URL.
pub uninterp spec fn url_accepts(s: Seq<char>) -> bool;

/// The path segments that the url crate finds in an accepted URL, if it has a path.
pub uninterp spec fn url_segments(s: Seq<char>) -> Option<Seq<Seq<char>>>;

/// The decoded query pairs that the url crate finds in an accepted URL, in order.
pub uninterp spec fn url_query(s: Seq<char>) -> Seq<(Seq<char>, Seq<char>)>;

/// The characters of each string.
pub open spec fn texts(v: Seq<String>) -> Seq<Seq<char>> {
    v.map_values(|s: String| s@)
}

/// The characters of each key and value.
pub open spec fn pair_texts(v: Seq<(String, String)>) -> Seq<(Seq<char>, Seq<char>)> {
    v.map_values(|p: (String, String)| (p.0@, p.1@))
}

pub open spec fn segments_view(o: Option<Vec<String>>) -> Option<Seq<Seq<char>>> {
    match o {
        Some(v) => Some(texts(v@)),
        None => None,
    }
}

/// Relies on url::Url::parse, applied to the base followed by the request target, and on
/// Url::path_segments and Url::query_pairs of the parsed URL: each is a function of the
/// string alone, and a URL of the `http` scheme always has a path.
#[verifier::external_body]
pub(crate) fn target_parts(base: &str, target: &str) -> (r: Option<(Option<Vec<String>>, Vec<(String, String)>)>)
    ensures
        r is Some <==> url_accepts(base@ + target@),
        r is Some ==> segments_view(r->Some_0.0) == url_segments(base@ + target@),
        r is Some ==> pair_texts(r->Some_0.1@) == url_query(base@ + target@),
        r is Some && base@.len() >= 7 && base@.subrange(0, 7) == "http://"@ ==> r->Some_0.0 is Some,
{
    let u = url::Url::parse(&format!("{}{}", base, target)).ok()?;
    let segments = u.path_segments().map(|p| p.map(|s| s.to_owned()).collect());
    let query = u.query_pairs().map(|q| (q.0.to_string(), q.1.to_string())).collect();
    Some((segments, query))
}

/// The path stack of a sequence of segments: empty segments dropped,
/// the last segment first, so that the leading segment stands at the end.
pub open spec fn stack_of(segs: Seq<Seq<char>>) -> Seq<Seq<char>>
    decreases segs.len(),
{
    if segs.len() == 0 {
        seq![]
    } else {
        let rest = stack_of(segs.drop_first());
        if segs[0].len() > 0 {
            rest.push(segs[0])
        } else {
            rest
        }
    }
}

/// No segment of the sequence is empty.
pub open spec fn no_empty(segs: Seq<Seq<char>>) -> bool {
    forall|i: int| 0 <= i < segs.len() ==> (#[trigger] segs[i]).len() > 0
}

/// Builds the path stack of a sequence of segments.
pub fn path_stack(segs: &Vec<String>) -> (r: Vec<String>)
    ensures
        texts(r@) == stack_of(texts(segs@)),
{
    let n = segs.len();
    let mut out: Vec<String> = Vec::new();
    let mut i: usize = n;
    let ghost all = texts(segs@);
    proof {
        assert(all.subrange(n as int, n as int) =~= Seq::<Seq<char>>::empty());
        assert(texts(out@) =~= Seq::<Seq<char>>::empty());
    }
    while i > 0
        invariant
            n == segs@.len(),
            all == texts(segs@),
            i <= n,
            texts(out@) == stack_of(all.subrange(i as int, n as int)),
        decreases i,
    {
        let s = &segs[i - 1];
        let ghost before = out@;
        proof {
            assert(all.subrange(i - 1, n as int).drop_first() =~= all.subrange(i as int, n as int));
            assert(all.subrange(i - 1, n as int)[0] == s@);
        }
        if !s.as_str().is_empty() {
            out.push(s.clone());
            proof {
                assert(texts(out@) =~= texts(before).push(s@));
            }
        }
        i = i - 1;
    }
    proof {
        assert(all.subrange(0, n as int) =~= all);
    }
    out
}

} // verus!
