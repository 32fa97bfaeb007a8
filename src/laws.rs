use vstd::prelude::*;
use crate::route::{Intake, intake_post};
use crate::target::{no_empty, pair_texts, stack_of, texts};

verus! {

/// A path stack never holds an empty segment.
pub proof fn stack_has_no_empty(segs: Seq<Seq<char>>)
    ensures
        no_empty(stack_of(segs)),
    decreases segs.len(),
{
    if segs.len() > 0 {
        stack_has_no_empty(segs.drop_first());
    }
}

/// On segments that are all non-empty the path stack is just their reverse.
proof fn stack_of_clean(segs: Seq<Seq<char>>)
    requires
        no_empty(segs),
    ensures
        stack_of(segs) == segs.reverse(),
    decreases segs.len(),
{
    if segs.len() > 0 {
        let rest = segs.drop_first();
        assert(no_empty(rest)) by {
            assert forall|i: int| 0 <= i < rest.len() implies (#[trigger] rest[i]).len() > 0 by {
                assert(rest[i] == segs[i + 1]);
            }
        }
        stack_of_clean(rest);
        assert(stack_of(segs) =~= segs.reverse());
    }
}

/// Writing a path stack back out in forward order and canonicalizing it again gives
/// the same stack: canonicalizing a path is idempotent.
pub proof fn canonical_path_is_stable(segs: Seq<Seq<char>>)
    ensures
        stack_of(stack_of(segs).reverse()) == stack_of(segs),
{
    let st = stack_of(segs);
    stack_has_no_empty(segs);
    let fwd = st.reverse();
    assert(no_empty(fwd)) by {
        assert forall|i: int| 0 <= i < fwd.len() implies (#[trigger] fwd[i]).len() > 0 by {
            assert(fwd[i] == st[st.len() - 1 - i]);
        }
    }
    stack_of_clean(fwd);
    assert(fwd.reverse() =~= st);
}

/// An empty segment at the end of a path (a trailing slash) does not change its stack,
/// so `/users/` leads with the same segment as `/users`.
pub proof fn trailing_slash_ignored(segs: Seq<Seq<char>>)
    ensures
        stack_of(segs.push(Seq::empty())) == stack_of(segs),
    decreases segs.len(),
{
    let empty = Seq::<char>::empty();
    if segs.len() == 0 {
        assert(seq![empty].drop_first() =~= Seq::<Seq<char>>::empty());
        assert(segs.push(empty) =~= seq![empty]);
        assert(stack_of(seq![empty]) == stack_of(seq![empty].drop_first()));
    } else {
        assert(segs.push(empty).drop_first() =~= segs.drop_first().push(empty));
        assert(segs.push(empty)[0] == segs[0]);
        trailing_slash_ignored(segs.drop_first());
    }
}

/// Taking in a request is deterministic: the same method token, target and body
/// always give the same answer, or canonical requests with the same method, path,
/// query and body; and the path of such a request holds no empty segment.
pub proof fn intake_is_deterministic(
    a: Intake,
    b: Intake,
    token: Seq<char>,
    target: Seq<char>,
    body: String,
)
    requires
        intake_post(a, token, target, body),
        intake_post(b, token, target, body),
    ensures
        match (a, b) {
            (Intake::Ready(x), Intake::Ready(y)) => x.method == y.method
                && texts(x.path@) == texts(y.path@) && pair_texts(x.query@) == pair_texts(y.query@)
                && x.body == y.body && no_empty(texts(x.path@)),
            (Intake::Respond(x), Intake::Respond(y)) => x@ == y@,
            _ => false,
        },
{
    if let Intake::Ready(x) = a {
        let segs = crate::target::url_segments(crate::route::SERVER_BASE@ + target);
        stack_has_no_empty(segs->Some_0);
    }
}

} // verus!
