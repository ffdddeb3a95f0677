use vstd::prelude::*;

verus! {

/// The entries of a batch that resolved: each identifier paired, in request
/// order, with its result, for the positions whose response is present and
/// successful. Responses are matched to identifiers by position; whichever
/// sequence is longer has its tail ignored.
pub open spec fn existing<K, U, E>(ids: Seq<K>, responses: Seq<Option<Result<U, E>>>) -> Seq<(K, U)>
    decreases ids.len(),
{
    if ids.len() == 0 || responses.len() == 0 {
        Seq::empty()
    } else {
        let rest = existing(ids.drop_first(), responses.drop_first());
        match responses[0] {
            Some(Ok(u)) => seq![(ids[0], u)] + rest,
            _ => rest,
        }
    }
}

/// Pairs the identifiers of a batch with its responses and keeps those that
/// resolved. A response that is missing or failed drops its identifier, and
/// never fails the batch.
pub fn select_existing<K, U, E>(ids: Vec<K>, responses: Vec<Option<Result<U, E>>>) -> (r: Vec<(K, U)>)
    ensures
        r@ == existing(ids@, responses@),
{
    let ghost ids0 = ids@;
    let ghost rs0 = responses@;
    let mut ids = ids;
    let mut responses = responses;
    let n: usize = if ids.len() < responses.len() {
        ids.len()
    } else {
        responses.len()
    };
    ids.truncate(n);
    responses.truncate(n);
    proof {
        lemma_existing_prefix(ids0, rs0);
    }
    let ghost ids1 = ids@;
    let ghost rs1 = responses@;
    let mut out: Vec<(K, U)> = Vec::new();
    let mut i: usize = n;
    while i > 0
        invariant
            ids1.len() == n,
            rs1.len() == n,
            i <= n,
            ids@ == ids1.take(i as int),
            responses@ == rs1.take(i as int),
            out@ == existing(ids1.subrange(i as int, n as int), rs1.subrange(i as int, n as int)),
        decreases i,
    {
        let ghost a = ids1.subrange(i - 1, n as int);
        let ghost b = rs1.subrange(i - 1, n as int);
        let id = ids.pop().unwrap();
        let resp = responses.pop().unwrap();
        proof {
            assert(a.drop_first() =~= ids1.subrange(i as int, n as int));
            assert(b.drop_first() =~= rs1.subrange(i as int, n as int));
            assert(ids@ =~= ids1.take(i - 1));
            assert(responses@ =~= rs1.take(i - 1));
        }
        match resp {
            Some(Ok(u)) => {
                out.insert(0, (id, u));
                assert(out@ =~= existing(a, b));
            },
            _ => {},
        }
        i = i - 1;
    }
    assert(ids1.subrange(0, n as int) =~= ids1);
    assert(rs1.subrange(0, n as int) =~= rs1);
    out
}

/// Only the common prefix of identifiers and responses matters.
pub proof fn lemma_existing_prefix<K, U, E>(ids: Seq<K>, responses: Seq<Option<Result<U, E>>>)
    ensures
        ({
            let n = if ids.len() < responses.len() { ids.len() } else { responses.len() };
            existing(ids, responses) == existing(ids.take(n as int), responses.take(n as int))
        }),
    decreases ids.len(),
{
    let n = if ids.len() < responses.len() { ids.len() } else { responses.len() };
    if n > 0 {
        lemma_existing_prefix(ids.drop_first(), responses.drop_first());
        assert(ids.take(n as int).drop_first() =~= ids.drop_first().take(n - 1));
        assert(responses.take(n as int).drop_first() =~= responses.drop_first().take(n - 1));
    }
}

/// A batch keeps exactly the identifiers whose response resolved, each with
/// its own result, and no others; an empty batch keeps nothing.
pub proof fn lemma_existing_exactly<K, U, E>(ids: Seq<K>, responses: Seq<Option<Result<U, E>>>, id: K, u: U)
    ensures
        existing(ids, responses).contains((id, u)) <==> exists|i: int|
            0 <= i < ids.len() && i < responses.len() && ids[i] == id && responses[i] == Some(
                Ok::<U, E>(u),
            ),
        ids.len() == 0 ==> existing(ids, responses).len() == 0,
    decreases ids.len(),
{
    if ids.len() > 0 && responses.len() > 0 {
        let tail_ids = ids.drop_first();
        let tail_rs = responses.drop_first();
        lemma_existing_exactly(tail_ids, tail_rs, id, u);
        let rest = existing(tail_ids, tail_rs);
        let all = existing(ids, responses);
        if all.contains((id, u)) {
            match responses[0] {
                Some(Ok(v)) => {
                    let k = choose|k: int| 0 <= k < all.len() && all[k] == (id, u);
                    if k == 0 {
                        assert(ids[0] == id && responses[0] == Some(Ok::<U, E>(u)));
                    } else {
                        assert(rest[k - 1] == (id, u));
                        assert(rest.contains((id, u)));
                        let j = choose|j: int|
                            0 <= j < tail_ids.len() && j < tail_rs.len() && tail_ids[j] == id
                                && tail_rs[j] == Some(Ok::<U, E>(u));
                        assert(ids[j + 1] == id && responses[j + 1] == Some(Ok::<U, E>(u)));
                    }
                },
                _ => {
                    let j = choose|j: int|
                        0 <= j < tail_ids.len() && j < tail_rs.len() && tail_ids[j] == id
                            && tail_rs[j] == Some(Ok::<U, E>(u));
                    assert(ids[j + 1] == id && responses[j + 1] == Some(Ok::<U, E>(u)));
                },
            }
        }
        if exists|i: int|
            0 <= i < ids.len() && i < responses.len() && ids[i] == id && responses[i] == Some(
                Ok::<U, E>(u),
            ) {
            let i = choose|i: int|
                0 <= i < ids.len() && i < responses.len() && ids[i] == id && responses[i] == Some(
                    Ok::<U, E>(u),
                );
            if i == 0 {
                assert(all[0] == (id, u));
            } else {
                assert(tail_ids[i - 1] == id && tail_rs[i - 1] == Some(Ok::<U, E>(u)));
                assert(rest.contains((id, u)));
                let k = choose|k: int| 0 <= k < rest.len() && rest[k] == (id, u);
                match responses[0] {
                    Some(Ok(v)) => {
                        assert(all[k + 1] == (id, u));
                    },
                    _ => {
                        assert(all[k] == (id, u));
                    },
                }
            }
        }
    }
}

} // verus!
