//! Batches of generations: seeds drawn in order from the thread's entropy
//! source, and the results of the per-seed tasks aggregated in seed order,
//! failing fast on the first error.
use vstd::prelude::*;
use rand::RngCore;

verus! {

#[verifier::external_type_specification]
#[verifier::external_body]
pub struct ExThreadRng(rand::rngs::ThreadRng);

/// Relies on rand::thread_rng: a handle on the calling thread's generator,
/// seeded from the operating system (it panics only if that source fails).
#[verifier::external_body]
fn entropy_source() -> rand::rngs::ThreadRng {
    rand::thread_rng()
}

/// Relies on RngCore::next_u64 of ThreadRng: the next 64-bit value of the
/// stream; nothing is promised of the value.
#[verifier::external_body]
fn next_seed(rng: &mut rand::rngs::ThreadRng) -> u64 {
    rng.next_u64()
}

/// One seed from the thread's entropy source.
pub fn draw_seed() -> u64 {
    let mut rng = entropy_source();
    next_seed(&mut rng)
}

/// `num` seeds drawn one after another from one entropy source; their order
/// is the order of the tasks of the batch.
pub fn draw_seeds(num: usize) -> (r: Vec<u64>)
    ensures
        r@.len() == num,
{
    let mut rng = entropy_source();
    let mut seeds: Vec<u64> = Vec::with_capacity(num);
    let mut i: usize = 0;
    while i < num
        invariant
            i <= num,
            seeds@.len() == i,
        decreases num - i,
    {
        seeds.push(next_seed(&mut rng));
        i = i + 1;
    }
    seeds
}

/// The error of the first failed result, in order, if any failed.
pub open spec fn first_error<T, E>(rs: Seq<Result<T, E>>) -> Option<E>
    decreases rs.len(),
{
    if rs.len() == 0 {
        None
    } else if rs[0] is Err {
        Some(rs[0]->Err_0)
    } else {
        first_error(rs.drop_first())
    }
}

/// The values of results that all succeeded, in order.
pub open spec fn ok_values<T, E>(rs: Seq<Result<T, E>>) -> Seq<T> {
    rs.map_values(|r: Result<T, E>| r->Ok_0)
}

/// Fail-fast: a batch with a failed result has a first error, which is the
/// error of the earliest failed result; a batch with none has no error.
pub proof fn lemma_first_error<T, E>(rs: Seq<Result<T, E>>)
    ensures
        first_error(rs) is None <==> forall|i: int| 0 <= i < rs.len() ==> (#[trigger] rs[i]) is Ok,
        first_error(rs) is Some ==> exists|i: int|
            0 <= i < rs.len() && (#[trigger] rs[i]) is Err && first_error(rs) == Some(rs[i]->Err_0)
                && forall|j: int| 0 <= j < i ==> (#[trigger] rs[j]) is Ok,
    decreases rs.len(),
{
    if rs.len() > 0 {
        let rest = rs.drop_first();
        lemma_first_error(rest);
        assert forall|i: int| 0 < i < rs.len() implies rs[i] == rest[i - 1] by {}
        if rs[0] is Ok && first_error(rest) is Some {
            let k = choose|k: int|
                0 <= k < rest.len() && (#[trigger] rest[k]) is Err && first_error(rest) == Some(
                    rest[k]->Err_0,
                ) && forall|j: int| 0 <= j < k ==> (#[trigger] rest[j]) is Ok;
            assert(rs[k + 1] == rest[k]);
            assert forall|j: int| 0 <= j < k + 1 implies (#[trigger] rs[j]) is Ok by {
                if j > 0 {
                    assert(rs[j] == rest[j - 1]);
                }
            }
        }
        if rs[0] is Ok && first_error(rest) is None {
            assert forall|i: int| 0 <= i < rs.len() implies (#[trigger] rs[i]) is Ok by {
                if i > 0 {
                    assert(rs[i] == rest[i - 1]);
                }
            }
        }
    }
}

/// Aggregates the results of a batch kept in task order: all the values in
/// that order when every task succeeded, else the error of the first task
/// that failed, and no partial list.
pub fn collect_batch<T, E>(results: Vec<Result<T, E>>) -> (r: Result<Vec<T>, E>)
    ensures
        first_error(results@) is None ==> (r matches Ok(v) && v@ == ok_values(results@)),
        first_error(results@) matches Some(e) ==> r == Err::<Vec<T>, E>(e),
        r is Ok <==> forall|i: int| 0 <= i < results@.len() ==> (#[trigger] results@[i]) is Ok,
{
    proof {
        lemma_first_error(results@);
    }
    let ghost orig = results@;
    let mut rest = results;
    let mut out: Vec<T> = Vec::new();
    while rest.len() > 0
        invariant
            orig == results@,
            orig.len() == out@.len() + rest@.len(),
            rest@ == orig.skip(out@.len() as int),
            forall|i: int|
                0 <= i < out@.len() ==> (#[trigger] orig[i]) is Ok && out@[i] == orig[i]->Ok_0,
            first_error(orig) == first_error(rest@),
        decreases rest@.len(),
    {
        let ghost before = rest@;
        let r = rest.remove(0);
        assert(rest@ =~= before.drop_first());
        match r {
            Ok(v) => {
                out.push(v);
                assert(rest@ =~= orig.skip(out@.len() as int));
            },
            Err(e) => {
                assert(before[0] == Err::<T, E>(e));
                assert(first_error(before) == Some(e));
                return Err(e);
            },
        }
    }
    assert(out@ =~= ok_values(orig));
    Ok(out)
}

} // verus!
