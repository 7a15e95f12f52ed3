//! Long transfers in pieces: what the two disk adapters have in common.
//!
//! A drive takes only so many bytes in one transfer. A longer request goes
//! over in chunks of the drive's limit, the last one as long as what is left,
//! one behind the other on the device and in the caller's buffer. The first
//! chunk that fails ends the request with its error; what went over before
//! stays.
use super::{chunk_count, lemma_chunk_count_is_ceiling, overwrite, same_outside, DiskError};
use vstd::prelude::*;
use vstd::slice::slice_subrange;

verus! {

/// The transfers that move `len` bytes from `address` on in chunks of at most
/// `max` bytes: where each one starts and how long it is.
pub open spec fn chunks(address: usize, len: nat, max: nat) -> Seq<(usize, nat)> {
    Seq::new(
        chunk_count(len, max),
        |i: int|
            (
                (address + i * max) as usize,
                if len - i * max < max {
                    (len - i * max) as nat
                } else {
                    max
                },
            ),
    )
}

/// A chunk that starts before the end of the request is one of its chunks;
/// it is the last one if and only if what is left fits the limit.
pub proof fn lemma_chunk_in_plan(len: nat, max: nat, k: nat)
    requires
        max > 0,
        k * max < len,
    ensures
        k < chunk_count(len, max),
        len - k * max <= max ==> chunk_count(len, max) == k + 1,
        len - k * max > max ==> k + 1 < chunk_count(len, max),
{
    lemma_chunk_count_is_ceiling(len, max);
    let c = chunk_count(len, max);
    assert(c > k) by (nonlinear_arith)
        requires
            c * max >= len,
            k * max < len,
            max > 0,
    ;
    if len - k * max <= max {
        assert(c <= k + 1) by (nonlinear_arith)
            requires
                (c - 1) * max < len,
                len <= k * max + max,
                max > 0,
        ;
    } else {
        assert(c > k + 1) by (nonlinear_arith)
            requires
                c * max >= len,
                len > k * max + max,
                max > 0,
        ;
    }
}

/// A drive seen through a disk adapter: one transfer at a time, with the
/// drive's answer already in the vocabulary of disks.
pub trait Chunked {
    /// The bytes that the medium holds.
    spec fn medium(&self) -> Seq<u8>;

    /// The transfers that the drive has been asked for so far.
    spec fn asked(&self) -> Seq<(usize, nat)>;

    /// Whether a failed transfer can come to this error.
    spec fn may_report(error: DiskError) -> bool;

    /// Moves `src` to the drive in one transfer.
    fn write_inner(&mut self, address: usize, src: &[u8]) -> (result: Result<usize, DiskError>)
        ensures
            final(self).asked() == old(self).asked().push((address, src@.len())),
            match result {
                Ok(count) => {
                    &&& count == src@.len()
                    &&& address + src@.len() <= old(self).medium().len()
                    &&& final(self).medium() == overwrite(old(self).medium(), address as int, src@)
                },
                Err(error) => {
                    &&& Self::may_report(error)
                    &&& same_outside(
                        old(self).medium(),
                        final(self).medium(),
                        address as int,
                        src@.len() as int,
                    )
                },
            },
    ;

    /// Fills `dst` from the drive in one transfer.
    fn read_inner(&mut self, address: usize, dst: &mut [u8]) -> (result: Result<usize, DiskError>)
        ensures
            final(self).asked() == old(self).asked().push((address, old(dst)@.len())),
            final(self).medium() == old(self).medium(),
            final(dst)@.len() == old(dst)@.len(),
            match result {
                Ok(count) => {
                    &&& count == old(dst)@.len()
                    &&& address + count <= old(self).medium().len()
                    &&& final(dst)@ == old(self).medium().subrange(address as int, address + count)
                },
                Err(error) => Self::may_report(error),
            },
    ;
}

/// Writes `src` from `address` on in chunks of at most `limit` bytes.
pub fn write_chunked<T: Chunked>(io: &mut T, address: usize, src: &[u8], limit: usize) -> (result:
    Result<usize, DiskError>)
    requires
        limit > 0,
    ensures
        address + src@.len() > usize::MAX ==> {
            &&& result == Err::<usize, DiskError>(DiskError::InvalidAddress)
            &&& final(io).asked() == old(io).asked()
            &&& final(io).medium() == old(io).medium()
        },
        match result {
            Ok(count) => {
                &&& count == src@.len()
                &&& src@.len() > 0 ==> address + src@.len() <= old(io).medium().len()
                &&& final(io).medium() == overwrite(old(io).medium(), address as int, src@)
                &&& final(io).asked() == old(io).asked() + chunks(
                    address,
                    src@.len(),
                    limit as nat,
                )
            },
            Err(error) => {
                &&& same_outside(
                    old(io).medium(),
                    final(io).medium(),
                    address as int,
                    src@.len() as int,
                )
                &&& address + src@.len() <= usize::MAX ==> {
                    let stored = final(io).asked().len() - old(io).asked().len() - 1;
                    &&& 0 <= stored < chunk_count(src@.len(), limit as nat)
                    &&& final(io).asked() == old(io).asked() + chunks(
                        address,
                        src@.len(),
                        limit as nat,
                    ).subrange(0, stored + 1)
                    &&& T::may_report(error)
                    &&& forall|i: int|
                        0 <= i < stored * limit ==> final(io).medium()[address + i] == src@[i]
                }
            },
        },
{
    let len = src.len();
    if address > usize::MAX - len {
        return Err(DiskError::InvalidAddress);
    }
    let ghost before = io.medium();
    let ghost asked = io.asked();
    let ghost plan = chunks(address, len as nat, limit as nat);
    let ghost mut k: nat = 0;
    let mut done: usize = 0;
    proof {
        lemma_chunk_count_is_ceiling(len as nat, limit as nat);
        assert(asked + plan.subrange(0, 0) =~= asked);
        assert(src@.subrange(0, 0) =~= Seq::<u8>::empty());
        assert(io.medium() =~= overwrite(before, address as int, src@.subrange(0, 0)));
    }
    while done < len
        invariant
            limit > 0,
            done <= len == src@.len(),
            address + len <= usize::MAX,
            before == old(io).medium(),
            asked == old(io).asked(),
            plan == chunks(address, len as nat, limit as nat),
            done < len ==> done == k * limit,
            done == len ==> k == plan.len(),
            k <= plan.len(),
            io.asked() == asked + plan.subrange(0, k as int),
            done > 0 ==> address + done <= before.len(),
            io.medium() == overwrite(before, address as int, src@.subrange(0, done as int)),
        decreases len - done,
    {
        proof {
            lemma_chunk_in_plan(len as nat, limit as nat, k);
        }
        let end = if len - done > limit {
            done + limit
        } else {
            len
        };
        let chunk = slice_subrange(src, done, end);
        let ghost current = io.medium();
        let ghost entry = plan[k as int];
        assert(entry == (((address + done) as usize), (end - done) as nat));
        match io.write_inner(address + done, chunk) {
            Ok(count) => {
                proof {
                    assert(io.medium() =~= overwrite(
                        before,
                        address as int,
                        src@.subrange(0, end as int),
                    ));
                    assert(plan.subrange(0, k as int).push(entry) =~= plan.subrange(
                        0,
                        k as int + 1,
                    ));
                    assert(io.asked() =~= asked + plan.subrange(0, k as int + 1));
                    assert((k + 1) * limit == k * limit + limit) by (nonlinear_arith);
                    k = k + 1;
                }
                done = done + count;
            },
            Err(error) => {
                proof {
                    let after = io.medium();
                    assert(same_outside(current, after, address + done, end - done));
                    assert(same_outside(before, after, address as int, len as int));
                    assert(plan.subrange(0, k as int).push(entry) =~= plan.subrange(
                        0,
                        k as int + 1,
                    ));
                    assert(io.asked() =~= asked + plan.subrange(0, k as int + 1));
                    assert forall|i: int| 0 <= i < done implies after[address + i] == src@[i] by {
                        assert(current[address + i] == src@.subrange(0, done as int)[i]);
                    }
                }
                return Err(error);
            },
        }
    }
    proof {
        assert(src@.subrange(0, len as int) =~= src@);
        assert(plan.subrange(0, plan.len() as int) =~= plan);
    }
    Ok(done)
}

/// Fills `dst` with the bytes from `address` on in chunks of at most `limit`
/// bytes.
#[verifier::loop_isolation(false)]
pub fn read_chunked<T: Chunked>(io: &mut T, address: usize, dst: &mut [u8], limit: usize) -> (result:
    Result<usize, DiskError>)
    requires
        limit > 0,
    ensures
        final(io).medium() == old(io).medium(),
        final(dst)@.len() == old(dst)@.len(),
        address + old(dst)@.len() > usize::MAX ==> {
            &&& result == Err::<usize, DiskError>(DiskError::InvalidAddress)
            &&& final(io).asked() == old(io).asked()
            &&& final(dst)@ == old(dst)@
        },
        match result {
            Ok(count) => {
                &&& count == old(dst)@.len()
                &&& count > 0 ==> address + count <= old(io).medium().len()
                &&& forall|i: int|
                    0 <= i < count ==> final(dst)@[i] == old(io).medium()[address + i]
                &&& final(io).asked() == old(io).asked() + chunks(
                    address,
                    old(dst)@.len(),
                    limit as nat,
                )
            },
            Err(error) => address + old(dst)@.len() <= usize::MAX ==> {
                let fetched = final(io).asked().len() - old(io).asked().len() - 1;
                &&& 0 <= fetched < chunk_count(old(dst)@.len(), limit as nat)
                &&& final(io).asked() == old(io).asked() + chunks(
                    address,
                    old(dst)@.len(),
                    limit as nat,
                ).subrange(0, fetched + 1)
                &&& T::may_report(error)
                &&& forall|i: int|
                    0 <= i < fetched * limit ==> final(dst)@[i] == old(io).medium()[address + i]
            },
        },
{
    let len = dst.len();
    if address > usize::MAX - len {
        return Err(DiskError::InvalidAddress);
    }
    let ghost before = io.medium();
    let ghost asked = io.asked();
    let ghost plan = chunks(address, len as nat, limit as nat);
    let ghost target = final(dst)@;
    let ghost mut got: Seq<u8> = Seq::empty();
    let ghost mut k: nat = 0;
    let mut rest: &mut [u8] = dst;
    let mut done: usize = 0;
    proof {
        lemma_chunk_count_is_ceiling(len as nat, limit as nat);
        assert(asked + plan.subrange(0, 0) =~= asked);
    }
    while rest.len() > 0
        invariant
            done + rest@.len() == len,
            io.medium() == before,
            got.len() == done,
            target == got + final(rest)@,
            done < len ==> done == k * limit,
            done == len ==> k == plan.len(),
            k <= plan.len(),
            io.asked() == asked + plan.subrange(0, k as int),
            done > 0 ==> address + done <= before.len(),
            forall|i: int| 0 <= i < done ==> got[i] == before[address + i],
        decreases rest@.len(),
    {
        proof {
            lemma_chunk_in_plan(len as nat, limit as nat, k);
        }
        let take = if rest.len() > limit {
            limit
        } else {
            rest.len()
        };
        let (chunk, tail) = rest.split_at_mut(take);
        let ghost entry = plan[k as int];
        assert(entry == (((address + done) as usize), take as nat));
        match io.read_inner(address + done, chunk) {
            Ok(count) => {
                proof {
                    got = got + chunk@;
                    assert(plan.subrange(0, k as int).push(entry) =~= plan.subrange(
                        0,
                        k as int + 1,
                    ));
                    assert(io.asked() =~= asked + plan.subrange(0, k as int + 1));
                    assert((k + 1) * limit == k * limit + limit) by (nonlinear_arith);
                    k = k + 1;
                }
                done = done + count;
                rest = tail;
            },
            Err(error) => {
                proof {
                    assert(plan.subrange(0, k as int).push(entry) =~= plan.subrange(
                        0,
                        k as int + 1,
                    ));
                    assert(io.asked() =~= asked + plan.subrange(0, k as int + 1));
                }
                return Err(error);
            },
        }
    }
    proof {
        assert(plan.subrange(0, plan.len() as int) =~= plan);
    }
    Ok(done)
}

} // verus!
