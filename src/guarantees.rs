use vstd::prelude::*;
use vstd::set_lib::{lemma_int_range, lemma_subset_equality, set_int_range};

use crate::registry::{ConnectionId, Registry};
use crate::relay::{get_last_on, get_on, index_of_length, push_on, LogError};

verus! {

/// Pushes made one after another on an empty log return `0, 1, ..., n-1` in
/// call order: push `k` finds the first `k` payloads in the log.
pub proof fn lemma_sequential_push_indices(payloads: Seq<Seq<char>>)
    ensures
        forall|k: int|
            0 <= k < payloads.len() ==> push_on(#[trigger] payloads.take(k), payloads[k]) == Ok::<
                nat,
                LogError,
            >(k as nat),
{
    assert forall|k: int| 0 <= k < payloads.len() implies push_on(
        #[trigger] payloads.take(k),
        payloads[k],
    ) == Ok::<nat, LogError>(k as nat) by {
        assert(payloads.take(k).push(payloads[k]).len() == k + 1);
    }
}

/// Concurrent pushes: the store appends atomically, so the `n` callers are
/// answered with distinct lengths between 1 and `n`. The indices they return
/// are then exactly `0, ..., n-1`, each once.
pub proof fn lemma_concurrent_push_indices(lengths: Seq<int>)
    requires
        lengths.no_duplicates(),
        forall|i: int| 0 <= i < lengths.len() ==> 1 <= #[trigger] lengths[i] <= lengths.len(),
    ensures
        Set::new(
            |k: nat|
                exists|i: int|
                    0 <= i < lengths.len() && #[trigger] index_of_length(lengths[i]) == Ok::<
                        nat,
                        LogError,
                    >(k),
        ) == Set::new(|k: nat| k < lengths.len()),
        forall|i: int, j: int|
            0 <= i < lengths.len() && 0 <= j < lengths.len() && i != j ==> index_of_length(
                #[trigger] lengths[i],
            ) != index_of_length(#[trigger] lengths[j]),
{
    let n = lengths.len() as int;
    let answered = lengths.to_set();
    let range = set_int_range(1, n + 1);
    lengths.unique_seq_to_set();
    lemma_int_range(1, n + 1);
    assert(answered.subset_of(range)) by {
        assert forall|x: int| answered.contains(x) implies range.contains(x) by {
            let i = choose|i: int| 0 <= i < n && lengths[i] == x;
            assert(1 <= lengths[i] <= n);
        }
    }
    lemma_subset_equality(answered, range);
    let returned = Set::new(
        |k: nat|
            exists|i: int|
                0 <= i < n && #[trigger] index_of_length(lengths[i]) == Ok::<nat, LogError>(k),
    );
    assert forall|k: nat| returned.contains(k) <==> k < n by {
        if k < n {
            assert(range.contains(k + 1 as int));
            assert(answered.contains(k + 1 as int));
            let i = choose|i: int| 0 <= i < n && lengths[i] == k + 1;
            assert(index_of_length(lengths[i]) == Ok::<nat, LogError>(k));
        }
        if returned.contains(k) {
            let i = choose|i: int|
                0 <= i < n && #[trigger] index_of_length(lengths[i]) == Ok::<nat, LogError>(k);
            assert(1 <= lengths[i] <= n);
        }
    }
    assert(returned =~= Set::new(|k: nat| k < n));
}

/// A read by index right after a push returns exactly the payload that the
/// push stored at the index it returned.
pub proof fn lemma_get_after_push(log: Seq<Seq<char>>, payload: Seq<char>)
    requires
        log.len() < i64::MAX,
    ensures
        push_on(log, payload) is Ok,
        get_on(log.push(payload), push_on(log, payload)->Ok_0) == Ok::<Seq<char>, LogError>(
            payload,
        ),
{
}

/// After pushes of `payloads` on an empty log, the last message is the one
/// pushed last.
pub proof fn lemma_get_last_after_pushes(payloads: Seq<Seq<char>>)
    requires
        payloads.len() >= 1,
    ensures
        get_last_on(payloads) == Ok::<Seq<char>, LogError>(payloads[payloads.len() - 1]),
{
}

/// Reads past the end fail with `IndexOutOfRange`; the last message of an
/// empty log fails with `EmptyLog`.
pub proof fn lemma_reads_past_end(log: Seq<Seq<char>>, index: nat)
    requires
        index >= log.len(),
    ensures
        get_on(log, index) == Err::<Seq<char>, LogError>(LogError::IndexOutOfRange),
        get_last_on(Seq::empty()) == Err::<Seq<char>, LogError>(LogError::EmptyLog),
{
}

/// A connection registered after a snapshot was taken is not in it: its
/// identifier is at least the registry's next identifier at that time, and no
/// member reaches that.
pub proof fn lemma_late_registration_absent(reg: Registry, id: ConnectionId)
    requires
        reg.wf(),
        id >= reg.next(),
    ensures
        !reg@.contains(id),
{
    if reg@.contains(id) {
        let k = choose|k: int| 0 <= k < reg@.len() && reg@[k] == id;
        assert(reg@[k] < reg.next());
    }
}

} // verus!
