//! What holds of every use of the recorder, stated over the store model that
//! the recorder's contracts are written in.

use vstd::prelude::*;

use crate::store::{construct_step, header_model, missing_model, record_step, RowModel, StoreModel};
use crate::text::{effective_name, is_decimal_digit};

verus! {

/// The store after `n` recorder constructions against one location.
pub open spec fn construct_n(m: StoreModel, n: nat) -> StoreModel
    decreases n,
{
    if n == 0 {
        m
    } else {
        construct_step(construct_n(m, (n - 1) as nat))
    }
}

/// How many of `rows` are the fixed header row.
pub open spec fn count_headers(rows: Seq<RowModel>) -> nat
    decreases rows.len(),
{
    if rows.len() == 0 {
        0
    } else {
        count_headers(rows.drop_last()) + if rows.last() == header_model() {
            1nat
        } else {
            0
        }
    }
}

/// The store after recording each of `recs`, oldest first.
pub open spec fn record_all(m: StoreModel, recs: Seq<RowModel>) -> StoreModel
    decreases recs.len(),
{
    if recs.len() == 0 {
        m
    } else {
        record_step(record_all(m, recs.drop_last()), recs.last().name, recs.last().time)
    }
}

/// Header-once: however many times (one or more) a recorder is constructed
/// against one initially missing location, the store holds the header row
/// exactly once — indeed nothing but that one row, exactly as after the
/// first construction.
pub proof fn lemma_header_once(n: nat)
    requires
        n >= 1,
    ensures
        construct_n(missing_model(), n) == construct_step(missing_model()),
        construct_n(missing_model(), n).rows =~= seq![header_model()],
        count_headers(construct_n(missing_model(), n).rows) == 1,
    decreases n,
{
    if n == 1 {
        assert(construct_n(missing_model(), 0) == missing_model());
    } else {
        lemma_header_once((n - 1) as nat);
    }
    let rows = construct_n(missing_model(), n).rows;
    assert(rows =~= seq![header_model()]);
    assert(rows.drop_last() =~= Seq::<RowModel>::empty());
    assert(count_headers(Seq::<RowModel>::empty()) == 0);
    assert(count_headers(rows) == 1);
}

/// Row-count and append-order: recording `recs` against a freshly created
/// store leaves exactly the header row followed by `recs` — one header plus
/// K data rows, standing in the order the recordings completed.
pub proof fn lemma_fresh_store_rows(recs: Seq<RowModel>)
    ensures
        record_all(construct_step(missing_model()), recs).rows =~= seq![header_model()] + recs,
        record_all(construct_step(missing_model()), recs).rows.len() == 1 + recs.len(),
        forall|i: int|
            0 <= i < recs.len() ==> record_all(construct_step(missing_model()), recs).rows[i + 1]
                == #[trigger] recs[i],
    decreases recs.len(),
{
    if recs.len() == 0 {
        assert(record_all(construct_step(missing_model()), recs).rows =~= seq![header_model()]
            + recs);
    } else {
        lemma_fresh_store_rows(recs.drop_last());
        assert(recs.last() == (RowModel { name: recs.last().name, time: recs.last().time }));
        assert(record_all(construct_step(missing_model()), recs).rows =~= seq![header_model()]
            + recs);
    }
}

/// A row as the recorder writes it: a non-empty time field of decimal digits
/// alone.
pub open spec fn decimal_timed(r: RowModel) -> bool {
    r.time.len() >= 1 && forall|i: int| 0 <= i < r.time.len() ==> is_decimal_digit(
        #[trigger] r.time[i],
    )
}

/// A decimal time field never reads `time`, so no data row is the header.
proof fn lemma_decimal_timed_not_header(r: RowModel)
    requires
        decimal_timed(r),
    ensures
        r != header_model(),
{
    reveal_strlit("time");
    if r == header_model() {
        assert(is_decimal_digit(r.time[0]));
        assert(r.time[0] == 't');
        assert(false);
    }
}

/// Appending rows that are not the header leaves the header count alone.
proof fn lemma_no_extra_headers(base: Seq<RowModel>, recs: Seq<RowModel>)
    requires
        forall|i: int| 0 <= i < recs.len() ==> #[trigger] recs[i] != header_model(),
    ensures
        count_headers(base + recs) == count_headers(base),
    decreases recs.len(),
{
    if recs.len() == 0 {
        assert(base + recs =~= base);
    } else {
        lemma_no_extra_headers(base, recs.drop_last());
        assert((base + recs).drop_last() =~= base + recs.drop_last());
        assert((base + recs).last() == recs[recs.len() - 1]);
    }
}

/// Header-once over a store's whole life: after one or more constructions
/// against an initially missing location and any number of recorded rows —
/// each carrying a decimal time field, as every recording does — the store
/// holds the header row exactly once.
pub proof fn lemma_header_unique(n: nat, recs: Seq<RowModel>)
    requires
        n >= 1,
        forall|i: int| 0 <= i < recs.len() ==> decimal_timed(#[trigger] recs[i]),
    ensures
        count_headers(record_all(construct_n(missing_model(), n), recs).rows) == 1,
{
    lemma_header_once(n);
    lemma_fresh_store_rows(recs);
    assert forall|i: int| 0 <= i < recs.len() implies #[trigger] recs[i] != header_model() by {
        lemma_decimal_timed_not_header(recs[i]);
    }
    lemma_no_extra_headers(seq![header_model()], recs);
    assert(record_all(construct_n(missing_model(), n), recs).rows =~= seq![header_model()] + recs);
}

/// Prefix-join: under an empty prefix a row is recorded under the bare name,
/// unmodified; under a non-empty prefix `p` it is recorded under `p`, a `-`,
/// then the name.
pub proof fn lemma_prefix_join(prefix: Seq<char>, name: Seq<char>)
    ensures
        prefix.len() == 0 ==> effective_name(prefix, name) == name,
        prefix.len() > 0 ==> effective_name(prefix, name) == prefix + seq!['-'] + name,
{
}

} // verus!
