//! The recorder: it times a unit of work and appends the result to a record
//! store, under an optional naming prefix.

use vstd::prelude::*;

use crate::encode::{encode_row, lemma_decimal_is_plain, plain_field, plain_row_bytes};
use crate::store::{construct_step, header_model, record_step, Row, Store};
use crate::text::{decimal_string, effective_name, join_name, spec_decimal};

verus! {

#[verifier::external_type_specification]
#[verifier::external_body]
pub struct ExInstant(std::time::Instant);

/// Relies on std::time::Instant::now: an opaque reading of a monotonic clock.
#[verifier::external_body]
fn instant_now() -> std::time::Instant {
    std::time::Instant::now()
}

/// Relies on std::time::Instant::elapsed and std::time::Duration::as_millis:
/// the whole milliseconds since `start`, truncating any sub-millisecond
/// remainder. The value depends on the clock, so nothing is promised of it.
#[verifier::external_body]
fn elapsed_millis(start: &std::time::Instant) -> u128 {
    start.elapsed().as_millis()
}

/// Why a recording call could not append its row.
#[derive(Clone, Copy, Debug, PartialEq, Eq, Structural)]
pub enum StoreError {
    /// No store has been created at the target location.
    Missing,
}

/// Times labeled units of work and appends one `(name, time)` row per
/// successful operation to a record store. Immutable once constructed;
/// `with_prefix` derives a copy, never touching the receiver.
#[derive(Clone, Debug)]
pub struct Benchmarker {
    pub csv_path: String,
    pub prefix: String,
}

impl Benchmarker {
    /// Binds a recorder, with an empty prefix, to the store at `path`. On a
    /// missing store this writes the fixed header row, once; an existing
    /// store is left untouched.
    pub fn new_from_path(path: String, store: &mut Store) -> (r: Benchmarker)
        ensures
            final(store)@ == construct_step(old(store)@),
            !old(store).created ==> final(store)@.bytes == old(store)@.bytes + plain_row_bytes(
                "name"@,
                "time"@,
            ),
            r.csv_path@ == path@,
            r.prefix@ == Seq::<char>::empty(),
    {
        if !store.created {
            let name: String = "name".to_owned();
            let time: String = "time".to_owned();
            proof {
                reveal_strlit("name");
                reveal_strlit("time");
                assert(plain_field(name@));
                assert(plain_field(time@));
            }
            let mut bytes = encode_row(name.as_str(), time.as_str());
            store.created = true;
            store.bytes.append(&mut bytes);
            store.rows.push(Row { name, time });
            proof {
                assert(store@.rows =~= construct_step(old(store)@).rows);
                assert(store@ =~= construct_step(old(store)@));
            }
        }
        Benchmarker { csv_path: path, prefix: String::new() }
    }

    /// A copy of this recorder whose prefix is `prefix`; the receiver is
    /// unchanged and both stay usable.
    pub fn with_prefix(&self, prefix: &str) -> (r: Benchmarker)
        ensures
            r.csv_path@ == self.csv_path@,
            r.prefix@ == prefix@,
    {
        Benchmarker { csv_path: self.csv_path.clone(), prefix: prefix.to_owned() }
    }

    /// Appends the row for one completed operation: effective name first,
    /// elapsed milliseconds second.
    fn record_row(&self, store: &mut Store, name: &str, elapsed: u128)
        requires
            old(store).created,
        ensures
            final(store)@ == record_step(
                old(store)@,
                effective_name(self.prefix@, name@),
                spec_decimal(elapsed as nat),
            ),
            plain_field(effective_name(self.prefix@, name@)) ==> final(store)@.bytes
                == old(store)@.bytes + plain_row_bytes(
                effective_name(self.prefix@, name@),
                spec_decimal(elapsed as nat),
            ),
    {
        proof {
            lemma_decimal_is_plain(elapsed as nat);
        }
        let n = join_name(self.prefix.as_str(), name);
        let t = decimal_string(elapsed);
        let mut bytes = encode_row(n.as_str(), t.as_str());
        store.bytes.append(&mut bytes);
        store.rows.push(Row { name: n, time: t });
        proof {
            assert(store@.rows =~= record_step(
                old(store)@,
                effective_name(self.prefix@, name@),
                spec_decimal(elapsed as nat),
            ).rows);
            assert(store@ =~= record_step(
                old(store)@,
                effective_name(self.prefix@, name@),
                spec_decimal(elapsed as nat),
            ));
        }
    }

    /// Times `f` and, only if it succeeds, appends one row for it: the
    /// effective name and the elapsed whole milliseconds. `f`'s result is
    /// handed back unchanged either way; on failure the store is exactly as
    /// it was, no partial row.
    pub fn bench<F, O, E>(&self, store: &mut Store, name: &str, f: F) -> (r: Result<O, E>) where
        F: FnOnce() -> Result<O, E>,

        requires
            old(store).created,
            call_requires(f, ()),
        ensures
            r matches Err(e) ==> final(store)@ == old(store)@ && call_ensures(f, (), Err(e)),
            r matches Ok(o) ==> call_ensures(f, (), Ok(o)) && (exists|ms: u128|
                final(store)@ == record_step(
                    old(store)@,
                    effective_name(self.prefix@, name@),
                    spec_decimal(ms as nat),
                )),
    {
        let start = instant_now();
        match f() {
            Ok(o) => {
                let elapsed = elapsed_millis(&start);
                self.record_row(store, name, elapsed);
                Ok(o)
            },
            Err(e) => Err(e),
        }
    }

    /// Appends one row with a caller-measured elapsed time, under the same
    /// prefix-joining rule as `bench`. Fails, appending nothing, exactly when
    /// no store has been created at the location.
    pub fn write_to_csv(&self, store: &mut Store, name: &str, elapsed: u128) -> (r: Result<
        (),
        StoreError,
    >)
        ensures
            r is Ok <==> old(store).created,
            old(store).created ==> final(store)@ == record_step(
                old(store)@,
                effective_name(self.prefix@, name@),
                spec_decimal(elapsed as nat),
            ),
            old(store).created && plain_field(effective_name(self.prefix@, name@))
                ==> final(store)@.bytes == old(store)@.bytes + plain_row_bytes(
                effective_name(self.prefix@, name@),
                spec_decimal(elapsed as nat),
            ),
            !old(store).created ==> final(store)@ == old(store)@ && r == Err::<(), StoreError>(
                StoreError::Missing,
            ),
    {
        if store.created {
            self.record_row(store, name, elapsed);
            Ok(())
        } else {
            Err(StoreError::Missing)
        }
    }
}

} // verus!
