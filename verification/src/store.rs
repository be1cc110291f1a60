//! The record store as a value: an ordered sequence of rows together with the
//! exact bytes that make up its persisted, CSV-formatted image. Persistence
//! itself (an append-only file, typically) lives outside this crate; whoever
//! owns it appends each new suffix of `bytes` to the durable copy.

use vstd::prelude::*;

use crate::encode::csv_row;

verus! {

/// One persisted row: an operation's effective name and its elapsed
/// milliseconds, both as the text that lands in the store.
pub struct Row {
    pub name: String,
    pub time: String,
}

/// The mathematical image of a `Row`.
#[verifier::ext_equal]
pub ghost struct RowModel {
    pub name: Seq<char>,
    pub time: Seq<char>,
}

impl View for Row {
    type V = RowModel;

    open spec fn view(&self) -> RowModel {
        RowModel { name: self.name@, time: self.time@ }
    }
}

/// The mathematical image of a `Store`.
#[verifier::ext_equal]
pub ghost struct StoreModel {
    pub created: bool,
    pub rows: Seq<RowModel>,
    pub bytes: Seq<u8>,
}

/// A record store. `created` says whether the store exists at its location
/// yet; `rows` are the rows this value has seen appended, oldest first; and
/// `bytes` is their persisted image, in the same order.
pub struct Store {
    pub created: bool,
    pub rows: Vec<Row>,
    pub bytes: Vec<u8>,
}

impl View for Store {
    type V = StoreModel;

    open spec fn view(&self) -> StoreModel {
        StoreModel {
            created: self.created,
            rows: self.rows@.map_values(|r: Row| r@),
            bytes: self.bytes@,
        }
    }
}

/// The fixed header row, written exactly once, at store creation.
pub open spec fn header_model() -> RowModel {
    RowModel { name: "name"@, time: "time"@ }
}

/// A store location where nothing has been created yet.
pub open spec fn missing_model() -> StoreModel {
    StoreModel { created: false, rows: Seq::empty(), bytes: Seq::empty() }
}

/// What constructing a recorder does to the store: on a missing store it
/// appends the header row and marks the store created; an existing store is
/// left exactly as it is.
pub open spec fn construct_step(m: StoreModel) -> StoreModel {
    if m.created {
        m
    } else {
        StoreModel {
            created: true,
            rows: m.rows.push(header_model()),
            bytes: m.bytes + csv_row(header_model().name, header_model().time),
        }
    }
}

/// What recording one row does to the store: the row is appended after all
/// existing rows, and its encoding after all existing bytes.
pub open spec fn record_step(m: StoreModel, name: Seq<char>, time: Seq<char>) -> StoreModel {
    StoreModel {
        created: m.created,
        rows: m.rows.push(RowModel { name, time }),
        bytes: m.bytes + csv_row(name, time),
    }
}

impl Store {
    /// A store value for a location where no store exists yet.
    pub fn missing() -> (s: Store)
        ensures
            s@ == missing_model(),
    {
        let s = Store { created: false, rows: Vec::new(), bytes: Vec::new() };
        proof {
            assert(s@ =~= missing_model());
        }
        s
    }

    /// A store value for a location where a store already exists; its earlier
    /// contents stay wherever they are persisted and are not re-read.
    pub fn existing() -> (s: Store)
        ensures
            s@ == (StoreModel { created: true, rows: Seq::empty(), bytes: Seq::empty() }),
    {
        let s = Store { created: true, rows: Vec::new(), bytes: Vec::new() };
        proof {
            assert(s@ =~= StoreModel { created: true, rows: Seq::empty(), bytes: Seq::empty() });
        }
        s
    }
}

} // verus!
