//! The one row format the record store uses: a two-field CSV record, encoded
//! by the `csv` crate under its default configuration.

use vstd::prelude::*;

verus! {

/// What `csv::Writer` produces for one two-field record under its default
/// configuration (comma delimiter, `\n` terminator, double quotes where a
/// field needs them). The bytes depend on the two fields alone.
pub uninterp spec fn csv_row(name: Seq<char>, time: Seq<char>) -> Seq<u8>;

/// A field that the CSV writer passes through verbatim: ASCII text holding no
/// delimiter, quote or line-break character.
pub open spec fn plain_field(s: Seq<char>) -> bool {
    forall|i: int|
        0 <= i < s.len() ==> {
            let c = #[trigger] s[i];
            (c as u32) < 128 && c != ',' && c != '"' && c != '\n' && c != '\r'
        }
}

/// The bytes of an ASCII character sequence.
pub open spec fn ascii_bytes(s: Seq<char>) -> Seq<u8> {
    s.map_values(|c: char| c as u8)
}

/// The bytes of a row both of whose fields are plain: the fields verbatim,
/// joined by `,` and terminated by `\n`.
pub open spec fn plain_row_bytes(name: Seq<char>, time: Seq<char>) -> Seq<u8> {
    ascii_bytes(name) + seq![(',' as u8)] + ascii_bytes(time) + seq![('\n' as u8)]
}

/// A decimal rendering is a plain field: digits are ASCII and are none of the
/// characters that make the CSV writer quote a field.
pub proof fn lemma_decimal_is_plain(n: nat)
    ensures
        plain_field(crate::text::spec_decimal(n)),
{
    crate::text::lemma_decimal_digits(n);
    assert forall|i: int| 0 <= i < crate::text::spec_decimal(n).len() implies {
        let c = #[trigger] crate::text::spec_decimal(n)[i];
        (c as u32) < 128 && c != ',' && c != '"' && c != '\n' && c != '\r'
    } by {
        assert(crate::text::is_decimal_digit(crate::text::spec_decimal(n)[i]));
    }
}

/// Relies on csv::Writer with its default configuration: a record is written
/// as its fields joined by `,` and terminated by `\n`, a field being quoted
/// only where it holds `,`, `"`, `\n` or `\r`; writing to an in-memory buffer
/// does not fail.
#[verifier::external_body]
pub(crate) fn encode_row(name: &str, time: &str) -> (r: Vec<u8>)
    ensures
        r@ == csv_row(name@, time@),
        plain_field(name@) && plain_field(time@) ==> r@ == plain_row_bytes(name@, time@),
{
    let mut wtr = csv::Writer::from_writer(Vec::new());
    wtr.write_record([name, time]).unwrap();
    wtr.into_inner().unwrap()
}

} // verus!
