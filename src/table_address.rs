//! Columns such as a frame's address hold "an address, or -1". A valid address
//! needs all 64 bits, so "address or -1" cannot share one 64-bit integer: a
//! column cell is one of three cases, a resolved address, the base marker
//! (written -1), or another negative value, kept as it was written.

use vstd::prelude::*;

verus! {

pub type Address = u64;

/// One cell of an address column.
#[derive(Debug, Clone, Copy, PartialEq, Eq, Structural)]
pub enum TableAddress {
    /// A valid address or byte offset.
    Address(Address),
    /// The empty cell, written -1.
    Base,
    /// Any other negative value, kept verbatim.
    Error(i64),
}

/// An integer as it stands in the document: written without a sign, or with one.
#[derive(Debug, Clone, Copy, PartialEq, Eq, Structural)]
pub enum WireInteger {
    Unsigned(u64),
    Signed(i64),
}

impl WireInteger {
    /// How a reader of the document hands over an integer: a value that is
    /// not negative comes unsigned, a negative one signed.
    pub open spec fn canonical(self) -> bool {
        match self {
            WireInteger::Unsigned(_) => true,
            WireInteger::Signed(v) => v < 0,
        }
    }
}

impl TableAddress {
    /// A well-formed cell: the error case holds a negative value other than -1.
    pub open spec fn valid(self) -> bool {
        match self {
            TableAddress::Error(v) => v < -1,
            _ => true,
        }
    }

    /// The cell that a signed integer denotes.
    pub open spec fn signed_spec(v: i64) -> TableAddress {
        if v >= 0 {
            TableAddress::Address(v as u64)
        } else if v == -1 {
            TableAddress::Base
        } else {
            TableAddress::Error(v)
        }
    }

    pub open spec fn decode_spec(w: WireInteger) -> TableAddress {
        match w {
            WireInteger::Unsigned(u) => TableAddress::Address(u),
            WireInteger::Signed(v) => TableAddress::signed_spec(v),
        }
    }

    pub open spec fn encode_spec(self) -> WireInteger {
        match self {
            TableAddress::Address(u) => WireInteger::Unsigned(u),
            TableAddress::Base => WireInteger::Signed(-1i64),
            TableAddress::Error(v) => WireInteger::Signed(v),
        }
    }

    /// The cell for an unsigned integer: always a resolved address.
    pub fn from_positive(value: u64) -> (r: TableAddress)
        ensures
            r == TableAddress::Address(value),
    {
        TableAddress::Address(value)
    }

    /// The cell for a signed integer: an address when it is not negative, the
    /// base marker for -1, the error case for any other negative value.
    pub fn from_negative(value: i64) -> (r: TableAddress)
        ensures
            r == TableAddress::signed_spec(value),
            r.valid(),
    {
        if value >= 0 {
            TableAddress::Address(value as u64)
        } else if value == -1 {
            TableAddress::Base
        } else {
            TableAddress::Error(value)
        }
    }

    /// Reads a cell from the integer written in the document.
    pub fn decode(w: WireInteger) -> (r: TableAddress)
        ensures
            r == TableAddress::decode_spec(w),
            r.valid(),
    {
        match w {
            WireInteger::Unsigned(u) => TableAddress::from_positive(u),
            WireInteger::Signed(v) => TableAddress::from_negative(v),
        }
    }

    /// The integer that the document holds for this cell.
    pub fn encode(&self) -> (r: WireInteger)
        ensures
            r == self.encode_spec(),
            self.valid() ==> r.canonical(),
    {
        match *self {
            TableAddress::Address(u) => WireInteger::Unsigned(u),
            TableAddress::Base => WireInteger::Signed(-1),
            TableAddress::Error(v) => WireInteger::Signed(v),
        }
    }
}

/// Decoding what was encoded gives the cell back, for each of the three cases.
pub proof fn lemma_decode_encode(x: TableAddress)
    requires
        x.valid(),
    ensures
        TableAddress::decode_spec(x.encode_spec()) == x,
{
}

/// Encoding what was decoded gives back the integer that was read, as a
/// reader hands it over.
pub proof fn lemma_encode_decode(w: WireInteger)
    requires
        w.canonical(),
    ensures
        TableAddress::decode_spec(w).encode_spec() == w,
{
}

/// A column read from the document.
pub open spec fn decode_column_spec(col: Seq<WireInteger>) -> Seq<TableAddress> {
    col.map_values(|w: WireInteger| TableAddress::decode_spec(w))
}

/// A column as the document holds it.
pub open spec fn encode_column_spec(col: Seq<TableAddress>) -> Seq<WireInteger> {
    col.map_values(|x: TableAddress| x.encode_spec())
}

/// Reads every cell of an address column.
pub fn decode_column(col: &Vec<WireInteger>) -> (r: Vec<TableAddress>)
    ensures
        r@ == decode_column_spec(col@),
{
    let mut r: Vec<TableAddress> = Vec::new();
    let mut i: usize = 0;
    while i < col.len()
        invariant
            i <= col@.len(),
            r@ == decode_column_spec(col@.subrange(0, i as int)),
        decreases col@.len() - i,
    {
        r.push(TableAddress::decode(col[i]));
        assert(col@.subrange(0, i + 1) == col@.subrange(0, i as int).push(col@[i as int]));
        i = i + 1;
    }
    assert(col@.subrange(0, i as int) == col@);
    r
}

/// Writes every cell of an address column.
pub fn encode_column(col: &Vec<TableAddress>) -> (r: Vec<WireInteger>)
    ensures
        r@ == encode_column_spec(col@),
{
    let mut r: Vec<WireInteger> = Vec::new();
    let mut i: usize = 0;
    while i < col.len()
        invariant
            i <= col@.len(),
            r@ == encode_column_spec(col@.subrange(0, i as int)),
        decreases col@.len() - i,
    {
        r.push(col[i].encode());
        assert(col@.subrange(0, i + 1) == col@.subrange(0, i as int).push(col@[i as int]));
        i = i + 1;
    }
    assert(col@.subrange(0, i as int) == col@);
    r
}

/// A column read from a document and written back is the column that was
/// read, wherever the reader handed over its integers as readers do.
pub proof fn lemma_column_round_trip(col: Seq<WireInteger>)
    requires
        forall|i: int| 0 <= i < col.len() ==> (#[trigger] col[i]).canonical(),
    ensures
        encode_column_spec(decode_column_spec(col)) == col,
{
    assert(encode_column_spec(decode_column_spec(col)) =~= col);
}

/// A column of well-formed cells, written out and read back, is unchanged.
pub proof fn lemma_cells_round_trip(col: Seq<TableAddress>)
    requires
        forall|i: int| 0 <= i < col.len() ==> (#[trigger] col[i]).valid(),
    ensures
        decode_column_spec(encode_column_spec(col)) == col,
{
    assert(decode_column_spec(encode_column_spec(col)) =~= col);
}

} // verus!
