use vstd::prelude::*;
use vstd::utf8::encode_utf8;

verus! {

/// One line of input text. Once admitted it is written followed by a newline.
#[derive(Debug)]
pub struct Record {
    pub line: String,
}

/// The separator written after every record.
pub const SEPARATOR: u8 = 10;

/// The bytes that admitting `r` appends to a batch: its UTF-8 text, then the separator.
pub open spec fn record_bytes(r: Record) -> Seq<u8> {
    encode_utf8(r.line@) + seq![SEPARATOR]
}

impl Record {
    pub fn new(line: String) -> (r: Record)
        ensures
            r.line == line,
    {
        Record { line }
    }
}

} // verus!
