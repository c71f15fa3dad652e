//! Decoding a whole file: its lines in order, stopping at the first line that
//! is not a valid record.
use crate::record::{parse_spec, Record, RecordParsingError, RecordView};
use vstd::prelude::*;

verus! {

/// Why a file could not be decoded.
#[derive(Debug, PartialEq, Eq)]
pub enum FileParsingError<'a> {
    /// The path names no regular file.
    InvalidFile(&'a str),
    /// The file could not be opened.
    ReadFileError(&'a str),
    /// The line with this number (from 1) could not be read.
    IOError(usize),
    /// The line with this number (from 1) is not a valid record.
    RecordError { error: RecordParsingError, line_number: usize },
}

/// The first `n` lines all decode.
pub open spec fn all_decode(lines: Seq<String>, n: int) -> bool {
    forall|j: int| 0 <= j < n ==> (#[trigger] parse_spec(lines[j]@)) is Ok
}

/// `records` are the decodings of `lines`, one for one and in order.
pub open spec fn decoded_as(lines: Seq<String>, records: Seq<RecordView>) -> bool {
    &&& records.len() == lines.len()
    &&& forall|j: int|
        0 <= j < lines.len() ==> parse_spec(lines[j]@) == Ok::<RecordView, RecordParsingError>(
            #[trigger] records[j],
        )
}

/// The views of a sequence of records.
pub open spec fn views(records: Seq<Record>) -> Seq<RecordView> {
    records.map_values(|r: Record| r@)
}

impl Record {
    /// Decodes the lines of a file, in order. `source_failed` says that the
    /// line after the last of `lines` could not be read. The first line that
    /// is not a record ends the decoding with its error and its number;
    /// if every line decodes, a read failure is reported with the number of
    /// the line that could not be read.
    pub fn from_lines<'a>(lines: &Vec<String>, source_failed: bool) -> (r: Result<
        Vec<Record>,
        FileParsingError<'a>,
    >)
        requires
            lines@.len() < usize::MAX,
        ensures
            match r {
                Ok(records) => !source_failed && decoded_as(lines@, views(records@)),
                Err(FileParsingError::RecordError { error, line_number }) => {
                    &&& 1 <= line_number <= lines@.len()
                    &&& all_decode(lines@, line_number - 1)
                    &&& parse_spec(lines@[line_number - 1]@) == Err::<
                        RecordView,
                        RecordParsingError,
                    >(error)
                },
                Err(FileParsingError::IOError(line_number)) => {
                    &&& source_failed
                    &&& line_number == lines@.len() + 1
                    &&& all_decode(lines@, lines@.len() as int)
                },
                Err(_) => false,
            },
    {
        let mut records: Vec<Record> = Vec::new();
        let mut i: usize = 0;
        while i < lines.len()
            invariant
                i <= lines@.len(),
                decoded_as(lines@.subrange(0, i as int), views(records@)),
                all_decode(lines@, i as int),
            decreases lines@.len() - i,
        {
            match Record::parse(lines[i].as_str()) {
                Ok(rec) => {
                    let ghost before = views(records@);
                    records.push(rec);
                    assert(views(records@) =~= before.push(rec@));
                    assert(lines@.subrange(0, i + 1) =~= lines@.subrange(0, i as int).push(
                        lines@[i as int],
                    ));
                },
                Err(error) => {
                    return Err(FileParsingError::RecordError { error, line_number: i + 1 });
                },
            }
            i = i + 1;
        }
        assert(lines@.subrange(0, i as int) =~= lines@);
        if source_failed {
            return Err(FileParsingError::IOError(i + 1));
        }
        Ok(records)
    }
}

} // verus!
