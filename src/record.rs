//! One record of an Intel HEX file: its fields, its checksum and its decoding
//! from a line of text.
use crate::hexdigits::{
    byte_at, bytes_from_hex, hex_bytes, hex_run, hex_text, is_hex_digit, parse_u16, parse_u8,
    word_at,
};
use vstd::prelude::*;
use vstd::string::*;

verus! {

/// A decoded record: `:` length(1) load offset(2) type(1) data(length) checksum(1),
/// each byte written as two hexadecimal digits.
#[derive(Debug, PartialEq, Eq)]
pub struct Record {
    pub length: u8,
    pub load_offset: u16,
    pub record_type: u8,
    pub data: Vec<u8>,
    pub checksum: u8,
}

/// The mathematical value of a [`Record`].
pub struct RecordView {
    pub length: u8,
    pub load_offset: u16,
    pub record_type: u8,
    pub data: Seq<u8>,
    pub checksum: u8,
}

impl View for Record {
    type V = RecordView;

    open spec fn view(&self) -> RecordView {
        RecordView {
            length: self.length,
            load_offset: self.load_offset,
            record_type: self.record_type,
            data: self.data@,
            checksum: self.checksum,
        }
    }
}

/// Why a line is not a valid record; each names the first check that failed.
#[derive(Clone, Copy, Debug, PartialEq, Eq, Structural)]
pub enum RecordParsingError {
    TooSmall,
    MissingTag,
    InvalidLengthFormat,
    InvalidLength,
    InvalidLoadOffsetFormat,
    InvalidType,
    InvalidTypeFormat,
    InvalidDataFormat,
    InvalidChecksum,
    InvalidChecksumFormat,
    TooLarge,
}

/// The sum of the bytes of `s`, without overflow.
pub open spec fn seq_sum(s: Seq<u8>) -> nat
    decreases s.len(),
{
    if s.len() == 0 {
        0
    } else {
        seq_sum(s.drop_last()) + s.last() as nat
    }
}

impl RecordView {
    /// The sum of every byte of the record but the checksum.
    pub open spec fn content_sum(self) -> nat {
        self.length as nat + self.load_offset as nat / 256 + self.load_offset as nat % 256
            + self.record_type as nat + seq_sum(self.data)
    }

    /// The sum of every byte of the record, checksum included.
    pub open spec fn byte_sum(self) -> nat {
        self.content_sum() + self.checksum as nat
    }

    /// The checksum byte that makes the record's bytes add up to zero
    /// modulo 256.
    pub open spec fn expected_checksum(self) -> u8 {
        ((256 - self.content_sum() % 256) % 256) as u8
    }

    /// The bytes that the record is written with, in order.
    pub open spec fn bytes(self) -> Seq<u8> {
        seq![
            self.length,
            (self.load_offset / 256) as u8,
            (self.load_offset % 256) as u8,
            self.record_type,
        ] + self.data + seq![self.checksum]
    }

    /// The line that writes the record: the marker, then its bytes in
    /// hexadecimal.
    pub open spec fn text(self) -> Seq<char> {
        seq![':'] + hex_text(self.bytes())
    }

    /// The checksum law: the bytes of the record add up to zero modulo 256.
    pub open spec fn checksum_ok(self) -> bool {
        self.byte_sum() % 256 == 0
    }

    /// What holds of every record that decoding hands out.
    pub open spec fn well_formed(self) -> bool {
        &&& self.data.len() == self.length
        &&& self.record_type <= 5
        &&& self.checksum_ok()
    }
}

/// The smallest line that can hold a record: marker, length, offset, type and
/// checksum, with no data.
pub const MIN_RECORD_CHARS: usize = 11;

/// The highest record type: data, end of file, extended segment address,
/// start segment address, extended linear address, start linear address.
pub const MAX_RECORD_TYPE: u8 = 5;

/// The record that `s` holds once every field has been read, with the data
/// field `length` bytes long.
pub open spec fn fields_of(s: Seq<char>) -> RecordView {
    let length = byte_at(s, 1) as int;
    RecordView {
        length: length as u8,
        load_offset: word_at(s, 3) as u16,
        record_type: byte_at(s, 7) as u8,
        data: hex_bytes(s.subrange(9, 9 + 2 * length)),
        checksum: byte_at(s, 9 + 2 * length) as u8,
    }
}

/// The decoding of one line: the checks in order, the first that fails naming
/// the error.
pub open spec fn parse_spec(s: Seq<char>) -> Result<RecordView, RecordParsingError> {
    let length = byte_at(s, 1) as int;
    if s.len() < 11 {
        Err(RecordParsingError::TooSmall)
    } else if s[0] != ':' {
        Err(RecordParsingError::MissingTag)
    } else if !hex_run(s, 1, 3) {
        Err(RecordParsingError::InvalidLengthFormat)
    } else if !hex_run(s, 3, 7) {
        Err(RecordParsingError::InvalidLoadOffsetFormat)
    } else if !hex_run(s, 7, 9) {
        Err(RecordParsingError::InvalidTypeFormat)
    } else if byte_at(s, 7) > 5 {
        Err(RecordParsingError::InvalidType)
    } else if s.len() - 11 < 2 * length {
        Err(RecordParsingError::InvalidLength)
    } else if !hex_run(s, 9, 9 + 2 * length) {
        Err(RecordParsingError::InvalidDataFormat)
    } else if !hex_run(s, 9 + 2 * length, 11 + 2 * length) {
        Err(RecordParsingError::InvalidChecksumFormat)
    } else if s.len() > 11 + 2 * length {
        Err(RecordParsingError::TooLarge)
    } else if !fields_of(s).checksum_ok() {
        Err(RecordParsingError::InvalidChecksum)
    } else {
        Ok(fields_of(s))
    }
}

impl Record {
    /// The end-of-file record, which closes a well-formed file.
    pub fn end_of_file() -> (r: Self)
        ensures
            r@ == (RecordView {
                length: 0,
                load_offset: 0,
                record_type: 1,
                data: Seq::empty(),
                checksum: 0xFF,
            }),
            r@.well_formed(),
    {
        let r = Record { length: 0, load_offset: 0, record_type: 1, data: Vec::new(), checksum: 0xFF };
        assert(r@.data =~= Seq::<u8>::empty());
        r
    }

    /// Whether the record obeys the checksum law.
    pub fn verify_checksum(&self) -> (r: bool)
        ensures
            r == self@.checksum_ok(),
    {
        let off = self.load_offset;
        assert(off & 0xff == off % 256 && off >> 8 == off / 256) by (bit_vector);
        let head: u32 = self.length as u32 + (off & 0xFF) as u32 + (off >> 8) as u32
            + self.record_type as u32;
        let ghost base: nat = head as nat;
        let mut acc: u32 = head % 256;
        let mut i: usize = 0;
        while i < self.data.len()
            invariant
                i <= self.data@.len(),
                acc < 256,
                acc as nat == (base + seq_sum(self.data@.subrange(0, i as int))) % 256,
            decreases self.data@.len() - i,
        {
            let ghost prefix = self.data@.subrange(0, i as int);
            let b = self.data[i];
            assert(self.data@.subrange(0, i + 1).drop_last() =~= prefix);
            proof {
                vstd::arithmetic::div_mod::lemma_add_mod_noop(
                    (base + seq_sum(prefix)) as int,
                    b as int,
                    256,
                );
            }
            acc = (acc + b as u32) % 256;
            i = i + 1;
        }
        assert(self.data@.subrange(0, i as int) =~= self.data@);
        proof {
            vstd::arithmetic::div_mod::lemma_add_mod_noop(
                (base + seq_sum(self.data@)) as int,
                self.checksum as int,
                256,
            );
        }
        (acc + self.checksum as u32) % 256 == 0
    }

    /// Decodes one line into a record, or names the first check it fails.
    pub fn parse(input: &str) -> (r: Result<Record, RecordParsingError>)
        ensures
            match r {
                Ok(rec) => parse_spec(input@) == Ok::<RecordView, RecordParsingError>(rec@),
                Err(e) => parse_spec(input@) == Err::<RecordView, RecordParsingError>(e),
            },
            r is Ok ==> r->Ok_0@.well_formed(),
    {
        let n = input.unicode_len();
        if n < MIN_RECORD_CHARS {
            return Err(RecordParsingError::TooSmall);
        }
        if input.get_char(0) != ':' {
            return Err(RecordParsingError::MissingTag);
        }
        let length = match parse_u8(input, 1) {
            Some(v) => v,
            None => return Err(RecordParsingError::InvalidLengthFormat),
        };
        let load_offset = match parse_u16(input, 3) {
            Some(v) => v,
            None => return Err(RecordParsingError::InvalidLoadOffsetFormat),
        };
        let record_type = match parse_u8(input, 7) {
            Some(v) => v,
            None => return Err(RecordParsingError::InvalidTypeFormat),
        };
        if record_type > MAX_RECORD_TYPE {
            return Err(RecordParsingError::InvalidType);
        }
        let char_count: usize = length as usize * 2;
        if char_count > n - MIN_RECORD_CHARS {
            return Err(RecordParsingError::InvalidLength);
        }
        let ghost s = input@;
        let field = input.substring_char(9, 9 + char_count);
        assert(hex_run(field@, 0, char_count as int) <==> hex_run(s, 9, 9 + char_count)) by {
            if hex_run(s, 9, 9 + char_count) {
                assert forall|i: int| 0 <= i < char_count implies #[trigger] is_hex_digit(
                    field@[i],
                ) by {
                    assert(field@[i] == s[9 + i]);
                }
            }
            if hex_run(field@, 0, char_count as int) {
                assert forall|i: int| 9 <= i < 9 + char_count implies #[trigger] is_hex_digit(
                    s[i],
                ) by {
                    assert(field@[i - 9] == s[i]);
                }
            }
        }
        let data = match bytes_from_hex(field) {
            Some(v) => v,
            None => return Err(RecordParsingError::InvalidDataFormat),
        };
        let checksum = match parse_u8(input, 9 + char_count) {
            Some(v) => v,
            None => return Err(RecordParsingError::InvalidChecksumFormat),
        };
        if n > MIN_RECORD_CHARS + char_count {
            return Err(RecordParsingError::TooLarge);
        }
        let record = Record { length, load_offset, record_type, data, checksum };
        assert(record@ == fields_of(s));
        if !record.verify_checksum() {
            return Err(RecordParsingError::InvalidChecksum);
        }
        Ok(record)
    }
}

} // verus!
