//! What holds of decoding for every input.
use crate::hexdigits::{byte_at, hex_bytes, hex_run, hex_text, is_hex_digit, lemma_hex_text};
use crate::record::{fields_of, parse_spec, RecordParsingError, RecordView};
use vstd::prelude::*;

verus! {

/// The `k`-th byte of a record's line reads back as its `k`-th byte.
proof fn lemma_text_byte(r: RecordView, k: int)
    requires
        0 <= k < r.bytes().len(),
    ensures
        is_hex_digit(r.text()[1 + 2 * k]),
        is_hex_digit(r.text()[2 + 2 * k]),
        byte_at(r.text(), 1 + 2 * k) == r.bytes()[k],
{
    let b = r.bytes();
    lemma_hex_text(b, k);
    assert(r.text()[1 + 2 * k] == hex_text(b)[2 * k]);
    assert(r.text()[2 + 2 * k] == hex_text(b)[2 * k + 1]);
}

/// Every character of a record's line after the marker is a digit.
proof fn lemma_text_digits(r: RecordView)
    requires
        r.data.len() == r.length,
    ensures
        r.text().len() == 11 + 2 * r.length,
        hex_run(r.text(), 1, 11 + 2 * r.length),
{
    let s = r.text();
    assert(r.bytes().len() == 5 + r.length);
    assert forall|i: int| 1 <= i < 11 + 2 * r.length implies #[trigger] is_hex_digit(s[i]) by {
        lemma_text_byte(r, (i - 1) / 2);
    }
}

/// The fields read from a record's line are the record's own.
proof fn lemma_text_fields(r: RecordView)
    requires
        r.data.len() == r.length,
    ensures
        fields_of(r.text()) == r,
{
    let s = r.text();
    let len = r.length as int;
    assert(r.bytes().len() == 5 + len);
    lemma_text_byte(r, 0);
    lemma_text_byte(r, 1);
    lemma_text_byte(r, 2);
    lemma_text_byte(r, 3);
    lemma_text_byte(r, 4 + len);
    let off = r.load_offset as nat;
    assert(byte_at(s, 3) * 256 + byte_at(s, 5) == off);
    let data = hex_bytes(s.subrange(9, 9 + 2 * len));
    assert forall|k: int| 0 <= k < len implies data[k] == r.data[k] by {
        lemma_text_byte(r, 4 + k);
        assert(r.bytes()[4 + k] == r.data[k]);
    }
    assert(data =~= r.data);
}

/// Writing a record out, with its checksum byte recomputed from the other
/// bytes, and decoding the line gives back the same record.
pub proof fn lemma_round_trip(r: RecordView)
    requires
        r.data.len() == r.length,
        r.record_type <= 5,
        r.checksum == r.expected_checksum(),
    ensures
        parse_spec(r.text()) == Ok::<RecordView, RecordParsingError>(r),
{
    let s = r.text();
    let len = r.length as int;
    lemma_text_digits(r);
    lemma_text_fields(r);
    vstd::arithmetic::div_mod::lemma_add_mod_noop(r.content_sum() as int, r.checksum as int, 256);
    assert(r.checksum_ok());
    assert(hex_run(s, 1, 3) && hex_run(s, 3, 7) && hex_run(s, 7, 9) && hex_run(s, 9, 9 + 2 * len)
        && hex_run(s, 9 + 2 * len, 11 + 2 * len));
}

/// A line shorter than the smallest record is too small, and only such a line
/// is.
pub proof fn lemma_too_small(s: Seq<char>)
    ensures
        parse_spec(s) == Err::<RecordView, RecordParsingError>(RecordParsingError::TooSmall)
            <==> s.len() < 11,
{
}

/// A line long enough for a record that does not start with `:` lacks the
/// marker.
pub proof fn lemma_missing_tag(s: Seq<char>)
    requires
        s.len() >= 11,
        s[0] != ':',
    ensures
        parse_spec(s) == Err::<RecordView, RecordParsingError>(RecordParsingError::MissingTag),
{
}

/// Once the length and the load offset are well written, a type field that is
/// not two digits is malformed, a type above 5 is refused, and a type from 0
/// to 5 passes both checks.
pub proof fn lemma_record_type(s: Seq<char>)
    requires
        s.len() >= 11,
        s[0] == ':',
        hex_run(s, 1, 7),
    ensures
        !hex_run(s, 7, 9) ==> parse_spec(s) == Err::<RecordView, RecordParsingError>(
            RecordParsingError::InvalidTypeFormat,
        ),
        hex_run(s, 7, 9) && byte_at(s, 7) > 5 ==> parse_spec(s) == Err::<
            RecordView,
            RecordParsingError,
        >(RecordParsingError::InvalidType),
        hex_run(s, 7, 9) && byte_at(s, 7) <= 5 ==> parse_spec(s) != Err::<
            RecordView,
            RecordParsingError,
        >(RecordParsingError::InvalidType) && parse_spec(s) != Err::<
            RecordView,
            RecordParsingError,
        >(RecordParsingError::InvalidTypeFormat),
{
    assert(hex_run(s, 1, 3) && hex_run(s, 3, 7));
}

/// Once the header is well written, a declared length whose data and checksum
/// do not fit in what follows is refused.
pub proof fn lemma_length_exceeds(s: Seq<char>)
    requires
        s.len() >= 11,
        s[0] == ':',
        hex_run(s, 1, 9),
        byte_at(s, 7) <= 5,
        s.len() < 11 + 2 * byte_at(s, 1),
    ensures
        parse_spec(s) == Err::<RecordView, RecordParsingError>(RecordParsingError::InvalidLength),
{
    assert(hex_run(s, 1, 3) && hex_run(s, 3, 7) && hex_run(s, 7, 9));
}

/// Characters after a valid record make the line too large.
pub proof fn lemma_trailing(s: Seq<char>, t: Seq<char>)
    requires
        parse_spec(s) is Ok,
        t.len() > 0,
    ensures
        parse_spec(s + t) == Err::<RecordView, RecordParsingError>(RecordParsingError::TooLarge),
{
    let u = s + t;
    let end: int = 11 + 2 * byte_at(s, 1) as int;
    assert forall|i: int| 0 <= i < s.len() implies #[trigger] u[i] == s[i] by {}
    assert(hex_run(u, 1, end)) by {
        assert forall|i: int| 1 <= i < end implies #[trigger] is_hex_digit(u[i]) by {
            assert(u[i] == s[i]);
            assert(hex_run(s, 1, 3) && hex_run(s, 3, 7) && hex_run(s, 7, 9) && hex_run(
                s,
                9,
                end - 2,
            ) && hex_run(s, end - 2, end));
            if i < 3 {
            } else if i < 7 {
            } else if i < 9 {
            } else if i < end - 2 {
            } else {
            }
        }
    }
    assert(u[0] == s[0] && u[1] == s[1] && u[2] == s[2] && u[7] == s[7] && u[8] == s[8]);
    assert(byte_at(u, 1) == byte_at(s, 1) && byte_at(u, 7) == byte_at(s, 7));
    assert(hex_run(u, 1, 3) && hex_run(u, 3, 7) && hex_run(u, 7, 9) && hex_run(u, 9, end - 2)
        && hex_run(u, end - 2, end));
}

} // verus!
