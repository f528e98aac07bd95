//! The pixel stream as a sequence of records, and the proof that the
//! decoder, which only ever sees eight bytes of the stream at a time,
//! decodes a well-formed stream record by record.

use crate::encoding::common::CACHE_SLOTS;
use crate::encoding::error::DecodeError;
use crate::encoding::stream::{
    decode_ops, lemma_apply_extends, spec_decode, spec_decode_len, DecodeState,
};
use crate::encoding::window::{end_marker, WINDOW_LEN};
use crate::color::color::RGBA;
use crate::structure::qoi_header::{lemma_header_round_trip, QOIHeader, HEADER_LEN};
use crate::structure::tag::Tag;
use vstd::prelude::*;

verus! {

/// One record of the pixel stream: a tag byte and the operand bytes that
/// follow it.
pub struct Record {
    pub tag: u8,
    pub operands: Seq<u8>,
}

impl Record {
    /// Whether the record has as many operand bytes as the class of its
    /// tag asks for.
    pub open spec fn well_formed(self) -> bool {
        self.operands.len() == Tag::spec_classify(self.tag).spec_operand_len()
    }

    /// The bytes that stand for the record in the stream.
    pub open spec fn bytes(self) -> Seq<u8> {
        seq![self.tag] + self.operands
    }
}

/// Whether every record of `records` is well formed.
pub open spec fn all_well_formed(records: Seq<Record>) -> bool {
    forall|i: int| 0 <= i < records.len() ==> (#[trigger] records[i]).well_formed()
}

/// The bytes that stand for a sequence of records: those of each record,
/// one after the other.
pub open spec fn records_bytes(records: Seq<Record>) -> Seq<u8>
    decreases records.len(),
{
    if records.len() == 0 {
        Seq::empty()
    } else {
        records[0].bytes() + records_bytes(records.skip(1))
    }
}

/// What a sequence of records means: each is applied to the state that
/// the one before it left, and the first that fails decides the error.
pub open spec fn apply_records(state: DecodeState, records: Seq<Record>) -> Result<
    DecodeState,
    DecodeError,
>
    decreases records.len(),
{
    if records.len() == 0 {
        Ok(state)
    } else {
        match state.apply(records[0].tag, records[0].operands) {
            Err(e) => Err(e),
            Ok(next) => apply_records(next, records.skip(1)),
        }
    }
}

/// The eight bytes that the decoder sees when it stands before record
/// `from` of a stream that ends with the end marker.
pub open spec fn window_before(records: Seq<Record>, from: int) -> Seq<u8> {
    (records_bytes(records.skip(from)) + end_marker()).take(WINDOW_LEN as int)
}

/// Whether the decoder can take no record of the stream for the end
/// marker: before no record do the next eight bytes of the stream spell
/// the marker.
pub open spec fn marker_free(records: Seq<Record>) -> bool {
    forall|from: int| 0 <= from < records.len() ==> #[trigger] window_before(records, from)
        != end_marker()
}

/// The end marker opens with a zero byte, so a stream in which no record
/// has the tag byte zero holds no record that can be taken for it.
pub proof fn lemma_marker_free_without_zero_tags(records: Seq<Record>)
    requires
        forall|i: int| 0 <= i < records.len() ==> (#[trigger] records[i]).tag != 0,
    ensures
        marker_free(records),
{
    assert forall|from: int| 0 <= from < records.len() implies #[trigger] window_before(
        records,
        from,
    ) != end_marker() by {
        let tail = records.skip(from);
        assert(tail[0] == records[from]);
        assert(records_bytes(tail)[0] == tail[0].tag);
        assert(window_before(records, from)[0] == tail[0].tag);
        assert(end_marker()[0] == 0);
    }
}

/// An opcode reads no more of the staged bytes than its class has
/// operands.
pub proof fn lemma_apply_reads_operands(
    state: DecodeState,
    tag: u8,
    staged: Seq<u8>,
    other: Seq<u8>,
)
    requires
        Tag::spec_classify(tag).spec_operand_len() <= staged.len(),
        Tag::spec_classify(tag).spec_operand_len() <= other.len(),
        staged.take(Tag::spec_classify(tag).spec_operand_len() as int) == other.take(
            Tag::spec_classify(tag).spec_operand_len() as int,
        ),
    ensures
        state.apply(tag, staged) == state.apply(tag, other),
{
    let n = Tag::spec_classify(tag).spec_operand_len() as int;
    assert forall|i: int| 0 <= i < n implies staged[i] == other[i] by {
        assert(staged.take(n)[i] == other.take(n)[i]);
    }
}

/// The decoder, started before the first of some well-formed records
/// that are followed by the end marker, ends as the records mean; where
/// they all succeed, it has then read the marker and nothing behind it.
pub proof fn lemma_decode_ops_records(
    bytes: Seq<u8>,
    at: int,
    state: DecodeState,
    records: Seq<Record>,
)
    requires
        0 <= at,
        state.cache.len() == CACHE_SLOTS,
        all_well_formed(records),
        marker_free(records),
        at + records_bytes(records).len() + WINDOW_LEN <= bytes.len(),
        bytes.subrange(at, at + records_bytes(records).len() + WINDOW_LEN) == records_bytes(records)
            + end_marker(),
    ensures
        decode_ops(bytes, at, state).result == apply_records(state, records),
        apply_records(state, records) is Ok ==> decode_ops(bytes, at, state).read == at
            + records_bytes(records).len() + WINDOW_LEN,
    decreases records.len(),
{
    let stream = records_bytes(records) + end_marker();
    let len = records_bytes(records).len() as int;
    assert(end_marker().len() == WINDOW_LEN);
    assert forall|i: int| 0 <= i < len + WINDOW_LEN implies bytes[at + i] == stream[i] by {
        assert(bytes.subrange(at, at + len + WINDOW_LEN)[i] == stream[i]);
    }
    if records.len() == 0 {
        assert(bytes.subrange(at, at + WINDOW_LEN) =~= end_marker());
    } else {
        let first = records[0];
        let rest = records.skip(1);
        let operands = first.operands.len() as int;
        let rest_len = records_bytes(rest).len() as int;
        assert(first.well_formed());
        assert(len == 1 + operands + rest_len);
        assert(stream =~= first.bytes() + (records_bytes(rest) + end_marker()));
        assert(stream[0] == first.tag);
        assert(bytes[at + 0] == stream[0]);
        assert(records.skip(0) =~= records);
        assert(bytes.subrange(at, at + WINDOW_LEN) =~= window_before(records, 0));
        assert(bytes[at] == first.tag);
        let staged = bytes.subrange(at + 1, at + WINDOW_LEN + 1);
        assert(staged.take(operands) =~= first.operands.take(operands)) by {
            assert forall|i: int| 0 <= i < operands implies staged[i] == first.operands[i] by {
                assert(bytes[at + (1 + i)] == stream[1 + i]);
                assert(stream[1 + i] == first.bytes()[1 + i]);
            }
        }
        lemma_apply_reads_operands(state, first.tag, staged, first.operands);
        match state.apply(first.tag, first.operands) {
            Err(e) => {},
            Ok(next) => {
                lemma_apply_extends(state, first.tag, first.operands);
                let behind = at + 1 + operands;
                assert(bytes.subrange(behind, behind + rest_len + WINDOW_LEN) =~= records_bytes(
                    rest,
                ) + end_marker()) by {
                    assert forall|i: int| 0 <= i < rest_len + WINDOW_LEN implies bytes[behind + i]
                        == (records_bytes(rest) + end_marker())[i] by {
                        assert(bytes[at + (1 + operands + i)] == stream[1 + operands + i]);
                    }
                }
                assert forall|i: int| 0 <= i < rest.len() implies (
                #[trigger] rest[i]).well_formed() by {
                    assert(rest[i] == records[i + 1]);
                }
                assert forall|from: int| 0 <= from < rest.len() implies #[trigger] window_before(
                    rest,
                    from,
                ) != end_marker() by {
                    assert(rest.skip(from) =~= records.skip(from + 1));
                    assert(window_before(rest, from) == window_before(records, from + 1));
                }
                lemma_decode_ops_records(bytes, behind, next, rest);
            },
        }
    }
}

/// A stream that is a valid header, well-formed records none of which can
/// be taken for the end marker, and the end marker, decodes to the header
/// and to the pixels that the records mean, or fails with the error of the
/// first record that fails. Where it succeeds, nothing behind the end
/// marker is read.
pub proof fn lemma_decode_stream(header: QOIHeader, records: Seq<Record>, rest: Seq<u8>)
    requires
        header.is_valid(),
        all_well_formed(records),
        marker_free(records),
    ensures
        ({
            let bytes = header.spec_to_bytes() + records_bytes(records) + end_marker() + rest;
            match apply_records(DecodeState::initial(), records) {
                Ok(end) => {
                    &&& spec_decode(bytes) == Ok::<(QOIHeader, Seq<RGBA>), DecodeError>(
                        (header, end.pixels),
                    )
                    &&& spec_decode_len(bytes) == bytes.len() - rest.len()
                },
                Err(e) => spec_decode(bytes) == Err::<(QOIHeader, Seq<RGBA>), DecodeError>(e),
            }
        }),
{
    let body = records_bytes(records) + end_marker();
    let bytes = header.spec_to_bytes() + records_bytes(records) + end_marker() + rest;
    assert(bytes =~= header.spec_to_bytes() + (body + rest));
    lemma_header_round_trip(header, body + rest);
    assert(end_marker().len() == WINDOW_LEN);
    assert(bytes.subrange(HEADER_LEN as int, HEADER_LEN + records_bytes(records).len() + WINDOW_LEN)
        =~= body);
    lemma_decode_ops_records(bytes, HEADER_LEN as int, DecodeState::initial(), records);
}

} // verus!
