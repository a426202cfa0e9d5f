//! Data words and the payload's partition into GBT words.
//!
//! A data word's identifier byte encodes its barrel and lane: top three bits
//! 001 mean inner barrel with the lane in the low five bits, top three bits
//! 010 mean outer barrel with an (input connector, lane) pair in the low five
//! bits.

use vstd::prelude::*;
use vstd::string::*;

use crate::textfmt::{dec_digits, push_dec};

verus! {

/// Whether an identifier byte names an inner-barrel data word.
pub open spec fn spec_is_ib_data_word_id(id: u8) -> bool {
    id / 0x20 == 1
}

/// Whether an identifier byte names an outer-barrel data word.
pub open spec fn spec_is_ob_data_word_id(id: u8) -> bool {
    id / 0x20 == 2
}

/// Whether an identifier byte names any data word.
pub open spec fn spec_is_data_word_id(id: u8) -> bool {
    spec_is_ib_data_word_id(id) || spec_is_ob_data_word_id(id)
}

/// The lane of an inner-barrel data word: the low five bits of its id.
pub open spec fn spec_ib_data_word_id_to_lane(id: u8) -> u8 {
    (id % 0x20) as u8
}

/// The lane of an outer-barrel data word: bits 4..=3 of its id.
pub open spec fn spec_ob_data_word_id_to_lane(id: u8) -> u8 {
    ((id / 8) % 4) as u8
}

/// The input connector of an outer-barrel data word: the low three bits of
/// its id.
pub open spec fn spec_ob_data_word_id_to_input_number_connector(id: u8) -> u8 {
    (id % 8) as u8
}

/// Whether an identifier byte names an inner-barrel data word.
pub fn is_ib_data_word_id(id: u8) -> (r: bool)
    ensures
        r == spec_is_ib_data_word_id(id),
{
    id / 0x20 == 1
}

/// Whether an identifier byte names an outer-barrel data word.
pub fn is_ob_data_word_id(id: u8) -> (r: bool)
    ensures
        r == spec_is_ob_data_word_id(id),
{
    id / 0x20 == 2
}

/// Extract the lane of an inner-barrel data word.
pub fn ib_data_word_id_to_lane(id: u8) -> (r: u8)
    ensures
        r == spec_ib_data_word_id_to_lane(id),
        r < 32,
{
    id % 0x20
}

/// Extract the lane of an outer-barrel data word.
pub fn ob_data_word_id_to_lane(id: u8) -> (r: u8)
    ensures
        r == spec_ob_data_word_id_to_lane(id),
        r < 32,
{
    (id / 8) % 4
}

/// Extract the input connector of an outer-barrel data word.
pub fn ob_data_word_id_to_input_number_connector(id: u8) -> (r: u8)
    ensures
        r == spec_ob_data_word_id_to_input_number_connector(id),
{
    id % 8
}

/// The stride at which GBT words stand in a payload: format 0 pads each
/// 10-byte word with 6 bytes, format 2 packs them back to back.
pub open spec fn spec_stride(data_format: u8) -> int {
    if data_format == 0 { 16 } else { 10 }
}

/// The stride at which GBT words stand in a payload.
pub fn stride_of(data_format: u8) -> (r: usize)
    ensures
        r == spec_stride(data_format),
{
    if data_format == 0 { 16 } else { 10 }
}

/// The message reported when a payload's length does not divide into GBT
/// words at the stride of its data format.
pub open spec fn spec_invalid_stride_msg(len: nat, data_format: u8) -> Seq<char> {
    "InvalidFormat: payload length "@ + dec_digits(len) + " is not a multiple of "@ + dec_digits(
        spec_stride(data_format) as nat,
    )
}

/// Split a payload into its 10-byte GBT words.
///
/// Returns one word per stride of the payload, each holding the first 10
/// bytes of its stride; fails exactly when the payload's length is not a
/// multiple of the stride.
pub fn gbt_words(payload: &[u8], data_format: u8) -> (r: Result<Vec<Vec<u8>>, String>)
    ensures
        payload@.len() as int % spec_stride(data_format) == 0 ==> (r matches Ok(words) && {
            &&& words@.len() == payload@.len() as int / spec_stride(data_format)
            &&& forall|i: int|
                0 <= i < words@.len() ==> #[trigger] words@[i]@ == payload@.subrange(
                    i * spec_stride(data_format),
                    i * spec_stride(data_format) + 10,
                )
        }),
        payload@.len() as int % spec_stride(data_format) != 0 ==> (r matches Err(msg) && msg@
            == spec_invalid_stride_msg(payload@.len(), data_format)),
{
    let stride = stride_of(data_format);
    if payload.len() % stride != 0 {
        let mut msg = String::new();
        msg.append("InvalidFormat: payload length ");
        push_dec(&mut msg, payload.len() as u64);
        msg.append(" is not a multiple of ");
        push_dec(&mut msg, stride as u64);
        proof {
            assert(msg@ =~= spec_invalid_stride_msg(payload@.len(), data_format));
        }
        return Err(msg);
    }
    let count = payload.len() / stride;
    let mut words: Vec<Vec<u8>> = Vec::new();
    let mut i: usize = 0;
    while i < count
        invariant
            0 <= i <= count,
            payload@.len() <= usize::MAX,
            stride == spec_stride(data_format),
            count == payload@.len() as int / spec_stride(data_format),
            payload@.len() as int % spec_stride(data_format) == 0,
            words@.len() == i,
            forall|k: int|
                0 <= k < i ==> #[trigger] words@[k]@ == payload@.subrange(
                    k * spec_stride(data_format),
                    k * spec_stride(data_format) + 10,
                ),
        decreases count - i,
    {
        proof {
            assert(i * stride + stride <= count * stride) by (nonlinear_arith)
                requires
                    i < count,
                    stride > 0,
            ;
            assert(count * stride == payload@.len()) by (nonlinear_arith)
                requires
                    count == payload@.len() as int / (stride as int),
                    payload@.len() as int % (stride as int) == 0,
                    stride > 0,
            ;
        }
        let base = i * stride;
        let mut word: Vec<u8> = Vec::new();
        let mut j: usize = 0;
        while j < 10
            invariant
                0 <= j <= 10,
                payload@.len() <= usize::MAX,
                base + 10 <= payload@.len(),
                word@.len() == j,
                forall|k: int| 0 <= k < j ==> word@[k] == payload@[base + k],
            decreases 10 - j,
        {
            word.push(payload[base + j]);
            j = j + 1;
        }
        proof {
            assert(word@ =~= payload@.subrange(
                i as int * spec_stride(data_format),
                i as int * spec_stride(data_format) + 10,
            ));
        }
        words.push(word);
        i = i + 1;
    }
    Ok(words)
}

/// Each GBT word of a well-formed payload is 10 bytes long, and there are
/// exactly `len / stride` of them.
pub proof fn lemma_gbt_word_shape(payload: Seq<u8>, data_format: u8, words: Seq<Seq<u8>>)
    requires
        payload.len() as int % spec_stride(data_format) == 0,
        words.len() == payload.len() as int / spec_stride(data_format),
        forall|i: int|
            0 <= i < words.len() ==> #[trigger] words[i] == payload.subrange(
                i * spec_stride(data_format),
                i * spec_stride(data_format) + 10,
            ),
    ensures
        forall|i: int| 0 <= i < words.len() ==> #[trigger] words[i].len() == 10,
{
    assert forall|i: int| 0 <= i < words.len() implies #[trigger] words[i].len() == 10 by {
        assert(i * spec_stride(data_format) + 10 <= payload.len() as int) by (nonlinear_arith)
            requires
                0 <= i < words.len(),
                words.len() == payload.len() as int / spec_stride(data_format),
                payload.len() as int % spec_stride(data_format) == 0,
                spec_stride(data_format) == 16 || spec_stride(data_format) == 10,
        ;
        assert(i * spec_stride(data_format) >= 0) by (nonlinear_arith)
            requires
                i >= 0,
                spec_stride(data_format) > 0,
        ;
    }
}

} // verus!
