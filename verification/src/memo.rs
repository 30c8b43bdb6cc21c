//! Correlation tags derived from short neuron names.
//!
//! A neuron name of at most eight raw bytes is padded on the left with zero
//! bytes to exactly eight bytes, which are then read as a big-endian
//! unsigned integer. The result tags a transfer so that a later claim can be
//! matched to it.

use vstd::prelude::*;

verus! {

/// The largest number of raw bytes a neuron name may occupy.
pub const MAX_NAME_BYTES: usize = 8;

/// The rejection reported for a name that is too long.
pub open spec fn name_too_long_message() -> Seq<char> {
    "The neuron name must be 8 character or less"@
}

/// The raw bytes of a name: its UTF-8 form, which for an ASCII name is one
/// byte for each character.
pub open spec fn raw_bytes(name: Seq<char>) -> Seq<u8> {
    vstd::utf8::encode_utf8(name)
}

/// Whether the raw bytes of a name fit into a memo.
pub open spec fn name_fits(bytes: Seq<u8>) -> bool {
    bytes.len() <= 8
}

/// The unsigned integer that a byte string denotes when read big-endian:
/// the last byte is the least significant one.
pub open spec fn be_value(bytes: Seq<u8>) -> nat
    decreases bytes.len(),
{
    if bytes.len() == 0 {
        0
    } else {
        256 * be_value(bytes.drop_last()) + bytes.last() as nat
    }
}

/// A byte string padded on the left with zero bytes up to eight bytes.
pub open spec fn left_padded(bytes: Seq<u8>) -> Seq<u8>
    recommends
        name_fits(bytes),
{
    Seq::new((8 - bytes.len()) as nat, |i: int| 0u8) + bytes
}

/// The memo of a name given by its raw bytes.
pub open spec fn memo_of(bytes: Seq<u8>) -> nat
    recommends
        name_fits(bytes),
{
    be_value(left_padded(bytes))
}

/// Leading zero bytes do not change a big-endian value.
pub proof fn lemma_be_value_leading_zeros(zeros: nat, bytes: Seq<u8>)
    ensures
        be_value(Seq::new(zeros, |i: int| 0u8) + bytes) == be_value(bytes),
    decreases bytes.len(),
{
    let pad = Seq::new(zeros, |i: int| 0u8);
    if bytes.len() == 0 {
        assert(pad + bytes =~= pad);
        lemma_be_value_zeros(zeros);
    } else {
        assert((pad + bytes).drop_last() =~= pad + bytes.drop_last());
        assert((pad + bytes).last() == bytes.last());
        lemma_be_value_leading_zeros(zeros, bytes.drop_last());
    }
}

/// A string of zero bytes has the big-endian value zero.
pub proof fn lemma_be_value_zeros(zeros: nat)
    ensures
        be_value(Seq::new(zeros, |i: int| 0u8)) == 0,
    decreases zeros,
{
    let pad = Seq::new(zeros, |i: int| 0u8);
    if zeros > 0 {
        assert(pad.drop_last() =~= Seq::new((zeros - 1) as nat, |i: int| 0u8));
        lemma_be_value_zeros((zeros - 1) as nat);
    }
}

/// A big-endian value of `n` bytes is below `256^n`; stated here for the
/// lengths up to eight, where the bound is a machine integer.
pub proof fn lemma_be_value_bound(bytes: Seq<u8>)
    requires
        bytes.len() <= 8,
    ensures
        be_value(bytes) < bound_for(bytes.len()),
    decreases bytes.len(),
{
    if bytes.len() > 0 {
        lemma_be_value_bound(bytes.drop_last());
    }
}

/// `256^len` for `len` up to eight.
pub open spec fn bound_for(len: nat) -> nat
    recommends
        len <= 8,
{
    if len == 0 {
        1
    } else if len == 1 {
        0x100
    } else if len == 2 {
        0x1_0000
    } else if len == 3 {
        0x100_0000
    } else if len == 4 {
        0x1_0000_0000
    } else if len == 5 {
        0x100_0000_0000
    } else if len == 6 {
        0x1_0000_0000_0000
    } else if len == 7 {
        0x100_0000_0000_0000
    } else {
        0x1_0000_0000_0000_0000
    }
}

/// Accepts exactly the names whose raw form is at most eight bytes long.
pub fn neuron_name_validator(name: &str) -> (res: Result<(), String>)
    ensures
        res is Ok <==> name_fits(raw_bytes(name@)),
        res matches Err(msg) ==> msg@ == name_too_long_message(),
{
    if name.as_bytes().len() > MAX_NAME_BYTES {
        return Err("The neuron name must be 8 character or less".to_string());
    }
    Ok(())
}

/// The memo of a name that fits: its bytes, left-padded with zeros to eight
/// bytes, read as a big-endian integer.
pub fn convert_name_to_memo(name: &str) -> (memo: u64)
    requires
        name_fits(raw_bytes(name@)),
    ensures
        memo == memo_of(raw_bytes(name@)),
        memo == be_value(raw_bytes(name@)),
{
    let bytes = name.as_bytes();
    let mut memo: u64 = 0;
    let mut i: usize = 0;
    while i < bytes.len()
        invariant
            i <= bytes.len() <= 8,
            memo == be_value(bytes@.take(i as int)),
        decreases bytes.len() - i,
    {
        proof {
            assert(bytes@.take(i + 1).drop_last() =~= bytes@.take(i as int));
            assert(bytes@.take(i + 1).last() == bytes@[i as int]);
            lemma_be_value_bound(bytes@.take(i + 1));
        }
        memo = memo * 256 + bytes[i] as u64;
        i += 1;
    }
    proof {
        assert(bytes@.take(i as int) =~= bytes@);
        lemma_be_value_leading_zeros((8 - bytes@.len()) as nat, bytes@);
    }
    memo
}

/// The memo of a name, or the rejection of a name that is too long. Nothing
/// is encoded for a name that is rejected.
pub fn memo_from_name(name: &str) -> (res: Result<u64, String>)
    ensures
        res is Ok <==> name_fits(raw_bytes(name@)),
        res matches Ok(memo) ==> memo == memo_of(raw_bytes(name@)),
        res matches Err(msg) ==> msg@ == name_too_long_message(),
{
    match neuron_name_validator(name) {
        Ok(_) => Ok(convert_name_to_memo(name)),
        Err(msg) => Err(msg),
    }
}

} // verus!
