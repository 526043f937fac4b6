use vstd::prelude::*;
use vstd::string::StrSliceExecFns;
use crate::error::UpdateError;

verus! {

/// The board's channel code for a one-letter channel label: `A` to `H` give 0 to 7.
pub open spec fn channel_code_of(label: Seq<char>) -> Option<u32> {
    if label.len() != 1 {
        None
    } else if label[0] == 'A' {
        Some(0)
    } else if label[0] == 'B' {
        Some(1)
    } else if label[0] == 'C' {
        Some(2)
    } else if label[0] == 'D' {
        Some(3)
    } else if label[0] == 'E' {
        Some(4)
    } else if label[0] == 'F' {
        Some(5)
    } else if label[0] == 'G' {
        Some(6)
    } else if label[0] == 'H' {
        Some(7)
    } else {
        None
    }
}

/// Resolves a calibration's channel label to the board's channel code.
pub fn dac_channel_code(label: &str) -> (r: Result<u32, UpdateError>)
    ensures
        r == match channel_code_of(label@) {
            Some(c) => Ok::<u32, UpdateError>(c),
            None => Err(UpdateError::InvalidChannelIndex),
        },
{
    if label.unicode_len() != 1 {
        return Err(UpdateError::InvalidChannelIndex);
    }
    match label.get_char(0) {
        'A' => Ok(0),
        'B' => Ok(1),
        'C' => Ok(2),
        'D' => Ok(3),
        'E' => Ok(4),
        'F' => Ok(5),
        'G' => Ok(6),
        'H' => Ok(7),
        _ => Err(UpdateError::InvalidChannelIndex),
    }
}

/// The labels `A` to `H` are exactly the labels with a channel code, and
/// they give the codes 0 to 7 in order.
pub proof fn lemma_channel_table(label: Seq<char>)
    ensures
        channel_code_of(seq!['A']) == Some(0u32),
        channel_code_of(seq!['B']) == Some(1u32),
        channel_code_of(seq!['C']) == Some(2u32),
        channel_code_of(seq!['D']) == Some(3u32),
        channel_code_of(seq!['E']) == Some(4u32),
        channel_code_of(seq!['F']) == Some(5u32),
        channel_code_of(seq!['G']) == Some(6u32),
        channel_code_of(seq!['H']) == Some(7u32),
        channel_code_of(label) is Some <==> (label.len() == 1 && 'A' <= label[0] <= 'H'),
{
}

} // verus!
