//! The buffer of a logging account: where an upload lands in it, and how it is
//! cut into pieces when it is written to the log.

use vstd::prelude::*;

verus! {

/// Where the buffer starts in the data of a logging account: after the
/// discriminator of eight bytes and the authority of 32.
pub const METADATA_BUFFER_START: usize = 40;

/// The most bytes that one entry of the log can carry.
pub const MAX_CPI_BYTES: usize = 1238;

/// Where `len` bytes uploaded at offset `index` of the buffer lie in account
/// data of `data_len` bytes, if they fit.
pub open spec fn upload_span(data_len: usize, index: u32, len: usize) -> Option<(usize, usize)> {
    if METADATA_BUFFER_START + index + len <= data_len {
        Some(
            (
                (METADATA_BUFFER_START + index) as usize,
                (METADATA_BUFFER_START + index + len) as usize,
            ),
        )
    } else {
        None
    }
}

/// The piece of account data of `data_len` bytes that is logged from
/// `position` on, if anything is left: at most `MAX_CPI_BYTES` bytes.
pub open spec fn log_piece(position: usize, data_len: usize) -> Option<(usize, usize)> {
    if position >= data_len {
        None
    } else if data_len - position <= MAX_CPI_BYTES {
        Some((position, data_len))
    } else {
        Some((position, (position + MAX_CPI_BYTES) as usize))
    }
}

/// The range of account data that an upload of `len` bytes at offset `index`
/// of the buffer overwrites; `None` where the bytes do not fit in the account.
pub fn upload_range(data_len: usize, index: u32, len: usize) -> (range: Option<(usize, usize)>)
    ensures
        range == upload_span(data_len, index, len),
{
    if data_len < METADATA_BUFFER_START {
        return None;
    }
    let room = data_len - METADATA_BUFFER_START;
    if index as usize > room || len > room - index as usize {
        return None;
    }
    let start = METADATA_BUFFER_START + index as usize;
    Some((start, start + len))
}

/// The next piece of the buffer to write to the log, from `position` on. The
/// first piece starts at `METADATA_BUFFER_START`, each next one where the last
/// ended, until `None` comes back.
pub fn next_log_piece(position: usize, data_len: usize) -> (piece: Option<(usize, usize)>)
    ensures
        piece == log_piece(position, data_len),
{
    if position >= data_len {
        None
    } else if data_len - position <= MAX_CPI_BYTES {
        Some((position, data_len))
    } else {
        Some((position, position + MAX_CPI_BYTES))
    }
}

} // verus!
