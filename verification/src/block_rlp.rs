//! The parts of an RLP-encoded block, as `alloy_consensus` and `alloy_eips`
//! decode them: the header, the transactions, the uncles and the
//! withdrawals, and the transactions again with each one's recovered sender.
use alloy_consensus::transaction::Recovered;
use alloy_consensus::TxEnvelope;
use vstd::prelude::*;

verus! {

/// What `<alloy_consensus::Header as Decodable>::decode` leaves of a buffer
/// once it has read a block header from its start, or `None` where it fails.
pub uninterp spec fn block_header_decoding(buf: Seq<u8>) -> Option<Seq<u8>>;

/// What `<Vec<alloy_consensus::TxEnvelope> as Decodable>::decode` leaves of a
/// buffer once it has read a list of transactions from its start, or `None`
/// where it fails.
pub uninterp spec fn transactions_decoding(buf: Seq<u8>) -> Option<Seq<u8>>;

/// The senders that `<Vec<Recovered<alloy_consensus::TxEnvelope>> as
/// Decodable>::decode` recovers, in order, for the transaction list at the
/// start of a buffer, or `None` where decoding or a recovery fails.
pub uninterp spec fn recovered_senders(buf: Seq<u8>) -> Option<Seq<[u8; 20]>>;

/// What `<Vec<alloy_consensus::Header> as Decodable>::decode` leaves of a
/// buffer once it has read a list of uncle headers from its start, or `None`
/// where it fails.
pub uninterp spec fn uncles_decoding(buf: Seq<u8>) -> Option<Seq<u8>>;

/// What `<Vec<alloy_eips::eip4895::Withdrawal> as Decodable>::decode` leaves
/// of a buffer once it has read a list of withdrawals from its start, or
/// `None` where it fails.
pub uninterp spec fn withdrawals_decoding(buf: Seq<u8>) -> Option<Seq<u8>>;

/// `rest` is what is left of `buf` after at least one byte was read from its
/// start.
pub open spec fn strict_suffix(buf: Seq<u8>, rest: Seq<u8>) -> bool {
    rest.len() < buf.len() && rest == buf.skip(buf.len() - rest.len())
}

/// Calls `<alloy_consensus::Header as Decodable>::decode` and keeps what is
/// left of the buffer. Its outcome is named by `block_header_decoding`; the
/// claim beside the name is that a success reads at least the list header.
#[verifier::external_body]
pub(crate) fn decode_block_header(buf: &[u8]) -> (res: Option<&[u8]>)
    ensures
        match res {
            Some(rest) => block_header_decoding(buf@) == Some(rest@),
            None => block_header_decoding(buf@) is None,
        },
        res matches Some(rest) ==> strict_suffix(buf@, rest@),
{
    let mut rest = buf;
    match <alloy_consensus::Header as alloy_rlp::Decodable>::decode(&mut rest) {
        Ok(_) => Some(rest),
        Err(_) => None,
    }
}

/// Calls `<Vec<alloy_consensus::TxEnvelope> as Decodable>::decode` and keeps
/// what is left of the buffer. Its outcome is named by
/// `transactions_decoding`; the claim beside the name is that a success reads
/// at least the list header.
#[verifier::external_body]
pub(crate) fn decode_transactions(buf: &[u8]) -> (res: Option<&[u8]>)
    ensures
        match res {
            Some(rest) => transactions_decoding(buf@) == Some(rest@),
            None => transactions_decoding(buf@) is None,
        },
        res matches Some(rest) ==> strict_suffix(buf@, rest@),
{
    let mut rest = buf;
    match <Vec<alloy_consensus::TxEnvelope> as alloy_rlp::Decodable>::decode(&mut rest) {
        Ok(_) => Some(rest),
        Err(_) => None,
    }
}

/// Calls `<Vec<Recovered<alloy_consensus::TxEnvelope>> as Decodable>::decode`,
/// which decodes each transaction of the list and recovers its sender, and
/// hands back the senders in order. Its outcome is named by
/// `recovered_senders`; nothing more is claimed, since recovery rests on
/// elliptic-curve arithmetic over each signature.
#[verifier::external_body]
pub(crate) fn decode_recovered_senders(buf: &[u8]) -> (res: Option<Vec<[u8; 20]>>)
    ensures
        match res {
            Some(senders) => recovered_senders(buf@) == Some(senders@),
            None => recovered_senders(buf@) is None,
        },
{
    let mut rest = buf;
    match <Vec<Recovered<TxEnvelope>> as alloy_rlp::Decodable>::decode(&mut rest) {
        Ok(txs) => Some(txs.iter().map(|tx| tx.signer().into_array()).collect()),
        Err(_) => None,
    }
}

/// Calls `<Vec<alloy_consensus::Header> as Decodable>::decode` and keeps what
/// is left of the buffer. Its outcome is named by `uncles_decoding`; the claim
/// beside the name is that a success reads at least the list header.
#[verifier::external_body]
pub(crate) fn decode_uncles(buf: &[u8]) -> (res: Option<&[u8]>)
    ensures
        match res {
            Some(rest) => uncles_decoding(buf@) == Some(rest@),
            None => uncles_decoding(buf@) is None,
        },
        res matches Some(rest) ==> strict_suffix(buf@, rest@),
{
    let mut rest = buf;
    match <Vec<alloy_consensus::Header> as alloy_rlp::Decodable>::decode(&mut rest) {
        Ok(_) => Some(rest),
        Err(_) => None,
    }
}

/// Calls `<Vec<alloy_eips::eip4895::Withdrawal> as Decodable>::decode` and
/// keeps what is left of the buffer. Its outcome is named by
/// `withdrawals_decoding`; the claim beside the name is that a success reads
/// at least the list header.
#[verifier::external_body]
pub(crate) fn decode_withdrawals(buf: &[u8]) -> (res: Option<&[u8]>)
    ensures
        match res {
            Some(rest) => withdrawals_decoding(buf@) == Some(rest@),
            None => withdrawals_decoding(buf@) is None,
        },
        res matches Some(rest) ==> strict_suffix(buf@, rest@),
{
    let mut rest = buf;
    match <Vec<alloy_eips::eip4895::Withdrawal> as alloy_rlp::Decodable>::decode(&mut rest) {
        Ok(_) => Some(rest),
        Err(_) => None,
    }
}

} // verus!
