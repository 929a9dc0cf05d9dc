//! Bitwork: the proof-of-work prefix that a transaction id must show.

use vstd::prelude::*;
use vstd::utf8::{encode_utf8, is_char_boundary};
use crate::text::{all_hex, all_hex_digits, byte_len, bytes_at, bytes_eq_at, char_len, find_char, has_char, substring};
use crate::types::arc20::{Arc20Config, Arc20Token};
use crate::types::transaction::Transaction;

verus! {

/// What a fungible-token mint is asked to do: the token, who receives it and
/// the fee rate in satoshis per virtual byte.
#[derive(Debug, Clone)]
pub struct MintConfig {
    pub arc20: Arc20Config,
    pub recipient_address: String,
    pub fee_rate: u64,
}

/// A finished mint: the token, the transaction and its id.
#[derive(Debug)]
pub struct MintResult {
    pub token: Arc20Token,
    pub transaction: Transaction,
    pub txid: String,
}

/// A bitwork requirement: a hex prefix, an optional extension that must follow
/// it, and the difficulty in bits.
#[derive(Debug, Clone)]
pub struct BitworkInfo {
    pub prefix: String,
    pub ext: Option<String>,
    pub difficulty: u32,
}

/// Position of the first occurrence of `c` in `s` (meaningful where `s` has one).
pub open spec fn first_index_of(s: Seq<char>, c: char) -> int {
    choose|i: int| 0 <= i < s.len() && s[i] == c && forall|j: int| 0 <= j < i ==> s[j] != c
}

/// The prefix and extension that a bitwork text `prefix[:ext]` names, or
/// `None` where it holds more than one colon.
pub open spec fn bitwork_fields(input: Seq<char>) -> Option<(Seq<char>, Option<Seq<char>>)> {
    if !has_char(input, ':') {
        Some((input, None))
    } else {
        let k = first_index_of(input, ':');
        let rest = input.subrange(k + 1, input.len() as int);
        if has_char(rest, ':') {
            None
        } else {
            Some((input.subrange(0, k), Some(rest)))
        }
    }
}

/// The bitwork that stands in for an empty or malformed text: prefix "0000",
/// no extension, difficulty 16.
pub open spec fn is_default_bitwork(b: BitworkInfo) -> bool {
    b.prefix@ == "0000"@ && b.ext is None && b.difficulty == 16
}

/// Whether `new` uses the default bitwork for `input`.
pub open spec fn bitwork_falls_back(input: Seq<char>) -> bool {
    input.len() == 0 || bitwork_fields(input) is None || !all_hex(bitwork_fields(input).unwrap().0)
}

/// The difficulty that a hex prefix of `len` digits gives: four bits per digit,
/// computed on the length truncated to a `u32`.
pub open spec fn prefix_difficulty(len: nat) -> u32 {
    ((len as u32) * 4) as u32
}

/// The prefix of the bitwork, as bytes.
pub open spec fn prefix_bytes(b: BitworkInfo) -> Seq<u8> {
    encode_utf8(b.prefix@)
}

/// Whether the bytes `txid` show the bitwork: they start with the prefix and,
/// where there is an extension, the extension follows directly.
pub open spec fn bitwork_matches(prefix: Seq<u8>, ext: Option<Seq<u8>>, txid: Seq<u8>) -> bool {
    &&& bytes_at(txid, 0, prefix)
    &&& match ext {
        None => true,
        Some(e) => bytes_at(txid, prefix.len() as int, e),
    }
}

/// Where a bitwork is shown: the id's bytes begin with the prefix's and,
/// where there is an extension, the extension's bytes stand right after the
/// prefix, at offset `prefix.len()`; nowhere else counts.
pub proof fn law_bitwork_position(prefix: Seq<u8>, ext: Option<Seq<u8>>, txid: Seq<u8>)
    ensures
        bitwork_matches(prefix, ext, txid) <==> (
            prefix.len() <= txid.len() && txid.subrange(0, prefix.len() as int) == prefix
            && match ext {
                None => true,
                Some(e) => prefix.len() + e.len() <= txid.len()
                    && txid.subrange(prefix.len() as int, (prefix.len() + e.len()) as int) == e,
            }),
{
}

/// `matches` slices `txid` at these two byte offsets; they must fall between characters.
pub open spec fn ext_slice_on_boundaries(prefix: Seq<u8>, ext: Option<Seq<u8>>, txid: Seq<u8>) -> bool {
    match ext {
        None => true,
        Some(e) => (bytes_at(txid, 0, prefix) && prefix.len() + e.len() <= txid.len()) ==> (
            is_char_boundary(txid, prefix.len() as int) && is_char_boundary(txid, (prefix.len() + e.len()) as int)),
    }
}

impl BitworkInfo {
    fn fallback() -> (r: Self)
        ensures
            is_default_bitwork(r),
    {
        BitworkInfo { prefix: "0000".to_string(), ext: None, difficulty: 16 }
    }

    /// Reads a bitwork text `prefix` or `prefix:ext`. The prefix must be hex;
    /// an empty text, more than one colon or a prefix that is not hex give the
    /// default bitwork. The difficulty is four bits per prefix byte.
    pub fn new(input: String) -> (r: Self)
        requires
            !bitwork_falls_back(input@) ==> bitwork_fields(input@).unwrap().0.len() as u32 <= 0x3fff_ffffu32,
        ensures
            bitwork_falls_back(input@) ==> is_default_bitwork(r),
            !bitwork_falls_back(input@) ==> ({
                let (p, e) = bitwork_fields(input@).unwrap();
                &&& r.prefix@ == p
                &&& (match e {
                    None => r.ext is None,
                    Some(x) => r.ext matches Some(y) && y@ == x,
                })
                &&& r.difficulty == prefix_difficulty(p.len())
            }),
    {
        let s = input.as_str();
        let n = char_len(s);
        if n == 0 {
            return Self::fallback();
        }
        let (prefix, ext): (String, Option<String>) = match find_char(s, ':') {
            None => (substring(s, 0, n), None),
            Some(k) => {
                proof {
                    let w = first_index_of(input@, ':');
                    assert(0 <= w < input@.len() && input@[w] == ':');
                    if w < k {
                        assert(false);
                    } else if w > k {
                        assert(false);
                    }
                }
                let rest = substring(s, k + 1, n);
                if find_char(rest.as_str(), ':').is_some() {
                    return Self::fallback();
                }
                (substring(s, 0, k), Some(rest))
            },
        };
        proof {
            assert(!has_char(input@, ':') ==> input@.subrange(0, n as int) =~= input@);
        }
        if !all_hex_digits(prefix.as_str()) {
            return Self::fallback();
        }
        let len = char_len(prefix.as_str());
        let difficulty = (len as u32) * 4;
        BitworkInfo { prefix, ext, difficulty }
    }

    /// Sets the extension.
    pub fn with_ext(self, ext: String) -> (r: Self)
        ensures
            r == (BitworkInfo { ext: Some(ext), ..self }),
    {
        BitworkInfo { ext: Some(ext), ..self }
    }

    /// Whether `txid` starts with the prefix, followed directly by the
    /// extension where there is one (compared byte by byte).
    pub fn matches(&self, txid: &str) -> (r: bool)
        requires
            ext_slice_on_boundaries(
                prefix_bytes(*self),
                match self.ext { Some(e) => Some(encode_utf8(e@)), None => None },
                encode_utf8(txid@),
            ),
        ensures
            r == bitwork_matches(
                prefix_bytes(*self),
                match self.ext { Some(e) => Some(encode_utf8(e@)), None => None },
                encode_utf8(txid@),
            ),
    {
        let t = txid.as_bytes();
        let p = self.prefix.as_str().as_bytes();
        if !bytes_eq_at(t, 0, p) {
            return false;
        }
        match &self.ext {
            None => true,
            Some(e) => bytes_eq_at(t, p.len(), e.as_str().as_bytes()),
        }
    }
}

} // verus!
