//! Mining pool attribution from a block's coinbase.
//!
//! The coinbase input of a block's first transaction carries free-form data
//! that pools use to tag their blocks. The data is hex-decoded, read as UTF-8
//! (invalid sequences replaced), and scanned for known pool tags in a fixed
//! order; the first tag found names the pool.
use vstd::prelude::*;
use vstd::utf8::*;

use crate::text::{chars_of, occurs, occurs_in};

verus! {

#[verifier::external_type_specification]
#[verifier::external_body]
pub struct ExFromHexError(hex::FromHexError);

/// A character that `hex::decode` accepts as a digit.
pub open spec fn is_hex_digit(c: char) -> bool {
    ('0' <= c && c <= '9') || ('a' <= c && c <= 'f') || ('A' <= c && c <= 'F')
}

/// The value of a hexadecimal digit.
pub open spec fn hex_digit_value(c: char) -> int {
    if '0' <= c && c <= '9' {
        (c as int) - ('0' as int)
    } else if 'a' <= c && c <= 'f' {
        (c as int) - ('a' as int) + 10
    } else {
        (c as int) - ('A' as int) + 10
    }
}

/// Text that `hex::decode` accepts: an even number of hexadecimal digits.
pub open spec fn is_hex_text(s: Seq<char>) -> bool {
    &&& s.len() % 2 == 0
    &&& forall|i: int| 0 <= i < s.len() ==> #[trigger] is_hex_digit(s[i])
}

/// The bytes that hex text stands for: each pair of digits is one byte, the
/// first digit of the pair being the high nibble.
pub open spec fn hex_bytes(s: Seq<char>) -> Seq<u8> {
    Seq::new(
        s.len() / 2,
        |i: int| (16 * hex_digit_value(s[2 * i]) + hex_digit_value(s[2 * i + 1])) as u8,
    )
}

/// Calls `hex::decode` on the UTF-8 bytes of `s`.
///
/// Claimed of it: the decoding succeeds exactly when `s` is an even number of
/// ASCII hexadecimal digits (either case), and then yields one byte per pair
/// of digits, high nibble first. (A character that is not an ASCII hex digit
/// puts a byte outside `0-9a-fA-F` into the input, which `hex::decode`
/// rejects, by its odd-length check or its digit check.) Which error variant
/// comes back is not stated.
#[verifier::external_body]
fn decode_hex(s: &str) -> (r: Result<Vec<u8>, hex::FromHexError>)
    ensures
        r is Ok <==> is_hex_text(s@),
        r matches Ok(bytes) ==> bytes@ == hex_bytes(s@),
{
    hex::decode(s)
}

/// The text that `String::from_utf8_lossy` makes of a byte sequence.
pub uninterp spec fn utf8_lossy(bytes: Seq<u8>) -> Seq<char>;

/// Calls `String::from_utf8_lossy` and takes the result as an owned string.
///
/// Claimed of it: the result is a function of the bytes alone (named
/// `utf8_lossy`), and for valid UTF-8 it is the decoded text. How invalid
/// sequences are replaced is not stated.
#[verifier::external_body]
fn decode_utf8_lossy(bytes: &[u8]) -> (text: String)
    ensures
        text@ == utf8_lossy(bytes@),
        valid_utf8(bytes@) ==> text@ == decode_utf8(bytes@),
{
    String::from_utf8_lossy(bytes).into_owned()
}

/// Number of entries in the pool tag table.
pub const POOL_TAG_COUNT: usize = 14;

/// Entry `k` of the pool tag table: the pool's name and the tag it writes
/// into its coinbases. Earlier entries take precedence.
pub open spec fn pool_tag(k: int) -> (Seq<char>, Seq<char>) {
    if k == 0 {
        ("AntPool"@, "AntPool"@)
    } else if k == 1 {
        ("F2Pool"@, "F2Pool"@)
    } else if k == 2 {
        ("ViaBTC"@, "ViaBTC"@)
    } else if k == 3 {
        ("Foundry USA"@, "Foundry USA"@)
    } else if k == 4 {
        ("SlushPool"@, "slush"@)
    } else if k == 5 {
        ("Binance Pool"@, "Binance"@)
    } else if k == 6 {
        ("BTC.com"@, "BTC.com"@)
    } else if k == 7 {
        ("Poolin"@, "Poolin"@)
    } else if k == 8 {
        ("Luxor"@, "Luxor"@)
    } else if k == 9 {
        ("MARA Pool"@, "MARA"@)
    } else if k == 10 {
        ("SpiderPool"@, "Spider"@)
    } else if k == 11 {
        ("BitFury"@, "BitFury"@)
    } else if k == 12 {
        ("Ocean"@, "/ocean/"@)
    } else {
        ("SBI Crypto"@, "SBI"@)
    }
}

/// The label of blocks that carry none of the known tags.
pub open spec fn unknown_pool() -> Seq<char> {
    "Solo/Unknown"@
}

/// The pool named by the first table entry, from entry `k` on, whose tag
/// occurs in `text`; the unknown label if none does.
pub open spec fn first_tagged_pool(text: Seq<char>, k: nat) -> Seq<char>
    decreases POOL_TAG_COUNT - k,
{
    if k >= POOL_TAG_COUNT {
        unknown_pool()
    } else if occurs_in(pool_tag(k as int).1, text) {
        pool_tag(k as int).0
    } else {
        first_tagged_pool(text, k + 1)
    }
}

/// The pool a block is attributed to, given its decoded coinbase text.
pub open spec fn attributed_pool(text: Seq<char>) -> Seq<char> {
    first_tagged_pool(text, 0)
}

/// Entries `m` up to (not including) `k` whose tags do not occur in the text
/// do not affect the attribution.
proof fn lemma_untagged_entries_skipped(text: Seq<char>, m: nat, k: nat)
    requires
        m <= k <= POOL_TAG_COUNT,
        forall|j: int| m <= j < k ==> !occurs_in(#[trigger] pool_tag(j).1, text),
    ensures
        first_tagged_pool(text, m) == first_tagged_pool(text, k),
    decreases k - m,
{
    if m < k {
        assert(!occurs_in(pool_tag(m as int).1, text));
        lemma_untagged_entries_skipped(text, m + 1, k);
    }
}

/// A block is attributed to the pool of the first table entry whose tag
/// occurs in its coinbase text.
pub proof fn lemma_attribution_is_first_match(text: Seq<char>, k: int)
    requires
        0 <= k < POOL_TAG_COUNT,
        occurs_in(pool_tag(k).1, text),
        forall|j: int| 0 <= j < k ==> !occurs_in(#[trigger] pool_tag(j).1, text),
    ensures
        attributed_pool(text) == pool_tag(k).0,
{
    lemma_untagged_entries_skipped(text, 0, k as nat);
}

/// A block whose coinbase text carries none of the known tags is labelled
/// `Solo/Unknown`.
pub proof fn lemma_untagged_block_is_unknown(text: Seq<char>)
    requires
        forall|j: int| 0 <= j < POOL_TAG_COUNT ==> !occurs_in(#[trigger] pool_tag(j).1, text),
    ensures
        attributed_pool(text) == unknown_pool(),
{
    lemma_untagged_entries_skipped(text, 0, POOL_TAG_COUNT as nat);
}

/// The pool tag table, entry by entry: a coinbase text holding a pool's tag,
/// and none of the tags listed before it, is attributed to that pool; in order
/// the (pool, tag) entries are (AntPool, `AntPool`), (F2Pool, `F2Pool`),
/// (ViaBTC, `ViaBTC`), (Foundry USA, `Foundry USA`), (SlushPool, `slush`),
/// (Binance Pool, `Binance`), (BTC.com, `BTC.com`), (Poolin, `Poolin`),
/// (Luxor, `Luxor`), (MARA Pool, `MARA`), (SpiderPool, `Spider`),
/// (BitFury, `BitFury`), (Ocean, `/ocean/`), (SBI Crypto, `SBI`). A text holding
/// none of these tags is attributed to `Solo/Unknown`.
#[verifier::rlimit(50)]
pub proof fn lemma_pool_tag_table(text: Seq<char>)
    ensures
        (occurs_in("AntPool"@, text)) ==> attributed_pool(text) == "AntPool"@,
        (occurs_in("F2Pool"@, text) && !occurs_in("AntPool"@, text)) ==> attributed_pool(text) == "F2Pool"@,
        (occurs_in("ViaBTC"@, text) && !occurs_in("AntPool"@, text) && !occurs_in("F2Pool"@, text)) ==> attributed_pool(text) == "ViaBTC"@,
        (occurs_in("Foundry USA"@, text) && !occurs_in("AntPool"@, text) && !occurs_in("F2Pool"@, text) && !occurs_in("ViaBTC"@, text)) ==> attributed_pool(text) == "Foundry USA"@,
        (occurs_in("slush"@, text) && !occurs_in("AntPool"@, text) && !occurs_in("F2Pool"@, text) && !occurs_in("ViaBTC"@, text) && !occurs_in("Foundry USA"@, text)) ==> attributed_pool(text) == "SlushPool"@,
        (occurs_in("Binance"@, text) && !occurs_in("AntPool"@, text) && !occurs_in("F2Pool"@, text) && !occurs_in("ViaBTC"@, text) && !occurs_in("Foundry USA"@, text) && !occurs_in("slush"@, text)) ==> attributed_pool(text) == "Binance Pool"@,
        (occurs_in("BTC.com"@, text) && !occurs_in("AntPool"@, text) && !occurs_in("F2Pool"@, text) && !occurs_in("ViaBTC"@, text) && !occurs_in("Foundry USA"@, text) && !occurs_in("slush"@, text) && !occurs_in("Binance"@, text)) ==> attributed_pool(text) == "BTC.com"@,
        (occurs_in("Poolin"@, text) && !occurs_in("AntPool"@, text) && !occurs_in("F2Pool"@, text) && !occurs_in("ViaBTC"@, text) && !occurs_in("Foundry USA"@, text) && !occurs_in("slush"@, text) && !occurs_in("Binance"@, text) && !occurs_in("BTC.com"@, text)) ==> attributed_pool(text) == "Poolin"@,
        (occurs_in("Luxor"@, text) && !occurs_in("AntPool"@, text) && !occurs_in("F2Pool"@, text) && !occurs_in("ViaBTC"@, text) && !occurs_in("Foundry USA"@, text) && !occurs_in("slush"@, text) && !occurs_in("Binance"@, text) && !occurs_in("BTC.com"@, text) && !occurs_in("Poolin"@, text)) ==> attributed_pool(text) == "Luxor"@,
        (occurs_in("MARA"@, text) && !occurs_in("AntPool"@, text) && !occurs_in("F2Pool"@, text) && !occurs_in("ViaBTC"@, text) && !occurs_in("Foundry USA"@, text) && !occurs_in("slush"@, text) && !occurs_in("Binance"@, text) && !occurs_in("BTC.com"@, text) && !occurs_in("Poolin"@, text) && !occurs_in("Luxor"@, text)) ==> attributed_pool(text) == "MARA Pool"@,
        (occurs_in("Spider"@, text) && !occurs_in("AntPool"@, text) && !occurs_in("F2Pool"@, text) && !occurs_in("ViaBTC"@, text) && !occurs_in("Foundry USA"@, text) && !occurs_in("slush"@, text) && !occurs_in("Binance"@, text) && !occurs_in("BTC.com"@, text) && !occurs_in("Poolin"@, text) && !occurs_in("Luxor"@, text) && !occurs_in("MARA"@, text)) ==> attributed_pool(text) == "SpiderPool"@,
        (occurs_in("BitFury"@, text) && !occurs_in("AntPool"@, text) && !occurs_in("F2Pool"@, text) && !occurs_in("ViaBTC"@, text) && !occurs_in("Foundry USA"@, text) && !occurs_in("slush"@, text) && !occurs_in("Binance"@, text) && !occurs_in("BTC.com"@, text) && !occurs_in("Poolin"@, text) && !occurs_in("Luxor"@, text) && !occurs_in("MARA"@, text) && !occurs_in("Spider"@, text)) ==> attributed_pool(text) == "BitFury"@,
        (occurs_in("/ocean/"@, text) && !occurs_in("AntPool"@, text) && !occurs_in("F2Pool"@, text) && !occurs_in("ViaBTC"@, text) && !occurs_in("Foundry USA"@, text) && !occurs_in("slush"@, text) && !occurs_in("Binance"@, text) && !occurs_in("BTC.com"@, text) && !occurs_in("Poolin"@, text) && !occurs_in("Luxor"@, text) && !occurs_in("MARA"@, text) && !occurs_in("Spider"@, text) && !occurs_in("BitFury"@, text)) ==> attributed_pool(text) == "Ocean"@,
        (occurs_in("SBI"@, text) && !occurs_in("AntPool"@, text) && !occurs_in("F2Pool"@, text) && !occurs_in("ViaBTC"@, text) && !occurs_in("Foundry USA"@, text) && !occurs_in("slush"@, text) && !occurs_in("Binance"@, text) && !occurs_in("BTC.com"@, text) && !occurs_in("Poolin"@, text) && !occurs_in("Luxor"@, text) && !occurs_in("MARA"@, text) && !occurs_in("Spider"@, text) && !occurs_in("BitFury"@, text) && !occurs_in("/ocean/"@, text)) ==> attributed_pool(text) == "SBI Crypto"@,
        (!occurs_in("AntPool"@, text) && !occurs_in("F2Pool"@, text) && !occurs_in("ViaBTC"@, text) && !occurs_in("Foundry USA"@, text) && !occurs_in("slush"@, text) && !occurs_in("Binance"@, text) && !occurs_in("BTC.com"@, text) && !occurs_in("Poolin"@, text) && !occurs_in("Luxor"@, text) && !occurs_in("MARA"@, text) && !occurs_in("Spider"@, text) && !occurs_in("BitFury"@, text) && !occurs_in("/ocean/"@, text) && !occurs_in("SBI"@, text)) ==> attributed_pool(text) == "Solo/Unknown"@,
{
    if occurs_in("AntPool"@, text) {
        lemma_attribution_is_first_match(text, 0);
    }
    if occurs_in("F2Pool"@, text) && !occurs_in("AntPool"@, text) {
        lemma_attribution_is_first_match(text, 1);
    }
    if occurs_in("ViaBTC"@, text) && !occurs_in("AntPool"@, text) && !occurs_in("F2Pool"@, text) {
        lemma_attribution_is_first_match(text, 2);
    }
    if occurs_in("Foundry USA"@, text) && !occurs_in("AntPool"@, text) && !occurs_in("F2Pool"@, text) && !occurs_in("ViaBTC"@, text) {
        lemma_attribution_is_first_match(text, 3);
    }
    if occurs_in("slush"@, text) && !occurs_in("AntPool"@, text) && !occurs_in("F2Pool"@, text) && !occurs_in("ViaBTC"@, text) && !occurs_in("Foundry USA"@, text) {
        lemma_attribution_is_first_match(text, 4);
    }
    if occurs_in("Binance"@, text) && !occurs_in("AntPool"@, text) && !occurs_in("F2Pool"@, text) && !occurs_in("ViaBTC"@, text) && !occurs_in("Foundry USA"@, text) && !occurs_in("slush"@, text) {
        lemma_attribution_is_first_match(text, 5);
    }
    if occurs_in("BTC.com"@, text) && !occurs_in("AntPool"@, text) && !occurs_in("F2Pool"@, text) && !occurs_in("ViaBTC"@, text) && !occurs_in("Foundry USA"@, text) && !occurs_in("slush"@, text) && !occurs_in("Binance"@, text) {
        lemma_attribution_is_first_match(text, 6);
    }
    if occurs_in("Poolin"@, text) && !occurs_in("AntPool"@, text) && !occurs_in("F2Pool"@, text) && !occurs_in("ViaBTC"@, text) && !occurs_in("Foundry USA"@, text) && !occurs_in("slush"@, text) && !occurs_in("Binance"@, text) && !occurs_in("BTC.com"@, text) {
        lemma_attribution_is_first_match(text, 7);
    }
    if occurs_in("Luxor"@, text) && !occurs_in("AntPool"@, text) && !occurs_in("F2Pool"@, text) && !occurs_in("ViaBTC"@, text) && !occurs_in("Foundry USA"@, text) && !occurs_in("slush"@, text) && !occurs_in("Binance"@, text) && !occurs_in("BTC.com"@, text) && !occurs_in("Poolin"@, text) {
        lemma_attribution_is_first_match(text, 8);
    }
    if occurs_in("MARA"@, text) && !occurs_in("AntPool"@, text) && !occurs_in("F2Pool"@, text) && !occurs_in("ViaBTC"@, text) && !occurs_in("Foundry USA"@, text) && !occurs_in("slush"@, text) && !occurs_in("Binance"@, text) && !occurs_in("BTC.com"@, text) && !occurs_in("Poolin"@, text) && !occurs_in("Luxor"@, text) {
        lemma_attribution_is_first_match(text, 9);
    }
    if occurs_in("Spider"@, text) && !occurs_in("AntPool"@, text) && !occurs_in("F2Pool"@, text) && !occurs_in("ViaBTC"@, text) && !occurs_in("Foundry USA"@, text) && !occurs_in("slush"@, text) && !occurs_in("Binance"@, text) && !occurs_in("BTC.com"@, text) && !occurs_in("Poolin"@, text) && !occurs_in("Luxor"@, text) && !occurs_in("MARA"@, text) {
        lemma_attribution_is_first_match(text, 10);
    }
    if occurs_in("BitFury"@, text) && !occurs_in("AntPool"@, text) && !occurs_in("F2Pool"@, text) && !occurs_in("ViaBTC"@, text) && !occurs_in("Foundry USA"@, text) && !occurs_in("slush"@, text) && !occurs_in("Binance"@, text) && !occurs_in("BTC.com"@, text) && !occurs_in("Poolin"@, text) && !occurs_in("Luxor"@, text) && !occurs_in("MARA"@, text) && !occurs_in("Spider"@, text) {
        lemma_attribution_is_first_match(text, 11);
    }
    if occurs_in("/ocean/"@, text) && !occurs_in("AntPool"@, text) && !occurs_in("F2Pool"@, text) && !occurs_in("ViaBTC"@, text) && !occurs_in("Foundry USA"@, text) && !occurs_in("slush"@, text) && !occurs_in("Binance"@, text) && !occurs_in("BTC.com"@, text) && !occurs_in("Poolin"@, text) && !occurs_in("Luxor"@, text) && !occurs_in("MARA"@, text) && !occurs_in("Spider"@, text) && !occurs_in("BitFury"@, text) {
        lemma_attribution_is_first_match(text, 12);
    }
    if occurs_in("SBI"@, text) && !occurs_in("AntPool"@, text) && !occurs_in("F2Pool"@, text) && !occurs_in("ViaBTC"@, text) && !occurs_in("Foundry USA"@, text) && !occurs_in("slush"@, text) && !occurs_in("Binance"@, text) && !occurs_in("BTC.com"@, text) && !occurs_in("Poolin"@, text) && !occurs_in("Luxor"@, text) && !occurs_in("MARA"@, text) && !occurs_in("Spider"@, text) && !occurs_in("BitFury"@, text) && !occurs_in("/ocean/"@, text) {
        lemma_attribution_is_first_match(text, 13);
    }
    if !occurs_in("AntPool"@, text) && !occurs_in("F2Pool"@, text) && !occurs_in("ViaBTC"@, text) && !occurs_in("Foundry USA"@, text) && !occurs_in("slush"@, text) && !occurs_in("Binance"@, text) && !occurs_in("BTC.com"@, text) && !occurs_in("Poolin"@, text) && !occurs_in("Luxor"@, text) && !occurs_in("MARA"@, text) && !occurs_in("Spider"@, text) && !occurs_in("BitFury"@, text) && !occurs_in("/ocean/"@, text) && !occurs_in("SBI"@, text) {
        lemma_untagged_block_is_unknown(text);
    }
}

/// Entry `k` of the pool tag table.
fn pool_tag_at(k: usize) -> (entry: (&'static str, &'static str))
    requires
        k < POOL_TAG_COUNT,
    ensures
        entry.0@ == pool_tag(k as int).0,
        entry.1@ == pool_tag(k as int).1,
{
    if k == 0 {
        ("AntPool", "AntPool")
    } else if k == 1 {
        ("F2Pool", "F2Pool")
    } else if k == 2 {
        ("ViaBTC", "ViaBTC")
    } else if k == 3 {
        ("Foundry USA", "Foundry USA")
    } else if k == 4 {
        ("SlushPool", "slush")
    } else if k == 5 {
        ("Binance Pool", "Binance")
    } else if k == 6 {
        ("BTC.com", "BTC.com")
    } else if k == 7 {
        ("Poolin", "Poolin")
    } else if k == 8 {
        ("Luxor", "Luxor")
    } else if k == 9 {
        ("MARA Pool", "MARA")
    } else if k == 10 {
        ("SpiderPool", "Spider")
    } else if k == 11 {
        ("BitFury", "BitFury")
    } else if k == 12 {
        ("Ocean", "/ocean/")
    } else {
        ("SBI Crypto", "SBI")
    }
}

/// The pool a block is attributed to, given its decoded coinbase text.
pub fn pool_for_text(text: &str) -> (name: String)
    ensures
        name@ == attributed_pool(text@),
{
    let chars = chars_of(text);
    let mut k: usize = 0;
    while k < POOL_TAG_COUNT
        invariant
            chars@ == text@,
            k <= POOL_TAG_COUNT,
            attributed_pool(text@) == first_tagged_pool(text@, k as nat),
        decreases POOL_TAG_COUNT - k,
    {
        let (name, tag) = pool_tag_at(k);
        let tag_chars = chars_of(tag);
        if occurs(&chars, &tag_chars) {
            let mut out = String::new();
            out.append(name);
            return out;
        }
        k = k + 1;
    }
    let mut out = String::new();
    out.append("Solo/Unknown");
    out
}

/// The pool a block is attributed to, given the hex-encoded data of its
/// coinbase input: `None` when that data is not valid hex, otherwise the
/// first known pool whose tag occurs in the data read as (lossy) UTF-8, or
/// `Solo/Unknown`. Data that is valid UTF-8 is read as its decoded text.
pub fn pool_name_from_coinbase(coinbase_hex: &str) -> (name: Option<String>)
    ensures
        name is Some <==> is_hex_text(coinbase_hex@),
        name matches Some(n) ==> n@ == attributed_pool(utf8_lossy(hex_bytes(coinbase_hex@))),
        valid_utf8(hex_bytes(coinbase_hex@)) ==> (name matches Some(n) ==> n@ == attributed_pool(
            decode_utf8(hex_bytes(coinbase_hex@)),
        )),
{
    match decode_hex(coinbase_hex) {
        Ok(bytes) => {
            let text = decode_utf8_lossy(bytes.as_slice());
            Some(pool_for_text(text.as_str()))
        },
        Err(_) => None,
    }
}

} // verus!
