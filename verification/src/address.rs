use vstd::prelude::*;
use vstd::utf8::is_ascii_chars;

verus! {

/// What `str::to_lowercase` returns for a string: its lowercase equivalent
/// under Unicode's case mapping.
pub uninterp spec fn unicode_lowercase(s: Seq<char>) -> Seq<char>;

/// `c` with the letters `A` to `Z` mapped to `a` to `z`; every other
/// character unchanged.
pub open spec fn ascii_lower_char(c: char) -> char {
    if 'A' <= c && c <= 'Z' {
        ((c as u32) + 32) as char
    } else {
        c
    }
}

/// `c` with the letters `a` to `z` mapped to `A` to `Z`; every other
/// character unchanged.
pub open spec fn ascii_upper_char(c: char) -> char {
    if 'a' <= c && c <= 'z' {
        ((c as u32) - 32) as char
    } else {
        c
    }
}

/// Every ASCII letter of `s` in lower case.
pub open spec fn ascii_lowercase(s: Seq<char>) -> Seq<char> {
    s.map_values(|c: char| ascii_lower_char(c))
}

/// Every ASCII letter of `s` in upper case.
pub open spec fn ascii_uppercase(s: Seq<char>) -> Seq<char> {
    s.map_values(|c: char| ascii_upper_char(c))
}

/// Lowercases a string with `str::to_lowercase`.
///
/// Trusted: the result is `str::to_lowercase` of the input, named
/// `unicode_lowercase`; for an all-ASCII input it maps `A`-`Z` to `a`-`z`
/// and keeps every other character, as `to_lowercase` lowercases ASCII
/// letters as `to_ascii_lowercase` does and has no mapping for other ASCII
/// characters. Nothing is stated of non-ASCII input beyond the name.
#[verifier::external_body]
fn str_to_lowercase(s: &str) -> (lower: String)
    ensures
        lower@ == unicode_lowercase(s@),
        is_ascii_chars(s@) ==> lower@ == ascii_lowercase(s@),
{
    s.to_lowercase()
}

/// The storage key of an address: the address lowercased, so that reads and
/// writes of one address agree whatever the caller's casing. For an ASCII
/// address (every EVM, Tezos or Solana address) that is its ASCII lowercase.
pub open spec fn storage_key(address: Seq<char>) -> Seq<char> {
    if is_ascii_chars(address) {
        ascii_lowercase(address)
    } else {
        unicode_lowercase(address)
    }
}

/// Normalize an address to the storage key. Lowercasing keeps keys
/// consistent with those stored lowercased for every chain, so reads and
/// writes stay symmetric.
pub fn normalize_address(address: &str) -> (key: String)
    ensures
        key@ == storage_key(address@),
        key@ == unicode_lowercase(address@),
{
    str_to_lowercase(address)
}

/// Two ASCII addresses that differ only in the case of their letters get the
/// same storage key, so a read under one casing finds a write under another.
pub proof fn law_key_ignores_ascii_case(a: Seq<char>, b: Seq<char>)
    requires
        is_ascii_chars(a),
        is_ascii_chars(b),
        a.len() == b.len(),
        forall|i: int|
            0 <= i < a.len() ==> ascii_lower_char(#[trigger] a[i]) == ascii_lower_char(b[i]),
    ensures
        storage_key(a) == storage_key(b),
{
    assert(ascii_lowercase(a) =~= ascii_lowercase(b));
}

/// An ASCII address and its upper-case form share one storage key.
pub proof fn law_key_of_uppercase(a: Seq<char>)
    requires
        is_ascii_chars(a),
    ensures
        is_ascii_chars(ascii_uppercase(a)),
        storage_key(ascii_uppercase(a)) == storage_key(a),
{
    assert(ascii_lowercase(ascii_uppercase(a)) =~= ascii_lowercase(a));
}

/// Normalising the storage key of an ASCII address again leaves it
/// unchanged: stored keys are already normal.
pub proof fn law_key_is_normal(a: Seq<char>)
    requires
        is_ascii_chars(a),
    ensures
        is_ascii_chars(storage_key(a)),
        storage_key(storage_key(a)) == storage_key(a),
{
    assert(ascii_lowercase(ascii_lowercase(a)) =~= ascii_lowercase(a));
}

} // verus!
