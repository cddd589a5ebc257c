//! Object keys: the mapping from a logical index to the path of the object
//! that stands for it in the bucket.

use vstd::prelude::*;
use vstd::string::StringExecFns;
use crate::text::{
    decimal, lemma_zero_padded_value, numeral_value, push_zero_padded, zero_padded, zeros,
};

verus! {

/// The least number of digits in a key's index field.
pub const INDEX_WIDTH: usize = 6;

/// The prefix under which every generated object lives: `/sample/`.
pub open spec fn prefix_text() -> Seq<char> {
    seq!['/', 's', 'a', 'm', 'p', 'l', 'e', '/']
}

/// The delimiter of the bucket's key hierarchy: `/`.
pub open spec fn delimiter_text() -> Seq<char> {
    seq!['/']
}

/// The extension of every generated object: `.bin`.
pub open spec fn suffix_text() -> Seq<char> {
    seq!['.', 'b', 'i', 'n']
}

/// The path of the object with the given index: the prefix, the index as a
/// decimal numeral zero-padded to six digits, and the extension.
pub open spec fn s3_path(index: nat) -> Seq<char> {
    prefix_text() + zero_padded(index, INDEX_WIDTH as nat) + suffix_text()
}

/// The index that a path names: the number between prefix and extension.
pub open spec fn path_index(path: Seq<char>) -> nat {
    numeral_value(path.subrange(prefix_text().len() as int, path.len() - suffix_text().len()))
}

/// Whether `path` begins with `prefix`.
pub open spec fn has_prefix(path: Seq<char>, prefix: Seq<char>) -> bool {
    prefix.len() <= path.len() && path.subrange(0, prefix.len() as int) == prefix
}

/// The prefix under which every generated object lives.
pub fn sample_prefix() -> (prefix: &'static str)
    ensures
        prefix@ == prefix_text(),
{
    proof {
        reveal_strlit("/sample/");
    }
    let prefix = "/sample/";
    assert(prefix@ =~= prefix_text());
    prefix
}

/// The delimiter by which the objects under the prefix are listed.
pub fn sample_delimiter() -> (delimiter: &'static str)
    ensures
        delimiter@ == delimiter_text(),
{
    proof {
        reveal_strlit("/");
    }
    let delimiter = "/";
    assert(delimiter@ =~= delimiter_text());
    delimiter
}

/// The path of the object with the given index.
pub fn get_s3_path(index: usize) -> (path: String)
    ensures
        path@ == s3_path(index as nat),
{
    let mut path = String::from_str(sample_prefix());
    push_zero_padded(&mut path, index as u64, INDEX_WIDTH);
    proof {
        reveal_strlit(".bin");
        assert(".bin"@ =~= suffix_text());
    }
    path.append(".bin");
    path
}

/// The index can be read back from a path: `path_index` inverts `s3_path`.
pub proof fn lemma_path_index(index: nat)
    ensures
        path_index(s3_path(index)) == index,
{
    let field = zero_padded(index, INDEX_WIDTH as nat);
    let path = s3_path(index);
    lemma_zero_padded_value(index, INDEX_WIDTH as nat);
    assert(path.len() == 8 + field.len() + 4);
    assert(path.subrange(8, path.len() - 4) =~= field);
}

/// Distinct indices have distinct paths: the key generator is injective, on
/// the working set `[0, step)` and beyond it.
pub proof fn lemma_paths_distinct(i: nat, j: nat)
    requires
        i != j,
    ensures
        s3_path(i) != s3_path(j),
{
    lemma_path_index(i);
    lemma_path_index(j);
}

/// Every character of a decimal numeral is a digit, so none is the delimiter.
pub proof fn lemma_decimal_has_no_delimiter(n: nat, k: int)
    requires
        0 <= k < decimal(n).len(),
    ensures
        decimal(n)[k] != '/',
        decimal(n)[k] != '.',
    decreases n,
{
    if n >= 10 {
        if k < decimal(n / 10).len() {
            lemma_decimal_has_no_delimiter(n / 10, k);
        }
    }
}

/// Every path lies directly under the sample prefix: it begins with the
/// prefix, and no delimiter follows it, so a listing by prefix and delimiter
/// shows the object itself.
pub proof fn lemma_path_under_prefix(index: nat)
    ensures
        has_prefix(s3_path(index), prefix_text()),
        forall|k: int|
            prefix_text().len() <= k < s3_path(index).len() ==> s3_path(index)[k] != '/',
{
    let field = zero_padded(index, INDEX_WIDTH as nat);
    let path = s3_path(index);
    assert(path.subrange(0, 8) =~= prefix_text());
    assert forall|k: int| 8 <= k < path.len() implies path[k] != '/' by {
        if k < 8 + field.len() {
            let digits = decimal(index);
            assert(path[k] == field[k - 8]);
            if digits.len() >= INDEX_WIDTH as nat {
                lemma_decimal_has_no_delimiter(index, k - 8);
            } else {
                let pad = (INDEX_WIDTH as nat - digits.len()) as nat;
                if k - 8 < pad {
                    assert(field[k - 8] == zeros(pad)[k - 8]);
                } else {
                    lemma_decimal_has_no_delimiter(index, k - 8 - pad);
                }
            }
        } else {
            assert(path[k] == suffix_text()[k - 8 - field.len()]);
        }
    }
}

} // verus!
