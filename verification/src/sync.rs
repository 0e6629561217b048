//! The shape of a run: how work is cut into batches, and what the files of a
//! backup are called.

use crate::text::{decimal, lemma_decimal_injective, push_decimal};
use vstd::arithmetic::div_mod::lemma_fundamental_div_mod_converse;
use vstd::prelude::*;
use vstd::string::StringExecFns;

verus! {

/// How many books, and within a book how many documents, are worked on at
/// the same time.
pub const CHUNK_SIZE: usize = 8;

/// The file, under the backup directory, that holds the store between runs.
pub const METADATA_FILE: &'static str = "metadata.json";

/// The directory, under the directory of one run, that holds the mirrored
/// resources.
pub const FILES_DIR: &'static str = "files";

/// How many batches of at most `size` items it takes to cover `len` items.
pub open spec fn batch_count(len: nat, size: nat) -> nat
    recommends
        size > 0,
{
    ((len + size - 1) / (size as int)) as nat
}

/// The bounds of batch number `k`: it starts where `k` full batches end, and
/// ends one batch later or at the end of the items, whichever comes first.
pub open spec fn batch_bounds(len: nat, size: nat, k: int) -> (usize, usize) {
    ((k * size) as usize, if k * size + size <= len {
        (k * size + size) as usize
    } else {
        len as usize
    })
}

/// Cuts `len` items into consecutive batches of `size` items; the last batch
/// holds what is left. Each batch is given as the index of its first item
/// and the index after its last.
pub fn batches(len: usize, size: usize) -> (bounds: Vec<(usize, usize)>)
    requires
        size > 0,
    ensures
        bounds@ == Seq::new(
            batch_count(len as nat, size as nat),
            |k: int| batch_bounds(len as nat, size as nat, k),
        ),
{
    let mut bounds: Vec<(usize, usize)> = Vec::new();
    let mut start: usize = 0;
    let ghost mut full: int = 0;
    assert(bounds@.len() * size == 0) by (nonlinear_arith)
        requires
            bounds@.len() == 0,
    ;
    while start < len
        invariant
            size > 0,
            start <= len,
            full == bounds@.len() * size,
            start < len ==> start == full,
            start == len ==> full - size < len <= full || bounds@.len() == 0 && len == 0,
            forall|k: int|
                0 <= k < bounds@.len() ==> bounds@[k] == batch_bounds(len as nat, size as nat, k),
        decreases len - start,
    {
        let ghost k = bounds@.len() as int;
        let end = if len - start > size {
            start + size
        } else {
            len
        };
        assert((k + 1) * size == k * size + size) by (nonlinear_arith);
        bounds.push((start, end));
        start = end;
        proof {
            full = full + size;
        }
    }
    proof {
        let n = bounds@.len() as int;
        let d = size as int;
        if n == 0 {
            lemma_fundamental_div_mod_converse(d - 1, d, 0, d - 1);
        } else {
            let r = len + d - 1 - n * d;
            assert((n - 1) * d == n * d - d) by (nonlinear_arith);
            lemma_fundamental_div_mod_converse(len + d - 1, d, n, r);
        }
        assert(bounds@ =~= Seq::new(
            batch_count(len as nat, size as nat),
            |k: int| batch_bounds(len as nat, size as nat, k),
        ));
    }
    bounds
}

/// The name of the file that holds the backup of a document: `doc`, the id
/// in decimal, `.json`.
pub open spec fn spec_doc_file_name(id: i64) -> Seq<char> {
    "doc"@ + decimal(id as int) + ".json"@
}

/// The name of the file that holds the backup of the document `id`.
pub fn doc_file_name(id: i64) -> (name: String)
    ensures
        name@ == spec_doc_file_name(id),
{
    let mut name = String::from_str("doc");
    push_decimal(&mut name, id);
    name.append(".json");
    name
}

/// Different documents are backed up to different files.
pub proof fn lemma_doc_file_name_injective(a: i64, b: i64)
    requires
        spec_doc_file_name(a) == spec_doc_file_name(b),
    ensures
        a == b,
{
    reveal_strlit("doc");
    reveal_strlit(".json");
    let da = decimal(a as int);
    let db = decimal(b as int);
    let na = spec_doc_file_name(a);
    let nb = spec_doc_file_name(b);
    assert(na.len() == 3 + da.len() + 5);
    assert(nb.len() == 3 + db.len() + 5);
    assert(da =~= na.subrange(3, 3 + da.len() as int));
    assert(db =~= nb.subrange(3, 3 + db.len() as int));
    lemma_decimal_injective(a as int, b as int);
}

} // verus!
