//! The mirror store's decision logic: write-once, idempotent
//! persistence. The filesystem probes and writes themselves happen
//! outside the library; the caller reports what exists and executes
//! the returned plan.
use vstd::prelude::*;
use crate::policy::join_path;

verus! {

/// What one store attempt must do, given what already exists.
pub struct StorePlan {
    /// Create the destination directory and its missing ancestors.
    pub create_directory: bool,
    /// Create the destination file and write the whole content.
    pub write_file: bool,
}

/// Plans one store attempt: the directory is created exactly when it
/// is missing, and the file is written exactly when no file is already
/// at the destination — an existing file is never replaced.
pub fn store_plan(directory_exists: bool, file_exists: bool) -> (p: StorePlan)
    ensures
        p.create_directory == !directory_exists,
        p.write_file == !file_exists,
{
    StorePlan { create_directory: !directory_exists, write_file: !file_exists }
}

/// The absolute destination: the directory joined with the file name.
pub fn destination_path(directory: &str, file_name: &str) -> (r: String)
    ensures
        r@ == join_path(directory@, file_name@),
{
    crate::policy::join_under(directory, file_name)
}

/// A filesystem, abstractly: the contents at each destination path.
/// One successful store on it: an existing file is authoritative and
/// untouched; otherwise the content is written at the destination.
pub open spec fn store_effect(
    fs: Map<Seq<char>, Seq<u8>>,
    destination: Seq<char>,
    content: Seq<u8>,
) -> Map<Seq<char>, Seq<u8>> {
    if fs.dom().contains(destination) {
        fs
    } else {
        fs.insert(destination, content)
    }
}

/// Law (write-once idempotence): storing to the same destination twice
/// leaves exactly what the first store left — one file, holding the
/// content of the first successful write — and the second store
/// changes nothing, whatever content it carried.
pub proof fn lemma_store_write_once(
    fs: Map<Seq<char>, Seq<u8>>,
    destination: Seq<char>,
    first: Seq<u8>,
    second: Seq<u8>,
)
    ensures
        store_effect(store_effect(fs, destination, first), destination, second) == store_effect(
            fs,
            destination,
            first,
        ),
        store_effect(fs, destination, first).dom().contains(destination),
        !fs.dom().contains(destination) ==> store_effect(fs, destination, first)[destination]
            == first,
        fs.dom().contains(destination) ==> store_effect(fs, destination, first)[destination]
            == fs[destination],
{
}

} // verus!
