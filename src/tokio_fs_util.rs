//! What the upload needs to know of a local source file.
use vstd::prelude::*;

verus! {

/// Size and name of a regular file.
#[derive(Debug)]
pub struct Info {
    pub file_size: u64,
    pub file_name: Option<String>,
}

/// The `Info` of a path from what its metadata says: `None` unless the path
/// is a regular file.
pub fn info_from_metadata(is_file: bool, file_size: u64, file_name: Option<String>) -> (r: Option<
    Info,
>)
    ensures
        r is Some <==> is_file,
        r matches Some(i) ==> i.file_size == file_size && i.file_name == file_name,
{
    if !is_file {
        return None;
    }
    Some(Info { file_size, file_name })
}

} // verus!
