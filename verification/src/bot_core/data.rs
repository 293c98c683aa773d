//! Where the bot keeps its data files: under `data/`, by a file name that
//! may not climb out of it.
use crate::text::{contains, contains_spec, owned, starts_with};
use vstd::prelude::*;

verus! {

/// The directory of the data files.
pub open spec fn data_dir() -> Seq<char> {
    "data"@
}

/// The path of data file `filename`, as `Path::new("data").join(filename)`
/// gives it on a Unix system: an absolute name (one that starts with `/`)
/// stands for itself; any other is put under `data/`. A name containing
/// `..` is refused.
pub open spec fn data_path_spec(filename: Seq<char>) -> Result<Seq<char>, Seq<char>> {
    if contains_spec(filename, ".."@) {
        Err("Filename must not contain '..'"@)
    } else if "/"@.is_prefix_of(filename) {
        Ok(filename)
    } else {
        Ok("data"@ + "/"@ + filename)
    }
}

/// The path of data file `filename`, or the error for a name with `..`.
pub fn data_path(filename: &str) -> (r: Result<String, String>)
    ensures
        match r {
            Ok(p) => data_path_spec(filename@) == Ok::<Seq<char>, Seq<char>>(p@),
            Err(e) => data_path_spec(filename@) == Err::<Seq<char>, Seq<char>>(e@),
        },
{
    if contains(filename, "..") {
        return Err(owned("Filename must not contain '..'"));
    }
    if starts_with(filename, "/") {
        return Ok(owned(filename));
    }
    let mut p = owned("data");
    p.append("/");
    p.append(filename);
    Ok(p)
}

/// No data path climbs out of the data directory by `..`.
pub proof fn law_no_parent_in_data_paths(filename: Seq<char>)
    ensures
        data_path_spec(filename) matches Ok(p) ==> !contains_spec(filename, ".."@),
{
}

} // verus!
