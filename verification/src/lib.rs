//! Retained figure intermediate representation for IronLAB: the parts of the figure
//! format that are plain data, with their rules proved.

pub mod artist;
pub mod axes;
pub mod check;
pub mod data;
pub mod ids;
pub mod textfmt;
pub mod wire;
pub mod edit;
pub mod figure;
pub mod link;
pub mod overlay;
pub mod schema_json;
pub mod selection;
pub mod style;
pub mod text;
pub mod validate;

use vstd::prelude::*;

verus! {

/// Generates the Protocol Buffers definition of the `.fig` format as one `.proto` file
/// per module of this crate, in package `ironlab.ir.v0`, with paths relative to the
/// root of a proto source tree (such as `ironlab/ir/v0/figure.proto`).
///
/// # Errors
///
/// Returns the description of the first inconsistency in the declarations of the wire
/// format, as [`wire::schema::check_declarations`] describes.
pub fn proto_files() -> (r: Result<Vec<(String, String)>, String>)
    ensures
        exists|files: Seq<wire::schema::FileDef>|
            wire::package_declarations(files) && {
                &&& r is Ok <==> wire::schema::consistent(files)
                &&& r matches Ok(rendered) ==> rendered@.len() == files.len() && forall|f: int|
                    0 <= f < files.len() ==> #[trigger] rendered@[f].0@ == wire::schema::path_text(files[f])
                        && wire::schema::renders_file(files, f, rendered@[f].1@)
            },
{
    wire::render_files()
}

} // verus!
