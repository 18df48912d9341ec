//! The Protocol Buffers wire format of the figure IR, used by `.fig` files: the
//! descriptions of its messages and enums, from which the `.proto` files are rendered.
//!
//! Every message and enum of the package is declared once, in the per-module
//! declarations of this module. A number or name used twice in one message or enum
//! (including a number or name that the message or enum reserves) is rejected when the
//! files are rendered, with an error that names the declaration.

pub mod convert;
pub mod message;
pub mod schema;
pub mod view;

pub mod artist;
pub mod axes;
pub mod data;
pub mod edit;
pub mod figure;
pub mod link;
pub mod style;
pub mod text;

use vstd::prelude::*;

use schema::{check_declarations, module_declaring_in, render, spec_module_declaring, FileDef};
use view::{files_view, lemma_module_declaring_view, module_declaring_view, FileView};

verus! {

/// The Protocol Buffers package of the figure format.
pub const PACKAGE: &'static str = "ironlab.ir.v0";

/// The directory of the package's `.proto` files, relative to the root of a proto
/// source tree.
pub const PACKAGE_DIR: &'static str = "ironlab/ir/v0";


/// The configuration of a `buf` module rooted at the directory into which the
/// `.proto` files are generated, which lints them with the standard rules and checks
/// changes for compatibility.
///
/// Changes are checked with buf's `PACKAGE` rules rather than only its `WIRE` rules,
/// so that code generated from an earlier version of the files keeps compiling against
/// a later version, and so that exchanging the numbers of two fields of the same type,
/// which keeps the wire format valid but changes the meaning of every existing file, is
/// reported.
///
/// The standard rule `PACKAGE_VERSION_SUFFIX` is excepted because it accepts only
/// versions from `v1` upwards (including `v1alpha1`), whereas the package is `v0`
/// until the format is declared stable.
pub const BUF_YAML: &'static str = "# Generated by ironlab-ir; do not edit.
version: v2
modules:
  - path: .
lint:
  use:
    - STANDARD
  except:
    # buf accepts only versions from v1 upwards; the package is v0 until the format
    # is declared stable.
    - PACKAGE_VERSION_SUFFIX
breaking:
  use:
    - PACKAGE
";

/// The Rust modules that declare the `.proto` files of the package, in the order in
/// which the files are rendered; the last segment of each names its file.
pub open spec fn wire_modules() -> Seq<Seq<char>> {
    seq![
        "ironlab_ir::wire::figure"@,
        "ironlab_ir::wire::axes"@,
        "ironlab_ir::wire::artist"@,
        "ironlab_ir::wire::style"@,
        "ironlab_ir::wire::text"@,
        "ironlab_ir::wire::data"@,
        "ironlab_ir::wire::link"@,
        "ironlab_ir::wire::edit"@,
    ]
}

/// Whether declarations are those of the package's files: one for each module that
/// declares a file, in order.
pub open spec fn package_files(files: Seq<FileDef>) -> bool {
    files.len() == wire_modules().len() && forall|i: int| 0 <= i < files.len() ==> (#[trigger] files[i]).module@ == wire_modules()[i]
}

/// The declarations of the package's `.proto` files, as values, in the order in which
/// they are rendered.
pub open spec fn spec_files() -> Seq<FileView> {
    seq![
        figure::spec_file(),
        axes::spec_file(),
        artist::spec_file(),
        style::spec_file(),
        text::spec_file(),
        data::spec_file(),
        link::spec_file(),
        edit::spec_file(),
    ]
}

/// Whether declarations are those of the package: the files of its modules, in order,
/// each with the messages and enums its module declares.
pub open spec fn package_declarations(files: Seq<FileDef>) -> bool {
    package_files(files) && files_view(files) == spec_files()
}

/// The `.proto` file of every module, in the order in which they are rendered.
pub fn files() -> (files: Vec<FileDef>)
    ensures
        package_declarations(files@),
{
    let files = vec![
        figure::file(),
        axes::file(),
        artist::file(),
        style::file(),
        text::file(),
        data::file(),
        link::file(),
        edit::file(),
    ];
    assert(files_view(files@) =~= spec_files());
    files
}

/// Renders every `.proto` file of the package, with paths relative to the root of a
/// proto source tree.
///
/// # Errors
///
/// Returns the description of the first inconsistency in the declarations, as
/// [`check_declarations`] describes.
pub fn render_files() -> (r: Result<Vec<(String, String)>, String>)
    ensures
        exists|files: Seq<FileDef>|
            package_declarations(files) && {
                &&& r is Ok <==> schema::consistent(files)
                &&& r matches Ok(rendered) ==> rendered@.len() == files.len() && forall|f: int|
                    0 <= f < files.len() ==> #[trigger] rendered@[f].0@ == schema::path_text(files[f])
                        && schema::renders_file(files, f, rendered@[f].1@)
            },
{
    let files = files();
    match check_declarations(&files) {
        Err(message) => Err(message),
        Ok(()) => Ok(render(&files)),
    }
}

/// Returns the name of the module of this crate that declares the wire type of the
/// given name, such as `artist` for `Line`.
///
/// Every domain type that appears on the wire has a wire type of the same name in the
/// wire module of the same name, so this also locates most domain types.
pub fn module_declaring(wanted: &str) -> (r: Option<&'static str>)
    ensures
        r is None <==> declared_module(wanted@) is None,
        r matches Some(stem) ==> declared_module(wanted@) == Some(stem@),
{
    let files = files();
    proof {
        lemma_module_declaring_view(files@, wanted@);
    }
    module_declaring_in(&files, wanted)
}

/// The module of the package that declares the wire type of a name: the stem of the
/// first file whose declarations hold a message or an enum of the name.
pub open spec fn declared_module(name: Seq<char>) -> Option<Seq<char>> {
    module_declaring_view(spec_files(), name)
}


} // verus!
