//! The pure computations of the image build tool.
//!
//! The tool itself — compiling the kernel crate, linking the bootable image,
//! launching the emulator — is process and file-system work that lives
//! outside this library. What it decides, though, is plain string work:
//! which manifest to build, where the static library and the image land,
//! which assembly objects join the link, and which environment entry names
//! the build-script output directory. Those decisions are verified here and
//! handed back as values.

use vstd::prelude::*;
use vstd::string::StringExecFns;

verus! {

/// The build manifest inside a project directory.
pub fn manifest_path(dir: &str) -> (r: String)
    ensures
        r@ == dir@ + "/Cargo.toml"@,
{
    dir.to_owned().concat("/Cargo.toml")
}

/// The static kernel library the compile step leaves in its output directory.
pub fn static_library_path(out_dir: &str) -> (r: String)
    ensures
        r@ == out_dir@ + "/libkernel.a"@,
{
    out_dir.to_owned().concat("/libkernel.a")
}

/// The bootable image the link step produces next to the static library.
pub fn kernel_image_path(out_dir: &str) -> (r: String)
    ensures
        r@ == out_dir@ + "/kernel.bin"@,
{
    out_dir.to_owned().concat("/kernel.bin")
}

/// The assembly output directory under a build-script output directory.
pub fn assembly_dir(build_script_out: &str) -> (r: String)
    ensures
        r@ == build_script_out@ + "/assembly"@,
{
    build_script_out.to_owned().concat("/assembly")
}

/// The object files the link step takes besides the static library: the
/// assembled boot stub, if an assembly output directory exists at all.
pub fn enumerate_asm_object_files(asm_path: Option<String>) -> (r: Vec<String>)
    ensures
        match asm_path {
            Option::None => r@.len() == 0,
            Option::Some(p) => r@.len() == 1 && r@[0]@ == p@ + "/boot.o"@,
        },
{
    let mut object_files: Vec<String> = Vec::new();
    if let Some(asm_path) = asm_path {
        let object_file = asm_path.concat("/boot.o");
        object_files.push(object_file);
    }
    object_files
}

/// Whether an environment entry names the build-script output directory.
pub open spec fn names_out_dir(pair: (String, String)) -> bool {
    pair.0@ == "OUT_DIR"@
}

/// Picks the build-script output directory out of the flattened environment
/// entries the compile step reports: the value of the first entry whose key
/// is `OUT_DIR`, if any entry has that key.
pub fn find_out_dir(pairs: &Vec<(String, String)>) -> (r: Option<String>)
    ensures
        (r is Some) == (exists|i: int|
            0 <= i < pairs@.len() && names_out_dir(#[trigger] pairs@[i])),
        r is Some ==> (exists|i: int|
            {
                &&& 0 <= i < pairs@.len()
                &&& names_out_dir(#[trigger] pairs@[i])
                &&& (forall|j: int| 0 <= j < i ==> !names_out_dir(#[trigger] pairs@[j]))
                &&& (r->0)@ == pairs@[i].1@
            }),
{
    let key: String = "OUT_DIR".to_owned();
    let mut i: usize = 0;
    while i < pairs.len()
        invariant
            i <= pairs@.len(),
            key@ == "OUT_DIR"@,
            forall|j: int| 0 <= j < i ==> !names_out_dir(#[trigger] pairs@[j]),
        decreases pairs@.len() - i,
    {
        if pairs[i].0 == key {
            return Some(pairs[i].1.clone());
        }
        i += 1;
    }
    None
}

} // verus!
