use kernel::buildpaths::assembly_dir;
use kernel::buildpaths::enumerate_asm_object_files;
use kernel::buildpaths::find_out_dir;
use kernel::buildpaths::kernel_image_path;
use kernel::buildpaths::manifest_path;
use kernel::buildpaths::static_library_path;

#[test]
fn paths_are_joined_under_their_directories() {
    assert_eq!(manifest_path("/proj"), "/proj/Cargo.toml");
    assert_eq!(static_library_path("/out"), "/out/libkernel.a");
    assert_eq!(kernel_image_path("/out"), "/out/kernel.bin");
    assert_eq!(assembly_dir("/build"), "/build/assembly");
}

#[test]
fn no_assembly_dir_means_no_objects() {
    let objects = enumerate_asm_object_files(None);
    assert!(objects.is_empty());
}

#[test]
fn assembly_dir_contributes_the_boot_object() {
    let objects = enumerate_asm_object_files(Some(String::from("/build/assembly")));
    assert_eq!(objects, vec![String::from("/build/assembly/boot.o")]);
}

#[test]
fn out_dir_entry_is_found() {
    let pairs = vec![
        (String::from("PATH"), String::from("/usr/bin")),
        (String::from("OUT_DIR"), String::from("/target/build/out")),
        (String::from("OUT_DIR"), String::from("/target/build/other")),
    ];
    assert_eq!(find_out_dir(&pairs), Some(String::from("/target/build/out")));
}

#[test]
fn missing_out_dir_entry_gives_none() {
    let pairs = vec![(String::from("PATH"), String::from("/usr/bin"))];
    assert_eq!(find_out_dir(&pairs), None);
}

#[test]
fn empty_environment_gives_none() {
    let pairs: Vec<(String, String)> = Vec::new();
    assert_eq!(find_out_dir(&pairs), None);
}
