use gitmirror::convert::{metadata_names, plan_conversion, ConvertAction, DirEntryInfo};

fn entry(rel: &str, is_dir: bool) -> DirEntryInfo {
    DirEntryInfo {
        rel: String::from(rel),
        is_dir,
    }
}

fn make_dir(rel: &str) -> ConvertAction {
    ConvertAction::MakeDir {
        rel: String::from(rel),
    }
}

fn link_file(rel: &str) -> ConvertAction {
    ConvertAction::LinkFile {
        rel: String::from(rel),
    }
}

fn copy_file(rel: &str) -> ConvertAction {
    ConvertAction::CopyFile {
        rel: String::from(rel),
    }
}

fn copy_tree(rel: &str) -> ConvertAction {
    ConvertAction::CopyTree {
        rel: String::from(rel),
    }
}

#[test]
fn conversion_links_each_object_file_once_and_copies_metadata() {
    let objects = vec![
        entry("ab", true),
        entry("ab/c3d4", false),
        entry("pack", true),
        entry("pack/pack-1.pack", false),
        entry("pack/pack-1.idx", false),
    ];
    let meta = vec![
        entry("HEAD", false),
        entry("config", false),
        entry("refs", true),
        entry("hooks", true),
    ];
    let plan = plan_conversion(&objects, &meta);
    assert_eq!(
        plan,
        vec![
            make_dir("objects"),
            make_dir("objects/ab"),
            link_file("objects/ab/c3d4"),
            make_dir("objects/pack"),
            link_file("objects/pack/pack-1.pack"),
            link_file("objects/pack/pack-1.idx"),
            copy_file("HEAD"),
            copy_file("config"),
            copy_tree("refs"),
            copy_tree("hooks"),
        ]
    );
}

#[test]
fn conversion_ignores_top_level_object_files_and_unknown_metadata() {
    let objects = vec![entry("tmp_obj_scratch", false)];
    let meta = vec![entry("COMMIT_EDITMSG", false), entry("index", false)];
    let plan = plan_conversion(&objects, &meta);
    assert_eq!(plan, vec![make_dir("objects")]);
}

#[test]
fn empty_listings_still_create_the_object_root() {
    let plan = plan_conversion(&Vec::new(), &Vec::new());
    assert_eq!(plan, vec![make_dir("objects")]);
}

#[test]
fn metadata_names_are_the_critical_seven() {
    let names = metadata_names();
    assert_eq!(
        names,
        vec![
            String::from("HEAD"),
            String::from("config"),
            String::from("description"),
            String::from("info"),
            String::from("refs"),
            String::from("packed-refs"),
            String::from("hooks"),
        ]
    );
}
