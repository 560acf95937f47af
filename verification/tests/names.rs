//! Paths, owners and attribute ids.
use nfs4::FileAttributeId;
use nfs4_client::attrs::{
    attr_set_contains, keep_supported, read_root_attrs, tells_root_attrs, without_set_only,
    MAX_READ, MAX_WRITE, SUPPORTED_ATTRS, TIME_ACCESS_SET, TIME_MODIFY_SET,
};
use nfs4_client::owner::{numbered_client_owner, random_client_owner};
use nfs4_client::path::{names_in_parts, names_in_path, PathPart};
use nfs4_client::protocol::{AttrSet, FileAttributes, Verifier};
use std::path::{Component, Path};

fn ids(ids: &[FileAttributeId]) -> AttrSet {
    ids.iter().copied().collect()
}

#[test]
fn names_of_paths() {
    assert_eq!(names_in_path("/a/b"), vec!["a", "b"]);
    assert_eq!(names_in_path("a//b/"), vec!["a", "b"]);
    assert_eq!(names_in_path("./a/../b/."), vec!["a", "b"]);
    assert_eq!(names_in_path("/..a/.b./..."), vec!["..a", ".b.", "..."]);
    assert_eq!(names_in_path("/"), Vec::<String>::new());
    assert_eq!(names_in_path(""), Vec::<String>::new());
    assert_eq!(names_in_path("/\u{e9}t\u{e9}/x y"), vec!["\u{e9}t\u{e9}", "x y"]);
}

#[test]
fn names_are_the_normal_components() {
    let paths = [
        "", "/", "//", ".", "..", "./", "../x", "a", "/a", "a/", "a/b/c", "a//b", "a/./b", "/./a",
        "a/../b", "...", ".a", "a.", "/a/b/../../c/", "././.", "a/ /b",
    ];
    for path in paths {
        let normal: Vec<String> = Path::new(path)
            .components()
            .filter_map(|c| match c {
                Component::Normal(name) => Some(name.to_str().unwrap().to_owned()),
                _ => None,
            })
            .collect();
        assert_eq!(names_in_path(path), normal, "{}", path);
    }
}

#[test]
fn names_of_split_paths() {
    assert_eq!(names_in_parts(vec![]), Vec::<String>::new());
    assert_eq!(
        names_in_parts(vec![
            PathPart::RootDir,
            PathPart::Normal("a".to_owned()),
            PathPart::ParentDir,
            PathPart::Normal("b".to_owned()),
        ]),
        vec!["a", "b"],
    );
}

#[test]
fn names_of_joined_paths() {
    let mut both = names_in_path("/a/b");
    both.extend(names_in_path("c/d"));
    assert_eq!(names_in_path("/a/b/c/d"), both);
}

#[test]
fn owners_are_numbered() {
    let owner = numbered_client_owner(0x0102030405060708);
    assert_eq!(owner.verifier, Verifier(0));
    assert_eq!(owner.owner_id, vec![1, 2, 3, 4, 5, 6, 7, 8]);
    let n: u64 = 0xfedcba9876543210;
    assert_eq!(numbered_client_owner(n).owner_id, n.to_be_bytes().to_vec());
    assert_ne!(numbered_client_owner(1).owner_id, numbered_client_owner(1 << 63).owner_id);
}

#[test]
fn random_owners_differ() {
    let owner = random_client_owner();
    assert_eq!(owner.verifier, Verifier(0));
    assert_eq!(owner.owner_id.len(), 8);
    let others: Vec<_> = (0..4).map(|_| random_client_owner()).collect();
    assert!(others.iter().any(|other| *other != owner));
}

#[test]
fn attribute_numbers() {
    assert_eq!(u32::from(FileAttributeId::SupportedAttrs), SUPPORTED_ATTRS);
    assert_eq!(u32::from(FileAttributeId::MaxRead), MAX_READ);
    assert_eq!(u32::from(FileAttributeId::MaxWrite), MAX_WRITE);
    assert_eq!(u32::from(FileAttributeId::TimeAccessSet), TIME_ACCESS_SET);
    assert_eq!(u32::from(FileAttributeId::TimeModifySet), TIME_MODIFY_SET);
    for id in 0..100 {
        let known = FileAttributeId::try_from(id).is_ok();
        assert_eq!(known, id <= 76 && id != 25, "{}", id);
    }
}

#[test]
fn membership_of_attributes() {
    let set = ids(&[FileAttributeId::Size, FileAttributeId::Mode]);
    assert!(attr_set_contains(&set, u32::from(FileAttributeId::Size)));
    assert!(attr_set_contains(&set, u32::from(FileAttributeId::Mode)));
    assert!(!attr_set_contains(&set, u32::from(FileAttributeId::Owner)));
    assert_eq!(set, ids(&[FileAttributeId::Mode, FileAttributeId::Size]));
}

#[test]
fn requested_attributes_are_filtered() {
    let requested = ids(&[FileAttributeId::Size, FileAttributeId::Mode, FileAttributeId::Owner]);
    let supported = ids(&[FileAttributeId::Owner, FileAttributeId::Acl, FileAttributeId::Size]);
    assert_eq!(
        keep_supported(requested, &supported),
        ids(&[FileAttributeId::Size, FileAttributeId::Owner]),
    );
    assert_eq!(keep_supported(ids(&[]), &supported), ids(&[]));
    assert_eq!(keep_supported(ids(&[FileAttributeId::Mode]), &supported), ids(&[]));
}

#[test]
fn set_only_attributes_are_dropped() {
    let supported = ids(&[
        FileAttributeId::Size,
        FileAttributeId::TimeAccess,
        FileAttributeId::TimeAccessSet,
        FileAttributeId::TimeModifySet,
    ]);
    assert_eq!(
        without_set_only(&supported),
        ids(&[FileAttributeId::Size, FileAttributeId::TimeAccess]),
    );
    assert_eq!(without_set_only(&ids(&[])), ids(&[]));
}

#[test]
fn attributes_of_the_root() {
    let supported = ids(&[FileAttributeId::Size]);
    let attrs: FileAttributes = [
        nfs4::FileAttribute::SupportedAttrs(supported.clone()),
        nfs4::FileAttribute::MaxRead(100),
        nfs4::FileAttribute::MaxWrite(200),
        nfs4::FileAttribute::Size(300),
    ]
    .into_iter()
    .collect();
    assert!(tells_root_attrs(&attrs));
    let root = read_root_attrs(attrs);
    assert_eq!(root.supported_attrs, supported);
    assert_eq!(root.max_read, 100);
    assert_eq!(root.max_write, 200);
}

#[test]
fn root_without_an_attribute() {
    let all = [
        nfs4::FileAttribute::SupportedAttrs(ids(&[])),
        nfs4::FileAttribute::MaxRead(100),
        nfs4::FileAttribute::MaxWrite(200),
    ];
    for missing in 0..3 {
        let attrs: FileAttributes = all
            .iter()
            .enumerate()
            .filter(|(i, _)| *i != missing)
            .map(|(_, attr)| attr.clone())
            .collect();
        assert!(!tells_root_attrs(&attrs));
    }
}
