use rucker::errors::{ErrorType, MountSpecFault};
use rucker::mount::{
    is_canonical_path, mount_mapping, parse_mount_spec, parse_mount_specs, set_mountpoint, MountMapping, MountOp,
};

fn fault(s: &str) -> ErrorType {
    parse_mount_spec(s).unwrap_err()
}

#[test]
fn parse_splits_and_strips_one_separator() {
    let m = parse_mount_spec("/srv/data:/mnt/data").unwrap();
    assert_eq!(m.source, "/srv/data");
    assert_eq!(m.destination, "mnt/data");
    assert!(!m.destination.starts_with('/'));
}

#[test]
fn parse_keeps_a_relative_source_for_canonicalization() {
    let m = parse_mount_spec("data:/mnt").unwrap();
    assert_eq!(m.source, "data");
    assert_eq!(m.destination, "mnt");
}

#[test]
fn relative_source_and_destination_fail_before_anything_runs() {
    assert_eq!(fault("relsrc:mnt"), ErrorType::MountSpecError(MountSpecFault::DestinationNotAbsolute));
    let spec = parse_mount_spec("relsrc:/mnt").unwrap();
    assert_eq!(mount_mapping(&spec, "relsrc"), Err(ErrorType::SourceNotCanonical));
}

#[test]
fn parse_faults() {
    assert_eq!(fault("/a"), ErrorType::MountSpecError(MountSpecFault::MissingSeparator));
    assert_eq!(fault("/a:/b:/c"), ErrorType::MountSpecError(MountSpecFault::ExtraSeparator));
    assert_eq!(fault("/a:"), ErrorType::MountSpecError(MountSpecFault::DestinationNotAbsolute));
    assert_eq!(fault("/a:/"), ErrorType::MountSpecError(MountSpecFault::DestinationIsRoot));
    assert_eq!(fault("/a://b"), ErrorType::MountSpecError(MountSpecFault::RepeatedSeparator));
    assert_eq!(fault("/a:/../b"), ErrorType::MountSpecError(MountSpecFault::DestinationEscapes));
    assert_eq!(fault("/a:/x/.."), ErrorType::MountSpecError(MountSpecFault::DestinationEscapes));
    assert_eq!(fault("/a:/x/../y"), ErrorType::MountSpecError(MountSpecFault::DestinationEscapes));
}

#[test]
fn dots_inside_names_are_not_segments() {
    let m = parse_mount_spec("/a:/x..y/..z").unwrap();
    assert_eq!(m.destination, "x..y/..z");
}

#[test]
fn canonical_paths() {
    assert!(is_canonical_path("/"));
    assert!(is_canonical_path("/srv/rootfs"));
    assert!(is_canonical_path("/a/.hidden"));
    assert!(!is_canonical_path(""));
    assert!(!is_canonical_path("srv"));
    assert!(!is_canonical_path("/srv/"));
    assert!(!is_canonical_path("/a//b"));
    assert!(!is_canonical_path("/a/./b"));
    assert!(!is_canonical_path("/a/../b"));
    assert!(!is_canonical_path("/a/.."));
}

#[test]
fn mapping_keeps_canonical_source() {
    let spec = parse_mount_spec("../data:/mnt").unwrap();
    let m = mount_mapping(&spec, "/home/data").unwrap();
    assert_eq!(m.source, "/home/data");
    assert_eq!(m.destination, "mnt");
    assert_eq!(mount_mapping(&spec, "/home/../data"), Err(ErrorType::SourceNotCanonical));
}

#[test]
fn list_stops_at_first_fault() {
    let specs = vec!["/a:/b".to_string(), "/c:d".to_string(), "e".to_string()];
    assert_eq!(
        parse_mount_specs(&specs),
        Err(ErrorType::MountSpecError(MountSpecFault::DestinationNotAbsolute))
    );
    let good = vec!["/a:/b".to_string(), "/c:/d/e".to_string()];
    let parsed = parse_mount_specs(&good).unwrap();
    assert_eq!(parsed.len(), 2);
    assert_eq!(parsed[1].destination, "d/e");
    assert_eq!(parse_mount_specs(&Vec::new()).unwrap().len(), 0);
}

#[test]
fn reroot_sequence_in_order() {
    let maps = vec![MountMapping { source: "/data".to_string(), destination: "mnt/data".to_string() }];
    let ops = set_mountpoint(&"/srv/rootfs".to_string(), &maps, &"abc".to_string(), &"def".to_string());
    let root = "/tmp/rucker-root-mntpt-abc".to_string();
    let expected = vec![
        MountOp::MakePrivate("/".to_string()),
        MountOp::CreateDir(root.clone()),
        MountOp::BindMount("/srv/rootfs".to_string(), root.clone()),
        MountOp::CreateDir("/tmp/rucker-root-mntpt-abc/mnt/data".to_string()),
        MountOp::BindMount("/data".to_string(), "/tmp/rucker-root-mntpt-abc/mnt/data".to_string()),
        MountOp::CreateDir("/tmp/rucker-root-mntpt-abc/oldroot.def".to_string()),
        MountOp::PivotRoot(root.clone(), "/tmp/rucker-root-mntpt-abc/oldroot.def".to_string()),
        MountOp::ChangeDir("/".to_string()),
        MountOp::Unmount("/oldroot.def".to_string()),
        MountOp::RemoveDir("/oldroot.def".to_string()),
    ];
    assert_eq!(ops, expected);
}

#[test]
fn reroot_without_extra_mounts_ends_at_new_root() {
    let ops = set_mountpoint(&"/srv/rootfs".to_string(), &Vec::new(), &"r".to_string(), &"o".to_string());
    assert_eq!(ops.len(), 8);
    assert_eq!(ops[5], MountOp::ChangeDir("/".to_string()));
    assert_eq!(ops[6], MountOp::Unmount("/oldroot.o".to_string()));
    assert_eq!(ops[7], MountOp::RemoveDir("/oldroot.o".to_string()));
}

#[test]
fn each_operation_reports_its_own_error() {
    let p = "/x".to_string();
    assert_eq!(MountOp::MakePrivate(p.clone()).error_of(1), ErrorType::MountError(1));
    assert_eq!(MountOp::BindMount(p.clone(), p.clone()).error_of(2), ErrorType::MountError(2));
    assert_eq!(MountOp::CreateDir(p.clone()).error_of(3), ErrorType::DirectoryError(3));
    assert_eq!(MountOp::RemoveDir(p.clone()).error_of(4), ErrorType::DirectoryError(4));
    assert_eq!(MountOp::PivotRoot(p.clone(), p.clone()).error_of(5), ErrorType::PivotRootError(5));
    assert_eq!(MountOp::ChangeDir(p.clone()).error_of(6), ErrorType::ChDirError(6));
    assert_eq!(MountOp::Unmount(p).error_of(7), ErrorType::UnmountError(7));
}
