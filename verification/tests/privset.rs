use illumos_priv::PrivSet;
use illumos_priv::Privilege;

#[test]
fn empty_set_test() {
    let set = PrivSet::new_empty().unwrap();
    assert_eq!(true, set.is_empty(), "set is empty");
}

#[test]
fn empty_test() {
    let mut set = PrivSet::new_basic().unwrap();
    assert_eq!(false, set.is_empty(), "set is not empty");
    set.empty();
    assert_eq!(true, set.is_empty(), "set is empty");
}

#[test]
fn is_equal_test() {
    let src = PrivSet::new_basic().unwrap();
    let mut dst = PrivSet::new_empty().unwrap();
    assert_eq!(false, src.is_equal(&dst), "PrivSets are not equal");
    dst.basic();
    assert_eq!(true, src.is_equal(&dst), "PrivSets are equal");
    // Also verify that PartialEq returns true
    assert!(src == dst, "PrivSets are equal");
}

#[test]
fn is_member_test() {
    let set = PrivSet::new_basic().unwrap();
    assert_eq!(
        true,
        set.is_member(Privilege::ProcFork),
        "PRIV_PROC_FORK is in the set"
    );
}

#[test]
fn add_priv_test() {
    let mut set = PrivSet::new_empty().unwrap();
    assert_eq!(
        false,
        set.is_member(Privilege::ProcFork),
        "PRIV_PROC_FORK is not in the set"
    );
    let _ = set
        .addset(Privilege::ProcFork)
        .expect("failed to add to the set");
    assert_eq!(
        true,
        set.is_member(Privilege::ProcFork),
        "PRIV_PROC_FORK is in the set"
    );
}

#[test]
fn del_priv_test() {
    let mut set = PrivSet::new_basic().unwrap();
    assert_eq!(
        true,
        set.is_member(Privilege::ProcFork),
        "PRIV_PROC_FORK is in the set"
    );
    let _ = set
        .delset(Privilege::ProcFork)
        .expect("failed to delete from set");
    assert_eq!(
        false,
        set.is_member(Privilege::ProcFork),
        "PRIV_PROC_FORK is not in the set"
    );
}

#[test]
fn basic_members_test() {
    let set = PrivSet::new_basic().unwrap();
    let basics = [
        Privilege::FileLinkAny,
        Privilege::FileRead,
        Privilege::FileWrite,
        Privilege::NetAccess,
        Privilege::ProcExec,
        Privilege::ProcFork,
        Privilege::ProcInfo,
        Privilege::ProcSession,
    ];
    for p in basics {
        assert!(set.is_member(p), "a basic privilege is in the basic set");
    }
    let extras = [
        Privilege::FileChown,
        Privilege::FileDacRead,
        Privilege::FileDacWrite,
        Privilege::FileSetid,
        Privilege::NetPrivaddr,
        Privilege::ProcOwner,
        Privilege::ProcSetid,
        Privilege::ProcTaskid,
    ];
    for p in extras {
        assert!(!set.is_member(p), "a non-basic privilege is not in the basic set");
    }
}

#[test]
fn fresh_empty_has_no_member_test() {
    let set = PrivSet::new_empty().unwrap();
    let all = [
        Privilege::FileLinkAny,
        Privilege::FileRead,
        Privilege::FileWrite,
        Privilege::NetAccess,
        Privilege::ProcExec,
        Privilege::ProcFork,
        Privilege::ProcInfo,
        Privilege::ProcSession,
        Privilege::FileChown,
        Privilege::FileDacRead,
        Privilege::FileDacWrite,
        Privilege::FileSetid,
        Privilege::NetPrivaddr,
        Privilege::ProcOwner,
        Privilege::ProcSetid,
        Privilege::ProcTaskid,
    ];
    for p in all {
        assert!(!set.is_member(p), "an empty set has no member");
    }
}

#[test]
fn clear_idempotent_test() {
    let mut set = PrivSet::new_basic().unwrap();
    set.addset(Privilege::NetPrivaddr).unwrap();
    set.empty();
    assert!(set.is_empty(), "clearing makes the set empty");
    set.empty();
    assert!(set.is_empty(), "clearing again keeps the set empty");
}

#[test]
fn add_remove_round_trip_test() {
    let mut set = PrivSet::new_empty().unwrap();
    set.addset(Privilege::ProcOwner).unwrap();
    assert!(set.is_member(Privilege::ProcOwner));
    set.delset(Privilege::ProcOwner).unwrap();
    assert!(!set.is_member(Privilege::ProcOwner));
}

#[test]
fn empty_sets_equal_test() {
    let a = PrivSet::new_empty().unwrap();
    let mut b = PrivSet::new_basic().unwrap();
    b.empty();
    assert!(a == b, "two paths to an empty set give equal sets");
}
