use illumos_priv::PrivOp;
use illumos_priv::PrivPtype;
use illumos_priv::PrivSet;
use illumos_priv::Privilege;
use illumos_priv::ProcessPrivs;

fn basic_process() -> ProcessPrivs {
    ProcessPrivs::new(
        PrivSet::new_basic().unwrap(),
        PrivSet::new_basic().unwrap(),
        PrivSet::new_basic().unwrap(),
        PrivSet::new_basic().unwrap(),
    )
}

#[test]
fn getppriv_test() {
    let mut procp = basic_process();
    let orig = procp.getppriv(PrivPtype::Effective).unwrap();
    let mut src = PrivSet::new_basic().unwrap();
    let _ = src
        .delset(Privilege::ProcFork)
        .expect("failed to delete from set");
    procp.setppriv(PrivOp::Replace, PrivPtype::Effective, &src).unwrap();

    let dst = procp.getppriv(PrivPtype::Effective).unwrap();
    assert!(src == dst, "getpprive PrivSet matches the one we just set");
    // Reset the original privilege set so other tests don't fail
    procp.setppriv(PrivOp::Replace, PrivPtype::Effective, &orig).unwrap();
}

#[test]
fn fetch_install_round_trip_test() {
    let mut procp = basic_process();
    let fetched = procp.getppriv(PrivPtype::Permitted).unwrap();
    procp.setppriv(PrivOp::Replace, PrivPtype::Permitted, &fetched).unwrap();
    let after = procp.getppriv(PrivPtype::Permitted).unwrap();
    assert!(
        after.is_equal(&fetched),
        "installing a freshly fetched set back leaves the category unchanged"
    );
}

#[test]
fn drop_fork_model_test() {
    let mut procp = basic_process();
    let orig = procp.getppriv(PrivPtype::Effective).unwrap();
    let mut set = PrivSet::new_basic().unwrap();
    let _ = set
        .delset(Privilege::ProcFork)
        .expect("failed to delete from set");

    procp.setppriv(PrivOp::Replace, PrivPtype::Effective, &set).unwrap();
    let eff = procp.getppriv(PrivPtype::Effective).unwrap();
    assert!(
        !eff.is_member(Privilege::ProcFork),
        "the effective set no longer allows forking"
    );
    assert!(
        eff.is_member(Privilege::ProcExec),
        "the other basic privileges are untouched"
    );

    procp.setppriv(PrivOp::Replace, PrivPtype::Effective, &orig).unwrap();
    let restored = procp.getppriv(PrivPtype::Effective).unwrap();
    assert!(
        restored.is_member(Privilege::ProcFork),
        "restoring the original set brings forking back"
    );
    assert!(restored == orig, "the restored category equals the original");
}

#[test]
fn install_add_mode_test() {
    let mut procp = ProcessPrivs::new(
        PrivSet::new_empty().unwrap(),
        PrivSet::new_empty().unwrap(),
        PrivSet::new_empty().unwrap(),
        PrivSet::new_empty().unwrap(),
    );
    let basic = PrivSet::new_basic().unwrap();
    procp.setppriv(PrivOp::Add, PrivPtype::Inheritable, &basic).unwrap();
    let inh = procp.getppriv(PrivPtype::Inheritable).unwrap();
    assert!(inh == basic, "turning privileges on in an empty category gives the source set");
    let eff = procp.getppriv(PrivPtype::Effective).unwrap();
    assert!(eff.is_empty(), "the other categories are untouched");
}

#[test]
fn install_remove_mode_test() {
    let mut procp = basic_process();
    let mut fork_only = PrivSet::new_empty().unwrap();
    fork_only.addset(Privilege::ProcFork).unwrap();
    procp.setppriv(PrivOp::Remove, PrivPtype::Limit, &fork_only).unwrap();
    let lim = procp.getppriv(PrivPtype::Limit).unwrap();
    assert!(!lim.is_member(Privilege::ProcFork), "the removed privilege is gone");
    assert!(lim.is_member(Privilege::ProcSession), "the others stay");
}
