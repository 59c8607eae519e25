use wanderlust::tweaks::WanderlustPhysicsTweaks;

#[test]
fn tweaks_are_done_when_asked_for() {
    assert!(WanderlustPhysicsTweaks::new(true).should_do_tweaks());
    assert!(!WanderlustPhysicsTweaks::new(false).should_do_tweaks());
    assert!(WanderlustPhysicsTweaks(true).should_do_tweaks());
}
