use plugin_tls::Context;
use plugin_tls::Slots;

// In the real boundary the accessor handles are the host's two extern
// accessor functions; any copyable handle exercises the install logic.
#[derive(Clone, Copy, PartialEq, Eq, Debug)]
enum Accessor {
    Tls,
    Statics,
}

#[test]
fn access_before_install_is_detected() {
    let plugin_slots: Slots<Accessor> = Slots::empty();
    assert!(plugin_slots.tls_accessor().is_none());
    assert!(plugin_slots.statics_accessor().is_none());
}

#[test]
fn install_fills_both_slots() {
    let mut plugin_slots: Slots<Accessor> = Slots::empty();
    let context = Context::get(Accessor::Tls, Accessor::Statics);
    context.initialize(&mut plugin_slots);
    assert_eq!(plugin_slots.tls_accessor(), Some(&Accessor::Tls));
    assert_eq!(plugin_slots.statics_accessor(), Some(&Accessor::Statics));
}

#[test]
fn host_slots_start_installed() {
    let host_slots = Slots::host(Accessor::Tls, Accessor::Statics);
    assert_eq!(host_slots.tls_accessor(), Some(&Accessor::Tls));
    assert_eq!(host_slots.statics_accessor(), Some(&Accessor::Statics));
}

#[test]
fn separate_contexts_are_identical() {
    let a = Context::get(Accessor::Tls, Accessor::Statics);
    let b = Context::get(Accessor::Tls, Accessor::Statics);
    let mut slots_a: Slots<Accessor> = Slots::empty();
    let mut slots_b: Slots<Accessor> = Slots::empty();
    a.initialize(&mut slots_a);
    b.initialize(&mut slots_b);
    assert_eq!(slots_a.tls_accessor(), slots_b.tls_accessor());
    assert_eq!(slots_a.statics_accessor(), slots_b.statics_accessor());
}
