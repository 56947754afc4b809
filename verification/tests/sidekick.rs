//! Tests of the stock sidekick.

use evil::{Assistant, Gadget, Sidekick};

struct GadgetDummy;

impl Gadget for GadgetDummy {
    fn do_stuff(&self) {}
}

#[test]
fn stock_sidekick_always_agrees() {
    let sidekick = Sidekick::new(GadgetDummy);
    assert!(sidekick.agree());
}

#[test]
fn stock_sidekick_knows_no_weak_targets() {
    let sidekick = Sidekick::new(GadgetDummy);
    let targets = sidekick.get_weak_targets(&GadgetDummy);
    assert!(targets.is_empty());
}
