use fitgirl_torrent_scrap::termination::{on_interrupt, react, Reaction, Trigger};

#[test]
fn first_interrupt_requests_the_stop() {
    assert_eq!(on_interrupt(false), Reaction::RequestStop);
}

#[test]
fn second_interrupt_forces_the_exit() {
    let mut flag = false;
    if on_interrupt(flag) == Reaction::RequestStop {
        flag = true;
    }
    assert!(flag);
    assert_eq!(on_interrupt(flag), Reaction::ForceExit);
}

#[test]
fn interrupt_after_end_of_listing_forces_the_exit() {
    let mut flag = false;
    if react(flag, Trigger::EndOfListing) == Reaction::RequestStop {
        flag = true;
    }
    assert_eq!(react(flag, Trigger::Interrupt), Reaction::ForceExit);
}

#[test]
fn end_of_listing_never_forces_the_exit() {
    assert_eq!(react(false, Trigger::EndOfListing), Reaction::RequestStop);
    assert_eq!(react(true, Trigger::EndOfListing), Reaction::RequestStop);
}
