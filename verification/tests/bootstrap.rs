use kumulus::bootstrap::{Error, Event, Pallet};

#[test]
fn registering_bootstrapper_event() {
    let bootstraper1: u64 = 1;

    let mut bootstrap = Pallet::new();
    assert_eq!(bootstrap.register_bootstrapper(bootstraper1), Ok(()));

    assert_eq!(bootstrap.events().last(), Some(&Event::BootstrapperAdded { who: bootstraper1 }));
}

#[test]
fn bootstrapper_registered() {
    let bootstraper1: u64 = 1;

    let mut bootstrap = Pallet::new();
    assert_eq!(bootstrap.register_bootstrapper(bootstraper1), Ok(()));

    // The bootstrapper is stored.
    assert_eq!(bootstrap.get(bootstraper1).unwrap_or(false), true);

    let not_a_bootstrapper: u64 = 2;
    // Another account is not.
    assert_eq!(bootstrap.get(not_a_bootstrapper).unwrap_or(false), false);
}

#[test]
fn bootstrapper_cannot_register_twice() {
    let mut bootstrap = Pallet::new();
    assert_eq!(bootstrap.register_bootstrapper(7), Ok(()));
    assert_eq!(bootstrap.register_bootstrapper(7), Err(Error::BootstrapperAlreadyRegistered));
    assert_eq!(bootstrap.events().len(), 1);
    assert_eq!(bootstrap.get(7), Some(true));
}

#[test]
fn bootstrappers_are_reported_in_order() {
    let mut bootstrap = Pallet::new();
    assert!(bootstrap.events().is_empty());
    assert_eq!(bootstrap.register_bootstrapper(3), Ok(()));
    assert_eq!(bootstrap.register_bootstrapper(5), Ok(()));
    assert_eq!(
        bootstrap.events().as_slice(),
        &[Event::BootstrapperAdded { who: 3 }, Event::BootstrapperAdded { who: 5 }]
    );
    assert_eq!(bootstrap.get(4), None);
}
