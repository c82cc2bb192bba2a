use kumulus::providers::{Error, Event, Pallet};

#[test]
fn provider_is_listed_and_reported() {
    let mut providers = Pallet::new();
    assert_eq!(providers.get(1), None);
    assert_eq!(providers.register_provider(1), Ok(()));
    assert_eq!(providers.get(1), Some(true));
    assert_eq!(providers.get(2), None);
    assert_eq!(providers.events().last(), Some(&Event::ProviderRegistered { who: 1 }));
}

#[test]
fn listed_provider_is_refused() {
    let mut providers = Pallet::new();
    assert_eq!(providers.register_provider(9), Ok(()));
    assert_eq!(providers.register_provider(9), Err(Error::ProviderAlreadyRegisered));
    assert_eq!(providers.events().as_slice(), &[Event::ProviderRegistered { who: 9 }]);
    assert_eq!(providers.get(9), Some(true));
}
