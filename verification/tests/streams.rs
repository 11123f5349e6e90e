use pumpfun::streams::{Subscriber, Subscription};

fn request(method: &str, params: &[&str]) -> Subscription {
    Subscription { method: method.to_string(), params: params.iter().map(|p| p.to_string()).collect() }
}

#[test]
fn subscribing_notes_the_request() {
    let mut subscriber = Subscriber::new();
    assert!(subscriber.subscriptions.is_empty());
    assert_eq!(subscriber.subscribe_trades(), request("subscribeTrades", &[]));
    assert_eq!(subscriber.subscribe_new_pools(), request("subscribeNewPools", &[]));
    assert_eq!(subscriber.subscribe_token("mint1"), request("subscribeToken", &["mint1"]));
    assert_eq!(subscriber.subscribe_token("mint2"), request("subscribeToken", &["mint2"]));
    assert_eq!(
        subscriber.subscriptions,
        vec![
            request("subscribeTrades", &[]),
            request("subscribeNewPools", &[]),
            request("subscribeToken", &["mint1"]),
            request("subscribeToken", &["mint2"]),
        ]
    );
}

#[test]
fn unsubscribing_drops_requests_of_its_own_method() {
    let mut subscriber = Subscriber::new();
    subscriber.subscribe_trades();
    subscriber.subscribe_token("mint1");
    let before = subscriber.subscriptions.clone();
    assert_eq!(subscriber.unsubscribe_trades(), request("unsubscribeTrades", &[]));
    assert_eq!(subscriber.unsubscribe_new_pools(), request("unsubscribeNewPools", &[]));
    assert_eq!(subscriber.unsubscribe_token("mint1"), request("unsubscribeToken", &["mint1"]));
    assert_eq!(subscriber.subscriptions, before);

    subscriber.subscriptions.push(request("unsubscribeTrades", &["a"]));
    subscriber.subscriptions.push(request("subscribeNewPools", &[]));
    subscriber.subscriptions.push(request("unsubscribeTrades", &[]));
    subscriber.unsubscribe_trades();
    assert_eq!(
        subscriber.subscriptions,
        vec![
            request("subscribeTrades", &[]),
            request("subscribeToken", &["mint1"]),
            request("subscribeNewPools", &[]),
        ]
    );
}

#[test]
fn requests_can_be_made_and_copied() {
    let made = Subscription::new("subscribeToken", vec!["mint".to_string(), "other".to_string()]);
    assert_eq!(made, request("subscribeToken", &["mint", "other"]));
    assert_eq!(made.duplicate(), made);
}
