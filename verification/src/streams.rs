//! The requests that a client of the event feed sends, and the list it
//! keeps of what it has subscribed to.
//!
//! Nothing here talks to the feed. Each method changes the list and hands
//! back the request that is to be sent.

use vstd::prelude::*;

verus! {

/// A request to the feed: a method and its parameters.
#[derive(Debug, Clone, PartialEq, Eq)]
pub struct Subscription {
    pub method: String,
    pub params: Vec<String>,
}

/// What a request holds.
pub struct SubscriptionView {
    pub method: Seq<char>,
    pub params: Seq<Seq<char>>,
}

/// The texts that a list of strings holds.
pub open spec fn texts_view(texts: Seq<String>) -> Seq<Seq<char>> {
    Seq::new(texts.len(), |i: int| texts[i]@)
}

impl View for Subscription {
    type V = SubscriptionView;

    open spec fn view(&self) -> SubscriptionView {
        SubscriptionView { method: self.method@, params: texts_view(self.params@) }
    }
}

/// What a list of requests holds.
pub open spec fn subscriptions_view(subscriptions: Seq<Subscription>) -> Seq<SubscriptionView> {
    Seq::new(subscriptions.len(), |i: int| subscriptions[i]@)
}

/// The requests of a list whose method is not `method`, in their order.
pub open spec fn without_method(
    subscriptions: Seq<SubscriptionView>,
    method: Seq<char>,
) -> Seq<SubscriptionView>
    decreases subscriptions.len(),
{
    if subscriptions.len() == 0 {
        Seq::empty()
    } else {
        let rest = without_method(subscriptions.drop_last(), method);
        if subscriptions.last().method == method {
            rest
        } else {
            rest.push(subscriptions.last())
        }
    }
}

/// A client of the event feed.
#[derive(Debug, Clone, PartialEq, Eq)]
pub struct Subscriber {
    /// The requests to subscribe that were made, in their order.
    pub subscriptions: Vec<Subscription>,
}

impl View for Subscriber {
    type V = Seq<SubscriptionView>;

    open spec fn view(&self) -> Seq<SubscriptionView> {
        subscriptions_view(self.subscriptions@)
    }
}

impl Subscription {
    /// The request with this method and these parameters.
    pub fn new(method: &str, params: Vec<String>) -> (r: Subscription)
        ensures
            r@ == (SubscriptionView { method: method@, params: texts_view(params@) }),
    {
        Subscription { method: method.to_owned(), params }
    }

    /// A request that holds what this one holds.
    pub fn duplicate(&self) -> (r: Subscription)
        ensures
            r@ == self@,
    {
        let mut params: Vec<String> = Vec::with_capacity(self.params.len());
        let mut i: usize = 0;
        while i < self.params.len()
            invariant
                i <= self.params.len(),
                params.len() == i,
                forall|j: int| 0 <= j < i ==> params@[j]@ == self.params@[j]@,
            decreases self.params.len() - i,
        {
            let text: String = self.params[i].clone();
            params.push(text);
            i += 1;
        }
        assert(texts_view(params@) =~= texts_view(self.params@));
        Subscription { method: self.method.clone(), params }
    }
}

impl Subscriber {
    /// A client that has subscribed to nothing.
    pub fn new() -> (r: Subscriber)
        ensures
            r@ == Seq::<SubscriptionView>::empty(),
    {
        let r = Subscriber { subscriptions: Vec::new() };
        assert(r@ =~= Seq::<SubscriptionView>::empty());
        r
    }

    /// Notes a request to subscribe and hands it back to be sent.
    fn note(&mut self, method: &str, params: Vec<String>) -> (r: Subscription)
        ensures
            r@ == (SubscriptionView { method: method@, params: texts_view(params@) }),
            final(self)@ == old(self)@.push(r@),
    {
        let payload = Subscription::new(method, params);
        self.subscriptions.push(payload.duplicate());
        assert(self@ =~= old(self)@.push(payload@));
        payload
    }

    /// Drops the noted requests whose method is `method`, and hands back
    /// the request with that method to be sent.
    fn drop_noted(&mut self, method: &str, params: Vec<String>) -> (r: Subscription)
        ensures
            r@ == (SubscriptionView { method: method@, params: texts_view(params@) }),
            final(self)@ == without_method(old(self)@, method@),
    {
        let payload = Subscription::new(method, params);
        let mut kept: Vec<Subscription> = Vec::new();
        let mut i: usize = 0;
        assert(subscriptions_view(self.subscriptions@.subrange(0, 0)) =~= Seq::empty());
        while i < self.subscriptions.len()
            invariant
                i <= self.subscriptions.len(),
                self.subscriptions == old(self).subscriptions,
                payload.method@ == method@,
                subscriptions_view(kept@) == without_method(
                    subscriptions_view(self.subscriptions@.subrange(0, i as int)),
                    method@,
                ),
            decreases self.subscriptions.len() - i,
        {
            let ghost before: Seq<SubscriptionView> = subscriptions_view(
                self.subscriptions@.subrange(0, i as int),
            );
            let ghost after: Seq<SubscriptionView> = subscriptions_view(
                self.subscriptions@.subrange(0, (i + 1) as int),
            );
            assert(after.drop_last() =~= before);
            assert(after.last() == self.subscriptions@[i as int]@);
            if self.subscriptions[i].method != payload.method {
                kept.push(self.subscriptions[i].duplicate());
                assert(subscriptions_view(kept@) =~= without_method(before, method@).push(
                    after.last(),
                ));
            }
            i += 1;
        }
        assert(self.subscriptions@.subrange(0, self.subscriptions.len() as int)
            =~= self.subscriptions@);
        self.subscriptions = kept;
        payload
    }

    /// Subscribes to all trades.
    pub fn subscribe_trades(&mut self) -> (r: Subscription)
        ensures
            r@ == (SubscriptionView { method: "subscribeTrades"@, params: Seq::empty() }),
            final(self)@ == old(self)@.push(r@),
    {
        let params: Vec<String> = Vec::new();
        assert(texts_view(params@) =~= Seq::empty());
        self.note("subscribeTrades", params)
    }

    /// Ends the subscription to all trades.
    pub fn unsubscribe_trades(&mut self) -> (r: Subscription)
        ensures
            r@ == (SubscriptionView { method: "unsubscribeTrades"@, params: Seq::empty() }),
            final(self)@ == without_method(old(self)@, "unsubscribeTrades"@),
    {
        let params: Vec<String> = Vec::new();
        assert(texts_view(params@) =~= Seq::empty());
        self.drop_noted("unsubscribeTrades", params)
    }

    /// Subscribes to the creation of pools.
    pub fn subscribe_new_pools(&mut self) -> (r: Subscription)
        ensures
            r@ == (SubscriptionView { method: "subscribeNewPools"@, params: Seq::empty() }),
            final(self)@ == old(self)@.push(r@),
    {
        let params: Vec<String> = Vec::new();
        assert(texts_view(params@) =~= Seq::empty());
        self.note("subscribeNewPools", params)
    }

    /// Ends the subscription to the creation of pools.
    pub fn unsubscribe_new_pools(&mut self) -> (r: Subscription)
        ensures
            r@ == (SubscriptionView { method: "unsubscribeNewPools"@, params: Seq::empty() }),
            final(self)@ == without_method(old(self)@, "unsubscribeNewPools"@),
    {
        let params: Vec<String> = Vec::new();
        assert(texts_view(params@) =~= Seq::empty());
        self.drop_noted("unsubscribeNewPools", params)
    }

    /// Subscribes to the trades of one token.
    pub fn subscribe_token(&mut self, token: &str) -> (r: Subscription)
        ensures
            r@ == (SubscriptionView { method: "subscribeToken"@, params: seq![token@] }),
            final(self)@ == old(self)@.push(r@),
    {
        let params: Vec<String> = vec![token.to_owned()];
        assert(texts_view(params@) =~= seq![token@]);
        self.note("subscribeToken", params)
    }

    /// Ends the subscription to the trades of one token.
    pub fn unsubscribe_token(&mut self, token: &str) -> (r: Subscription)
        ensures
            r@ == (SubscriptionView { method: "unsubscribeToken"@, params: seq![token@] }),
            final(self)@ == without_method(old(self)@, "unsubscribeToken"@),
    {
        let params: Vec<String> = vec![token.to_owned()];
        assert(texts_view(params@) =~= seq![token@]);
        self.drop_noted("unsubscribeToken", params)
    }
}

} // verus!
