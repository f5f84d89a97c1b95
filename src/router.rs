//! A minimal in-process router: subscriptions of input handlers to output
//! channel names, and the fan-out of emitted messages to every subscriber.
use vstd::prelude::*;
use crate::context::Emission;

verus! {

/// An input handler of a module, bound to an output channel name.
#[derive(Clone, Debug, PartialEq, Eq)]
pub struct Subscription {
    pub channel: String,
    pub module: usize,
    pub handler: String,
}

/// A message handed to one input handler of one module.
#[derive(Clone, Debug, PartialEq, Eq)]
pub struct Delivery {
    pub module: usize,
    pub handler: String,
    pub message: Vec<u8>,
}

impl View for Subscription {
    type V = (Seq<char>, usize, Seq<char>);

    open spec fn view(&self) -> (Seq<char>, usize, Seq<char>) {
        (self.channel@, self.module, self.handler@)
    }
}

impl View for Delivery {
    type V = (usize, Seq<char>, Seq<u8>);

    open spec fn view(&self) -> (usize, Seq<char>, Seq<u8>) {
        (self.module, self.handler@, self.message@)
    }
}

/// The deliveries of `message`, published on `channel`, one to each
/// subscriber of that channel, in subscription order.
pub open spec fn fan_out(
    subs: Seq<(Seq<char>, usize, Seq<char>)>,
    channel: Seq<char>,
    message: Seq<u8>,
) -> Seq<(usize, Seq<char>, Seq<u8>)>
    decreases subs.len(),
{
    if subs.len() == 0 {
        Seq::empty()
    } else {
        let rest = fan_out(subs.drop_last(), channel, message);
        let s = subs.last();
        if s.0 == channel {
            rest.push((s.1, s.2, message))
        } else {
            rest
        }
    }
}

/// The deliveries of a sequence of emissions, emission by emission.
pub open spec fn route_all(
    subs: Seq<(Seq<char>, usize, Seq<char>)>,
    emissions: Seq<(Seq<char>, Seq<u8>)>,
) -> Seq<(usize, Seq<char>, Seq<u8>)>
    decreases emissions.len(),
{
    if emissions.len() == 0 {
        Seq::empty()
    } else {
        let e = emissions.last();
        route_all(subs, emissions.drop_last()) + fan_out(subs, e.0, e.1)
    }
}

/// Whether some subscription listens on `channel`.
pub open spec fn has_subscriber(subs: Seq<(Seq<char>, usize, Seq<char>)>, channel: Seq<char>) -> bool {
    exists|i: int| 0 <= i < subs.len() && (#[trigger] subs[i]).0 == channel
}

/// The subscriptions in the order they were made.
pub struct Router {
    subscriptions: Vec<Subscription>,
}

impl View for Router {
    type V = Seq<(Seq<char>, usize, Seq<char>)>;

    closed spec fn view(&self) -> Seq<(Seq<char>, usize, Seq<char>)> {
        self.subscriptions@.map_values(|s: Subscription| s@)
    }
}

impl Router {
    /// A router with no subscriptions.
    pub fn new() -> (r: Router)
        ensures
            r@ == Seq::<(Seq<char>, usize, Seq<char>)>::empty(),
    {
        let r = Router { subscriptions: Vec::new() };
        assert(r@ =~= Seq::<(Seq<char>, usize, Seq<char>)>::empty());
        r
    }

    /// Subscribes input handler `handler` of module `module` to `channel`.
    pub fn subscribe(&mut self, channel: &str, module: usize, handler: &str)
        ensures
            final(self)@ == old(self)@.push((channel@, module, handler@)),
    {
        let s = Subscription { channel: channel.to_string(), module, handler: handler.to_string() };
        self.subscriptions.push(s);
        assert(self@ =~= old(self)@.push((channel@, module, handler@)));
    }

    /// Hands `message`, published on `channel`, to every subscriber of it.
    pub fn deliveries(&self, channel: &String, message: &Vec<u8>) -> (r: Vec<Delivery>)
        ensures
            r@.map_values(|d: Delivery| d@) == fan_out(self@, channel@, message@),
    {
        let mut r: Vec<Delivery> = Vec::new();
        let mut i: usize = 0;
        while i < self.subscriptions.len()
            invariant
                i <= self.subscriptions@.len(),
                r@.map_values(|d: Delivery| d@) == fan_out(self@.subrange(0, i as int), channel@, message@),
            decreases self.subscriptions@.len() - i,
        {
            let ghost prefix = self@.subrange(0, i as int);
            let ghost old_r = r@;
            assert(self@.subrange(0, i + 1).drop_last() =~= prefix);
            let s = &self.subscriptions[i];
            if s.channel == *channel {
                let d = Delivery { module: s.module, handler: s.handler.clone(), message: message.clone() };
                r.push(d);
                assert(r@.map_values(|d: Delivery| d@) =~= old_r.map_values(|d: Delivery| d@).push(
                    (s.module, s.handler@, message@),
                ));
            }
            i += 1;
        }
        assert(self@.subrange(0, self@.len() as int) =~= self@);
        r
    }

    /// Hands each emission, in order, to every subscriber of its channel.
    pub fn route(&self, emissions: &Vec<Emission>) -> (r: Vec<Delivery>)
        ensures
            r@.map_values(|d: Delivery| d@) == route_all(self@, emissions@.map_values(|e: Emission| e@)),
    {
        let ghost es = emissions@.map_values(|e: Emission| e@);
        let mut r: Vec<Delivery> = Vec::new();
        let mut i: usize = 0;
        while i < emissions.len()
            invariant
                i <= emissions@.len(),
                es == emissions@.map_values(|e: Emission| e@),
                r@.map_values(|d: Delivery| d@) == route_all(self@, es.subrange(0, i as int)),
            decreases emissions@.len() - i,
        {
            let ghost old_r = r@;
            assert(es.subrange(0, i + 1).drop_last() =~= es.subrange(0, i as int));
            let mut ds = self.deliveries(&emissions[i].channel, &emissions[i].message);
            let ghost ds_view = ds@;
            r.append(&mut ds);
            assert(r@.map_values(|d: Delivery| d@) =~= old_r.map_values(|d: Delivery| d@) + ds_view.map_values(
                |d: Delivery| d@,
            ));
            i += 1;
        }
        assert(es.subrange(0, es.len() as int) =~= es);
        r
    }
}

/// A message published on a channel reaches each subscriber of that channel,
/// and only those: every delivery goes to a subscriber of the channel and
/// carries the message unchanged.
pub proof fn lemma_fan_out_exact(
    subs: Seq<(Seq<char>, usize, Seq<char>)>,
    channel: Seq<char>,
    message: Seq<u8>,
)
    ensures
        forall|i: int|
            0 <= i < subs.len() && (#[trigger] subs[i]).0 == channel ==> fan_out(subs, channel, message).contains(
                (subs[i].1, subs[i].2, message),
            ),
        forall|d: (usize, Seq<char>, Seq<u8>)|
            #[trigger] fan_out(subs, channel, message).contains(d) ==> d.2 == message && exists|i: int|
                0 <= i < subs.len() && subs[i].0 == channel && subs[i].1 == d.0 && subs[i].2 == d.1,
    decreases subs.len(),
{
    if subs.len() > 0 {
        let rest = subs.drop_last();
        let out = fan_out(subs, channel, message);
        let rest_out = fan_out(rest, channel, message);
        lemma_fan_out_exact(rest, channel, message);
        let s = subs.last();
        let item = (s.1, s.2, message);
        assert forall|i: int| 0 <= i < subs.len() && (#[trigger] subs[i]).0 == channel implies out.contains(
            (subs[i].1, subs[i].2, message),
        ) by {
            if i == subs.len() - 1 {
                assert(out[out.len() - 1] == item);
            } else {
                assert(rest[i] == subs[i]);
                let k = choose|k: int| 0 <= k < rest_out.len() && rest_out[k] == (rest[i].1, rest[i].2, message);
                if s.0 == channel {
                    assert(out[k] == rest_out[k]);
                }
            }
        }
        assert forall|d: (usize, Seq<char>, Seq<u8>)| #[trigger] out.contains(d) implies d.2 == message
            && exists|i: int| 0 <= i < subs.len() && subs[i].0 == channel && subs[i].1 == d.0 && subs[i].2 == d.1 by {
            let k = choose|k: int| 0 <= k < out.len() && out[k] == d;
            if s.0 == channel && k == out.len() - 1 {
                assert(subs[subs.len() - 1] == s);
            } else {
                assert(rest_out[k] == d);
                assert(rest_out.contains(d));
                let i = choose|i: int| 0 <= i < rest.len() && rest[i].0 == channel && rest[i].1 == d.0 && rest[i].2 == d.1;
                assert(subs[i] == rest[i]);
            }
        }
    }
}

/// A message published on a channel that nobody subscribes to is dropped: it
/// yields no delivery.
pub proof fn lemma_unsubscribed_dropped(
    subs: Seq<(Seq<char>, usize, Seq<char>)>,
    channel: Seq<char>,
    message: Seq<u8>,
)
    requires
        !has_subscriber(subs, channel),
    ensures
        fan_out(subs, channel, message) == Seq::<(usize, Seq<char>, Seq<u8>)>::empty(),
    decreases subs.len(),
{
    if subs.len() > 0 {
        let rest = subs.drop_last();
        assert forall|i: int| 0 <= i < rest.len() implies (#[trigger] rest[i]).0 != channel by {
            assert(rest[i] == subs[i]);
        }
        assert(subs[subs.len() - 1] == subs.last());
        lemma_unsubscribed_dropped(rest, channel, message);
    }
}

/// Emissions on channels that nobody subscribes to are all dropped: together
/// they yield no delivery.
pub proof fn lemma_all_unsubscribed_dropped(
    subs: Seq<(Seq<char>, usize, Seq<char>)>,
    emissions: Seq<(Seq<char>, Seq<u8>)>,
)
    requires
        forall|i: int| 0 <= i < emissions.len() ==> !has_subscriber(subs, #[trigger] emissions[i].0),
    ensures
        route_all(subs, emissions) == Seq::<(usize, Seq<char>, Seq<u8>)>::empty(),
    decreases emissions.len(),
{
    if emissions.len() > 0 {
        let rest = emissions.drop_last();
        assert forall|i: int| 0 <= i < rest.len() implies !has_subscriber(subs, #[trigger] rest[i].0) by {
            assert(rest[i] == emissions[i]);
        }
        lemma_all_unsubscribed_dropped(subs, rest);
        let e = emissions.last();
        assert(emissions[emissions.len() - 1] == e);
        lemma_unsubscribed_dropped(subs, e.0, e.1);
        assert(route_all(subs, emissions) =~= Seq::<(usize, Seq<char>, Seq<u8>)>::empty());
    }
}

/// Publishing on an unsubscribed channel adds nothing to what a sequence of
/// emissions delivers.
pub proof fn lemma_unsubscribed_emission_ignored(
    subs: Seq<(Seq<char>, usize, Seq<char>)>,
    emissions: Seq<(Seq<char>, Seq<u8>)>,
    channel: Seq<char>,
    message: Seq<u8>,
)
    requires
        !has_subscriber(subs, channel),
    ensures
        route_all(subs, emissions.push((channel, message))) == route_all(subs, emissions),
{
    lemma_unsubscribed_dropped(subs, channel, message);
    assert(emissions.push((channel, message)).drop_last() =~= emissions);
    assert(route_all(subs, emissions) + Seq::<(usize, Seq<char>, Seq<u8>)>::empty() =~= route_all(subs, emissions));
}

} // verus!
