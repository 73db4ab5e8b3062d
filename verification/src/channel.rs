//! Event channels: one transmitter, any number of receivers, and every
//! message to all of them at once.
//!
//! A transmitter keeps what it sent and knows, of each receiver, since when
//! it listens. From that alone follows what each receiver has observed. The
//! order in which the receivers are handed a message is the order in which
//! they subscribed; `send` returns it.

use vstd::prelude::*;

verus! {

/// A receiver of one transmitter, known by the place it took when it
/// subscribed.
#[derive(Clone, Copy, Debug, PartialEq, Eq, Structural)]
pub struct Receiver {
    /// The place that the receiver took among the receivers of its
    /// transmitter: 0 for the first to subscribe.
    pub key: usize,
}

impl Receiver {
    /// The place of the receiver, as a number without bound.
    pub open spec fn key(&self) -> nat {
        self.key as nat
    }

    /// The place that the receiver took among the receivers of its
    /// transmitter.
    pub fn place(&self) -> (key: usize)
        ensures
            key == self.key(),
    {
        self.key
    }
}

/// The places of a list of receivers.
pub open spec fn keys(receivers: Seq<Receiver>) -> Seq<nat> {
    Seq::new(receivers.len(), |i: int| receivers[i].key())
}

/// A channel as mathematics sees it.
pub struct ChannelView<M> {
    /// Every message that reached a receiver, in the order of sending.
    pub sent: Seq<M>,
    /// For each receiver, how many messages had been sent when it
    /// subscribed.
    pub joined: Seq<nat>,
    /// For each receiver that was torn down, how many messages had been sent
    /// by then.
    pub left: Seq<Option<nat>>,
}

impl<M> ChannelView<M> {
    /// Whether the channel can have come about by subscribing, sending and
    /// tearing down.
    pub open spec fn wf(self) -> bool {
        &&& self.joined.len() == self.left.len()
        &&& forall|k: int| 0 <= k < self.joined.len() ==> #[trigger] self.listened(k)
    }

    /// Whether receiver `k` began to listen before it stopped, and stopped,
    /// if it has, no later than now.
    pub open spec fn listened(self, k: int) -> bool {
        self.joined[k] <= self.until(k) <= self.sent.len()
    }

    /// How many receivers ever subscribed.
    pub open spec fn receivers(self) -> nat {
        self.joined.len()
    }

    /// Whether receiver `k` still listens.
    pub open spec fn is_live(self, k: int) -> bool {
        0 <= k < self.left.len() && self.left[k] is None
    }

    /// How many messages had been sent when receiver `k` stopped listening,
    /// or have been sent by now if it still listens.
    pub open spec fn until(self, k: int) -> nat {
        match self.left[k] {
            Some(n) => n,
            None => self.sent.len(),
        }
    }

    /// What receiver `k` has observed: the messages sent while it listened,
    /// in the order of sending.
    pub open spec fn observed(self, k: int) -> Seq<M> {
        self.sent.subrange(self.joined[k] as int, self.until(k) as int)
    }

    /// The live receivers among the first `n`, in the order in which they
    /// subscribed.
    pub open spec fn live_among(self, n: nat) -> Seq<nat>
        decreases n,
    {
        if n == 0 {
            Seq::<nat>::empty()
        } else if self.is_live(n - 1) {
            self.live_among((n - 1) as nat).push((n - 1) as nat)
        } else {
            self.live_among((n - 1) as nat)
        }
    }

    /// The receivers that a message sent now is handed to, in the order in
    /// which it is handed to them.
    pub open spec fn fan_out(self) -> Seq<nat> {
        self.live_among(self.receivers())
    }

    /// The channel after one more receiver subscribed.
    pub open spec fn subscribed(self) -> ChannelView<M> {
        ChannelView {
            sent: self.sent,
            joined: self.joined.push(self.sent.len()),
            left: self.left.push(None),
        }
    }

    /// The channel after `msg` was sent. Without a live receiver nothing
    /// happens.
    pub open spec fn sent_to(self, msg: M) -> ChannelView<M> {
        if self.fan_out().len() == 0 {
            self
        } else {
            ChannelView { sent: self.sent.push(msg), joined: self.joined, left: self.left }
        }
    }

    /// The channel after receiver `k` was torn down.
    pub open spec fn torn_down(self, k: int) -> ChannelView<M> {
        if self.is_live(k) {
            ChannelView {
                sent: self.sent,
                joined: self.joined,
                left: self.left.update(k, Some(self.sent.len())),
            }
        } else {
            self
        }
    }
}

/// Whether `derived` is what a receiver derived by `f` observes when its
/// parent observes `upstream`: the result of `f` for every message of
/// `upstream`, in the same order.
pub open spec fn mapped<A, B, F: Fn(&A) -> B>(f: F, upstream: Seq<A>, derived: Seq<B>) -> bool {
    &&& derived.len() == upstream.len()
    &&& forall|i: int|
        0 <= i < upstream.len() ==> call_ensures(f, (&upstream[i],), #[trigger] derived[i])
}

/// Whether `derived` is what a receiver derived by `f` observes when its
/// parent observes `upstream`: the value that `f` gives for every message
/// of `upstream` for which it gives one, in the same order. A message for
/// which `f` gives nothing leaves no trace.
pub open spec fn filter_mapped<A, B, F: Fn(&A) -> Option<B>>(
    f: F,
    upstream: Seq<A>,
    derived: Seq<B>,
) -> bool
    decreases upstream.len(),
{
    if upstream.len() == 0 {
        derived.len() == 0
    } else {
        ||| (call_ensures(f, (&upstream.last(),), None::<B>) && filter_mapped(
            f,
            upstream.drop_last(),
            derived,
        ))
        ||| (derived.len() > 0 && call_ensures(f, (&upstream.last(),), Some(derived.last()))
            && filter_mapped(f, upstream.drop_last(), derived.drop_last()))
    }
}

/// The value of a view property that starts as `initial` and follows
/// `updates`: the last update, or the initial value while there is none.
pub open spec fn effect_of<T>(initial: T, updates: Seq<T>) -> T {
    if updates.len() == 0 {
        initial
    } else {
        updates.last()
    }
}

/// The sending end of a channel, with the book it keeps of its receivers.
pub struct Transmitter<M> {
    sent: Vec<M>,
    joined: Vec<usize>,
    left: Vec<Option<usize>>,
}

impl<M> View for Transmitter<M> {
    type V = ChannelView<M>;

    closed spec fn view(&self) -> ChannelView<M> {
        ChannelView {
            sent: self.sent@,
            joined: Seq::new(self.joined@.len(), |k: int| self.joined@[k] as nat),
            left: Seq::new(
                self.left@.len(),
                |k: int|
                    match self.left@[k] {
                        Some(n) => Some(n as nat),
                        None => None,
                    },
            ),
        }
    }
}

impl<M> Transmitter<M> {
    /// A transmitter that nobody listens to yet.
    pub fn new() -> (tx: Transmitter<M>)
        ensures
            tx@.wf(),
            tx@.receivers() == 0,
            tx@.sent.len() == 0,
    {
        Transmitter { sent: Vec::new(), joined: Vec::new(), left: Vec::new() }
    }

    /// A new receiver. It observes what is sent from now on, and nothing of
    /// what was sent before.
    pub fn subscribe(&mut self) -> (rx: Receiver)
        requires
            old(self)@.wf(),
        ensures
            final(self)@.wf(),
            final(self)@ == old(self)@.subscribed(),
            rx.key() == old(self)@.receivers(),
    {
        let rx = Receiver { key: self.joined.len() };
        self.joined.push(self.sent.len());
        self.left.push(None);
        assert(self@.joined =~= old(self)@.joined.push(old(self)@.sent.len()));
        assert(self@.left =~= old(self)@.left.push(None));
        assert forall|k: int| 0 <= k < self@.joined.len() implies #[trigger] self@.listened(k) by {
            if k < old(self)@.joined.len() {
                assert(old(self)@.listened(k));
            }
        }
        rx
    }

    /// Tears a receiver down: it observes nothing that is sent from now on.
    /// What it has observed stays. A receiver that is not live is left as it
    /// is.
    pub fn unsubscribe(&mut self, rx: Receiver)
        requires
            old(self)@.wf(),
        ensures
            final(self)@.wf(),
            final(self)@ == old(self)@.torn_down(rx.key() as int),
    {
        if rx.key < self.left.len() {
            if self.left[rx.key].is_none() {
                self.left.set(rx.key, Some(self.sent.len()));
                assert(self@.left =~= old(self)@.left.update(
                    rx.key as int,
                    Some(old(self)@.sent.len()),
                ));
                assert(self@.joined =~= old(self)@.joined);
                assert forall|k: int| 0 <= k < self@.joined.len() implies #[trigger] self@.listened(k) by {
                    assert(old(self)@.listened(k));
                }
            }
        }
    }

    /// How many receivers have ever subscribed. The receivers of this
    /// transmitter are those whose place is below this number.
    pub fn receiver_count(&self) -> (n: usize)
        requires
            self@.wf(),
        ensures
            n == self@.receivers(),
    {
        self.joined.len()
    }

    /// Whether `rx` still listens.
    pub fn is_live(&self, rx: Receiver) -> (live: bool)
        ensures
            live == self@.is_live(rx.key() as int),
    {
        rx.key < self.left.len() && self.left[rx.key].is_none()
    }

    /// Sends `msg` to every live receiver and returns them in the order in
    /// which the message is handed to them, which is the order in which
    /// they subscribed. Without a live receiver nothing happens.
    pub fn send(&mut self, msg: M) -> (notified: Vec<Receiver>)
        requires
            old(self)@.wf(),
        ensures
            final(self)@.wf(),
            final(self)@ == old(self)@.sent_to(msg),
            keys(notified@) == old(self)@.fan_out(),
    {
        let mut notified: Vec<Receiver> = Vec::new();
        let mut k: usize = 0;
        assert(self.joined@.len() == self@.joined.len());
        while k < self.left.len()
            invariant
                k <= self.left.len(),
                self.left@.len() == self@.left.len(),
                keys(notified@) =~= self@.live_among(k as nat),
            decreases self.left.len() - k,
        {
            if self.left[k].is_none() {
                notified.push(Receiver { key: k });
            }
            k += 1;
        }
        if notified.len() > 0 {
            self.sent.push(msg);
            assert(self@.joined =~= old(self)@.joined);
            assert(self@.left =~= old(self)@.left);
            assert forall|k: int| 0 <= k < self@.joined.len() implies #[trigger] self@.listened(k) by {
                assert(old(self)@.listened(k));
            }
        }
        notified
    }

    /// What a receiver derived from `rx` by mapping with `f` has observed.
    pub fn map<B, F: Fn(&M) -> B>(&self, rx: Receiver, f: F) -> (derived: Vec<B>)
        requires
            self@.wf(),
            rx.key() < self@.receivers(),
            forall|i: int|
                0 <= i < self@.observed(rx.key() as int).len() ==> call_requires(
                    f,
                    (&#[trigger] self@.observed(rx.key() as int)[i],),
                ),
        ensures
            mapped(f, self@.observed(rx.key() as int), derived@),
    {
        let n = self.observed_len(rx);
        let ghost upstream = self@.observed(rx.key() as int);
        let mut derived: Vec<B> = Vec::new();
        let mut i: usize = 0;
        while i < n
            invariant
                i <= n,
                n == upstream.len(),
                self@.wf(),
                rx.key() < self@.receivers(),
                upstream == self@.observed(rx.key() as int),
                forall|i: int| 0 <= i < upstream.len() ==> call_requires(f, (&#[trigger] upstream[i],)),
                mapped(f, upstream.take(i as int), derived@),
            decreases n - i,
        {
            let msg = self.observed_at(rx, i).unwrap();
            let value = f(msg);
            derived.push(value);
            i += 1;
        }
        assert(upstream.take(n as int) =~= upstream);
        derived
    }

    /// What a receiver derived from `rx` by mapping and filtering with `f`
    /// has observed.
    pub fn filter_map<B, F: Fn(&M) -> Option<B>>(&self, rx: Receiver, f: F) -> (derived: Vec<B>)
        requires
            self@.wf(),
            rx.key() < self@.receivers(),
            forall|i: int|
                0 <= i < self@.observed(rx.key() as int).len() ==> call_requires(
                    f,
                    (&#[trigger] self@.observed(rx.key() as int)[i],),
                ),
        ensures
            filter_mapped(f, self@.observed(rx.key() as int), derived@),
    {
        let n = self.observed_len(rx);
        let ghost upstream = self@.observed(rx.key() as int);
        let mut derived: Vec<B> = Vec::new();
        let mut i: usize = 0;
        assert(upstream.take(0) =~= Seq::<M>::empty());
        while i < n
            invariant
                i <= n,
                n == upstream.len(),
                self@.wf(),
                rx.key() < self@.receivers(),
                upstream == self@.observed(rx.key() as int),
                forall|i: int| 0 <= i < upstream.len() ==> call_requires(f, (&#[trigger] upstream[i],)),
                filter_mapped(f, upstream.take(i as int), derived@),
            decreases n - i,
        {
            let msg = self.observed_at(rx, i).unwrap();
            let ghost before = derived@;
            proof {
                assert(upstream.take(i + 1).drop_last() =~= upstream.take(i as int));
                assert(upstream.take(i + 1).last() == upstream[i as int]);
            }
            match f(msg) {
                Some(value) => {
                    derived.push(value);
                    assert(derived@.drop_last() =~= before);
                },
                None => {},
            }
            i += 1;
        }
        assert(upstream.take(n as int) =~= upstream);
        derived
    }

    /// How many messages `rx` has observed.
    pub fn observed_len(&self, rx: Receiver) -> (n: usize)
        requires
            self@.wf(),
            rx.key() < self@.receivers(),
        ensures
            n == self@.observed(rx.key() as int).len(),
    {
        assert(self@.listened(rx.key as int));
        let until = match self.left[rx.key] {
            Some(n) => n,
            None => self.sent.len(),
        };
        until - self.joined[rx.key]
    }

    /// The message that `rx` observed as its `i`th, counted from 0, if it
    /// has observed so many.
    pub fn observed_at(&self, rx: Receiver, i: usize) -> (msg: Option<&M>)
        requires
            self@.wf(),
            rx.key() < self@.receivers(),
        ensures
            i < self@.observed(rx.key() as int).len() ==> msg == Some(
                &self@.observed(rx.key() as int)[i as int],
            ),
            i >= self@.observed(rx.key() as int).len() ==> msg is None,
    {
        assert(self@.listened(rx.key as int));
        let start = self.joined[rx.key];
        let until = match self.left[rx.key] {
            Some(n) => n,
            None => self.sent.len(),
        };
        if i < until - start {
            Some(&self.sent[start + i])
        } else {
            None
        }
    }
}

/// A reactive value: what a view property is when it is built, and the
/// receiver whose messages it follows from then on.
#[derive(Debug)]
pub struct Effect<T> {
    /// The value when the view is built.
    pub now: T,
    /// The receiver of the updates.
    pub later: Receiver,
}

impl<T> Effect<T> {
    /// The value of the property now: the last update that `tx` has
    /// delivered to the receiver, or the initial value while there is none.
    pub fn value<'a>(&'a self, tx: &'a Transmitter<T>) -> (now: &'a T)
        requires
            tx@.wf(),
            self.later.key() < tx@.receivers(),
        ensures
            *now == effect_of(self.now, tx@.observed(self.later.key() as int)),
    {
        let n = tx.observed_len(self.later);
        if n == 0 {
            &self.now
        } else {
            tx.observed_at(self.later, n - 1).unwrap()
        }
    }
}

/// Who is handed a message: exactly the live receivers, each once, in the
/// order in which they subscribed.
pub proof fn lemma_fan_out_in_order<M>(c: ChannelView<M>, n: nat)
    requires
        n <= c.receivers(),
        c.joined.len() == c.left.len(),
    ensures
        forall|k: nat| #[trigger]
            c.live_among(n).contains(k) <==> (k < n && c.is_live(k as int)),
        forall|i: int, j: int|
            0 <= i < j < c.live_among(n).len() ==> (#[trigger] c.live_among(n)[i]) < (
            #[trigger] c.live_among(n)[j]),
    decreases n,
{
    let now = c.live_among(n);
    if n == 0 {
        assert(now =~= Seq::<nat>::empty());
    } else {
        let m = (n - 1) as nat;
        let before = c.live_among(m);
        lemma_fan_out_in_order(c, m);
        if c.is_live(m as int) {
            assert(now == before.push(m));
            assert forall|k: nat| #[trigger] now.contains(k) <==> (k < n && c.is_live(k as int)) by {
                if now.contains(k) {
                    let i = choose|i: int| 0 <= i < now.len() && now[i] == k;
                    if i < before.len() {
                        assert(now[i] == before[i]);
                        assert(before.contains(k));
                    } else {
                        assert(k == m);
                    }
                }
                if k < n && c.is_live(k as int) {
                    if k == m {
                        assert(now[now.len() - 1] == k);
                    } else {
                        assert(before.contains(k));
                        let i = choose|i: int| 0 <= i < before.len() && before[i] == k;
                        assert(now[i] == k);
                    }
                }
            }
            assert forall|i: int, j: int| 0 <= i < j < now.len() implies (#[trigger] now[i]) < (
            #[trigger] now[j]) by {
                assert(now[i] == before[i]);
                assert(before.contains(before[i]));
                if j < before.len() {
                    assert(now[j] == before[j]);
                    assert(before[i] < before[j]);
                } else {
                    assert(now[j] == m);
                }
            }
        } else {
            assert(now == before);
            assert forall|k: nat| #[trigger] now.contains(k) <==> (k < n && c.is_live(k as int)) by {
                if k == m {
                    assert(!before.contains(k));
                }
            }
        }
    }
}

/// A message reaches every live receiver once, behind all that the receiver
/// observed before, and no receiver that was torn down.
pub proof fn lemma_send_reaches_live<M>(c: ChannelView<M>, msg: M, k: int)
    requires
        c.wf(),
        0 <= k < c.receivers(),
    ensures
        c.sent_to(msg).wf(),
        c.sent_to(msg).fan_out() == c.fan_out(),
        c.sent_to(msg).observed(k) == if c.is_live(k) {
            c.observed(k).push(msg)
        } else {
            c.observed(k)
        },
{
    let after = c.sent_to(msg);
    lemma_fan_out_in_order(c, c.receivers());
    lemma_same_book(c, after, c.receivers());
    assert(c.listened(k));
    if c.is_live(k) {
        assert(c.fan_out().contains(k as nat));
        assert(after.observed(k) =~= c.observed(k).push(msg));
    } else {
        assert(after.observed(k) =~= c.observed(k));
    }
    assert forall|i: int| 0 <= i < after.joined.len() implies #[trigger] after.listened(i) by {
        assert(c.listened(i));
    }
}

/// Who is live depends on the book of receivers alone, not on what was
/// sent.
proof fn lemma_same_book<M>(a: ChannelView<M>, b: ChannelView<M>, n: nat)
    requires
        a.left == b.left,
    ensures
        a.live_among(n) == b.live_among(n),
    decreases n,
{
    if n > 0 {
        lemma_same_book(a, b, (n - 1) as nat);
    }
}

/// The live receivers among the first `n` stay who they are when another
/// receiver subscribes behind them.
proof fn lemma_older_receivers<M>(c: ChannelView<M>, n: nat)
    requires
        n <= c.left.len(),
    ensures
        c.subscribed().live_among(n) == c.live_among(n),
    decreases n,
{
    if n > 0 {
        lemma_older_receivers(c, (n - 1) as nat);
    }
}

/// A new receiver has observed nothing, changes nothing of what the others
/// observed, and is handed every message after them.
pub proof fn lemma_newcomer<M>(c: ChannelView<M>)
    requires
        c.wf(),
    ensures
        c.subscribed().wf(),
        c.subscribed().receivers() == c.receivers() + 1,
        c.subscribed().is_live(c.receivers() as int),
        c.subscribed().observed(c.receivers() as int) == Seq::<M>::empty(),
        forall|k: int| 0 <= k < c.receivers() ==> c.subscribed().observed(k) == c.observed(k),
        c.subscribed().fan_out() == c.fan_out().push(c.receivers()),
{
    let after = c.subscribed();
    lemma_older_receivers(c, c.receivers());
    assert(after.observed(c.receivers() as int) =~= Seq::<M>::empty());
    assert forall|k: int| 0 <= k < after.joined.len() implies #[trigger] after.listened(k) by {
        if k < c.receivers() {
            assert(c.listened(k));
        }
    }
}

/// Fan-out in order: two receivers that subscribe one after the other both
/// observe two messages sent after that, in the order of sending, and each
/// message is handed to the first of them before the second.
pub proof fn lemma_fan_out_order<M>(c: ChannelView<M>, m1: M, m2: M)
    requires
        c.wf(),
    ensures
        ({
            let r1 = c.receivers() as int;
            let r2 = r1 + 1;
            let both = c.subscribed().subscribed();
            let after = both.sent_to(m1).sent_to(m2);
            &&& after.observed(r1) == seq![m1, m2]
            &&& after.observed(r2) == seq![m1, m2]
            &&& both.fan_out() == c.fan_out() + seq![r1 as nat, r2 as nat]
            &&& both.sent_to(m1).fan_out() == both.fan_out()
        }),
{
    let r1 = c.receivers() as int;
    let r2 = r1 + 1;
    let one = c.subscribed();
    let both = one.subscribed();
    lemma_newcomer(c);
    lemma_newcomer(one);
    lemma_send_reaches_live(both, m1, r1);
    lemma_send_reaches_live(both, m1, r2);
    let first = both.sent_to(m1);
    lemma_send_reaches_live(first, m2, r1);
    lemma_send_reaches_live(first, m2, r2);
    assert(first.is_live(r1) && first.is_live(r2)) by {
        lemma_fan_out_in_order(both, both.receivers());
        assert(both.fan_out().contains(r2 as nat)) by {
            assert(both.fan_out().last() == r2);
        }
    }
    assert(Seq::<M>::empty().push(m1).push(m2) =~= seq![m1, m2]);
    assert(c.fan_out().push(r1 as nat).push(r2 as nat) =~= c.fan_out() + seq![r1 as nat, r2 as nat]);
}

} // verus!
