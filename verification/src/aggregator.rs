use vstd::prelude::*;

verus! {

/// Higher timeframe built from one-minute bars.
#[derive(Debug, Clone, Copy, PartialEq, Eq, Structural)]
pub enum Timeframe {
    M5,
    M15,
}

/// Number of one-minute bars in a timeframe.
pub open spec fn bars_in(tf: Timeframe) -> nat {
    match tf {
        Timeframe::M5 => 5,
        Timeframe::M15 => 15,
    }
}

impl Timeframe {
    /// Number of one-minute bars that make up one bar of this timeframe.
    pub fn period(self) -> (r: usize)
        ensures
            r == bars_in(self),
            1 <= r <= 15,
            self == Timeframe::M5 ==> r == 5,
            self == Timeframe::M15 ==> r == 15,
    {
        match self {
            Timeframe::M5 => 5,
            Timeframe::M15 => 15,
        }
    }
}

} // verus!

verus! {

/// Collects consecutive bars until a full period is complete.
///
/// Every `period`-th push hands back the bars of the completed period, oldest
/// first, and starts a fresh period.
pub struct BarWindow<T: Copy> {
    bars: Vec<T>,
    period: usize,
    /// Every bar pushed so far, oldest first.
    history: Ghost<Seq<T>>,
}

/// The bars of an incomplete period after the bars `xs` were pushed into an
/// empty window of period `p`: the last `|xs| % p` of them.
pub open spec fn pending_bars<T>(xs: Seq<T>, p: nat) -> Seq<T> {
    xs.subrange(xs.len() - xs.len() % p, xs.len() as int)
}

impl<T: Copy> BarWindow<T> {
    /// Number of bars per period.
    pub closed spec fn period_len(&self) -> nat {
        self.period as nat
    }

    /// Every bar pushed into this window since it was created, oldest first.
    pub closed spec fn received(&self) -> Seq<T> {
        self.history@
    }

    /// Internal consistency: the window holds the bars of the period in
    /// progress, which is shorter than the period.
    pub closed spec fn wf(&self) -> bool {
        &&& self.period > 0
        &&& self.history@.len() % (self.period as nat) <= self.history@.len()
        &&& self.bars@ == pending_bars(self.history@, self.period as nat)
    }

    /// An empty window of `period` bars.
    pub fn new(period: usize) -> (r: Self)
        requires
            period > 0,
        ensures
            r.wf(),
            r@ == Seq::<T>::empty(),
            r.period_len() == period,
            r.received() == Seq::<T>::empty(),
    {
        let r = BarWindow { bars: Vec::new(), period, history: Ghost(Seq::empty()) };
        proof {
            vstd::arithmetic::div_mod::lemma_small_mod(0, period as nat);
            assert(pending_bars(Seq::<T>::empty(), period as nat) =~= Seq::<T>::empty());
        }
        r
    }

    /// Number of bars per period.
    pub fn period(&self) -> (r: usize)
        ensures
            r == self.period_len(),
    {
        self.period
    }

    /// Number of bars collected in the period in progress.
    pub fn count(&self) -> (r: usize)
        ensures
            r == self@.len(),
    {
        self.bars.len()
    }

    /// Adds one bar; when it completes the period, returns the period's bars
    /// and empties the window.
    pub fn push(&mut self, bar: T) -> (r: Option<Vec<T>>)
        requires
            old(self).wf(),
        ensures
            final(self).wf(),
            final(self).period_len() == old(self).period_len(),
            final(self).received() == old(self).received().push(bar),
            r is Some <==> final(self).received().len() % final(self).period_len() == 0,
            old(self)@.len() + 1 == old(self).period_len() ==> {
                &&& r is Some
                &&& r->0@ == old(self)@.push(bar)
                &&& final(self)@ == Seq::<T>::empty()
            },
            old(self)@.len() + 1 < old(self).period_len() ==> {
                &&& r is None
                &&& final(self)@ == old(self)@.push(bar)
            },
    {
        let ghost pre = self.history@;
        let ghost p: nat = self.period as nat;
        proof {
            lemma_mod_step(pre.len(), p);
            assert(self.bars@.len() == pre.len() % p);
        }
        self.bars.push(bar);
        self.history = Ghost(self.history@.push(bar));
        let ghost post = self.history@;
        proof {
            let n: nat = pre.len();
            if n % p + 1 == p {
                assert(self.bars@ =~= post.subrange(n - n % p, (n + 1) as int));
            } else {
                assert(post.len() % p == n % p + 1);
                assert(self.bars@ =~= pending_bars(post, p));
            }
        }
        if self.bars.len() == self.period {
            let mut done: Vec<T> = Vec::new();
            std::mem::swap(&mut done, &mut self.bars);
            proof {
                assert(pending_bars(post, p) =~= Seq::<T>::empty());
            }
            Some(done)
        } else {
            None
        }
    }
}

impl<T: Copy> View for BarWindow<T> {
    type V = Seq<T>;

    /// Bars of the period in progress, oldest first.
    closed spec fn view(&self) -> Seq<T> {
        self.bars@
    }
}

/// Law of the window: a window of period `p` into which the bars
/// `received()` were pushed, in order, since it was created holds exactly the
/// last `|received()| % p` of them; so a period is handed back on every
/// `p`-th push and nowhere else.
pub proof fn lemma_window_holds_pending<T: Copy>(w: BarWindow<T>)
    requires
        w.wf(),
    ensures
        w@ == pending_bars(w.received(), w.period_len()),
        w@.len() == w.received().len() % w.period_len(),
        w@.len() < w.period_len(),
{
    lemma_mod_step(w.received().len(), w.period_len());
}

proof fn lemma_mod_step(k: nat, p: nat)
    requires
        p > 0,
    ensures
        k % p < p,
        k % p + 1 == p ==> (k + 1) % p == 0,
        k % p + 1 < p ==> (k + 1) % p == k % p + 1,
{
    vstd::arithmetic::div_mod::lemma_mod_bound(k as int, p as int);
    vstd::arithmetic::div_mod::lemma_fundamental_div_mod(k as int, p as int);
    let q: int = k as int / p as int;
    let r: int = k as int % p as int;
    assert(q * (p as int) == (p as int) * q) by (nonlinear_arith);
    assert((q + 1) * (p as int) == q * (p as int) + p) by (nonlinear_arith);
    if r + 1 < p {
        vstd::arithmetic::div_mod::lemma_fundamental_div_mod_converse(
            (k + 1) as int,
            p as int,
            q,
            r + 1,
        );
    } else {
        vstd::arithmetic::div_mod::lemma_fundamental_div_mod_converse(
            (k + 1) as int,
            p as int,
            q + 1,
            0,
        );
    }
}

} // verus!
