use vstd::prelude::*;
use vstd::arithmetic::power2::{pow2, lemma_pow2_unfold};

verus! {

/// Longest wait between two connection attempts, in seconds.
pub const MAX_DELAY_SECS: u64 = 30;

/// What a stream does next: connect after waiting, or stop.
#[derive(Debug, Clone, Copy, PartialEq, Eq, Structural)]
pub enum Attempt {
    /// Wait `wait_secs` seconds, then connect.
    Connect { wait_secs: u64 },
    /// All attempts are used up.
    GiveUp,
}

/// Back-off of a delay after a failed attempt: doubled, at most the cap.
pub open spec fn backed_off(delay: nat) -> nat {
    if 2 * delay <= MAX_DELAY_SECS {
        2 * delay
    } else {
        MAX_DELAY_SECS as nat
    }
}

/// The delay after `n` back-offs from one second.
pub open spec fn delay_after(n: nat) -> nat
    decreases n,
{
    if n == 0 {
        1
    } else {
        backed_off(delay_after((n - 1) as nat))
    }
}

/// Reconnection schedule of a stream: the first attempt connects at once,
/// each later one waits the current delay, which then doubles up to
/// `MAX_DELAY_SECS`; a successful connection resets the delay to one
/// second; after `max_retries` retries the stream gives up.
pub struct Reconnect {
    max_retries: u32,
    attempts_made: u64,
    delay_secs: u64,
    /// Index of the last attempt that connected (0 when none has).
    last_success: Ghost<nat>,
}

impl Reconnect {
    /// Number of retries allowed after the first attempt.
    pub closed spec fn max_retries(&self) -> nat {
        self.max_retries as nat
    }

    /// Number of connection attempts handed out so far.
    pub closed spec fn attempts_made(&self) -> nat {
        self.attempts_made as nat
    }

    /// Wait before the next retry, in seconds.
    pub closed spec fn delay(&self) -> nat {
        self.delay_secs as nat
    }

    /// Index of the last attempt that connected, or 0 when none has.
    pub closed spec fn last_success(&self) -> nat {
        self.last_success@
    }

    pub closed spec fn wf(&self) -> bool {
        &&& self.attempts_made <= self.max_retries as u64 + 1
        &&& 1 <= self.delay_secs <= MAX_DELAY_SECS
        &&& self.attempts_made == 0 ==> self.delay_secs == 1 && self.last_success@ == 0
        &&& self.attempts_made > 0 ==> {
            &&& self.last_success@ < self.attempts_made
            &&& self.delay_secs == delay_after((self.attempts_made - 1 - self.last_success@) as nat)
        }
    }

    /// A fresh schedule allowing `max_retries` retries.
    pub fn new(max_retries: u32) -> (r: Self)
        ensures
            r.wf(),
            r.max_retries() == max_retries,
            r.attempts_made() == 0,
            r.delay() == 1,
            r.last_success() == 0,
    {
        Reconnect { max_retries, attempts_made: 0, delay_secs: 1, last_success: Ghost(0) }
    }

    /// The next step: connect (after the returned wait) or give up.
    pub fn next_attempt(&mut self) -> (r: Attempt)
        requires
            old(self).wf(),
        ensures
            final(self).wf(),
            final(self).max_retries() == old(self).max_retries(),
            final(self).last_success() == old(self).last_success(),
            old(self).attempts_made() > old(self).max_retries() ==> {
                &&& r == Attempt::GiveUp
                &&& *final(self) == *old(self)
            },
            old(self).attempts_made() == 0 ==> {
                &&& r == (Attempt::Connect { wait_secs: 0 })
                &&& final(self).attempts_made() == 1
                &&& final(self).delay() == old(self).delay()
            },
            0 < old(self).attempts_made() <= old(self).max_retries() ==> {
                &&& r == (Attempt::Connect { wait_secs: old(self).delay() as u64 })
                &&& r == (Attempt::Connect {
                    wait_secs: capped_pow2(
                        (old(self).attempts_made() - 1 - old(self).last_success()) as nat,
                    ) as u64,
                })
                &&& final(self).attempts_made() == old(self).attempts_made() + 1
                &&& final(self).delay() == backed_off(old(self).delay())
                &&& final(self).delay() == (if 2 * old(self).delay() <= 30 {
                    2 * old(self).delay()
                } else {
                    30
                })
            },
            r matches Attempt::Connect { wait_secs } ==> wait_secs <= 30,
    {
        if self.attempts_made > self.max_retries as u64 {
            return Attempt::GiveUp;
        }
        if self.attempts_made == 0 {
            self.attempts_made = 1;
            return Attempt::Connect { wait_secs: 0 };
        }
        let wait: u64 = self.delay_secs;
        proof {
            lemma_delay_after((self.attempts_made - 1 - self.last_success@) as nat);
        }
        self.delay_secs = if 2 * wait <= MAX_DELAY_SECS { 2 * wait } else { MAX_DELAY_SECS };
        self.attempts_made = self.attempts_made + 1;
        Attempt::Connect { wait_secs: wait }
    }

    /// Records a successful connection: the next retry waits one second.
    pub fn connected(&mut self)
        requires
            old(self).wf(),
        ensures
            final(self).wf(),
            final(self).max_retries() == old(self).max_retries(),
            final(self).attempts_made() == old(self).attempts_made(),
            final(self).delay() == 1,
            final(self).last_success() == (if old(self).attempts_made() > 0 {
                (old(self).attempts_made() - 1) as nat
            } else {
                0
            }),
    {
        self.delay_secs = 1;
        self.last_success = Ghost(
            if self.attempts_made > 0 {
                (self.attempts_made - 1) as nat
            } else {
                0
            },
        );
    }
}

/// `min(2^e, MAX_DELAY_SECS)`.
pub open spec fn capped_pow2(e: nat) -> nat {
    if pow2(e) <= MAX_DELAY_SECS {
        pow2(e)
    } else {
        MAX_DELAY_SECS as nat
    }
}

/// After `n` back-offs from one second the delay is `min(2^n, MAX_DELAY_SECS)`;
/// it never exceeds the cap.
pub proof fn lemma_delay_after(n: nat)
    ensures
        delay_after(n) == capped_pow2(n),
        delay_after(n) == (if pow2(n) <= 30 { pow2(n) } else { 30 }),
        1 <= delay_after(n) <= 30,
    decreases n,
{
    if n == 0 {
        assert(pow2(0) == 1) by {
            vstd::arithmetic::power2::lemma_pow2(0);
            vstd::arithmetic::power::lemma_pow0(2);
        }
    } else {
        lemma_delay_after((n - 1) as nat);
        lemma_pow2_unfold(n);
    }
}

/// Law of the whole schedule, successful connections included: when attempt
/// `k >= 1` is handed out, it waits `min(2^(k - 1 - s), MAX_DELAY_SECS)`
/// seconds, where `s` is the index of the last attempt that connected before
/// it (0 when none has): 1 s, 2 s, 4 s, ... up to the cap, and back to 1 s
/// after a successful connection.
pub proof fn lemma_wait_before_attempt(r: Reconnect)
    requires
        r.wf(),
        r.attempts_made() > 0,
    ensures
        r.last_success() < r.attempts_made(),
        r.delay() == capped_pow2((r.attempts_made() - 1 - r.last_success()) as nat),
        r.delay() == (if pow2((r.attempts_made() - 1 - r.last_success()) as nat) <= 30 {
            pow2((r.attempts_made() - 1 - r.last_success()) as nat)
        } else {
            30
        }),
{
    lemma_delay_after((r.attempts_made() - 1 - r.last_success()) as nat);
}

} // verus!
