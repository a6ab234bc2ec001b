//! A donation ledger: callers donate amounts into a pooled balance, every
//! event is recorded in an append-only history, and a single beneficiary,
//! fixed at construction, may withdraw the pooled total.
//!
//! The ledger is pure state-machine logic: the hosting dispatcher supplies
//! the authenticated caller identity and the attached amount for each call,
//! and performs the actual value transfer that a successful withdrawal
//! requests.

use vstd::prelude::*;

verus! {

/// The kind of event a ledger entry records.
#[derive(Clone, Copy, Debug, PartialEq, Eq, Structural)]
pub enum Operation {
    Donation,
    Withdrawal,
}

/// Why a call was rejected.
#[derive(Clone, Copy, Debug, PartialEq, Eq, Structural)]
pub enum Error {
    /// The ledger was already initialized; it is created exactly once.
    AlreadyInitialized,
    /// A withdrawal was attempted by an identity other than the beneficiary.
    Unauthorized,
}

/// One immutable historical event: who acted, what they did, and the amount.
#[derive(Debug)]
pub struct Record {
    pub who: String,
    pub operation: Operation,
    pub amount: u128,
}

impl Clone for Record {
    fn clone(&self) -> (r: Self)
        ensures
            r == *self,
    {
        Record { who: self.who.clone(), operation: self.operation, amount: self.amount }
    }
}

/// Sum of the amounts of all `Donation` entries in a history.
pub open spec fn donated_total(s: Seq<Record>) -> int
    decreases s.len(),
{
    if s.len() == 0 {
        0
    } else {
        donated_total(s.drop_last()) + if s.last().operation == Operation::Donation {
            s.last().amount as int
        } else {
            0
        }
    }
}

/// Sum of the amounts of all `Withdrawal` entries in a history.
pub open spec fn withdrawn_total(s: Seq<Record>) -> int
    decreases s.len(),
{
    if s.len() == 0 {
        0
    } else {
        withdrawn_total(s.drop_last()) + if s.last().operation == Operation::Withdrawal {
            s.last().amount as int
        } else {
            0
        }
    }
}

/// Appending one entry adds its amount to the total of its kind and leaves
/// the other total unchanged.
pub proof fn lemma_totals_push(s: Seq<Record>, entry: Record)
    ensures
        donated_total(s.push(entry)) == donated_total(s) + if entry.operation
            == Operation::Donation {
            entry.amount as int
        } else {
            0
        },
        withdrawn_total(s.push(entry)) == withdrawn_total(s) + if entry.operation
            == Operation::Withdrawal {
            entry.amount as int
        } else {
            0
        },
{
    assert(s.push(entry).drop_last() =~= s);
    assert(s.push(entry).last() == entry);
}

/// Sum invariant: in a well-formed ledger the pooled balance equals the
/// total donated minus the total withdrawn, as computable by summing the
/// history by kind. Every ledger operation preserves well-formedness, so
/// this holds after any sequence of donations and withdrawals.
pub proof fn lemma_sum_invariant(d: Donations)
    requires
        d.wf(),
    ensures
        d.balance() as int == donated_total(d.history()) - withdrawn_total(d.history()),
{
}

/// Append-only history: a successful operation extends the history by
/// exactly one entry and leaves the content of every prior entry unchanged.
pub proof fn lemma_history_append_only(pre: Seq<Record>, post: Seq<Record>, entry: Record)
    requires
        post == pre.push(entry),
    ensures
        post.len() == pre.len() + 1,
        post.last() == entry,
        forall|i: int| 0 <= i < pre.len() ==> post[i] == pre[i],
{
}

/// The donation ledger: the pooled balance, the append-only history, and the
/// single beneficiary fixed at construction.
pub struct Donations {
    records: Vec<Record>,
    sum: u128,
    fundraiser: String,
}

impl Donations {
    /// The full history, in chronological order.
    pub closed spec fn history(self) -> Seq<Record> {
        self.records@
    }

    /// The pooled balance currently available for withdrawal.
    pub closed spec fn balance(self) -> u128 {
        self.sum
    }

    /// The identity authorized to withdraw the pooled balance.
    pub closed spec fn beneficiary(self) -> String {
        self.fundraiser
    }

    /// Well-formedness: the pooled balance always equals the donations
    /// recorded in the history minus the withdrawals recorded there.
    pub open spec fn wf(self) -> bool {
        self.balance() as int == donated_total(self.history()) - withdrawn_total(self.history())
    }

    /// Creates a ledger with an empty history, a zero balance, and the given
    /// beneficiary.
    pub fn new(fundraiser: String) -> (r: Donations)
        ensures
            r.wf(),
            r.history() == Seq::<Record>::empty(),
            r.balance() == 0,
            r.beneficiary() == fundraiser,
    {
        Donations { records: Vec::new(), sum: 0, fundraiser }
    }

    /// Records a donation: appends exactly one `Donation` entry for the
    /// caller and raises the pooled balance by exactly the attached amount.
    /// Any caller may donate, and a zero amount is permitted.
    pub fn send_donation(&mut self, caller: String, amount: u128)
        requires
            old(self).wf(),
            old(self).balance() + amount <= u128::MAX,
        ensures
            final(self).wf(),
            final(self).history() == old(self).history().push(
                (Record { who: caller, operation: Operation::Donation, amount }),
            ),
            final(self).balance() == old(self).balance() + amount,
            final(self).beneficiary() == old(self).beneficiary(),
    {
        let record = Record { who: caller, operation: Operation::Donation, amount };
        let ghost entry = record;
        self.records.push(record);
        self.sum = self.sum + amount;
        proof {
            lemma_totals_push(old(self).history(), entry);
        }
    }

    /// Withdraws the whole pooled balance. Succeeds exactly when the caller
    /// is the beneficiary: the balance is zeroed and one `Withdrawal` entry
    /// for the previous balance is appended. Any other caller is rejected
    /// with `Unauthorized` and the ledger is left exactly as it was.
    pub fn withdraw_donations(&mut self, caller: String) -> (r: Result<u128, Error>)
        requires
            old(self).wf(),
        ensures
            final(self).wf(),
            final(self).beneficiary() == old(self).beneficiary(),
            r is Ok <==> caller@ == old(self).beneficiary()@,
            r is Err ==> r == Err::<u128, Error>(Error::Unauthorized) && *final(self) == *old(
                self,
            ),
            r is Ok ==> r == Ok::<u128, Error>(old(self).balance()) && final(self).balance() == 0
                && final(self).history() == old(self).history().push(
                (Record {
                    who: old(self).beneficiary(),
                    operation: Operation::Withdrawal,
                    amount: old(self).balance(),
                }),
            ),
    {
        if caller == self.fundraiser {
            let transfer_amount = self.sum;
            self.sum = 0;
            let record = Record {
                who: self.fundraiser.clone(),
                operation: Operation::Withdrawal,
                amount: transfer_amount,
            };
            let ghost entry = record;
            self.records.push(record);
            proof {
                lemma_totals_push(old(self).history(), entry);
            }
            Ok(transfer_amount)
        } else {
            Err(Error::Unauthorized)
        }
    }

    /// Returns a copy of the full history, in chronological order.
    pub fn show_history(&self) -> (r: Vec<Record>)
        ensures
            r@ == self.history(),
    {
        let mut r: Vec<Record> = Vec::new();
        let mut i: usize = 0;
        while i < self.records.len()
            invariant
                i <= self.records.len(),
                r@ == self.records@.subrange(0, i as int),
            decreases self.records.len() - i,
        {
            let ghost prefix = r@;
            r.push(self.records[i].clone());
            proof {
                assert(prefix.push(self.records@[i as int]) =~= self.records@.subrange(
                    0,
                    i as int + 1,
                ));
            }
            i = i + 1;
        }
        proof {
            assert(self.records@.subrange(0, self.records@.len() as int) =~= self.records@);
        }
        r
    }

    /// Returns the current pooled balance; in a well-formed ledger this is
    /// the net total implied by the history.
    pub fn show_donations_sum(&self) -> (r: u128)
        ensures
            r == self.balance(),
            self.wf() ==> r as int == donated_total(self.history()) - withdrawn_total(
                self.history(),
            ),
    {
        self.sum
    }

    /// Returns the beneficiary's identity.
    pub fn show_fundraiser(&self) -> (r: String)
        ensures
            r == self.beneficiary(),
    {
        self.fundraiser.clone()
    }
}

/// Creates the ledger in the host's state slot exactly once: a second call
/// fails with `AlreadyInitialized` and leaves the existing ledger untouched.
pub fn initialize(state: &mut Option<Donations>, fundraiser: String) -> (r: Result<(), Error>)
    ensures
        r is Ok <==> *old(state) is None,
        *old(state) is Some ==> r == Err::<(), Error>(Error::AlreadyInitialized) && *final(state)
            == *old(state),
        *old(state) is None ==> (*final(state) matches Some(d) && d.wf() && d.history()
            == Seq::<Record>::empty() && d.balance() == 0 && d.beneficiary() == fundraiser),
{
    if state.is_some() {
        Err(Error::AlreadyInitialized)
    } else {
        *state = Some(Donations::new(fundraiser));
        Ok(())
    }
}

} // verus!
