//! The ledger store: a table of expense records keyed by identifier, an
//! allocator that hands out strictly increasing identifiers, and the three
//! mutation operations with the event and error taxonomy.

use std::collections::HashMap;
use vstd::prelude::*;
use crate::record::{Category, Expense, ExpenseView};

verus! {

broadcast use vstd::std_specs::hash::group_hash_axioms;

/// A notification handed to the host's event sink after a successful mutation,
/// naming the operation and the affected identifier.
#[derive(Debug, PartialEq, Eq, Clone, Copy)]
pub enum Event {
    ExpenseCreated(u64),
    ExpenseUpdated(u64),
    ExpenseDeleted(u64),
}

/// The one failure the store itself can report: `update_expense` or
/// `delete_expense` was asked for an identifier that is not in the table.
#[derive(Debug, PartialEq, Eq, Clone, Copy)]
pub enum Error {
    ExpenseNotFound,
}

/// The mathematical model of the whole store: the record table as a map, the
/// allocator counter, and the events emitted so far, oldest first.
#[verifier::ext_equal]
pub struct StoreView {
    pub expenses: Map<u64, ExpenseView>,
    pub next_expense_id: u64,
    pub events: Seq<Event>,
}

/// Well-formedness of a store state: every identifier in the table was issued
/// by the allocator, i.e. is positive and below the allocator counter, and the
/// record stored under a key carries that key as its own id.
pub open spec fn wf(s: StoreView) -> bool {
    forall|k: u64| #[trigger]
        s.expenses.dom().contains(k) ==> 0 < k && k < s.next_expense_id && s.expenses[k].id == k
}

/// The identifier the next creation returns: the allocator counter, except that
/// an untouched counter (still at its zero sentinel) is first bumped to one.
pub open spec fn effective_next_id(s: StoreView) -> u64 {
    if s.next_expense_id == 0 {
        1
    } else {
        s.next_expense_id
    }
}

/// The state transition of a creation, together with the identifier it returns.
pub open spec fn create_trans(
    s: StoreView,
    title: Seq<u8>,
    description: Seq<u8>,
    amount: u64,
    date: Seq<u8>,
    category: Category,
) -> (StoreView, u64) {
    let id = effective_next_id(s);
    let rec = ExpenseView { id, title, description, amount, date, category };
    (
        StoreView {
            expenses: s.expenses.insert(id, rec),
            next_expense_id: (id + 1) as u64,
            events: s.events.push(Event::ExpenseCreated(id)),
        },
        id,
    )
}

/// The state transition of a successful update: every field of the record at
/// `expense_id` is replaced by the supplied values; the allocator is untouched.
pub open spec fn update_trans(
    s: StoreView,
    expense_id: u64,
    title: Seq<u8>,
    description: Seq<u8>,
    amount: u64,
    date: Seq<u8>,
    category: Category,
) -> StoreView {
    let rec = ExpenseView { id: expense_id, title, description, amount, date, category };
    StoreView {
        expenses: s.expenses.insert(expense_id, rec),
        next_expense_id: s.next_expense_id,
        events: s.events.push(Event::ExpenseUpdated(expense_id)),
    }
}

/// The state transition of a successful deletion: the record at `expense_id`
/// leaves the table; the allocator is untouched, so the identifier is retired
/// for good.
pub open spec fn delete_trans(s: StoreView, expense_id: u64) -> StoreView {
    StoreView {
        expenses: s.expenses.remove(expense_id),
        next_expense_id: s.next_expense_id,
        events: s.events.push(Event::ExpenseDeleted(expense_id)),
    }
}

/// The ledger store. It exclusively owns the record table and the allocator
/// counter; the host must serialize calls to the mutation operations.
pub struct Pallet {
    expenses: HashMap<u64, Expense>,
    next_expense_id: u64,
    events: Vec<Event>,
}

impl View for Pallet {
    type V = StoreView;

    closed spec fn view(&self) -> StoreView {
        StoreView {
            expenses: self.expenses@.map_values(|e: Expense| e@),
            next_expense_id: self.next_expense_id,
            events: self.events@,
        }
    }
}

impl Pallet {
    /// A fresh store: empty table, allocator at its zero sentinel, no events.
    pub fn new() -> (s: Pallet)
        ensures
            s@ == (StoreView {
                expenses: Map::<u64, ExpenseView>::empty(),
                next_expense_id: 0u64,
                events: Seq::<Event>::empty(),
            }),
            wf(s@),
    {
        let s = Pallet { expenses: HashMap::new(), next_expense_id: 0, events: Vec::new() };
        proof {
            assert(s@.expenses =~= Map::<u64, ExpenseView>::empty());
            assert(s@ =~= StoreView {
                expenses: Map::<u64, ExpenseView>::empty(),
                next_expense_id: 0u64,
                events: Seq::<Event>::empty(),
            });
        }
        s
    }

    /// Creates a record from the supplied fields under a fresh identifier and
    /// emits `ExpenseCreated`. Accepts any field values; it cannot fail. The
    /// caller must not have exhausted the identifier space: the store's policy
    /// is that a creation is only permitted while the allocator counter is
    /// below its maximum.
    pub fn create_expense(
        &mut self,
        title: Vec<u8>,
        description: Vec<u8>,
        amount: u64,
        date: Vec<u8>,
        category: Category,
    ) -> (r: Result<u64, Error>)
        requires
            wf(old(self)@),
            old(self)@.next_expense_id < u64::MAX,
        ensures
            wf(final(self)@),
            ({
                let (s2, id) = create_trans(
                    old(self)@,
                    title@,
                    description@,
                    amount,
                    date@,
                    category,
                );
                &&& r == Ok::<u64, Error>(id)
                &&& final(self)@ == s2
            }),
    {
        if self.next_expense_id == 0 {
            self.next_expense_id = 1;
        }
        let expense_id = self.next_expense_id;
        let expense = Expense { id: expense_id, title, description, amount, date, category };
        let ghost rec = expense@;
        self.expenses.insert(expense_id, expense);
        self.next_expense_id = expense_id + 1;
        self.events.push(Event::ExpenseCreated(expense_id));
        proof {
            let (s2, id) = create_trans(old(self)@, rec.title, rec.description, amount, rec.date, category);
            assert(self@.expenses =~= s2.expenses);
            assert(self@ =~= s2);
        }
        Ok(expense_id)
    }

    /// Replaces every field of the record at `expense_id` with the supplied
    /// values and emits `ExpenseUpdated`. If no record is at `expense_id`, it
    /// fails with `ExpenseNotFound` and the store is left exactly as it was.
    pub fn update_expense(
        &mut self,
        expense_id: u64,
        title: Vec<u8>,
        description: Vec<u8>,
        amount: u64,
        date: Vec<u8>,
        category: Category,
    ) -> (r: Result<(), Error>)
        requires
            wf(old(self)@),
        ensures
            wf(final(self)@),
            old(self)@.expenses.dom().contains(expense_id) ==> {
                &&& r == Ok::<(), Error>(())
                &&& final(self)@ == update_trans(
                    old(self)@,
                    expense_id,
                    title@,
                    description@,
                    amount,
                    date@,
                    category,
                )
            },
            !old(self)@.expenses.dom().contains(expense_id) ==> {
                &&& r == Err::<(), Error>(Error::ExpenseNotFound)
                &&& final(self)@ == old(self)@
            },
    {
        if self.expenses.contains_key(&expense_id) {
            let expense = Expense { id: expense_id, title, description, amount, date, category };
            let ghost rec = expense@;
            self.expenses.insert(expense_id, expense);
            self.events.push(Event::ExpenseUpdated(expense_id));
            proof {
                let s2 = update_trans(
                    old(self)@,
                    expense_id,
                    rec.title,
                    rec.description,
                    amount,
                    rec.date,
                    category,
                );
                assert(old(self)@.expenses.dom().contains(expense_id));
                assert(self@.expenses =~= s2.expenses);
                assert(self@ =~= s2);
            }
            Ok(())
        } else {
            Err(Error::ExpenseNotFound)
        }
    }

    /// Removes the record at `expense_id` and emits `ExpenseDeleted`; the
    /// identifier is never handed out again. If no record is at `expense_id`,
    /// it fails with `ExpenseNotFound` and the store is left exactly as it was.
    pub fn delete_expense(&mut self, expense_id: u64) -> (r: Result<(), Error>)
        requires
            wf(old(self)@),
        ensures
            wf(final(self)@),
            old(self)@.expenses.dom().contains(expense_id) ==> {
                &&& r == Ok::<(), Error>(())
                &&& final(self)@ == delete_trans(old(self)@, expense_id)
            },
            !old(self)@.expenses.dom().contains(expense_id) ==> {
                &&& r == Err::<(), Error>(Error::ExpenseNotFound)
                &&& final(self)@ == old(self)@
            },
    {
        if self.expenses.contains_key(&expense_id) {
            self.expenses.remove(&expense_id);
            self.events.push(Event::ExpenseDeleted(expense_id));
            proof {
                let s2 = delete_trans(old(self)@, expense_id);
                assert(self@.expenses =~= s2.expenses);
                assert(self@ =~= s2);
            }
            Ok(())
        } else {
            Err(Error::ExpenseNotFound)
        }
    }

    /// Point lookup: the record stored at `expense_id`, or `None` if the
    /// identifier is absent. Has no side effect.
    pub fn expense(&self, expense_id: u64) -> (r: Option<Expense>)
        ensures
            match r {
                Some(e) => self@.expenses.dom().contains(expense_id)
                    && e@ == self@.expenses[expense_id],
                None => !self@.expenses.dom().contains(expense_id),
            },
    {
        match self.expenses.get(&expense_id) {
            Some(e) => {
                let out = Expense {
                    id: e.id,
                    title: e.title.clone(),
                    description: e.description.clone(),
                    amount: e.amount,
                    date: e.date.clone(),
                    category: e.category,
                };
                proof {
                    assert(out@.title =~= e@.title);
                    assert(out@.description =~= e@.description);
                    assert(out@.date =~= e@.date);
                    assert(out@ =~= e@);
                }
                Some(out)
            },
            None => None,
        }
    }

    /// The allocator counter: the identifier the next creation will return,
    /// except that a fresh store reports its zero sentinel.
    pub fn next_expense_id(&self) -> (r: u64)
        ensures
            r == self@.next_expense_id,
    {
        self.next_expense_id
    }

    /// The events emitted by successful mutations so far, oldest first.
    pub fn events(&self) -> (r: &Vec<Event>)
        ensures
            r@ == self@.events,
    {
        &self.events
    }
}

/// A minimal stand-in for the host that owns the store: it only supplies the
/// fresh, empty store a host begins with. The test suite exercises the store
/// under this host.
#[derive(Clone, Eq, PartialEq)]
pub struct Test;

impl Test {
    /// The store this host starts from: fresh and empty, allocator untouched.
    pub fn new_store() -> (s: Pallet)
        ensures
            s@ == (StoreView {
                expenses: Map::<u64, ExpenseView>::empty(),
                next_expense_id: 0u64,
                events: Seq::<Event>::empty(),
            }),
            wf(s@),
    {
        Pallet::new()
    }
}

} // verus!
