//! Laws of the ledger store, proved over the state transitions that the
//! operations' own contracts are stated with: identifiers grow strictly and
//! are never reused, creation round-trips through lookup, and an update
//! replaces every field.

use vstd::prelude::*;
use crate::record::{Category, ExpenseView};
use crate::store::{create_trans, delete_trans, update_trans, wf, StoreView};

verus! {

/// One request to the store, at the level of the model. A creation is only
/// permitted while the identifier space is not exhausted (the operation's
/// precondition); `step` models a creation on an exhausted allocator as
/// leaving the store unchanged.
pub enum StoreOp {
    Create { title: Seq<u8>, description: Seq<u8>, amount: u64, date: Seq<u8>, category: Category },
    Update {
        expense_id: u64,
        title: Seq<u8>,
        description: Seq<u8>,
        amount: u64,
        date: Seq<u8>,
        category: Category,
    },
    Delete { expense_id: u64 },
}

/// The state after one operation. A failing update or delete (absent
/// identifier) leaves the state unchanged, exactly as the operations'
/// contracts say.
pub open spec fn step(s: StoreView, op: StoreOp) -> StoreView {
    match op {
        StoreOp::Create { title, description, amount, date, category } => {
            if s.next_expense_id == u64::MAX {
                s
            } else {
                create_trans(s, title, description, amount, date, category).0
            }
        },
        StoreOp::Update { expense_id, title, description, amount, date, category } => {
            if s.expenses.dom().contains(expense_id) {
                update_trans(s, expense_id, title, description, amount, date, category)
            } else {
                s
            }
        },
        StoreOp::Delete { expense_id } => {
            if s.expenses.dom().contains(expense_id) {
                delete_trans(s, expense_id)
            } else {
                s
            }
        },
    }
}

/// The state after a whole sequence of operations, applied oldest first.
pub open spec fn apply(s: StoreView, ops: Seq<StoreOp>) -> StoreView
    decreases ops.len(),
{
    if ops.len() == 0 {
        s
    } else {
        apply(step(s, ops[0]), ops.drop_first())
    }
}

/// Every single operation preserves well-formedness of the store.
pub proof fn lemma_step_preserves_wf(s: StoreView, op: StoreOp)
    requires
        wf(s),
    ensures
        wf(step(s, op)),
{
}

/// The allocator counter never decreases, whatever one operation does.
pub proof fn lemma_step_next_id_monotone(s: StoreView, op: StoreOp)
    ensures
        step(s, op).next_expense_id >= s.next_expense_id,
{
}

/// Well-formedness is an invariant: it holds after any sequence of operations
/// run against a well-formed store.
pub proof fn lemma_apply_preserves_wf(s: StoreView, ops: Seq<StoreOp>)
    requires
        wf(s),
    ensures
        wf(apply(s, ops)),
    decreases ops.len(),
{
    if ops.len() > 0 {
        lemma_step_preserves_wf(s, ops[0]);
        lemma_apply_preserves_wf(step(s, ops[0]), ops.drop_first());
    }
}

/// The allocator counter never decreases across any sequence of operations.
pub proof fn lemma_apply_next_id_monotone(s: StoreView, ops: Seq<StoreOp>)
    ensures
        apply(s, ops).next_expense_id >= s.next_expense_id,
    decreases ops.len(),
{
    if ops.len() > 0 {
        lemma_step_next_id_monotone(s, ops[0]);
        lemma_apply_next_id_monotone(step(s, ops[0]), ops.drop_first());
    }
}

/// Monotonic unique identifiers: a creation, then any sequence of operations
/// (updates and deletes included), then another creation return strictly
/// increasing identifiers — so no two creations ever return the same one.
pub proof fn lemma_create_ids_strictly_increase(
    s: StoreView,
    title1: Seq<u8>,
    description1: Seq<u8>,
    amount1: u64,
    date1: Seq<u8>,
    category1: Category,
    ops: Seq<StoreOp>,
    title2: Seq<u8>,
    description2: Seq<u8>,
    amount2: u64,
    date2: Seq<u8>,
    category2: Category,
)
    requires
        s.next_expense_id < u64::MAX,
        apply(create_trans(s, title1, description1, amount1, date1, category1).0, ops)
            .next_expense_id < u64::MAX,
    ensures
        ({
            let (s1, id1) = create_trans(s, title1, description1, amount1, date1, category1);
            let s2 = apply(s1, ops);
            let (s3, id2) = create_trans(s2, title2, description2, amount2, date2, category2);
            id1 < id2
        }),
{
    let (s1, id1) = create_trans(s, title1, description1, amount1, date1, category1);
    lemma_apply_next_id_monotone(s1, ops);
}

/// A retired identifier is never handed out again: once an identifier is in
/// the table of a well-formed store — in particular one that is later deleted
/// — no later creation returns it.
pub proof fn lemma_id_never_reallocated(
    s: StoreView,
    expense_id: u64,
    ops: Seq<StoreOp>,
    title: Seq<u8>,
    description: Seq<u8>,
    amount: u64,
    date: Seq<u8>,
    category: Category,
)
    requires
        wf(s),
        s.expenses.dom().contains(expense_id),
        apply(s, ops).next_expense_id < u64::MAX,
    ensures
        create_trans(apply(s, ops), title, description, amount, date, category).1 > expense_id,
{
    lemma_apply_next_id_monotone(s, ops);
}

/// Round trip of creation and lookup: after a creation, the table holds, under
/// the returned identifier, a record with exactly the supplied field values.
pub proof fn lemma_create_round_trip(
    s: StoreView,
    title: Seq<u8>,
    description: Seq<u8>,
    amount: u64,
    date: Seq<u8>,
    category: Category,
)
    ensures
        ({
            let (s1, id) = create_trans(s, title, description, amount, date, category);
            &&& s1.expenses.dom().contains(id)
            &&& s1.expenses[id] == (ExpenseView { id, title, description, amount, date, category })
        }),
{
}

/// An update replaces all fields: after a successful update, the table holds,
/// under the same identifier, a record with exactly the supplied field values
/// — and no other entry of the table changes.
pub proof fn lemma_update_replaces_all_fields(
    s: StoreView,
    expense_id: u64,
    title: Seq<u8>,
    description: Seq<u8>,
    amount: u64,
    date: Seq<u8>,
    category: Category,
)
    ensures
        ({
            let s1 = update_trans(s, expense_id, title, description, amount, date, category);
            &&& s1.expenses.dom().contains(expense_id)
            &&& s1.expenses[expense_id] == (ExpenseView {
                id: expense_id,
                title,
                description,
                amount,
                date,
                category,
            })
            &&& forall|k: u64|
                k != expense_id && #[trigger] s.expenses.dom().contains(k)
                    ==> s1.expenses.dom().contains(k) && s1.expenses[k] == s.expenses[k]
        }),
{
}

/// A deletion removes exactly the one record: the identifier is gone from the
/// table and every other entry is untouched.
pub proof fn lemma_delete_removes_exactly_one(s: StoreView, expense_id: u64)
    ensures
        ({
            let s1 = delete_trans(s, expense_id);
            &&& !s1.expenses.dom().contains(expense_id)
            &&& forall|k: u64|
                k != expense_id && #[trigger] s.expenses.dom().contains(k)
                    ==> s1.expenses.dom().contains(k) && s1.expenses[k] == s.expenses[k]
        }),
{
}

} // verus!
