//! The record schema of the ledger: the expense entry and its category tag.

use vstd::prelude::*;

verus! {

/// The closed set of category tags an expense can carry.
#[derive(Debug, PartialEq, Eq, Clone, Copy)]
pub enum Category {
    Alimentacao,
    Transporte,
    Lazer,
    Saude,
    Educacao,
    Cobrancas,
    Outros,
}

impl Default for Category {
    /// When a caller leaves the category unspecified, it falls back to `Outros`.
    fn default() -> (r: Category)
        ensures
            r == Category::Outros,
    {
        Category::Outros
    }
}

/// A single expense entry. The `id` is assigned by the store's allocator and is
/// immutable once issued; all other fields are opaque to the store and are
/// replaced wholesale on update.
#[derive(Debug, PartialEq, Eq, Clone)]
pub struct Expense {
    pub id: u64,
    pub title: Vec<u8>,
    pub description: Vec<u8>,
    pub amount: u64,
    pub date: Vec<u8>,
    pub category: Category,
}

/// The mathematical model of an expense: byte fields as sequences.
#[verifier::ext_equal]
pub struct ExpenseView {
    pub id: u64,
    pub title: Seq<u8>,
    pub description: Seq<u8>,
    pub amount: u64,
    pub date: Seq<u8>,
    pub category: Category,
}

impl View for Expense {
    type V = ExpenseView;

    open spec fn view(&self) -> ExpenseView {
        ExpenseView {
            id: self.id,
            title: self.title@,
            description: self.description@,
            amount: self.amount,
            date: self.date@,
            category: self.category,
        }
    }
}

} // verus!
