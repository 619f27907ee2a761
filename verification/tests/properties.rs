use expense_ledger::record::Category;
use expense_ledger::store::{Error, Event, Pallet};

#[test]
fn ids_are_monotonic_and_unique_across_deletes() {
    let mut store = Pallet::new();
    let id1 = store
        .create_expense(b"a".to_vec(), b"b".to_vec(), 1, b"c".to_vec(), Category::Outros)
        .unwrap();
    let id2 = store
        .create_expense(b"d".to_vec(), b"e".to_vec(), 2, b"f".to_vec(), Category::Outros)
        .unwrap();
    assert!(store.delete_expense(id1).is_ok());
    let id3 = store
        .create_expense(b"g".to_vec(), b"h".to_vec(), 3, b"i".to_vec(), Category::Outros)
        .unwrap();
    assert!(id1 < id2);
    assert!(id2 < id3);
    assert_eq!(id1, 1);
    assert_eq!(id2, 2);
    assert_eq!(id3, 3);
}

#[test]
fn create_then_read_round_trips_all_fields() {
    let mut store = Pallet::new();
    let id = store
        .create_expense(
            b"Rent".to_vec(),
            b"February payment".to_vec(),
            1000,
            b"2024-02-12".to_vec(),
            Category::Alimentacao,
        )
        .unwrap();
    let expense = store.expense(id).unwrap();
    assert_eq!(expense.id, id);
    assert_eq!(expense.title, b"Rent".to_vec());
    assert_eq!(expense.description, b"February payment".to_vec());
    assert_eq!(expense.amount, 1000);
    assert_eq!(expense.date, b"2024-02-12".to_vec());
    assert_eq!(expense.category, Category::Alimentacao);
}

#[test]
fn update_replaces_all_fields_and_keeps_the_rest_byte_identical() {
    let mut store = Pallet::new();
    let description = b"February payment".to_vec();
    let date = b"2024-02-12".to_vec();
    let id = store
        .create_expense(
            b"Rent".to_vec(),
            description.clone(),
            1000,
            date.clone(),
            Category::Alimentacao,
        )
        .unwrap();
    assert!(store
        .update_expense(
            id,
            b"Market".to_vec(),
            description.clone(),
            500,
            date.clone(),
            Category::Alimentacao
        )
        .is_ok());
    let expense = store.expense(id).unwrap();
    assert_eq!(expense.title, b"Market".to_vec());
    assert_eq!(expense.amount, 500);
    assert_eq!(expense.description, description);
    assert_eq!(expense.date, date);
    assert_eq!(expense.category, Category::Alimentacao);
}

#[test]
fn absent_id_fails_closed() {
    let mut store = Pallet::new();
    assert_eq!(store.expense(99), None);
    assert_eq!(
        store.update_expense(
            99,
            b"t".to_vec(),
            b"d".to_vec(),
            1,
            b"2024-02-12".to_vec(),
            Category::Outros
        ),
        Err(Error::ExpenseNotFound)
    );
    assert_eq!(store.expense(99), None);
    assert_eq!(store.delete_expense(99), Err(Error::ExpenseNotFound));
    assert_eq!(store.expense(99), None);
    assert_eq!(store.next_expense_id(), 0);
    assert!(store.events().is_empty());
}

#[test]
fn delete_removes_and_is_terminal() {
    let mut store = Pallet::new();
    let id = store
        .create_expense(b"a".to_vec(), b"b".to_vec(), 1, b"c".to_vec(), Category::Saude)
        .unwrap();
    assert_eq!(id, 1);
    assert!(store.delete_expense(1).is_ok());
    assert_eq!(store.expense(1), None);
    assert_eq!(
        store.update_expense(
            1,
            b"t".to_vec(),
            b"d".to_vec(),
            2,
            b"2024-02-13".to_vec(),
            Category::Outros
        ),
        Err(Error::ExpenseNotFound)
    );
    assert_eq!(store.delete_expense(1), Err(Error::ExpenseNotFound));
    let next = store
        .create_expense(b"x".to_vec(), b"y".to_vec(), 3, b"z".to_vec(), Category::Outros)
        .unwrap();
    assert_ne!(next, 1);
    assert_eq!(next, 2);
}

#[test]
fn failed_mutations_leave_the_store_identical() {
    let mut store = Pallet::new();
    store
        .create_expense(b"a".to_vec(), b"b".to_vec(), 1, b"c".to_vec(), Category::Transporte)
        .unwrap();
    store
        .create_expense(b"d".to_vec(), b"e".to_vec(), 2, b"f".to_vec(), Category::Educacao)
        .unwrap();

    let before = (
        store.expense(1),
        store.expense(2),
        store.expense(99),
        store.next_expense_id(),
        store.events().clone(),
    );

    assert_eq!(
        store.update_expense(
            99,
            b"t".to_vec(),
            b"d".to_vec(),
            7,
            b"2024-02-12".to_vec(),
            Category::Outros
        ),
        Err(Error::ExpenseNotFound)
    );
    let after_update = (
        store.expense(1),
        store.expense(2),
        store.expense(99),
        store.next_expense_id(),
        store.events().clone(),
    );
    assert_eq!(before, after_update);

    assert_eq!(store.delete_expense(99), Err(Error::ExpenseNotFound));
    let after_delete = (
        store.expense(1),
        store.expense(2),
        store.expense(99),
        store.next_expense_id(),
        store.events().clone(),
    );
    assert_eq!(before, after_delete);
}

#[test]
fn every_successful_mutation_emits_one_event() {
    let mut store = Pallet::new();
    let id = store
        .create_expense(b"a".to_vec(), b"b".to_vec(), 1, b"c".to_vec(), Category::Cobrancas)
        .unwrap();
    assert!(store
        .update_expense(id, b"d".to_vec(), b"e".to_vec(), 2, b"f".to_vec(), Category::Lazer)
        .is_ok());
    assert!(store.delete_expense(id).is_ok());
    assert_eq!(
        store.events().as_slice(),
        &[
            Event::ExpenseCreated(1),
            Event::ExpenseUpdated(1),
            Event::ExpenseDeleted(1)
        ]
    );
}

#[test]
fn empty_fields_and_zero_amount_are_accepted() {
    let mut store = Pallet::new();
    let id = store
        .create_expense(Vec::new(), Vec::new(), 0, Vec::new(), Category::Outros)
        .unwrap();
    let expense = store.expense(id).unwrap();
    assert_eq!(expense.title, Vec::<u8>::new());
    assert_eq!(expense.description, Vec::<u8>::new());
    assert_eq!(expense.amount, 0);
    assert_eq!(expense.date, Vec::<u8>::new());
}

#[test]
fn default_category_is_outros() {
    assert_eq!(Category::default(), Category::Outros);
}

#[test]
fn allocator_counter_advances_by_one_per_create() {
    let mut store = Pallet::new();
    assert_eq!(store.next_expense_id(), 0);
    store
        .create_expense(b"a".to_vec(), b"b".to_vec(), 1, b"c".to_vec(), Category::Outros)
        .unwrap();
    assert_eq!(store.next_expense_id(), 2);
    store
        .create_expense(b"d".to_vec(), b"e".to_vec(), 2, b"f".to_vec(), Category::Outros)
        .unwrap();
    assert_eq!(store.next_expense_id(), 3);
}
