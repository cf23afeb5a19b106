use expense_tracker::clock::Timestamp;
use expense_tracker::expense_repository::{
    create_expense, decode_expenses, document_of, open_or_create_file, Document,
    ExpenseRepositoryError, Stored,
};
use expense_tracker::models::{Expense, ExpenseList, ExpenseListError};

fn moment() -> Timestamp {
    Timestamp { secs: 1_705_320_000, nanos: 123_456_789 }
}

#[test]
fn empty_document_is_an_empty_list() {
    let list = decode_expenses("", None).unwrap();
    assert!(list.is_empty());
    assert_eq!(list.next_id(), 0);
    // what a decoder may have said of the empty text does not matter
    let ignored = Document { list: vec![Expense::dated(0, moment(), "x".to_string(), 1)], next_id: 1 };
    let list = decode_expenses("", Some(ignored)).unwrap();
    assert!(list.is_empty());
    assert_eq!(list.next_id(), 0);
}

#[test]
fn missing_document_is_an_empty_list_and_is_created() {
    let opened = open_or_create_file(Stored::Missing, None).unwrap();
    assert!(opened.create_file);
    assert!(opened.expenses.is_empty());
    assert_eq!(opened.expenses.next_id(), 0);
}

#[test]
fn existing_document_is_not_created_again() {
    let opened = open_or_create_file(Stored::Text(String::new()), None).unwrap();
    assert!(!opened.create_file);
    assert!(opened.expenses.is_empty());
    assert_eq!(opened.expenses.next_id(), 0);
}

#[test]
fn malformed_document_is_a_decode_error() {
    assert_eq!(
        decode_expenses("{\"list\": [", None).err(),
        Some(ExpenseRepositoryError::FailToDecodeFile)
    );
    assert_eq!(
        open_or_create_file(Stored::Text("not json".to_string()), None).err(),
        Some(ExpenseRepositoryError::FailToDecodeFile)
    );
}

#[test]
fn document_that_breaks_the_rules_is_a_decode_error() {
    let twice = Document {
        list: vec![
            Expense::dated(0, moment(), "a".to_string(), 1),
            Expense::dated(0, moment(), "b".to_string(), 2),
        ],
        next_id: 2,
    };
    assert_eq!(
        decode_expenses("{}", Some(twice)).err(),
        Some(ExpenseRepositoryError::FailToDecodeFile)
    );
    let behind = Document { list: vec![Expense::dated(3, moment(), "a".to_string(), 1)], next_id: 3 };
    assert_eq!(
        decode_expenses("{}", Some(behind)).err(),
        Some(ExpenseRepositoryError::FailToDecodeFile)
    );
    let negative = Document { list: vec![Expense::dated(0, moment(), "a".to_string(), -4)], next_id: 1 };
    assert_eq!(
        decode_expenses("{}", Some(negative)).err(),
        Some(ExpenseRepositoryError::FailToDecodeFile)
    );
}

#[test]
fn decoded_document_gives_back_the_list() {
    let mut list = ExpenseList::new();
    list.append_dated(moment(), "coffee".to_string(), 5).unwrap();
    list.append_dated(Timestamp { secs: 1_707_523_200, nanos: 0 }, "lunch".to_string(), 12)
        .unwrap();
    list.append_dated(moment(), "gone".to_string(), 1).unwrap();
    list.remove(2);
    let loaded = decode_expenses("{\"stored\":true}", Some(document_of(&list))).unwrap();
    assert_eq!(loaded.len(), list.len());
    assert_eq!(loaded.next_id(), 3);
    for i in 0..list.len() {
        let (a, b) = (loaded.get(i).unwrap(), list.get(i).unwrap());
        assert_eq!(a.id(), b.id());
        assert_eq!(a.date(), b.date());
        assert_eq!(a.description(), b.description());
        assert_eq!(a.amount(), b.amount());
    }
    assert_eq!(loaded.get(0).unwrap().date().nanos, 123_456_789);
}

#[test]
fn create_expense_reports_the_identifier() {
    let mut list = ExpenseList::new();
    assert_eq!(create_expense(&mut list, "coffee".to_string(), 5), Ok(0));
    assert_eq!(create_expense(&mut list, "lunch".to_string(), 12), Ok(1));
    list.remove(0);
    assert_eq!(create_expense(&mut list, "tea".to_string(), 3), Ok(2));
    assert_eq!(list.len(), 2);
    assert_eq!(list.last().unwrap().description(), "tea");
}

#[test]
fn create_expense_wraps_the_cause() {
    let mut list = ExpenseList::new();
    assert_eq!(
        create_expense(&mut list, "refund".to_string(), -1),
        Err(ExpenseRepositoryError::FailToCreateExpense(ExpenseListError::NegativeAmount))
    );
    assert!(list.is_empty());
    assert_eq!(list.next_id(), 0);
}

#[test]
fn create_then_summarise_then_delete() {
    let opened = open_or_create_file(Stored::Missing, None).unwrap();
    let mut list = opened.expenses;
    assert_eq!(create_expense(&mut list, "coffee".to_string(), 5), Ok(0));
    let mut list = decode_expenses("{..}", Some(document_of(&list))).unwrap();
    assert_eq!(create_expense(&mut list, "lunch".to_string(), 12), Ok(1));
    let list = decode_expenses("{..}", Some(document_of(&list))).unwrap();
    assert_eq!(list.summary(), 17);
    let mut list = decode_expenses("{..}", Some(document_of(&list))).unwrap();
    list.remove(0);
    let list = decode_expenses("{..}", Some(document_of(&list))).unwrap();
    assert_eq!(list.summary(), 12);
    let shown = list.listed(None);
    assert_eq!(shown.len(), 1);
    assert_eq!(shown[0].description(), "lunch");
    assert_eq!(shown[0].amount(), 12);
    assert_eq!(shown[0].id(), 1);
}

#[test]
fn repository_error_messages() {
    assert_eq!(ExpenseRepositoryError::FailToDecodeFile.message(), "Fail to decode expense file");
    assert_eq!(
        ExpenseRepositoryError::FailToEncodeExpenses.message(),
        "Fail to encode expenses into json string"
    );
    assert_eq!(
        ExpenseRepositoryError::FailToWriteExpensesInFile.message(),
        "Fail to write expenses in the file"
    );
    assert_eq!(
        ExpenseRepositoryError::FailToCreateExpense(ExpenseListError::NegativeAmount).message(),
        "Fail to create expense: Negative amount given"
    );
    assert_eq!(
        ExpenseRepositoryError::FailToCreateExpense(ExpenseListError::ExpenseNotFound).message(),
        "Fail to create expense: The expense search was not found at the specified index"
    );
}

#[test]
fn document_of_copies_every_field() {
    let mut list = ExpenseList::new();
    list.append_dated(moment(), "coffee".to_string(), 5).unwrap();
    list.append_dated(Timestamp { secs: -1, nanos: 7 }, "old".to_string(), 0).unwrap();
    list.remove(0);
    let document = document_of(&list);
    assert_eq!(document.next_id, 2);
    assert_eq!(document.list.len(), 1);
    assert_eq!(document.list[0].id(), 1);
    assert_eq!(document.list[0].date(), Timestamp { secs: -1, nanos: 7 });
    assert_eq!(document.list[0].description(), "old");
    assert_eq!(document.list[0].amount(), 0);
    let empty = document_of(&ExpenseList::new());
    assert!(empty.list.is_empty());
    assert_eq!(empty.next_id, 0);
}

#[test]
fn unreadable_document_is_a_decode_error_and_is_not_created_again() {
    assert_eq!(
        open_or_create_file(Stored::Unreadable, None).err(),
        Some(ExpenseRepositoryError::FailToDecodeFile)
    );
    let ignored = Document { list: Vec::new(), next_id: 0 };
    assert_eq!(
        open_or_create_file(Stored::Unreadable, Some(ignored)).err(),
        Some(ExpenseRepositoryError::FailToDecodeFile)
    );
}

#[test]
fn document_with_a_date_outside_the_calendar_is_a_decode_error() {
    let lost = Document {
        list: vec![Expense::dated(0, Timestamp { secs: i64::MAX, nanos: 0 }, "a".to_string(), 1)],
        next_id: 1,
    };
    assert_eq!(
        decode_expenses("{}", Some(lost)).err(),
        Some(ExpenseRepositoryError::FailToDecodeFile)
    );
}
