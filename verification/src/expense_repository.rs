//! The rules that stand between the stored document and the list: what a
//! missing, an empty or a decoded document becomes, and how one expense is
//! created.

use crate::models::{views, Expense, ExpenseList, ExpenseListError, ExpenseListView};
use vstd::prelude::*;
use vstd::string::StringExecFns;

verus! {

/// Why a use of the stored document failed.
#[derive(Debug, Clone, Copy, PartialEq, Eq, Structural)]
pub enum ExpenseRepositoryError {
    FailToDecodeFile,
    FailToEncodeExpenses,
    FailToWriteExpensesInFile,
    FailToCreateExpense(ExpenseListError),
}

impl ExpenseRepositoryError {
    pub open spec fn spec_message(self) -> Seq<char> {
        match self {
            ExpenseRepositoryError::FailToDecodeFile => "Fail to decode expense file"@,
            ExpenseRepositoryError::FailToEncodeExpenses => "Fail to encode expenses into json string"@,
            ExpenseRepositoryError::FailToWriteExpensesInFile => "Fail to write expenses in the file"@,
            ExpenseRepositoryError::FailToCreateExpense(cause) => "Fail to create expense: "@
                + cause.spec_message(),
        }
    }

    /// The one-line description shown to the user; a wrapped cause is
    /// spelled out behind it.
    pub fn message(&self) -> (text: String)
        ensures
            text@ == self.spec_message(),
    {
        match self {
            ExpenseRepositoryError::FailToDecodeFile => "Fail to decode expense file".to_owned(),
            ExpenseRepositoryError::FailToEncodeExpenses => "Fail to encode expenses into json string".to_owned(),
            ExpenseRepositoryError::FailToWriteExpensesInFile => "Fail to write expenses in the file".to_owned(),
            ExpenseRepositoryError::FailToCreateExpense(cause) => {
                let cause_text = cause.message();
                "Fail to create expense: ".to_owned().concat(cause_text.as_str())
            },
        }
    }
}

/// The stored document as a decoder read it: the expense records in their
/// stored order and the counter, as they stand in the document.
#[derive(Debug)]
pub struct Document {
    pub list: Vec<Expense>,
    pub next_id: u32,
}

impl View for Document {
    type V = ExpenseListView;

    open spec fn view(&self) -> ExpenseListView {
        ExpenseListView { entries: views(self.list@), next_id: self.next_id }
    }
}

/// What reading the stored document gave: there is none, there is one that
/// cannot be read as text, or its text.
#[derive(Debug)]
pub enum Stored {
    Missing,
    Unreadable,
    Text(String),
}

/// What opening the store gave: the list, and whether the stored document
/// was missing and has to be created empty.
#[derive(Debug)]
pub struct Opened {
    pub expenses: ExpenseList,
    pub create_file: bool,
}

/// The list that a stored text stands for. An empty text stands for the
/// empty list. Any other text stands for what the decoder read from it,
/// provided the decoder could read it and the records make a well-formed
/// list; otherwise for nothing.
pub open spec fn decoded_list(data: Seq<char>, decoded: Option<ExpenseListView>) -> Option<ExpenseListView> {
    if data.len() == 0 {
        Some(ExpenseListView::empty())
    } else {
        match decoded {
            Some(list) => if list.wf() {
                Some(list)
            } else {
                None
            },
            None => None,
        }
    }
}

/// The list that the store stands for: the empty list where there is no
/// document, nothing where the document cannot be read as text, else what
/// [`decoded_list`] says of its text.
pub open spec fn opened_list(stored: Stored, decoded: Option<ExpenseListView>) -> Option<
    ExpenseListView,
> {
    match stored {
        Stored::Missing => Some(ExpenseListView::empty()),
        Stored::Unreadable => None,
        Stored::Text(data) => decoded_list(data@, decoded),
    }
}

/// The view of a document that may be missing.
pub open spec fn document_view(decoded: Option<Document>) -> Option<ExpenseListView> {
    match decoded {
        Some(document) => Some(document@),
        None => None,
    }
}

/// Turns the text of the stored document into a list. `decoded` is what the
/// decoder made of `data`, `None` where it could not read it; it is not
/// looked at where `data` is empty.
pub fn decode_expenses(data: &str, decoded: Option<Document>) -> (loaded: Result<
    ExpenseList,
    ExpenseRepositoryError,
>)
    ensures
        match loaded {
            Ok(expenses) => expenses@.wf() && decoded_list(data@, document_view(decoded)) == Some(
                expenses@,
            ),
            Err(error) => error == ExpenseRepositoryError::FailToDecodeFile && decoded_list(
                data@,
                document_view(decoded),
            ) is None,
        },
{
    if data.is_empty() {
        return Ok(ExpenseList::new());
    }
    match decoded {
        Some(document) => match ExpenseList::from_parts(document.list, document.next_id) {
            Some(expenses) => Ok(expenses),
            None => Err(ExpenseRepositoryError::FailToDecodeFile),
        },
        None => Err(ExpenseRepositoryError::FailToDecodeFile),
    }
}

/// Opens the store. Where there is no document, the list is empty and the
/// document has to be created. Where there is one that cannot be read as
/// text, it cannot be decoded, and it is left as it is. `decoded` is as in
/// [`decode_expenses`].
pub fn open_or_create_file(stored: Stored, decoded: Option<Document>) -> (opened: Result<
    Opened,
    ExpenseRepositoryError,
>)
    ensures
        match opened {
            Ok(o) => o.expenses@.wf() && o.create_file == (stored is Missing) && opened_list(
                stored,
                document_view(decoded),
            ) == Some(o.expenses@),
            Err(error) => error == ExpenseRepositoryError::FailToDecodeFile && opened_list(
                stored,
                document_view(decoded),
            ) is None,
        },
{
    match stored {
        Stored::Text(data) => match decode_expenses(data.as_str(), decoded) {
            Ok(expenses) => Ok(Opened { expenses, create_file: false }),
            Err(error) => Err(error),
        },
        Stored::Unreadable => Err(ExpenseRepositoryError::FailToDecodeFile),
        Stored::Missing => Ok(Opened { expenses: ExpenseList::new(), create_file: true }),
    }
}

/// The document that stands for `expenses`: its entries in list order,
/// field by field, and its counter.
pub fn document_of(expenses: &ExpenseList) -> (document: Document)
    ensures
        document@ == expenses@,
{
    let mut list: Vec<Expense> = Vec::new();
    let mut i: usize = 0;
    let len = expenses.len();
    assert(views(list@) =~= expenses@.entries.take(0));
    while i < len
        invariant
            i <= len,
            len == expenses@.entries.len(),
            views(list@) == expenses@.entries.take(i as int),
        decreases len - i,
    {
        let ghost before = list@;
        if let Ok(entry) = expenses.get(i) {
            let copy = Expense::dated(
                entry.id(),
                entry.date(),
                entry.description().clone(),
                entry.amount(),
            );
            list.push(copy);
            assert(views(list@) =~= views(before).push(copy@));
            assert(expenses@.entries.take(i + 1) =~= expenses@.entries.take(i as int).push(entry@));
        }
        i += 1;
    }
    assert(expenses@.entries.take(len as int) =~= expenses@.entries);
    Document { list, next_id: expenses.next_id() }
}

/// Appends an expense dated now to `expenses` and reports the identifier it
/// got. A negative amount is refused, with the list's own error as the
/// cause, and changes nothing.
pub fn create_expense(expenses: &mut ExpenseList, description: String, amount: i32) -> (created: Result<
    u32,
    ExpenseRepositoryError,
>)
    requires
        amount >= 0 ==> old(expenses)@.next_id < u32::MAX,
    ensures
        final(expenses)@.wf(),
        amount < 0 ==> created == Err::<u32, ExpenseRepositoryError>(
            ExpenseRepositoryError::FailToCreateExpense(ExpenseListError::NegativeAmount),
        ) && final(expenses)@ == old(expenses)@,
        amount >= 0 ==> created == Ok::<u32, ExpenseRepositoryError>(old(expenses)@.next_id)
            && final(expenses)@.entries.len() > 0
            && final(expenses)@.entries.last().date.spec_month() is Some
            && final(expenses)@ == old(expenses)@.appended(
            final(expenses)@.entries.last().date,
            description@,
            amount,
        ),
{
    match expenses.append(description, amount) {
        Ok(()) => match expenses.last() {
            Ok(last) => Ok(last.id()),
            Err(error) => Err(ExpenseRepositoryError::FailToCreateExpense(error)),
        },
        Err(error) => Err(ExpenseRepositoryError::FailToCreateExpense(error)),
    }
}

/// What was stored is what is loaded: where the decoder hands back the
/// entries and the counter of a well-formed list, as [`document_of`] gives
/// them, read from a text that is not empty, loading gives that list, equal
/// in every field.
pub proof fn stored_list_is_restored(text: String, list: ExpenseListView)
    requires
        list.wf(),
        text@.len() > 0,
    ensures
        decoded_list(text@, Some(list)) == Some(list),
        opened_list(Stored::Text(text), Some(list)) == Some(list),
{
}

/// An empty document, and a missing one, stand for the empty list with the
/// counter at 0, whatever the decoder says. A document that cannot be read
/// as text stands for no list.
pub proof fn empty_store_is_the_empty_list(decoded: Option<ExpenseListView>)
    ensures
        decoded_list(Seq::empty(), decoded) == Some(ExpenseListView::empty()),
        opened_list(Stored::Missing, decoded) == Some(ExpenseListView::empty()),
        opened_list(Stored::Unreadable, decoded) is None,
        ExpenseListView::empty().entries.len() == 0,
        ExpenseListView::empty().next_id == 0,
{
}

} // verus!
