//! The ledger itself: expenses, the ordered list that owns them, and the
//! intents a caller can ask for.

use crate::clock::Timestamp;
use vstd::prelude::*;

verus! {

/// What the user asked the program to do.
#[derive(Debug)]
pub enum Action {
    Add { description: String, amount: i32 },
    List { month: Option<u32> },
    Summary,
    Delete { id: usize },
}

/// An [`Action`] with its text as a sequence of characters.
pub ghost enum ActionView {
    Add { description: Seq<char>, amount: i32 },
    List { month: Option<u32> },
    Summary,
    Delete { id: usize },
}

impl View for Action {
    type V = ActionView;

    open spec fn view(&self) -> ActionView {
        match self {
            Action::Add { description, amount } => ActionView::Add {
                description: description@,
                amount: *amount,
            },
            Action::List { month } => ActionView::List { month: *month },
            Action::Summary => ActionView::Summary,
            Action::Delete { id } => ActionView::Delete { id: *id },
        }
    }
}

/// Why the arguments did not yield an [`Action`].
#[derive(Debug, Clone, Copy, PartialEq, Eq, Structural)]
pub enum ActionError {
    UnknowAction,
    ArgumentNotFound,
    ArgumentInvalid,
}

impl ActionError {
    pub open spec fn spec_message(self) -> Seq<char> {
        match self {
            ActionError::UnknowAction => "The action could not be determined"@,
            ActionError::ArgumentNotFound => "The argument could not be found for this action"@,
            ActionError::ArgumentInvalid => "The argument could not be parsed"@,
        }
    }

    /// The one-line description shown to the user.
    pub fn message(&self) -> (text: String)
        ensures
            text@ == self.spec_message(),
    {
        match self {
            ActionError::UnknowAction => "The action could not be determined".to_owned(),
            ActionError::ArgumentNotFound => "The argument could not be found for this action".to_owned(),
            ActionError::ArgumentInvalid => "The argument could not be parsed".to_owned(),
        }
    }
}

/// Why an operation on the list was refused.
#[derive(Debug, Clone, Copy, PartialEq, Eq, Structural)]
pub enum ExpenseListError {
    NegativeAmount,
    ExpenseNotFound,
}

impl ExpenseListError {
    pub open spec fn spec_message(self) -> Seq<char> {
        match self {
            ExpenseListError::NegativeAmount => "Negative amount given"@,
            ExpenseListError::ExpenseNotFound => "The expense search was not found at the specified index"@,
        }
    }

    /// The one-line description shown to the user.
    pub fn message(&self) -> (text: String)
        ensures
            text@ == self.spec_message(),
    {
        match self {
            ExpenseListError::NegativeAmount => "Negative amount given".to_owned(),
            ExpenseListError::ExpenseNotFound => "The expense search was not found at the specified index".to_owned(),
        }
    }
}

/// One recorded spending event.
#[derive(Debug, Clone)]
pub struct Expense {
    id: u32,
    date: Timestamp,
    description: String,
    amount: i32,
}

/// What an [`Expense`] holds.
pub ghost struct ExpenseView {
    pub id: u32,
    pub date: Timestamp,
    pub description: Seq<char>,
    pub amount: i32,
}

impl View for Expense {
    type V = ExpenseView;

    closed spec fn view(&self) -> ExpenseView {
        ExpenseView {
            id: self.id,
            date: self.date,
            description: self.description@,
            amount: self.amount,
        }
    }
}

impl Expense {
    /// An expense dated now: a moment that lies in a calendar month.
    pub fn new(id: u32, description: String, amount: i32) -> (expense: Expense)
        ensures
            expense@ == (ExpenseView { id, date: expense@.date, description: description@, amount }),
            expense@.date.in_calendar(),
    {
        Expense::dated(id, Timestamp::now(), description, amount)
    }

    /// An expense with the given date.
    pub fn dated(id: u32, date: Timestamp, description: String, amount: i32) -> (expense: Expense)
        ensures
            expense@ == (ExpenseView { id, date, description: description@, amount }),
    {
        Expense { id, date, description, amount }
    }

    pub fn id(&self) -> (id: u32)
        ensures
            id == self@.id,
    {
        self.id
    }

    pub fn date(&self) -> (date: Timestamp)
        ensures
            date == self@.date,
    {
        self.date
    }

    pub fn description(&self) -> (description: &String)
        ensures
            description@ == self@.description,
    {
        &self.description
    }

    pub fn amount(&self) -> (amount: i32)
        ensures
            amount == self@.amount,
    {
        self.amount
    }
}

/// What an [`ExpenseList`] holds: the entries in list order and the
/// identifier that the next appended entry will get.
pub ghost struct ExpenseListView {
    pub entries: Seq<ExpenseView>,
    pub next_id: u32,
}

/// The sum of the amounts of `entries`.
pub open spec fn total(entries: Seq<ExpenseView>) -> int
    decreases entries.len(),
{
    if entries.len() == 0 {
        0
    } else {
        total(entries.drop_last()) + entries.last().amount
    }
}

/// The predicate that holds of the entries dated in calendar month `month`
/// (UTC).
pub open spec fn dated_in(month: u32) -> spec_fn(ExpenseView) -> bool {
    |e: ExpenseView| e.date.in_month(month)
}

/// The views of a sequence of expenses.
pub open spec fn views(list: Seq<Expense>) -> Seq<ExpenseView> {
    list.map_values(|e: Expense| e@)
}

/// The views of a sequence of borrowed expenses.
pub open spec fn ref_views(found: Seq<&Expense>) -> Seq<ExpenseView> {
    found.map_values(|e: &Expense| e@)
}

impl ExpenseListView {
    /// The list with no entries, whose first entry will get identifier 0.
    pub open spec fn empty() -> ExpenseListView {
        ExpenseListView { entries: Seq::empty(), next_id: 0 }
    }

    /// Every identifier is below `next_id`, no identifier occurs twice, no
    /// amount is negative, and every date lies in a calendar month.
    pub open spec fn wf(self) -> bool {
        &&& forall|i: int|
            0 <= i < self.entries.len() ==> (#[trigger] self.entries[i]).date.in_calendar()
        &&& forall|i: int|
            0 <= i < self.entries.len() ==> (#[trigger] self.entries[i]).id < self.next_id
        &&& forall|i: int|
            0 <= i < self.entries.len() ==> (#[trigger] self.entries[i]).amount >= 0
        &&& forall|i: int, j: int|
            0 <= i < j < self.entries.len() ==> (#[trigger] self.entries[i]).id != (
            #[trigger] self.entries[j]).id
    }

    /// The list after one more entry was appended.
    pub open spec fn appended(self, date: Timestamp, description: Seq<char>, amount: i32) -> ExpenseListView {
        ExpenseListView {
            entries: self.entries.push(ExpenseView { id: self.next_id, date, description, amount }),
            next_id: (self.next_id + 1) as u32,
        }
    }

    /// The list after the entry at `position` was taken out.
    pub open spec fn removed(self, position: int) -> ExpenseListView {
        ExpenseListView { entries: self.entries.remove(position), next_id: self.next_id }
    }

    /// The entries dated in calendar month `month`, in list order.
    pub open spec fn for_month(self, month: u32) -> Seq<ExpenseView> {
        self.entries.filter(dated_in(month))
    }
}

/// The ordered collection of all expenses plus the next-identifier counter.
#[derive(Debug)]
pub struct ExpenseList {
    list: Vec<Expense>,
    next_id: u32,
}

impl View for ExpenseList {
    type V = ExpenseListView;

    closed spec fn view(&self) -> ExpenseListView {
        ExpenseListView { entries: views(self.list@), next_id: self.next_id }
    }
}

/// The total of a list grown by one entry is the old total plus that entry's
/// amount.
proof fn lemma_total_step(entries: Seq<ExpenseView>, i: int)
    requires
        0 <= i < entries.len(),
    ensures
        total(entries.take(i + 1)) == total(entries.take(i)) + entries[i].amount,
{
    assert(entries.take(i + 1).drop_last() =~= entries.take(i));
}

/// With no negative amount, the total of a prefix is at most the total of
/// the whole.
proof fn lemma_total_prefix(entries: Seq<ExpenseView>, k: int)
    requires
        0 <= k <= entries.len(),
        forall|i: int| 0 <= i < entries.len() ==> (#[trigger] entries[i]).amount >= 0,
    ensures
        0 <= total(entries.take(k)) <= total(entries),
    decreases entries.len(),
{
    if k == entries.len() {
        assert(entries.take(k) =~= entries);
        if k > 0 {
            lemma_total_prefix(entries.drop_last(), k - 1);
            assert(entries.drop_last().take(k - 1) =~= entries.drop_last());
        }
    } else {
        lemma_total_prefix(entries.drop_last(), k);
        assert(entries.drop_last().take(k) =~= entries.take(k));
    }
}

/// A sequence whose every item satisfies a predicate is its own filter by
/// that predicate.
proof fn lemma_filter_all<A>(s: Seq<A>, pred: spec_fn(A) -> bool)
    requires
        forall|i: int| 0 <= i < s.len() ==> pred(#[trigger] s[i]),
    ensures
        s.filter(pred) == s,
    decreases s.len(),
{
    reveal(Seq::filter);
    if s.len() > 0 {
        lemma_filter_all(s.drop_last(), pred);
        assert(s.drop_last().push(s.last()) =~= s);
    }
}

impl ExpenseList {
    /// Holds of every list at all times: every identifier is below the
    /// counter, no identifier occurs twice, no amount is negative, and every
    /// date lies in a calendar month.
    #[verifier::type_invariant]
    spec fn well_formed(&self) -> bool {
        self@.wf()
    }

    /// An empty list whose first entry will get identifier 0.
    pub fn new() -> (expenses: ExpenseList)
        ensures
            expenses@.wf(),
            expenses@ == ExpenseListView::empty(),
    {
        let expenses = ExpenseList { list: Vec::new(), next_id: 0 };
        assert(expenses@.entries =~= Seq::empty());
        expenses
    }

    /// The list that holds `list` in this order and counts on from `next_id`,
    /// or `None` where those would not make a well-formed list.
    pub fn from_parts(list: Vec<Expense>, next_id: u32) -> (expenses: Option<ExpenseList>)
        ensures
            match expenses {
                Some(l) => l@.wf() && l@ == (ExpenseListView { entries: views(list@), next_id }),
                None => !(ExpenseListView { entries: views(list@), next_id }).wf(),
            },
    {
        let ghost model = ExpenseListView { entries: views(list@), next_id };
        let mut i: usize = 0;
        while i < list.len()
            invariant
                i <= list.len(),
                model == (ExpenseListView { entries: views(list@), next_id }),
                forall|a: int| 0 <= a < i ==> (#[trigger] model.entries[a]).id < next_id,
                forall|a: int| 0 <= a < i ==> (#[trigger] model.entries[a]).amount >= 0,
                forall|a: int| 0 <= a < i ==> (#[trigger] model.entries[a]).date.in_calendar(),
                forall|a: int, b: int|
                    0 <= a < b < i ==> (#[trigger] model.entries[a]).id != (
                    #[trigger] model.entries[b]).id,
            decreases list.len() - i,
        {
            let entry = &list[i];
            assert(model.entries[i as int] == entry@);
            if entry.amount < 0 || entry.id >= next_id || entry.date.month().is_none() {
                return None;
            }
            let mut j: usize = 0;
            while j < i
                invariant
                    j <= i < list.len(),
                    model == (ExpenseListView { entries: views(list@), next_id }),
                    entry@ == model.entries[i as int],
                    forall|a: int| 0 <= a < j ==> (#[trigger] model.entries[a]).id != entry@.id,
                decreases i - j,
            {
                assert(model.entries[j as int] == list[j as int]@);
                if list[j].id == entry.id {
                    return None;
                }
                j += 1;
            }
            i += 1;
        }
        Some(ExpenseList { list, next_id })
    }

    /// The identifier that the next appended entry will get. It lies above
    /// every identifier in the list: the list is well formed.
    pub fn next_id(&self) -> (next_id: u32)
        ensures
            next_id == self@.next_id,
            self@.wf(),
    {
        proof {
            use_type_invariant(self);
        }
        self.next_id
    }

    /// Appends an expense dated now, a moment that lies in a calendar month.
    /// A negative amount is refused and changes nothing.
    pub fn append(&mut self, description: String, amount: i32) -> (outcome: Result<(), ExpenseListError>)
        requires
            amount >= 0 ==> old(self)@.next_id < u32::MAX,
        ensures
            final(self)@.wf(),
            amount < 0 ==> outcome == Err::<(), ExpenseListError>(ExpenseListError::NegativeAmount)
                && final(self)@ == old(self)@,
            amount >= 0 ==> outcome is Ok && final(self)@.entries.len() > 0
                && final(self)@.entries.last().date.spec_month() is Some
                && final(self)@ == old(self)@.appended(
                final(self)@.entries.last().date,
                description@,
                amount,
            ),
    {
        proof {
            use_type_invariant(&*self);
        }
        if amount < 0 {
            return Err(ExpenseListError::NegativeAmount);
        }
        self.append_dated(Timestamp::now(), description, amount)
    }

    /// Appends an expense with the given date, which has to lie in a
    /// calendar month. A negative amount is refused and changes nothing.
    pub fn append_dated(&mut self, date: Timestamp, description: String, amount: i32) -> (outcome: Result<
        (),
        ExpenseListError,
    >)
        requires
            amount >= 0 ==> old(self)@.next_id < u32::MAX,
            amount >= 0 ==> date.in_calendar(),
        ensures
            final(self)@.wf(),
            amount < 0 ==> outcome == Err::<(), ExpenseListError>(ExpenseListError::NegativeAmount)
                && final(self)@ == old(self)@,
            amount >= 0 ==> outcome is Ok && final(self)@ == old(self)@.appended(
                date,
                description@,
                amount,
            ),
    {
        proof {
            use_type_invariant(&*self);
        }
        if amount < 0 {
            return Err(ExpenseListError::NegativeAmount);
        }
        let id = self.next_id;
        let expense = Expense::dated(id, date, description, amount);
        proof {
            append_keeps_well_formed(self@, date, description@, amount);
            assert(views(self.list@.push(expense)) =~= self@.entries.push(expense@));
        }
        let mut list = Vec::new();
        std::mem::swap(&mut list, &mut self.list);
        list.push(expense);
        self.next_id = id + 1;
        self.list = list;
        Ok(())
    }

    pub fn is_empty(&self) -> (empty: bool)
        ensures
            empty == (self@.entries.len() == 0),
    {
        self.list.is_empty()
    }

    pub fn len(&self) -> (len: usize)
        ensures
            len == self@.entries.len(),
    {
        self.list.len()
    }

    /// The entry at position 0.
    pub fn first(&self) -> (found: Result<&Expense, ExpenseListError>)
        ensures
            match found {
                Ok(e) => self@.entries.len() > 0 && e@ == self@.entries[0],
                Err(error) => self@.entries.len() == 0 && error == ExpenseListError::ExpenseNotFound,
            },
    {
        self.get(0)
    }

    /// The entry appended last among those still in the list.
    pub fn last(&self) -> (found: Result<&Expense, ExpenseListError>)
        ensures
            match found {
                Ok(e) => self@.entries.len() > 0 && e@ == self@.entries.last(),
                Err(error) => self@.entries.len() == 0 && error == ExpenseListError::ExpenseNotFound,
            },
    {
        let len = self.list.len();
        if len == 0 {
            Err(ExpenseListError::ExpenseNotFound)
        } else {
            Ok(&self.list[len - 1])
        }
    }

    /// The entry at the zero-based position `index`.
    pub fn get(&self, index: usize) -> (found: Result<&Expense, ExpenseListError>)
        ensures
            match found {
                Ok(e) => index < self@.entries.len() && e@ == self@.entries[index as int],
                Err(error) => index >= self@.entries.len() && error
                    == ExpenseListError::ExpenseNotFound,
            },
    {
        if index < self.list.len() {
            Ok(&self.list[index])
        } else {
            Err(ExpenseListError::ExpenseNotFound)
        }
    }

    /// Takes out the entry at `index`; the entries behind it move down by one
    /// position and keep their identifiers. A position outside the list is
    /// the caller's fault.
    pub fn remove(&mut self, index: usize)
        requires
            index < old(self)@.entries.len(),
        ensures
            final(self)@.wf(),
            final(self)@ == old(self)@.removed(index as int),
    {
        proof {
            use_type_invariant(&*self);
            removal_keeps_well_formed(self@, index as int);
            assert(views(self.list@.remove(index as int)) =~= self@.entries.remove(index as int));
        }
        let mut list = Vec::new();
        std::mem::swap(&mut list, &mut self.list);
        list.remove(index);
        self.list = list;
    }

    /// The sum of all amounts, where it fits the integer type.
    pub fn summary(&self) -> (sum: i32)
        requires
            total(self@.entries) <= i32::MAX,
        ensures
            sum == total(self@.entries),
    {
        let mut sum: i32 = 0;
        let mut i: usize = 0;
        proof {
            use_type_invariant(self);
            assert(self@.entries.take(0) =~= Seq::empty());
        }
        while i < self.list.len()
            invariant
                i <= self.list.len(),
                self@.wf(),
                total(self@.entries) <= i32::MAX,
                sum == total(self@.entries.take(i as int)),
                sum >= 0,
            decreases self.list.len() - i,
        {
            proof {
                lemma_total_step(self@.entries, i as int);
                lemma_total_prefix(self@.entries, i + 1);
            }
            sum = sum + self.list[i].amount;
            i += 1;
        }
        assert(self@.entries.take(i as int) =~= self@.entries);
        sum
    }

    /// The sum of all amounts, or `None` where it is too large for the
    /// integer type.
    pub fn checked_summary(&self) -> (sum: Option<i32>)
        ensures
            match sum {
                Some(s) => s == total(self@.entries),
                None => total(self@.entries) > i32::MAX,
            },
    {
        let mut sum: i32 = 0;
        let mut i: usize = 0;
        proof {
            use_type_invariant(self);
            assert(self@.entries.take(0) =~= Seq::empty());
        }
        while i < self.list.len()
            invariant
                i <= self.list.len(),
                self@.wf(),
                sum == total(self@.entries.take(i as int)),
                sum >= 0,
            decreases self.list.len() - i,
        {
            proof {
                lemma_total_step(self@.entries, i as int);
                lemma_total_prefix(self@.entries, i + 1);
            }
            let amount = self.list[i].amount;
            if sum > i32::MAX - amount {
                return None;
            }
            sum = sum + amount;
            i += 1;
        }
        assert(self@.entries.take(i as int) =~= self@.entries);
        Some(sum)
    }

    /// The entries dated in calendar month `month` (1 to 12, UTC), in list
    /// order.
    pub fn filter_for(&self, month: u32) -> (found: Vec<&Expense>)
        ensures
            ref_views(found@) == self@.for_month(month),
    {
        let mut found: Vec<&Expense> = Vec::new();
        let mut i: usize = 0;
        proof {
            reveal(Seq::filter);
            assert(self@.entries.take(0) =~= Seq::empty());
            assert(ref_views(found@) =~= Seq::empty());
        }
        while i < self.list.len()
            invariant
                i <= self.list.len(),
                ref_views(found@) == self@.entries.take(i as int).filter(dated_in(month)),
            decreases self.list.len() - i,
        {
            let entry = &self.list[i];
            let ghost before = found@;
            proof {
                let prefix = self@.entries.take(i as int);
                assert(self@.entries.take(i + 1) =~= prefix.push(entry@));
                prefix.lemma_filter_push(entry@, dated_in(month));
            }
            let in_month = match entry.date.month() {
                Some(m) => m == month,
                None => false,
            };
            if in_month {
                found.push(entry);
                assert(ref_views(found@) =~= ref_views(before).push(entry@));
            }
            i += 1;
        }
        assert(self@.entries.take(i as int) =~= self@.entries);
        found
    }

    /// What a listing shows: every entry, or with a month given the entries
    /// dated in that month; in list order either way.
    pub fn listed(&self, month: Option<u32>) -> (found: Vec<&Expense>)
        ensures
            match month {
                Some(m) => ref_views(found@) == self@.for_month(m),
                None => ref_views(found@) == self@.entries,
            },
    {
        match month {
            Some(m) => self.filter_for(m),
            None => {
                let mut found: Vec<&Expense> = Vec::new();
                let mut i: usize = 0;
                while i < self.list.len()
                    invariant
                        i <= self.list.len(),
                        ref_views(found@) == self@.entries.take(i as int),
                    decreases self.list.len() - i,
                {
                    let ghost before = found@;
                    let entry = &self.list[i];
                    found.push(entry);
                    assert(ref_views(found@) =~= ref_views(before).push(entry@));
                    assert(self@.entries.take(i + 1) =~= self@.entries.take(i as int).push(entry@));
                    i += 1;
                }
                assert(self@.entries.take(i as int) =~= self@.entries);
                found
            },
        }
    }
}


/// What one append is given.
pub ghost struct NewExpense {
    pub date: Timestamp,
    pub description: Seq<char>,
    pub amount: i32,
}

/// The list that results when `inputs` are appended, one after the other, to
/// an empty list.
pub open spec fn after_appends(inputs: Seq<NewExpense>) -> ExpenseListView
    decreases inputs.len(),
{
    if inputs.len() == 0 {
        ExpenseListView::empty()
    } else {
        after_appends(inputs.drop_last()).appended(
            inputs.last().date,
            inputs.last().description,
            inputs.last().amount,
        )
    }
}

/// Appending N expenses with non-negative amounts, each dated in a calendar
/// month as every moment of the clock is, to an empty list gives a
/// well-formed list of N entries, in the order of the appends, with the
/// identifiers 0 to N-1 in that order, and leaves the counter at N.
pub proof fn appends_number_the_entries(inputs: Seq<NewExpense>)
    requires
        inputs.len() <= u32::MAX,
        forall|i: int| 0 <= i < inputs.len() ==> (#[trigger] inputs[i]).amount >= 0,
        forall|i: int| 0 <= i < inputs.len() ==> (#[trigger] inputs[i]).date.in_calendar(),
    ensures
        after_appends(inputs).wf(),
        after_appends(inputs).entries.len() == inputs.len(),
        after_appends(inputs).next_id == inputs.len(),
        forall|i: int|
            0 <= i < inputs.len() ==> (#[trigger] after_appends(inputs).entries[i]) == (ExpenseView {
                id: i as u32,
                date: inputs[i].date,
                description: inputs[i].description,
                amount: inputs[i].amount,
            }),
    decreases inputs.len(),
{
    if inputs.len() > 0 {
        let front = inputs.drop_last();
        appends_number_the_entries(front);
        let before = after_appends(front);
        let after = after_appends(inputs);
        assert forall|i: int| 0 <= i < inputs.len() implies (#[trigger] after.entries[i]) == (
        ExpenseView {
            id: i as u32,
            date: inputs[i].date,
            description: inputs[i].description,
            amount: inputs[i].amount,
        }) by {
            if i < front.len() {
                assert(after.entries[i] == before.entries[i]);
                assert(front[i] == inputs[i]);
            }
        }
    }
}

/// An append with a non-negative amount keeps a list well formed.
pub proof fn append_keeps_well_formed(
    list: ExpenseListView,
    date: Timestamp,
    description: Seq<char>,
    amount: i32,
)
    requires
        list.wf(),
        amount >= 0,
        date.in_calendar(),
        list.next_id < u32::MAX,
    ensures
        list.appended(date, description, amount).wf(),
{
    let after = list.appended(date, description, amount);
    assert forall|i: int| 0 <= i < after.entries.len() implies (#[trigger] after.entries[i]).id
        < after.next_id && after.entries[i].amount >= 0 && after.entries[i].date.in_calendar() by {
        if i < list.entries.len() {
            assert(after.entries[i] == list.entries[i]);
        }
    }
    assert forall|i: int, j: int| 0 <= i < j < after.entries.len() implies (
    #[trigger] after.entries[i]).id != (#[trigger] after.entries[j]).id by {
        assert(after.entries[i] == list.entries[i]);
        if j < list.entries.len() {
            assert(after.entries[j] == list.entries[j]);
        }
    }
}

/// A removal keeps a list well formed: the entries that stay keep their
/// identifiers, and the counter does not move.
pub proof fn removal_keeps_well_formed(list: ExpenseListView, position: int)
    requires
        list.wf(),
        0 <= position < list.entries.len(),
    ensures
        list.removed(position).wf(),
        list.removed(position).next_id == list.next_id,
        forall|i: int|
            0 <= i < list.entries.len() - 1 ==> (#[trigger] list.removed(position).entries[i]) == (if i
                < position {
                list.entries[i]
            } else {
                list.entries[i + 1]
            }),
{
    let after = list.removed(position);
    assert forall|i: int| 0 <= i < after.entries.len() implies (#[trigger] after.entries[i]).id
        < after.next_id && after.entries[i].amount >= 0 && after.entries[i].date.in_calendar() by {
        if i < position {
            assert(after.entries[i] == list.entries[i]);
        } else {
            assert(after.entries[i] == list.entries[i + 1]);
        }
    }
    assert forall|i: int, j: int| 0 <= i < j < after.entries.len() implies (
    #[trigger] after.entries[i]).id != (#[trigger] after.entries[j]).id by {
        let a = if i < position { i } else { i + 1 };
        let b = if j < position { j } else { j + 1 };
        assert(after.entries[i] == list.entries[a]);
        assert(after.entries[j] == list.entries[b]);
    }
}

/// The identifier of a removed entry is not handed out again: after a
/// removal and an append, no entry of the list carries it.
pub proof fn removed_identifier_is_not_reused(
    list: ExpenseListView,
    position: int,
    date: Timestamp,
    description: Seq<char>,
    amount: i32,
)
    requires
        list.wf(),
        0 <= position < list.entries.len(),
        list.next_id < u32::MAX,
    ensures
        forall|i: int|
            0 <= i < list.removed(position).appended(date, description, amount).entries.len() ==> (
            #[trigger] list.removed(position).appended(date, description, amount).entries[i]).id
                != list.entries[position].id,
{
    let shorter = list.removed(position);
    let after = shorter.appended(date, description, amount);
    assert forall|i: int| 0 <= i < after.entries.len() implies (#[trigger] after.entries[i]).id
        != list.entries[position].id by {
        if i < shorter.entries.len() {
            let k = if i < position { i } else { i + 1 };
            assert(after.entries[i] == list.entries[k]);
        }
    }
}

/// Filtering by month what was already filtered by that month changes
/// nothing.
pub proof fn filter_for_is_idempotent(list: ExpenseListView, month: u32)
    ensures
        list.for_month(month).filter(dated_in(month)) == list.for_month(month),
{
    broadcast use vstd::seq_lib::group_filter_ensures;

    lemma_filter_all(list.for_month(month), dated_in(month));
}

/// Every entry of a month's selection is dated in that month and is an entry
/// of the list, and every entry of the list dated in that month is selected.
/// Where the list has no entry dated in the month, the selection is empty.
pub proof fn filter_for_selects_the_month(list: ExpenseListView, month: u32)
    ensures
        forall|i: int|
            0 <= i < list.for_month(month).len() ==> (#[trigger] list.for_month(month)[i]).date.in_month(
                month,
            ) && list.entries.contains(list.for_month(month)[i]),
        forall|i: int|
            0 <= i < list.entries.len() && (#[trigger] list.entries[i]).date.in_month(month)
                ==> list.for_month(month).contains(list.entries[i]),
        (forall|i: int| 0 <= i < list.entries.len() ==> !(#[trigger] list.entries[i]).date.in_month(month))
            ==> list.for_month(month).len() == 0,
{
    broadcast use vstd::seq_lib::group_filter_ensures;

    let selected = list.for_month(month);
    assert forall|i: int| 0 <= i < selected.len() implies list.entries.contains(
        #[trigger] selected[i],
    ) by {
        assert(selected.contains(selected[i]));
        list.entries.lemma_filter_contains_rev(dated_in(month), selected[i]);
    }
    if selected.len() > 0 {
        let e = selected[0];
        assert(dated_in(month)(e));
        assert(list.entries.contains(e));
    }
}

/// The positions of the entries dated in calendar month `month`, in rising
/// order.
pub open spec fn positions_in_month(entries: Seq<ExpenseView>, month: u32) -> Seq<int>
    decreases entries.len(),
{
    if entries.len() == 0 {
        Seq::empty()
    } else if entries.last().date.in_month(month) {
        positions_in_month(entries.drop_last(), month).push(entries.len() - 1)
    } else {
        positions_in_month(entries.drop_last(), month)
    }
}

/// A month's selection is a subsequence of the list in the list's order: its
/// entries are the entries at the positions dated in that month, position by
/// position, and those positions rise strictly.
pub proof fn filter_for_keeps_order(list: ExpenseListView, month: u32)
    ensures
        positions_in_month(list.entries, month).len() == list.for_month(month).len(),
        forall|i: int|
            0 <= i < list.for_month(month).len() ==> 0 <= (#[trigger] positions_in_month(
                list.entries,
                month,
            )[i]) < list.entries.len() && list.for_month(month)[i] == list.entries[positions_in_month(
                list.entries,
                month,
            )[i]],
        forall|i: int, j: int|
            0 <= i < j < list.for_month(month).len() ==> (#[trigger] positions_in_month(
                list.entries,
                month,
            )[i]) < (#[trigger] positions_in_month(list.entries, month)[j]),
    decreases list.entries.len(),
{
    reveal(Seq::filter);
    if list.entries.len() > 0 {
        let front = ExpenseListView { entries: list.entries.drop_last(), next_id: list.next_id };
        filter_for_keeps_order(front, month);
        let at = positions_in_month(list.entries, month);
        let front_at = positions_in_month(front.entries, month);
        let selected = list.for_month(month);
        assert forall|i: int| 0 <= i < selected.len() implies 0 <= (#[trigger] at[i])
            < list.entries.len() && selected[i] == list.entries[at[i]] by {
            if i < front_at.len() {
                assert(at[i] == front_at[i]);
                assert(selected[i] == front.for_month(month)[i]);
                assert(front.entries[front_at[i]] == list.entries[front_at[i]]);
            }
        }
        assert forall|i: int, j: int| 0 <= i < j < selected.len() implies (#[trigger] at[i]) < (
        #[trigger] at[j]) by {
            assert(at[i] == front_at[i]);
            if j < front_at.len() {
                assert(at[j] == front_at[j]);
            }
        }
    }
}

/// The number of entries dated in one of the calendar months 1 to `upto`,
/// counted month by month.
pub open spec fn dated_through(entries: Seq<ExpenseView>, upto: nat) -> int
    decreases upto,
{
    if upto == 0 {
        0
    } else {
        dated_through(entries, (upto - 1) as nat) + entries.filter(dated_in(upto as u32)).len()
    }
}

/// One more entry, dated in month `m`, counts once in the months 1 to
/// `upto` where `m` is among them, and not at all where it is not.
proof fn lemma_dated_through_push(entries: Seq<ExpenseView>, e: ExpenseView, m: u32, upto: nat)
    requires
        upto <= 12,
        e.date.spec_month() == Some(m),
    ensures
        dated_through(entries.push(e), upto) == dated_through(entries, upto) + if 1 <= m <= upto {
            1int
        } else {
            0int
        },
    decreases upto,
{
    if upto > 0 {
        lemma_dated_through_push(entries, e, m, (upto - 1) as nat);
        entries.lemma_filter_push(e, dated_in(upto as u32));
    }
}

/// Where every date lies in a calendar month, the months 1 to 12 count
/// every entry once.
proof fn lemma_dated_through_all(entries: Seq<ExpenseView>)
    requires
        forall|i: int| 0 <= i < entries.len() ==> (#[trigger] entries[i]).date.in_calendar(),
    ensures
        dated_through(entries, 12) == entries.len(),
    decreases entries.len(),
{
    reveal(Seq::filter);
    reveal_with_fuel(dated_through, 13);
    if entries.len() > 0 {
        let front = entries.drop_last();
        let e = entries.last();
        lemma_dated_through_all(front);
        assert(front.push(e) =~= entries);
        lemma_dated_through_push(front, e, e.date.spec_month().unwrap(), 12);
    }
}

/// The twelve months share out the list: counted over the months 1 to 12,
/// the selections of [`ExpenseListView::for_month`] hold as many entries as
/// the list, and no entry is dated in two months.
pub proof fn months_partition_the_list(list: ExpenseListView)
    requires
        list.wf(),
    ensures
        dated_through(list.entries, 12) == list.entries.len(),
        forall|m: u32| #![trigger list.for_month(m)] !(1 <= m <= 12) ==> list.for_month(m).len() == 0,
        forall|i: int, m1: u32, m2: u32|
            #![trigger list.entries[i].date.in_month(m1), list.entries[i].date.in_month(m2)]
            0 <= i < list.entries.len() && list.entries[i].date.in_month(m1)
                && list.entries[i].date.in_month(m2) ==> m1 == m2,
{
    lemma_dated_through_all(list.entries);
    assert forall|m: u32| #![trigger list.for_month(m)] !(1 <= m <= 12) implies list.for_month(
        m,
    ).len() == 0 by {
        filter_for_selects_the_month(list, m);
    }
}

} // verus!
