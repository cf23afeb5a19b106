//! From the program's arguments to the intent they express.

use crate::models::{Action, ActionError, ActionView};
use vstd::prelude::*;

verus! {

/// The value of a text of decimal digits, read from the left.
pub open spec fn decimal(digits: Seq<char>) -> nat
    decreases digits.len(),
{
    if digits.len() == 0 {
        0
    } else {
        (decimal(digits.drop_last()) * 10 + (digits.last() as u32 - 0x30)) as nat
    }
}

/// At least one character, each of them one of `0` to `9`.
pub open spec fn all_digits(text: Seq<char>) -> bool {
    &&& text.len() > 0
    &&& forall|i: int| 0 <= i < text.len() ==> 0x30 <= #[trigger] (text[i] as u32) <= 0x39
}

/// The number that `text` spells without a minus sign: digits, with one `+`
/// in front of them or none.
pub open spec fn unsigned_number(text: Seq<char>) -> Option<int> {
    let digits = if text.len() > 0 && text[0] == '+' {
        text.skip(1)
    } else {
        text
    };
    if all_digits(digits) {
        Some(decimal(digits) as int)
    } else {
        None
    }
}

/// The number that `text` spells: digits, with one `+` or `-` in front of
/// them or none.
pub open spec fn signed_number(text: Seq<char>) -> Option<int> {
    if text.len() > 0 && text[0] == '-' {
        if all_digits(text.skip(1)) {
            Some(-(decimal(text.skip(1)) as int))
        } else {
            None
        }
    } else {
        unsigned_number(text)
    }
}

/// `text` read as an `i32`: the number it spells, where it spells one that
/// the type can hold.
pub open spec fn parsed_i32(text: Seq<char>) -> Option<i32> {
    match signed_number(text) {
        Some(n) => if i32::MIN <= n <= i32::MAX {
            Some(n as i32)
        } else {
            None
        },
        None => None,
    }
}

/// `text` read as a `u32`.
pub open spec fn parsed_u32(text: Seq<char>) -> Option<u32> {
    match unsigned_number(text) {
        Some(n) => if n <= u32::MAX {
            Some(n as u32)
        } else {
            None
        },
        None => None,
    }
}

/// `text` read as a `usize`.
pub open spec fn parsed_usize(text: Seq<char>) -> Option<usize> {
    match unsigned_number(text) {
        Some(n) => if n <= usize::MAX {
            Some(n as usize)
        } else {
            None
        },
        None => None,
    }
}

/// Trusted: `str::parse::<i32>`. The contract claims what std documents of
/// it: an optional sign, then decimal digits only, and an error where the
/// number does not fit.
#[verifier::external_body]
fn parse_i32(text: &str) -> (value: Option<i32>)
    ensures
        value == parsed_i32(text@),
{
    text.parse::<i32>().ok()
}

/// Trusted: `str::parse::<u32>`. The contract claims what std documents of
/// it: an optional `+`, then decimal digits only, and an error where the
/// number does not fit.
#[verifier::external_body]
fn parse_u32(text: &str) -> (value: Option<u32>)
    ensures
        value == parsed_u32(text@),
{
    text.parse::<u32>().ok()
}

/// Trusted: `str::parse::<usize>`. The contract claims what std documents of
/// it: an optional `+`, then decimal digits only, and an error where the
/// number does not fit.
#[verifier::external_body]
fn parse_usize(text: &str) -> (value: Option<usize>)
    ensures
        value == parsed_usize(text@),
{
    text.parse::<usize>().ok()
}

/// The arguments as sequences of characters.
pub open spec fn arg_views(args: Seq<String>) -> Seq<Seq<char>> {
    args.map_values(|a: String| a@)
}

/// An outcome with the action's text as a sequence of characters.
pub open spec fn outcome_view(outcome: Result<Action, ActionError>) -> Result<ActionView, ActionError> {
    match outcome {
        Ok(action) => Ok(action@),
        Err(error) => Err(error),
    }
}

/// The first position at or behind `from` at which `flag` stands.
pub open spec fn find_from(args: Seq<Seq<char>>, flag: Seq<char>, from: int) -> Option<int>
    decreases args.len() - from,
{
    if from < 0 || from >= args.len() {
        None
    } else if args[from] == flag {
        Some(from)
    } else {
        find_from(args, flag, from + 1)
    }
}

/// What follows the first occurrence of `flag`: `None` where the flag does
/// not occur, `Some(None)` where it is the last argument, else the argument
/// behind it.
pub open spec fn value_after(args: Seq<Seq<char>>, flag: Seq<char>) -> Option<Option<Seq<char>>> {
    match find_from(args, flag, 0) {
        None => None,
        Some(i) => if i + 1 < args.len() {
            Some(Some(args[i + 1]))
        } else {
            Some(None)
        },
    }
}

/// The intent of an `add`: it needs a `--description` and an `--amount`,
/// each followed by its value, and the amount has to be an `i32` that is not
/// negative.
pub open spec fn add_action(args: Seq<Seq<char>>) -> Result<ActionView, ActionError> {
    match (value_after(args, "--description"@), value_after(args, "--amount"@)) {
        (Some(Some(description)), Some(Some(amount))) => match parsed_i32(amount) {
            Some(amount) => if amount >= 0 {
                Ok(ActionView::Add { description, amount })
            } else {
                Err(ActionError::ArgumentInvalid)
            },
            None => Err(ActionError::ArgumentInvalid),
        },
        _ => Err(ActionError::ArgumentNotFound),
    }
}

/// The intent of a `delete`: it needs an `--id` followed by a position.
pub open spec fn delete_action(args: Seq<Seq<char>>) -> Result<ActionView, ActionError> {
    match value_after(args, "--id"@) {
        Some(Some(id)) => match parsed_usize(id) {
            Some(id) => Ok(ActionView::Delete { id }),
            None => Err(ActionError::ArgumentInvalid),
        },
        _ => Err(ActionError::ArgumentNotFound),
    }
}

/// The intent of a `list`: without `--month` it lists everything; with it,
/// the month has to follow, as a number from 1 to 12.
pub open spec fn list_action(args: Seq<Seq<char>>) -> Result<ActionView, ActionError> {
    match value_after(args, "--month"@) {
        None => Ok(ActionView::List { month: None }),
        Some(None) => Err(ActionError::ArgumentNotFound),
        Some(Some(month)) => match parsed_u32(month) {
            Some(month) => if 1 <= month <= 12 {
                Ok(ActionView::List { month: Some(month) })
            } else {
                Err(ActionError::ArgumentInvalid)
            },
            None => Err(ActionError::ArgumentInvalid),
        },
    }
}

/// An intent that the ledger can act on as it stands: an `add` carries an
/// amount that is not negative, and a `list` a month from 1 to 12 or none.
pub open spec fn validated(action: ActionView) -> bool {
    match action {
        ActionView::Add { description, amount } => amount >= 0,
        ActionView::List { month: Some(m) } => 1 <= m <= 12,
        _ => true,
    }
}

/// The intent that the arguments express; the word behind the program's
/// name decides which.
pub open spec fn action_of(args: Seq<Seq<char>>) -> Result<ActionView, ActionError>
    recommends
        args.len() >= 2,
{
    if args[1] == "add"@ {
        add_action(args)
    } else if args[1] == "list"@ {
        list_action(args)
    } else if args[1] == "summary"@ {
        Ok(ActionView::Summary)
    } else if args[1] == "delete"@ {
        delete_action(args)
    } else {
        Err(ActionError::UnknowAction)
    }
}

/// Whether `text` is exactly `word`.
fn is_word(text: &String, word: &str) -> (same: bool)
    ensures
        same == (text@ == word@),
{
    let owned = word.to_owned();
    text.eq(&owned)
}

/// The first position at which `flag` stands among the arguments.
pub fn position(args: &Vec<String>, flag: &str) -> (found: Option<usize>)
    ensures
        match found {
            Some(i) => i < args@.len() && find_from(arg_views(args@), flag@, 0) == Some(i as int),
            None => find_from(arg_views(args@), flag@, 0) is None,
        },
{
    let mut i: usize = 0;
    while i < args.len()
        invariant
            i <= args.len(),
            find_from(arg_views(args@), flag@, 0) == find_from(arg_views(args@), flag@, i as int),
        decreases args.len() - i,
    {
        assert(arg_views(args@)[i as int] == args[i as int]@);
        if is_word(&args[i], flag) {
            return Some(i);
        }
        i += 1;
    }
    None
}

/// The argument behind the first occurrence of `flag`.
fn argument_after<'a>(args: &'a Vec<String>, flag: &str) -> (found: Option<Option<&'a String>>)
    ensures
        match found {
            None => value_after(arg_views(args@), flag@) is None,
            Some(None) => value_after(arg_views(args@), flag@) == Some(None::<Seq<char>>),
            Some(Some(value)) => value_after(arg_views(args@), flag@) == Some(Some(value@)),
        },
{
    let len = args.len();
    match position(args, flag) {
        None => None,
        Some(i) => if i + 1 < len {
            assert(arg_views(args@)[i + 1] == args[i + 1]@);
            Some(Some(&args[i + 1]))
        } else {
            Some(None)
        },
    }
}

/// Reads the arguments of an `add`.
pub fn map_add_action(args: &Vec<String>) -> (outcome: Result<Action, ActionError>)
    ensures
        outcome_view(outcome) == add_action(arg_views(args@)),
        outcome matches Ok(action) ==> validated(action@),
{
    let description = match argument_after(args, "--description") {
        Some(Some(description)) => description,
        _ => { return Err(ActionError::ArgumentNotFound); },
    };
    let amount = match argument_after(args, "--amount") {
        Some(Some(amount)) => amount,
        _ => { return Err(ActionError::ArgumentNotFound); },
    };
    match parse_i32(amount.as_str()) {
        Some(amount) => if amount >= 0 {
            Ok(Action::Add { description: description.clone(), amount })
        } else {
            Err(ActionError::ArgumentInvalid)
        },
        None => Err(ActionError::ArgumentInvalid),
    }
}

/// Reads the arguments of a `delete`.
pub fn map_delete_action(args: &Vec<String>) -> (outcome: Result<Action, ActionError>)
    ensures
        outcome_view(outcome) == delete_action(arg_views(args@)),
        outcome matches Ok(action) ==> validated(action@),
{
    let id = match argument_after(args, "--id") {
        Some(Some(id)) => id,
        _ => { return Err(ActionError::ArgumentNotFound); },
    };
    match parse_usize(id.as_str()) {
        Some(id) => Ok(Action::Delete { id }),
        None => Err(ActionError::ArgumentInvalid),
    }
}

/// Reads the arguments of a `list`.
pub fn map_list_action(args: &Vec<String>) -> (outcome: Result<Action, ActionError>)
    ensures
        outcome_view(outcome) == list_action(arg_views(args@)),
        outcome matches Ok(action) ==> validated(action@),
{
    let month = match argument_after(args, "--month") {
        None => { return Ok(Action::List { month: None }); },
        Some(None) => { return Err(ActionError::ArgumentNotFound); },
        Some(Some(month)) => month,
    };
    match parse_u32(month.as_str()) {
        Some(month) => if 1 <= month && month <= 12 {
            Ok(Action::List { month: Some(month) })
        } else {
            Err(ActionError::ArgumentInvalid)
        },
        None => Err(ActionError::ArgumentInvalid),
    }
}

/// Reads the program's arguments: its name, the action's word, and what the
/// action needs.
pub fn map_action(args: &Vec<String>) -> (outcome: Result<Action, ActionError>)
    requires
        args@.len() >= 2,
    ensures
        outcome_view(outcome) == action_of(arg_views(args@)),
        outcome matches Ok(action) ==> validated(action@),
{
    let word = &args[1];
    assert(arg_views(args@)[1] == word@);
    if is_word(word, "add") {
        map_add_action(args)
    } else if is_word(word, "list") {
        map_list_action(args)
    } else if is_word(word, "summary") {
        Ok(Action::Summary)
    } else if is_word(word, "delete") {
        map_delete_action(args)
    } else {
        Err(ActionError::UnknowAction)
    }
}

/// Every intent that the arguments express is validated: whatever the
/// arguments are, an `add` that comes out carries an amount that is not
/// negative, and a `list` a month from 1 to 12 or none.
pub proof fn intents_are_validated(args: Seq<Seq<char>>)
    requires
        args.len() >= 2,
    ensures
        action_of(args) matches Ok(action) ==> validated(action),
        add_action(args) matches Ok(action) ==> validated(action),
        list_action(args) matches Ok(action) ==> validated(action),
        delete_action(args) matches Ok(action) ==> validated(action),
{
}

} // verus!
