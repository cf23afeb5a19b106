use expense_tracker::actions::{
    map_action, map_add_action, map_delete_action, map_list_action, position,
};
use expense_tracker::models::{Action, ActionError};

fn args(words: &[&str]) -> Vec<String> {
    words.iter().map(|w| w.to_string()).collect()
}

fn add_of(words: &[&str]) -> Result<(String, i32), ActionError> {
    match map_action(&args(words)) {
        Ok(Action::Add { description, amount }) => Ok((description, amount)),
        Ok(other) => panic!("not an add: {:?}", other),
        Err(error) => Err(error),
    }
}

fn list_of(words: &[&str]) -> Result<Option<u32>, ActionError> {
    match map_action(&args(words)) {
        Ok(Action::List { month }) => Ok(month),
        Ok(other) => panic!("not a list: {:?}", other),
        Err(error) => Err(error),
    }
}

fn delete_of(words: &[&str]) -> Result<usize, ActionError> {
    match map_action(&args(words)) {
        Ok(Action::Delete { id }) => Ok(id),
        Ok(other) => panic!("not a delete: {:?}", other),
        Err(error) => Err(error),
    }
}

#[test]
fn position_finds_the_first_occurrence() {
    let a = args(&["prog", "add", "--x", "1", "--x", "2"]);
    assert_eq!(position(&a, "--x"), Some(2));
    assert_eq!(position(&a, "prog"), Some(0));
    assert_eq!(position(&a, "2"), Some(5));
    assert_eq!(position(&a, "--y"), None);
    assert_eq!(position(&a, "--"), None);
    assert_eq!(position(&Vec::new(), "--x"), None);
}

#[test]
fn add_with_description_and_amount() {
    assert_eq!(
        add_of(&["prog", "add", "--description", "coffee", "--amount", "5"]),
        Ok(("coffee".to_string(), 5))
    );
    assert_eq!(
        add_of(&["prog", "add", "--amount", "12", "--description", "lunch"]),
        Ok(("lunch".to_string(), 12))
    );
    assert_eq!(
        add_of(&["prog", "add", "--description", "--amount", "7"]),
        Ok(("--amount".to_string(), 7))
    );
}

#[test]
fn add_reads_signed_amounts() {
    assert_eq!(
        add_of(&["prog", "add", "--description", "a", "--amount", "0"]),
        Ok(("a".to_string(), 0))
    );
    assert_eq!(
        add_of(&["prog", "add", "--description", "a", "--amount", "-0"]),
        Ok(("a".to_string(), 0))
    );
    assert_eq!(
        add_of(&["prog", "add", "--description", "a", "--amount", "+5"]),
        Ok(("a".to_string(), 5))
    );
    assert_eq!(
        add_of(&["prog", "add", "--description", "a", "--amount", "007"]),
        Ok(("a".to_string(), 7))
    );
    assert_eq!(
        add_of(&["prog", "add", "--description", "a", "--amount", "2147483647"]),
        Ok(("a".to_string(), i32::MAX))
    );
}

#[test]
fn add_with_a_negative_amount_is_refused() {
    for amount in ["-1", "-3", "-5", "-2147483648"] {
        assert_eq!(
            add_of(&["prog", "add", "--description", "refund", "--amount", amount]),
            Err(ActionError::ArgumentInvalid),
            "amount {:?}",
            amount
        );
        assert!(map_add_action(&args(&["--description", "refund", "--amount", amount])).is_err());
    }
}

#[test]
fn list_with_a_month_outside_the_year_is_refused() {
    for month in ["0", "13", "14", "100", "4294967295", "+0"] {
        assert_eq!(
            list_of(&["prog", "list", "--month", month]),
            Err(ActionError::ArgumentInvalid),
            "month {:?}",
            month
        );
        assert!(map_list_action(&args(&["--month", month])).is_err());
    }
    for month in 1..13 {
        let text = month.to_string();
        assert_eq!(list_of(&["prog", "list", "--month", text.as_str()]), Ok(Some(month)));
    }
}

#[test]
fn add_with_an_amount_that_is_no_number() {
    for amount in ["", "five", "5 ", " 5", "5.0", "1_000", "+", "-", "+-5", "2147483648", "-2147483649", "--amount"] {
        assert_eq!(
            add_of(&["prog", "add", "--description", "a", "--amount", amount]),
            Err(ActionError::ArgumentInvalid),
            "amount {:?}",
            amount
        );
    }
}

#[test]
fn add_with_a_missing_argument() {
    assert_eq!(add_of(&["prog", "add"]), Err(ActionError::ArgumentNotFound));
    assert_eq!(
        add_of(&["prog", "add", "--amount", "5"]),
        Err(ActionError::ArgumentNotFound)
    );
    assert_eq!(
        add_of(&["prog", "add", "--description", "a"]),
        Err(ActionError::ArgumentNotFound)
    );
    assert_eq!(
        add_of(&["prog", "add", "--amount", "x", "--description"]),
        Err(ActionError::ArgumentNotFound)
    );
    assert_eq!(
        add_of(&["prog", "add", "--description", "a", "--amount"]),
        Err(ActionError::ArgumentNotFound)
    );
}

#[test]
fn list_with_and_without_a_month() {
    assert_eq!(list_of(&["prog", "list"]), Ok(None));
    assert_eq!(list_of(&["prog", "list", "--month", "3"]), Ok(Some(3)));
    assert_eq!(list_of(&["prog", "list", "--month", "+12"]), Ok(Some(12)));
    assert_eq!(list_of(&["prog", "list", "--month", "01"]), Ok(Some(1)));
    assert_eq!(list_of(&["prog", "list", "--month"]), Err(ActionError::ArgumentNotFound));
    for month in ["-1", "-0", "march", "", "4294967296", "1.5"] {
        assert_eq!(
            list_of(&["prog", "list", "--month", month]),
            Err(ActionError::ArgumentInvalid),
            "month {:?}",
            month
        );
    }
}

#[test]
fn delete_with_a_position() {
    assert_eq!(delete_of(&["prog", "delete", "--id", "0"]), Ok(0));
    assert_eq!(delete_of(&["prog", "delete", "--id", "42"]), Ok(42));
    let largest = usize::MAX.to_string();
    assert_eq!(
        delete_of(&["prog", "delete", "--id", largest.as_str()]),
        Ok(usize::MAX)
    );
    assert_eq!(delete_of(&["prog", "delete"]), Err(ActionError::ArgumentNotFound));
    assert_eq!(delete_of(&["prog", "delete", "--id"]), Err(ActionError::ArgumentNotFound));
    for id in ["-1", "one", "", "340282366920938463463374607431768211456"] {
        assert_eq!(
            delete_of(&["prog", "delete", "--id", id]),
            Err(ActionError::ArgumentInvalid),
            "id {:?}",
            id
        );
    }
}

#[test]
fn summary_and_unknown_words() {
    assert!(matches!(map_action(&args(&["prog", "summary"])), Ok(Action::Summary)));
    assert!(matches!(
        map_action(&args(&["prog", "summary", "--month", "x"])),
        Ok(Action::Summary)
    ));
    for word in ["", "Add", "remove", "adds", "--month"] {
        assert!(matches!(
            map_action(&args(&["prog", word])),
            Err(ActionError::UnknowAction)
        ));
    }
}

#[test]
fn the_readers_do_not_look_at_the_word() {
    assert!(matches!(
        map_add_action(&args(&["--description", "a", "--amount", "1"])),
        Ok(Action::Add { amount: 1, .. })
    ));
    assert!(matches!(
        map_delete_action(&args(&["--id", "3"])),
        Ok(Action::Delete { id: 3 })
    ));
    assert!(matches!(
        map_list_action(&args(&[])),
        Ok(Action::List { month: None })
    ));
    assert!(matches!(
        map_list_action(&args(&["--month", "11"])),
        Ok(Action::List { month: Some(11) })
    ));
}

#[test]
fn action_error_messages() {
    assert_eq!(ActionError::UnknowAction.message(), "The action could not be determined");
    assert_eq!(
        ActionError::ArgumentNotFound.message(),
        "The argument could not be found for this action"
    );
    assert_eq!(ActionError::ArgumentInvalid.message(), "The argument could not be parsed");
}
