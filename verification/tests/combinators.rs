use unclap::{
    capture_single, Argument, ArgumentReceiver, ArityError, Flag, FlagArg, IsArgumentFlag, Named,
    SingleArg,
};

fn strings(items: &[&str]) -> Vec<String> {
    items.iter().map(|s| s.to_string()).collect()
}

#[test]
fn named_puts_the_flag_before_the_value() {
    let value = String::from("out.txt");
    let mut args: Vec<String> = Vec::new();
    Named::new("--output", &value).append_to(&mut args);
    assert_eq!(args, strings(&["--output", "out.txt"]));
}

#[test]
fn named_over_a_collection_emits_every_item_after_the_flag() {
    let values = strings(&["a.c", "b.c"]);
    let mut args: Vec<String> = Vec::new();
    Named::new("--input", &values).append_to(&mut args);
    assert_eq!(args, strings(&["--input", "a.c", "b.c"]));
}

#[test]
fn named_over_nothing_emits_the_flag_alone() {
    let values: Vec<String> = Vec::new();
    let mut args: Vec<String> = Vec::new();
    Named::new("--x", &values).append_to(&mut args);
    assert_eq!(args, strings(&["--x"]));
}

#[test]
fn flag_arg_is_gated_by_the_switch() {
    let mut args: Vec<String> = Vec::new();
    FlagArg::new("-n", &Flag::Unset).append_to(&mut args);
    assert!(args.is_empty());
    FlagArg::new("-n", &Flag::IsSet).append_to(&mut args);
    assert_eq!(args, strings(&["-n"]));
}

#[test]
fn flag_arg_reads_the_switch_when_it_is_made() {
    let mut switch = Flag::IsSet;
    let flag = FlagArg::new("-e", &switch);
    switch = Flag::Unset;
    let mut args: Vec<String> = Vec::new();
    flag.append_to(&mut args);
    assert_eq!(args, strings(&["-e"]));
    assert_eq!(switch, Flag::Unset);
}

#[test]
fn the_default_flag_is_unset() {
    assert_eq!(Flag::default(), Flag::Unset);
    assert!(!Flag::default().is_set());
    assert!(Flag::IsSet.is_set());
    assert!(!Flag::Unset.is_set());
}

#[test]
fn single_arg_hands_out_what_it_accepted() {
    let mut single: SingleArg<String> = SingleArg::new();
    assert!(!single.is_filled());
    single.one_arg(String::from("only"));
    assert!(single.is_filled());
    assert_eq!(single.finalize::<Vec<String>>(), "only");
}

#[test]
fn single_arg_takes_the_one_value_of_an_argument() {
    let value = String::from("only");
    let mut single: SingleArg<String> = SingleArg::new();
    value.append_to(&mut single);
    assert!(single.is_filled());
    assert_eq!(single.finalize::<Vec<String>>(), "only");
}

#[test]
fn capture_single_gives_the_one_value() {
    assert_eq!(capture_single::<String, _>(&"one"), Ok(String::from("one")));
    assert_eq!(capture_single::<String, _>(&strings(&["one"])), Ok(String::from("one")));
}

#[test]
fn capture_single_refuses_a_second_value() {
    let many = strings(&["one", "two"]);
    assert_eq!(capture_single::<String, _>(&many), Err(ArityError::TooMany));
    assert_eq!(capture_single::<String, _>(&("a", "b", "c")), Err(ArityError::TooMany));
}

#[test]
fn capture_single_refuses_no_value() {
    let none: Vec<String> = Vec::new();
    assert_eq!(capture_single::<String, _>(&none), Err(ArityError::Missing));
}

#[test]
fn arity_errors_say_what_was_expected() {
    assert_eq!(ArityError::TooMany.message(), "Only a single argument was expected, not more");
    assert_eq!(ArityError::Missing.message(), "Exactly one argument was expected");
}
