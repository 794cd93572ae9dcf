use unclap::{Argument, ArgumentExt, ArgumentReceiver, ArgumentReceiverExt, CommandExt, CommandLine};

fn strings(items: &[&str]) -> Vec<String> {
    items.iter().map(|s| s.to_string()).collect()
}

fn emitted<A: Argument<String>>(arg: &A) -> Vec<String> {
    let mut args: Vec<String> = Vec::new();
    arg.append_to(&mut args);
    args
}

#[test]
fn strings_emit_themselves() {
    assert_eq!(emitted(&String::from("hello")), strings(&["hello"]));
    assert_eq!(emitted(&"world"), strings(&["world"]));
    assert_eq!(emitted(&""), strings(&[""]));
}

#[test]
fn vectors_emit_their_items_in_index_order() {
    assert_eq!(emitted(&strings(&["a", "b", "c"])), strings(&["a", "b", "c"]));
    assert_eq!(emitted(&Vec::<String>::new()), Vec::<String>::new());
}

#[test]
fn arrays_and_slices_emit_their_items_in_index_order() {
    assert_eq!(emitted(&["a", "b"]), strings(&["a", "b"]));
    let items = strings(&["x", "y", "z"]);
    let mut args: Vec<String> = Vec::new();
    items[1..].append_to(&mut args);
    assert_eq!(args, strings(&["y", "z"]));
}

#[test]
fn tuples_emit_their_components_in_order() {
    assert_eq!(emitted(&("a", String::from("b"))), strings(&["a", "b"]));
    assert_eq!(emitted(&("a", strings(&["b", "c"]), "d")), strings(&["a", "b", "c", "d"]));
    assert_eq!(emitted(&("1", "2", "3", "4")), strings(&["1", "2", "3", "4"]));
}

#[test]
fn nesting_flattens_to_one_list() {
    let nested = vec![
        (strings(&["a"]), ["b", "c"]),
        (strings(&[]), ["d", "e"]),
        (strings(&["f", "g"]), ["h", "i"]),
    ];
    assert_eq!(emitted(&nested), strings(&["a", "b", "c", "d", "e", "f", "g", "h", "i"]));
}

#[test]
fn a_collection_emits_what_its_items_emit_one_by_one() {
    let items = vec![("a", "b"), ("c", "d"), ("e", "f")];
    let mut one_by_one: Vec<String> = Vec::new();
    for item in &items {
        item.append_to(&mut one_by_one);
    }
    assert_eq!(emitted(&items), one_by_one);

    let (first, second) = items.split_at(1);
    let mut in_two: Vec<String> = emitted(&first.to_vec());
    in_two.extend(emitted(&second.to_vec()));
    assert_eq!(emitted(&items), in_two);
}

#[test]
fn a_vector_receives_values_at_its_end() {
    let mut args = strings(&["first"]);
    args.one_arg(String::from("second"));
    args.multiple_args(strings(&["third", "fourth"]));
    assert_eq!(args, strings(&["first", "second", "third", "fourth"]));
}

#[test]
fn borrowed_values_are_converted_and_chained() {
    let mut args: Vec<String> = Vec::new();
    args.arg("a").arg("b").args(&["c", "d"]).arg("e");
    assert_eq!(args, strings(&["a", "b", "c", "d", "e"]));
}

#[test]
fn a_command_line_starts_without_arguments() {
    let cmd = CommandLine::new("echo");
    assert_eq!(cmd.program, "echo");
    assert!(cmd.args.is_empty());
}

#[test]
fn a_command_line_keeps_the_order_of_what_it_accepts() {
    let mut cmd = CommandLine::new("cc");
    cmd.one_arg(String::from("-c"));
    cmd.multiple_args(strings(&["a.c", "b.c"]));
    cmd.arg("-o").arg("out");
    assert_eq!(cmd.program, "cc");
    assert_eq!(cmd.args, strings(&["-c", "a.c", "b.c", "-o", "out"]));
}

#[test]
fn to_command_gives_the_program_its_arguments() {
    let cmd = ("-n", strings(&["hello", "world"])).to_command("echo");
    assert_eq!(cmd, CommandLine { program: String::from("echo"), args: strings(&["-n", "hello", "world"]) });
}

#[test]
fn extend_appends_and_chains() {
    let mut cmd = CommandLine::new("ls");
    cmd.extend("-l").extend(strings(&["a", "b"]));
    assert_eq!(cmd.program, "ls");
    assert_eq!(cmd.args, strings(&["-l", "a", "b"]));
}
