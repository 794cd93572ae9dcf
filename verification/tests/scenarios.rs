use unclap::{
    append_field, append_struct, append_variant, capture_single, do_derive_argument, ArgumentExt,
    ArityError, CommandLine, Derived, EnumVariant, FieldCode, FieldValue, FieldVariant, Fields,
    Flag, Malformed, Member, Shape, Style, UnclapField, UnclapVariant_, Value, VariantArm,
};

fn strings(items: &[&str]) -> Vec<String> {
    items.iter().map(|s| s.to_string()).collect()
}

fn field(ident: &str, variant: FieldVariant) -> Result<UnclapField, Malformed> {
    Ok(UnclapField { ident: Some(ident.to_string()), variant })
}

fn variant(ident: &str, style: Style, fields: Vec<Result<UnclapField, Malformed>>, mode: EnumVariant) -> Result<UnclapVariant_, Malformed> {
    Ok(UnclapVariant_ { ident: ident.to_string(), fields: Fields { style, fields }, variant: mode })
}

fn echo_print_spec() -> Derived {
    let shape = Shape::NamedStruct(vec![
        field("no_trailing_newline", FieldVariant::Flag(Some("-n".to_string()))),
        field("enable_backslash_escapes", FieldVariant::Flag(Some("-e".to_string()))),
        field("strings", FieldVariant::Unnamed),
    ]);
    do_derive_argument(&shape).unwrap()
}

fn echo_mode() -> Derived {
    let payload = vec![Ok(UnclapField { ident: None, variant: FieldVariant::Unnamed })];
    let shape = Shape::Enum(vec![
        variant("Help", Style::Unit, vec![], EnumVariant::Named(None)),
        variant("Version", Style::Unit, vec![], EnumVariant::Named(None)),
        variant("Print", Style::Tuple, payload, EnumVariant::Unnamed),
    ]);
    do_derive_argument(&shape).unwrap()
}

fn print_spec(no_trailing_newline: Flag, enable_backslash_escapes: Flag, words: &[&str]) -> Value {
    Value::Struct(vec![
        FieldValue::Switch(no_trailing_newline),
        FieldValue::Switch(enable_backslash_escapes),
        FieldValue::Args(strings(words)),
    ])
}

#[test]
fn unset_flags_leave_the_strings_alone() {
    let value = print_spec(Flag::Unset, Flag::Unset, &["hello", "world"]);
    assert_eq!(echo_print_spec().to_args(&value), Some(strings(&["hello", "world"])));
}

#[test]
fn a_set_flag_comes_before_the_strings() {
    let value = print_spec(Flag::IsSet, Flag::Unset, &["hello", "world"]);
    assert_eq!(echo_print_spec().to_args(&value), Some(strings(&["-n", "hello", "world"])));
    let both = print_spec(Flag::IsSet, Flag::IsSet, &["hello", "world"]);
    assert_eq!(echo_print_spec().to_args(&both), Some(strings(&["-n", "-e", "hello", "world"])));
    let second = print_spec(Flag::Unset, Flag::IsSet, &[]);
    assert_eq!(echo_print_spec().to_args(&second), Some(strings(&["-e"])));
}

#[test]
fn a_named_unit_variant_emits_its_inferred_name() {
    let help = Value::Variant { index: 0, payload: None };
    assert_eq!(echo_mode().to_args(&help), Some(strings(&["--help"])));
    let version = Value::Variant { index: 1, payload: None };
    assert_eq!(echo_mode().to_args(&version), Some(strings(&["--version"])));
}

#[test]
fn an_unnamed_variant_emits_its_payload_and_nothing_else() {
    let inner = print_spec(Flag::default(), Flag::default(), &["hello", "world"]);
    let payload = echo_print_spec().to_args(&inner).unwrap();
    let print = Value::Variant { index: 2, payload: Some(payload.clone()) };
    assert_eq!(echo_mode().to_args(&print), Some(payload));
    assert_eq!(echo_mode().to_args(&print), Some(strings(&["hello", "world"])));
}

#[test]
fn the_derived_arguments_make_a_command_line() {
    let inner = print_spec(Flag::default(), Flag::default(), &["hello", "world"]);
    let args = echo_print_spec().to_args(&inner).unwrap();
    let cmd = args.to_command("echo");
    assert_eq!(cmd, CommandLine { program: "echo".to_string(), args: strings(&["hello", "world"]) });
}

#[test]
fn a_collection_in_a_single_value_place_is_too_many() {
    let derived = do_derive_argument(&Shape::TupleStruct(vec![Ok(UnclapField {
        ident: None,
        variant: FieldVariant::Unnamed,
    })]))
    .unwrap();
    let value = Value::Struct(vec![FieldValue::Args(strings(&["one", "two"]))]);
    let emitted = derived.to_args(&value).unwrap();
    assert_eq!(capture_single::<String, _>(&emitted), Err(ArityError::TooMany));
    let single = Value::Struct(vec![FieldValue::Args(strings(&["one"]))]);
    assert_eq!(capture_single::<String, _>(&derived.to_args(&single).unwrap()), Ok("one".to_string()));
    let none = Value::Struct(vec![FieldValue::Args(vec![])]);
    assert_eq!(capture_single::<String, _>(&derived.to_args(&none).unwrap()), Err(ArityError::Missing));
}

#[test]
fn a_later_field_does_not_move_an_earlier_one() {
    let derived = do_derive_argument(&Shape::NamedStruct(vec![
        field("input", FieldVariant::Named(None)),
        field("verbose", FieldVariant::Flag(None)),
        field("rest", FieldVariant::Unnamed),
    ]))
    .unwrap();
    let first = Value::Struct(vec![
        FieldValue::Args(strings(&["a.txt"])),
        FieldValue::Switch(Flag::Unset),
        FieldValue::Args(strings(&["x"])),
    ]);
    let second = Value::Struct(vec![
        FieldValue::Args(strings(&["a.txt"])),
        FieldValue::Switch(Flag::IsSet),
        FieldValue::Args(strings(&["y", "z"])),
    ]);
    let first = derived.to_args(&first).unwrap();
    let second = derived.to_args(&second).unwrap();
    assert_eq!(first, strings(&["--input", "a.txt", "x"]));
    assert_eq!(second, strings(&["--input", "a.txt", "--verbose", "y", "z"]));
    assert_eq!(first[..2], second[..2]);
}

#[test]
fn a_named_field_without_values_emits_its_name_alone() {
    let derived = do_derive_argument(&Shape::NamedStruct(vec![field("x", FieldVariant::Named(None))])).unwrap();
    let value = Value::Struct(vec![FieldValue::Args(vec![])]);
    assert_eq!(derived.to_args(&value), Some(strings(&["--x"])));
}

#[test]
fn logic_runs_only_on_values_of_its_shape() {
    let derived = echo_print_spec();
    assert!(derived.accepts(&print_spec(Flag::Unset, Flag::Unset, &[])));
    let too_short = Value::Struct(vec![FieldValue::Switch(Flag::Unset)]);
    assert!(!derived.accepts(&too_short));
    assert_eq!(derived.to_args(&too_short), None);
    let wrong_capability = Value::Struct(vec![
        FieldValue::Args(strings(&["-n"])),
        FieldValue::Switch(Flag::Unset),
        FieldValue::Args(vec![]),
    ]);
    assert!(!derived.accepts(&wrong_capability));
    assert_eq!(derived.to_args(&wrong_capability), None);
    assert!(!derived.accepts(&Value::Variant { index: 0, payload: None }));

    let modes = echo_mode();
    assert!(!modes.accepts(&Value::Variant { index: 3, payload: None }));
    assert!(!modes.accepts(&Value::Variant { index: 0, payload: Some(vec![]) }));
    assert!(!modes.accepts(&Value::Variant { index: 2, payload: None }));
    assert!(!modes.accepts(&Value::Struct(vec![])));
    assert!(modes.accepts(&Value::Variant { index: 2, payload: Some(vec![]) }));
}

#[test]
fn rejected_logic_never_runs() {
    let derived = do_derive_argument(&Shape::TupleStruct(vec![Ok(UnclapField {
        ident: None,
        variant: FieldVariant::Named(None),
    })]))
    .unwrap();
    assert_eq!(derived.to_args(&Value::Struct(vec![FieldValue::Args(vec![])])), None);
    let malformed = do_derive_argument(&Shape::TupleStruct(vec![Err(Malformed)])).unwrap();
    assert_eq!(malformed.to_args(&Value::Struct(vec![FieldValue::Args(vec![])])), None);
    let two = vec![
        Ok(UnclapField { ident: None, variant: FieldVariant::Unnamed }),
        Ok(UnclapField { ident: None, variant: FieldVariant::Unnamed }),
    ];
    let rejected = do_derive_argument(&Shape::Enum(vec![variant("Two", Style::Tuple, two, EnumVariant::Unnamed)])).unwrap();
    assert_eq!(rejected.to_args(&Value::Variant { index: 0, payload: Some(vec![]) }), None);
    assert_eq!(rejected.to_args(&Value::Variant { index: 0, payload: None }), None);
}

#[test]
fn the_steps_of_the_logic_run_one_by_one() {
    let mut args: Vec<String> = Vec::new();
    let flag = FieldCode::Flag { flag_name: "-n".to_string(), member: Member::Unnamed(0) };
    append_field(&flag, &FieldValue::Switch(Flag::IsSet), &mut args);
    append_field(&flag, &FieldValue::Switch(Flag::Unset), &mut args);
    let named = FieldCode::Named { flag_name: "--out".to_string(), member: Member::Unnamed(1) };
    append_field(&named, &FieldValue::Args(strings(&["a", "b"])), &mut args);
    let positional = FieldCode::Positional { member: Member::Unnamed(2) };
    append_field(&positional, &FieldValue::Args(strings(&["c"])), &mut args);
    assert_eq!(args, strings(&["-n", "--out", "a", "b", "c"]));

    let codes = vec![flag, named, positional];
    let values = vec![
        FieldValue::Switch(Flag::IsSet),
        FieldValue::Args(vec![]),
        FieldValue::Args(strings(&["x"])),
    ];
    let mut cmd = CommandLine::new("tool");
    append_struct(&codes, &values, &mut cmd);
    assert_eq!(cmd.args, strings(&["-n", "--out", "x"]));

    let arm = VariantArm::Single { name: "Run".to_string(), prelude: Some("--run".to_string()) };
    append_variant(&arm, &Some(strings(&["now"])), &mut cmd);
    let unit = VariantArm::Unit { name: "Dry".to_string(), prelude: Some("--dry".to_string()) };
    append_variant(&unit, &None, &mut cmd);
    assert_eq!(cmd.args, strings(&["-n", "--out", "x", "--run", "now", "--dry"]));
}
