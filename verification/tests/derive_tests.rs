use db_enum::attrs::AttrEntry;
use db_enum::derive::RawVariant;
use db_enum::derive::derive_plan;
use db_enum::plan::Backends;
use db_enum::plan::ConfigError;
use db_enum::plan::MappingRef;

fn entry(key: &str, value: &str) -> AttrEntry {
    AttrEntry {
        key: key.to_string(),
        value: Some(value.to_string()),
    }
}

fn plain(ident: &str) -> RawVariant {
    RawVariant {
        ident: ident.to_string(),
        attrs: vec![],
        is_unit: true,
    }
}

fn renamed(ident: &str, rename: &str) -> RawVariant {
    RawVariant {
        ident: ident.to_string(),
        attrs: vec![vec![entry("rename", rename)]],
        is_unit: true,
    }
}

fn pg_only() -> Backends {
    Backends {
        postgres: true,
        mysql: false,
        sqlite: false,
    }
}

#[test]
fn plain_declaration_gets_the_defaults() {
    let name = "MyEnum".to_string();
    let variants = vec![plain("Foo"), plain("Bar"), plain("BazQuxx")];
    let plan = derive_plan(&name, &vec![], &variants, &pg_only()).unwrap();
    let names: Vec<&str> = plan.wire_names.iter().map(|s| s.as_str()).collect();
    assert_eq!(names, vec!["foo", "bar", "baz_quxx"]);
    assert_eq!(plan.pg_internal_type, "my_enum");
    assert_eq!(plan.module_name, "db_enum_impl_MyEnum");
    assert!(matches!(plan.mapping, MappingRef::New(ref n) if n == "MyEnumMapping"));
    assert!(plan.emit_new_mapping);
}

#[test]
fn annotated_declaration_is_read_and_resolved() {
    let name = "SomeEnum".to_string();
    let type_attrs = vec![vec![
        entry("diesel_type", "Some_Internal_Type"),
        entry("pg_type", "Some_External_Type"),
    ]];
    let variants = vec![
        renamed("Mod", "mod"),
        renamed("typo", "type"),
        renamed("WithASpace", "with spaces"),
    ];
    let plan = derive_plan(&name, &type_attrs, &variants, &pg_only()).unwrap();
    let names: Vec<&str> = plan.wire_names.iter().map(|s| s.as_str()).collect();
    assert_eq!(names, vec!["mod", "type", "with spaces"]);
    assert_eq!(plan.pg_internal_type, "Some_External_Type");
    assert!(matches!(plan.mapping, MappingRef::New(ref n) if n == "Some_Internal_Type"));
}

#[test]
fn style_and_renames_combine() {
    let name = "StylizedEnum".to_string();
    let type_attrs = vec![vec![entry("value_style", "PascalCase")]];
    let variants = vec![
        plain("FirstVariant"),
        plain("secondThing"),
        plain("third_item"),
        plain("FOURTH_VALUE"),
        renamed("cRaZy_FiFtH", "crazy fifth"),
    ];
    let plan = derive_plan(&name, &type_attrs, &variants, &pg_only()).unwrap();
    let names: Vec<&str> = plan.wire_names.iter().map(|s| s.as_str()).collect();
    assert_eq!(
        names,
        vec!["FirstVariant", "SecondThing", "ThirdItem", "FourthValue", "crazy fifth"]
    );
}

#[test]
fn flag_entries_opt_into_the_clone_impl() {
    let name = "MyEnum".to_string();
    let type_attrs = vec![vec![AttrEntry {
        key: "impl_clone_on_sql_type".to_string(),
        value: None,
    }]];
    let plan = derive_plan(&name, &type_attrs, &vec![plain("Foo")], &pg_only()).unwrap();
    assert!(plan.with_clone);
}

#[test]
fn conflicting_annotations_are_rejected_in_order() {
    let name = "MyEnum".to_string();
    let variants = vec![plain("Foo")];
    let off = Backends {
        postgres: false,
        mysql: true,
        sqlite: false,
    };
    let existing = vec![vec![entry("existing_type_path", "crate::sql_types::MyEnum")]];
    assert!(matches!(
        derive_plan(&name, &existing, &variants, &off),
        Err(ConfigError::ExistingTypePathRequiresPostgres)
    ));
    let both = vec![vec![
        entry("existing_type_path", "crate::sql_types::MyEnum"),
        entry("pg_type", "my_type"),
        entry("diesel_type", "MyMapping"),
    ]];
    assert!(matches!(
        derive_plan(&name, &both, &variants, &pg_only()),
        Err(ConfigError::ExistingTypePathWithPgType)
    ));
    let bad_style = vec![vec![entry("value_style", "SHOUTY")]];
    assert!(matches!(
        derive_plan(&name, &bad_style, &variants, &pg_only()),
        Err(ConfigError::UnsupportedCaseStyle)
    ));
    let non_unit = vec![RawVariant {
        ident: "Holds".to_string(),
        attrs: vec![],
        is_unit: false,
    }];
    assert!(matches!(
        derive_plan(&name, &vec![], &non_unit, &pg_only()),
        Err(ConfigError::NonUnitVariant)
    ));
}
