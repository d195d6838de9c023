use stabby::report::{FieldReport, TyTy, TypeReport, Version};

fn leaf(name: &'static str) -> &'static TypeReport {
    Box::leak(Box::new(TypeReport {
        name,
        module: "core",
        fields: None,
        last_break: Version::never(),
        tyty: TyTy::Struct,
    }))
}

fn field(
    name: &'static str,
    ty: &'static TypeReport,
    next_field: Option<&'static FieldReport>,
) -> &'static FieldReport {
    Box::leak(Box::new(FieldReport { name, ty, next_field }))
}

fn point() -> TypeReport {
    let z = field("z", leaf("u8"), None);
    let y = field("y", leaf("u16"), Some(z));
    let x = field("x", leaf("u32"), Some(y));
    TypeReport {
        name: "Point",
        module: "geometry",
        fields: Some(x),
        last_break: Version { major: 1, minor: 2, patch: 0, dirty: false },
        tyty: TyTy::Struct,
    }
}

fn names(report: &TypeReport) -> Vec<&'static str> {
    let mut cursor = report.fields();
    let mut out = Vec::new();
    while let Some(f) = cursor.next() {
        out.push(f.name);
    }
    out
}

#[test]
fn fields_come_in_declaration_order() {
    let report = point();
    assert_eq!(names(&report), vec!["x", "y", "z"]);
    let tys: Vec<&str> = report.field_list().iter().map(|f| f.ty.name).collect();
    assert_eq!(tys, vec!["u32", "u16", "u8"]);
}

#[test]
fn fields_restart_with_a_fresh_cursor() {
    let report = point();
    let first = names(&report);
    let second = names(&report);
    assert_eq!(first.len(), 3);
    assert_eq!(first, second);
    assert_eq!(report.field_list().len(), 3);
}

#[test]
fn fields_of_a_type_without_fields_are_empty() {
    let report = leaf("Unit");
    let mut cursor = report.fields();
    assert!(cursor.next().is_none());
    assert!(report.field_list().is_empty());
}

#[test]
fn spent_cursor_stays_spent() {
    let report = point();
    let mut cursor = report.fields();
    for _ in 0..3 {
        assert!(cursor.next().is_some());
    }
    assert!(cursor.next().is_none());
    assert!(cursor.next().is_none());
}

#[test]
fn never_equals_default() {
    assert_eq!(Version::never(), Version::default());
    assert_eq!(Version::never(), Version { major: 0, minor: 0, patch: 0, dirty: false });
}

#[test]
fn never_differs_from_any_set_component() {
    let never = Version::never();
    assert_ne!(never, Version { major: 1, minor: 0, patch: 0, dirty: false });
    assert_ne!(never, Version { major: 0, minor: 1, patch: 0, dirty: false });
    assert_ne!(never, Version { major: 0, minor: 0, patch: 1, dirty: false });
    assert_ne!(never, Version { major: 0, minor: 0, patch: 0, dirty: true });
}

#[test]
fn enum_report_carries_its_variant_name() {
    let report = TypeReport {
        name: "Shape",
        module: "geometry",
        fields: None,
        last_break: Version::never(),
        tyty: TyTy::Enum("Circle"),
    };
    assert_eq!(report.tyty, TyTy::Enum("Circle"));
    assert_ne!(report.tyty, TyTy::Union);
}
