use docker_compose_types::{DependsCondition, DependsOnOptions};
use indexmap::IndexMap;
use podlet::cli::unit::Unit;

fn empty_unit() -> Unit {
    Unit::default()
}

#[test]
fn fresh_unit_is_empty() {
    assert!(empty_unit().is_empty());
}

#[test]
fn any_single_dependency_makes_unit_nonempty() {
    let mut u = empty_unit();
    u.wants.push("x.service".to_string());
    assert!(!u.is_empty());

    let mut u = empty_unit();
    u.requires.push("x.service".to_string());
    assert!(!u.is_empty());

    let mut u = empty_unit();
    u.before.push("x.service".to_string());
    assert!(!u.is_empty());

    let mut u = empty_unit();
    u.after.push("x.service".to_string());
    assert!(!u.is_empty());
}

#[test]
fn description_makes_unit_nonempty() {
    let mut u = empty_unit();
    u.description = Some("svc".to_string());
    assert!(!u.is_empty());
}

#[test]
fn add_dependencies_from_flat_list_appends_in_order() {
    let mut u = empty_unit();
    u.requires.push("x.service".to_string());
    let depends_on = DependsOnOptions::Simple(vec!["a".to_string(), "b".to_string()]);
    u.add_dependencies(depends_on);
    assert_eq!(u.requires, vec!["x.service", "a.service", "b.service"]);
    assert!(u.wants.is_empty());
    assert!(u.before.is_empty());
    assert!(u.after.is_empty());
    assert_eq!(u.description, None);
}

#[test]
fn add_dependencies_from_conditional_map_uses_keys() {
    let cond = DependsCondition {
        condition: "service_started".to_string(),
        restart: None,
        required: None,
    };
    let mut map = IndexMap::new();
    map.insert("a".to_string(), cond.clone());
    map.insert("b".to_string(), cond);
    let mut u = empty_unit();
    u.add_dependencies(DependsOnOptions::Conditional(map));
    assert_eq!(u.requires, vec!["a.service", "b.service"]);
}

#[test]
fn render_description_and_wants_only() {
    let mut u = empty_unit();
    u.description = Some("svc".to_string());
    u.wants.push("x.service".to_string());
    assert_eq!(u.render(), "[Unit]\nDescription=svc\nWants=x.service\n");
}

#[test]
fn render_empty_section_is_header_only() {
    assert_eq!(empty_unit().render(), "[Unit]\n");
}

#[test]
fn render_joins_lists_with_spaces() {
    let mut u = empty_unit();
    u.wants.push("a.service".to_string());
    u.wants.push("b.service".to_string());
    assert_eq!(u.render(), "[Unit]\nWants=a.service b.service\n");
}

#[test]
fn render_checks_each_list_on_its_own() {
    // `After=` is rendered exactly when `after` is non-empty, independent of
    // `before`; and the other way round.
    let mut u = empty_unit();
    u.after.push("x.service".to_string());
    assert_eq!(u.render(), "[Unit]\nAfter=x.service\n");

    let mut u = empty_unit();
    u.before.push("b.service".to_string());
    assert_eq!(u.render(), "[Unit]\nBefore=b.service\n");
}

#[test]
fn render_fixed_field_order() {
    let mut u = empty_unit();
    u.description = Some("svc".to_string());
    u.wants.push("w.service".to_string());
    u.requires.push("r.service".to_string());
    u.before.push("b.service".to_string());
    u.after.push("a.service".to_string());
    assert_eq!(
        u.render(),
        "[Unit]\nDescription=svc\nWants=w.service\nRequires=r.service\nBefore=b.service\nAfter=a.service\n"
    );
}

#[test]
fn render_twice_is_identical() {
    let mut u = empty_unit();
    u.description = Some("svc".to_string());
    u.wants.push("x.service".to_string());
    u.requires.push("r.service".to_string());
    let first = u.render();
    let second = u.render();
    assert_eq!(first, second);
}
