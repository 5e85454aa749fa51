use metro_swc_transformer::api::{assemble_result, plan_transform};
use metro_swc_transformer::deps::{DependencyMap, ModuleReference};
use metro_swc_transformer::extract::collect_dependencies;
use metro_swc_transformer::ident::generate_dependency_map_ident;

fn stat(s: &str) -> ModuleReference {
    ModuleReference::Static { specifier: s.to_string() }
}

#[test]
fn same_specifier_twice_yields_one_entry() {
    let sites = vec![stat("./a"), stat("./a")];
    let (map, slots) = collect_dependencies(&sites);
    assert_eq!(map.len(), 1);
    assert_eq!(map.lookup(&"./a".to_string()), Some(0));
    assert_eq!(slots, vec![Some(0), Some(0)]);
    assert_eq!(map.entries[0].0.specifier, "./a");
    assert_eq!(map.entries[0].1.index, 0);
}

#[test]
fn indices_are_dense_and_in_first_occurrence_order() {
    let sites = vec![stat("./a"), stat("./b"), stat("./a"), stat("./c")];
    let (map, slots) = collect_dependencies(&sites);
    assert_eq!(map.len(), 3);
    assert_eq!(map.lookup(&"./a".to_string()), Some(0));
    assert_eq!(map.lookup(&"./b".to_string()), Some(1));
    assert_eq!(map.lookup(&"./c".to_string()), Some(2));
    assert_eq!(map.lookup(&"./missing".to_string()), None);
    assert_eq!(slots, vec![Some(0), Some(1), Some(0), Some(2)]);
    for (i, entry) in map.entries.iter().enumerate() {
        assert_eq!(entry.1.index, i);
    }
}

#[test]
fn collection_is_stable_across_runs() {
    let sites = vec![stat("./x"), stat("./y"), stat("./x")];
    let (m1, s1) = collect_dependencies(&sites);
    let (m2, s2) = collect_dependencies(&sites);
    assert_eq!(s1, s2);
    assert_eq!(m1.len(), m2.len());
    for i in 0..m1.entries.len() {
        assert_eq!(m1.entries[i].0.specifier, m2.entries[i].0.specifier);
        assert_eq!(m1.entries[i].1.index, m2.entries[i].1.index);
    }
}

#[test]
fn dynamic_site_gets_no_entry_and_no_slot() {
    let sites = vec![ModuleReference::Dynamic];
    let (map, slots) = collect_dependencies(&sites);
    assert_eq!(map.len(), 0);
    assert_eq!(slots, vec![None]);

    let sites = vec![stat("./a"), ModuleReference::Dynamic, stat("./b")];
    let (map, slots) = collect_dependencies(&sites);
    assert_eq!(map.len(), 2);
    assert_eq!(slots, vec![Some(0), None, Some(1)]);
}

#[test]
fn empty_input_yields_empty_map() {
    let sites: Vec<ModuleReference> = Vec::new();
    let (map, slots) = collect_dependencies(&sites);
    assert_eq!(map.len(), 0);
    assert!(slots.is_empty());
}

#[test]
fn record_assigns_and_reuses_slots() {
    let mut map = DependencyMap::new();
    assert_eq!(map.record("./a".to_string()), 0);
    assert_eq!(map.record("./b".to_string()), 1);
    assert_eq!(map.record("./a".to_string()), 0);
    assert_eq!(map.len(), 2);
}

#[test]
fn ident_without_collisions_is_the_base_name() {
    let bindings: Vec<String> = Vec::new();
    let r = generate_dependency_map_ident(&None, &bindings);
    assert_eq!(r, "_dependencyMap");
}

#[test]
fn ident_uses_the_global_prefix() {
    let bindings: Vec<String> = Vec::new();
    let r = generate_dependency_map_ident(&Some("g".to_string()), &bindings);
    assert_eq!(r, "g_dependencyMap");
}

#[test]
fn ident_steps_past_colliding_bindings() {
    let bindings = vec!["_dependencyMap".to_string()];
    let r = generate_dependency_map_ident(&None, &bindings);
    assert_eq!(r, "_dependencyMap$");

    let bindings = vec!["_dependencyMap".to_string(), "_dependencyMap$".to_string()];
    let r = generate_dependency_map_ident(&None, &bindings);
    assert_eq!(r, "_dependencyMap$$");
}

#[test]
fn ident_never_equals_a_binding() {
    let bindings = vec![
        "_dependencyMap".to_string(),
        "x".to_string(),
        "_dependencyMap$".to_string(),
        "_dependencyMap$$".to_string(),
    ];
    let r = generate_dependency_map_ident(&None, &bindings);
    for b in &bindings {
        assert_ne!(&r, b);
    }
}

#[test]
fn plan_covers_ident_and_dependencies() {
    let bindings = vec!["_dependencyMap".to_string(), "x".to_string()];
    let sites = vec![stat("./a"), stat("./a"), ModuleReference::Dynamic];
    let plan = plan_transform(&Some("g".to_string()), &bindings, &sites);
    assert_eq!(plan.dependency_map_ident, "g_dependencyMap");
    assert_eq!(plan.dependencies.len(), 1);
    assert_eq!(plan.site_slots, vec![Some(0), Some(0), None]);
}

#[test]
fn assemble_keeps_the_parts() {
    let sites = vec![stat("./a")];
    let (map, _) = collect_dependencies(&sites);
    let r = assemble_result("code;".to_string(), map, "_dependencyMap".to_string());
    assert_eq!(r.code, "code;");
    assert_eq!(r.dependency_map_ident, "_dependencyMap");
    assert_eq!(r.dependencies.len(), 1);
}
