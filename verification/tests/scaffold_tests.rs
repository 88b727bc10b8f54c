use rustbasic_activitylog::scaffold::{
    migration_name, migration_path, migration_source, model_registration, new_migration_name,
    register_migration, MIGRATIONS_LIST_END, MIGRATION_TEMPLATE_HEAD, MIGRATION_TEMPLATE_TAIL,
    MODEL_FILE, MODEL_MODULE, MODEL_TEMPLATE,
};

const MOD_RS: &str = "pub mod m20240101_000000_create_users_table;\n\nuse rustbasic_core::MigrationTrait;\n\npub fn migrations() -> Vec<Box<dyn MigrationTrait>> {\n    vec![\n            Box::new(m20240101_000000_create_users_table::Migration),\n        ]\n}\n";

#[test]
fn migration_name_wraps_timestamp() {
    assert_eq!(
        migration_name("20240131_235959"),
        "m20240131_235959_create_activity_log_table"
    );
    assert_eq!(migration_name(""), "m_create_activity_log_table");
}

#[test]
fn migration_path_is_under_migrations_dir() {
    assert_eq!(
        migration_path("m20240131_235959_create_activity_log_table"),
        "database/migrations/m20240131_235959_create_activity_log_table.rs"
    );
}

#[test]
fn migration_source_names_the_migration() {
    let source = migration_source("m1_create_activity_log_table");
    assert!(source.starts_with("use rustbasic_core::{Schema, SchemaManager, MigrationTrait, DbErr};\n"));
    assert!(source.contains("    fn name(&self) -> &str {\n        \"m1_create_activity_log_table\"\n    }\n"));
    assert!(source.contains("Schema::create(manager, \"activity_log\", |table| {"));
    assert!(source.contains("table.text(\"properties\").nullable();"));
    assert!(source.contains("Schema::drop(manager, \"activity_log\").await"));
    assert_eq!(
        source,
        format!("{}m1_create_activity_log_table{}", MIGRATION_TEMPLATE_HEAD, MIGRATION_TEMPLATE_TAIL)
    );
    assert!(source.ends_with("}\n"));
}

#[test]
fn model_template_declares_activity_log_columns() {
    assert_eq!(MODEL_FILE, "src/app/models/activity_log.rs");
    assert_eq!(MODEL_MODULE, "activity_log");
    assert!(MODEL_TEMPLATE.contains("table: \"activity_log\","));
    for column in [
        "pub id: i32,",
        "pub log_name: Option<String>,",
        "pub description: String,",
        "pub subject_type: Option<String>,",
        "pub subject_id: Option<i32>,",
        "pub causer_type: Option<String>,",
        "pub causer_id: Option<i32>,",
        "pub properties: Option<String>,",
    ] {
        assert!(MODEL_TEMPLATE.contains(column), "{}", column);
    }
}

#[test]
fn new_migration_name_has_the_shape_of_a_migration_name() {
    assert_compact_timestamp(&new_migration_name()[1..16]);
    let name = new_migration_name();
    assert!(name.starts_with('m'));
    assert!(name.ends_with("_create_activity_log_table"));
    let timestamp = &name[1..name.len() - "_create_activity_log_table".len()];
    assert_eq!(timestamp.len(), 15);
    assert_eq!(&timestamp[8..9], "_");
    assert!(timestamp.chars().enumerate().all(|(i, c)| i == 8 || c.is_ascii_digit()));
}

#[test]
fn register_into_empty_file_declares_module() {
    assert_eq!(register_migration("", "m1"), "pub mod m1;\n");
}

#[test]
fn register_adds_line_break_before_declaration() {
    assert_eq!(register_migration("pub mod a;", "m1"), "pub mod a;\npub mod m1;\n");
    assert_eq!(register_migration("pub mod a;\n", "m1"), "pub mod a;\npub mod m1;\n");
}

#[test]
fn register_inserts_entry_before_list_end() {
    let updated = register_migration(MOD_RS, "m2");
    let expected = "pub mod m20240101_000000_create_users_table;\n\nuse rustbasic_core::MigrationTrait;\n\npub fn migrations() -> Vec<Box<dyn MigrationTrait>> {\n    vec![\n            Box::new(m20240101_000000_create_users_table::Migration),\n            Box::new(m2::Migration),\n        ]\n}\npub mod m2;\n";
    assert_eq!(updated, expected);
}

#[test]
fn register_twice_declares_once() {
    let once = register_migration(MOD_RS, "m2");
    let twice = register_migration(&once, "m2");
    assert_eq!(twice.matches("pub mod m2;").count(), 1);
    assert_eq!(twice.matches("Box::new(m2::Migration)").count(), 2);
}

#[test]
fn register_without_list_only_declares() {
    let content = "pub mod m2;\n// no list here\n";
    assert_eq!(register_migration(content, "m2"), content);
    assert_eq!(
        register_migration("fn migrations() -> Vec<Box<dyn MigrationTrait>> {\n    vec![]\n}\n", "m3"),
        "fn migrations() -> Vec<Box<dyn MigrationTrait>> {\n    vec![]\n}\npub mod m3;\n"
    );
}

#[test]
fn register_ignores_list_end_before_header() {
    let content = "        ]\nfn migrations() -> Vec<Box<dyn MigrationTrait>> {\n    vec![\n        ]\n}\n";
    let updated = register_migration(content, "m4");
    assert_eq!(
        updated,
        "        ]\nfn migrations() -> Vec<Box<dyn MigrationTrait>> {\n    vec![\n            Box::new(m4::Migration),\n        ]\n}\npub mod m4;\n"
    );
    assert_eq!(MIGRATIONS_LIST_END, "        ]");
}

#[test]
fn register_keeps_non_ascii_text() {
    let content = "// migrasi ✓\nfn migrations() -> Vec<Box<dyn MigrationTrait>> {\n    vec![\n        ]\n}";
    let updated = register_migration(content, "m5");
    assert_eq!(
        updated,
        "// migrasi ✓\nfn migrations() -> Vec<Box<dyn MigrationTrait>> {\n    vec![\n            Box::new(m5::Migration),\n        ]\n}\npub mod m5;\n"
    );
}

#[test]
fn model_registration_appends_module_and_export() {
    assert_eq!(
        model_registration("pub mod user;\n", "activity_log"),
        Some("pub mod activity_log;\npub use activity_log::Model as ActivityLog;\n".to_string())
    );
}

#[test]
fn model_registration_skips_declared_module() {
    assert_eq!(model_registration("pub mod user;\npub mod activity_log;\n", "activity_log"), None);
}

#[test]
fn model_registration_is_done_once() {
    let content = "pub mod user;\n".to_string();
    let addition = model_registration(&content, "activity_log").unwrap();
    let after = content + &addition;
    assert_eq!(model_registration(&after, "activity_log"), None);
}

use rustbasic_activitylog::scaffold::{
    has_activity_log_migration, model_registration_at_build, new_migration_file,
    plan_build_scaffolding, plan_scaffolding, register_migration_at_build,
    scaffolding_applies_at_build, BUILD_MODEL_TEMPLATE,
};

fn assert_compact_timestamp(timestamp: &str) {
    assert_eq!(timestamp.len(), 15);
    assert_eq!(&timestamp[8..9], "_");
    assert!(timestamp.chars().enumerate().all(|(i, c)| i == 8 || c.is_ascii_digit()));
    let month: u32 = timestamp[4..6].parse().unwrap();
    let day: u32 = timestamp[6..8].parse().unwrap();
    let hour: u32 = timestamp[9..11].parse().unwrap();
    let minute: u32 = timestamp[11..13].parse().unwrap();
    let second: u32 = timestamp[13..15].parse().unwrap();
    assert!((1..=12).contains(&month) && (1..=31).contains(&day));
    assert!(hour < 24 && minute < 60 && second < 60);
}

#[test]
fn new_migration_file_is_named_pathed_and_written_alike() {
    let file = new_migration_file();
    assert!(file.name.starts_with('m') && file.name.ends_with("_create_activity_log_table"));
    assert_compact_timestamp(&file.name[1..16]);
    assert_eq!(file.path, migration_path(&file.name));
    assert_eq!(file.source, migration_source(&file.name));
}

#[test]
fn plan_needs_a_project() {
    assert!(plan_scaffolding(false, false).is_none());
    assert!(plan_scaffolding(false, true).is_none());
}

#[test]
fn plan_writes_model_only_when_absent() {
    let plan = plan_scaffolding(true, false).unwrap();
    assert!(plan.create_model);
    assert_eq!(plan.migration.path, migration_path(&plan.migration.name));
    let plan = plan_scaffolding(true, true).unwrap();
    assert!(!plan.create_model);
}

#[test]
fn build_scaffolding_applies_only_in_other_projects() {
    assert!(scaffolding_applies_at_build(false, true, false));
    assert!(!scaffolding_applies_at_build(true, true, false));
    assert!(!scaffolding_applies_at_build(false, false, false));
    assert!(!scaffolding_applies_at_build(false, true, true));
}

#[test]
fn existing_activity_log_migration_is_recognised() {
    let names = vec!["mod.rs".to_string(), "m2024_create_users_table.rs".to_string()];
    assert!(!has_activity_log_migration(&names));
    let mut with_log = names.clone();
    with_log.push("m20240101_000000_create_activity_log_table.rs".to_string());
    assert!(has_activity_log_migration(&with_log));
    assert!(!has_activity_log_migration(&Vec::new()));
}

#[test]
fn build_plan_skips_existing_migration_and_model() {
    let existing = vec!["m1_create_activity_log_table.rs".to_string()];
    let plan = plan_build_scaffolding(&existing, true);
    assert!(plan.migration.is_none());
    assert!(!plan.create_model);
    let plan = plan_build_scaffolding(&vec!["mod.rs".to_string()], false);
    let migration = plan.migration.unwrap();
    assert_eq!(migration.path, migration_path(&migration.name));
    assert!(plan.create_model);
}

#[test]
fn build_registration_always_breaks_the_line_first() {
    assert_eq!(register_migration_at_build("", "m1"), "\npub mod m1;\n");
    assert_eq!(register_migration_at_build("pub mod a;\n", "m1"), "pub mod a;\n\npub mod m1;\n");
    let updated = register_migration_at_build(MOD_RS, "m2");
    assert!(updated.ends_with("}\n\npub mod m2;\n"));
    assert!(updated.contains("            Box::new(m2::Migration),\n        ]"));
    let twice = register_migration_at_build(&updated, "m2");
    assert_eq!(twice.matches("pub mod m2;").count(), 1);
}

#[test]
fn build_model_registration_declares_module_only() {
    assert_eq!(
        model_registration_at_build("pub mod user;\n", "activity_log"),
        Some("pub mod activity_log;\n".to_string())
    );
    assert_eq!(model_registration_at_build("pub mod activity_log;\n", "activity_log"), None);
    assert!(BUILD_MODEL_TEMPLATE.contains("    ActivityLog {\n"));
}
