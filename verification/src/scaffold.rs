//! The edits that install the activity-log table into a RustBasic project:
//! the migration's name, path and source, the model's source, and the
//! registration of both in the project's `mod.rs` files.

use vstd::prelude::*;

use crate::clock::is_compact_timestamp;
use crate::text::{chars_of, contains, contains_chars, find_chars, find_from, occurs_at};

verus! {

/// Directory that holds the project's migrations.
pub const MIGRATIONS_DIR: &'static str = "database/migrations";

/// The `mod.rs` that lists the project's migrations.
pub const MIGRATIONS_MOD_FILE: &'static str = "database/migrations/mod.rs";

/// Directory that holds the project's models.
pub const MODELS_DIR: &'static str = "src/app/models";

/// The `mod.rs` that lists the project's models.
pub const MODELS_MOD_FILE: &'static str = "src/app/models/mod.rs";

/// Module name of the activity-log model.
pub const MODEL_MODULE: &'static str = "activity_log";

/// Path of the activity-log model's source file.
pub const MODEL_FILE: &'static str = "src/app/models/activity_log.rs";

/// Source of the activity-log model.
pub const MODEL_TEMPLATE: &'static str = "use rustbasic_core::model;\n\nmodel! {\n    table: \"activity_log\",\n    Model {\n        pub id: i32,\n        pub log_name: Option<String>,\n        pub description: String,\n        pub subject_type: Option<String>,\n        pub subject_id: Option<i32>,\n        pub causer_type: Option<String>,\n        pub causer_id: Option<i32>,\n        pub properties: Option<String>, // JSON string\n    }\n}\n";

/// Source of the activity-log model that a build of the project writes.
pub const BUILD_MODEL_TEMPLATE: &'static str = "use rustbasic_core::model;\n\nmodel! {\n    table: \"activity_log\",\n    ActivityLog {\n        pub id: i32,\n        pub log_name: Option<String>,\n        pub description: String,\n        pub subject_type: Option<String>,\n        pub subject_id: Option<i32>,\n        pub causer_type: Option<String>,\n        pub causer_id: Option<i32>,\n        pub properties: Option<String>, // JSON string\n    }\n}\n";

/// The part of a file name that marks an activity-log migration.
pub const ACTIVITY_LOG_MIGRATION_MARK: &'static str = "create_activity_log_table";

/// The header of the function that lists the migrations in `mod.rs`.
pub const MIGRATIONS_FN_HEADER: &'static str = "fn migrations() -> Vec<Box<dyn MigrationTrait>> {";

/// The line that closes the list of migrations in `mod.rs`.
pub const MIGRATIONS_LIST_END: &'static str = "        ]";

/// Text of the migration source before the migration's name.
pub const MIGRATION_TEMPLATE_HEAD: &'static str = "use rustbasic_core::{Schema, SchemaManager, MigrationTrait, DbErr};\nuse rustbasic_core::async_trait;\n\npub struct Migration;\n\n#[async_trait]\nimpl MigrationTrait for Migration {\n    fn name(&self) -> &str {\n        \"";

/// Text of the migration source after the migration's name.
pub const MIGRATION_TEMPLATE_TAIL: &'static str = "\"\n    }\n\n    async fn up<'a>(&self, manager: &'a SchemaManager<'a>) -> Result<(), DbErr> {\n        Schema::create(manager, \"activity_log\", |table| {\n            table.id();\n            table.string(\"log_name\").nullable();\n            table.text(\"description\").not_null();\n            table.string(\"subject_type\").nullable();\n            table.integer(\"subject_id\").nullable();\n            table.string(\"causer_type\").nullable();\n            table.integer(\"causer_id\").nullable();\n            table.text(\"properties\").nullable(); // JSON disimpan sebagai TEXT\n            table.timestamps();\n        }).await\n    }\n\n    async fn down<'a>(&self, manager: &'a SchemaManager<'a>) -> Result<(), DbErr> {\n        Schema::drop(manager, \"activity_log\").await\n    }\n}\n";

/// The name of the migration made at `timestamp`.
pub open spec fn spec_migration_name(timestamp: Seq<char>) -> Seq<char> {
    "m"@ + timestamp + "_create_activity_log_table"@
}

/// The path of the migration file named `name`.
pub open spec fn spec_migration_path(name: Seq<char>) -> Seq<char> {
    "database/migrations/"@ + name + ".rs"@
}

/// The source of the migration named `name`.
pub open spec fn spec_migration_source(name: Seq<char>) -> Seq<char> {
    MIGRATION_TEMPLATE_HEAD@ + name + MIGRATION_TEMPLATE_TAIL@
}

/// The line that declares module `name`.
pub open spec fn module_decl(name: Seq<char>) -> Seq<char> {
    "pub mod "@ + name + ";"@
}

/// The line break put before an appended line: one when `content` does not
/// already end a line.
pub open spec fn line_break_before(content: Seq<char>) -> Seq<char> {
    if content.len() > 0 && content.last() != '\n' {
        "\n"@
    } else {
        Seq::empty()
    }
}

/// `content` with the declaration of module `name` appended on a line of its
/// own, unless `content` already holds that declaration.
pub open spec fn with_module_decl(content: Seq<char>, name: Seq<char>) -> Seq<char> {
    if contains(content, module_decl(name)) {
        content
    } else {
        content + line_break_before(content) + module_decl(name) + "\n"@
    }
}

/// The entry that registers migration `name` in the list of migrations.
pub open spec fn migration_entry(name: Seq<char>) -> Seq<char> {
    "            Box::new("@ + name + "::Migration),\n"@
}

/// Where the entry for a new migration goes in `content`: the first closing
/// line of a list after the first header of the migrations function.
pub open spec fn entry_position(content: Seq<char>) -> Option<int> {
    match find_from(content, MIGRATIONS_FN_HEADER@, 0) {
        Some(pos) => find_from(content, MIGRATIONS_LIST_END@, pos),
        None => None,
    }
}

/// The migrations `mod.rs` text `content` after migration `name` is
/// registered: its module declared, and its entry put before the end of the
/// list of migrations where that list is found.
pub open spec fn registered_migration(content: Seq<char>, name: Seq<char>) -> Seq<char> {
    with_migration_entry(with_module_decl(content, name), name)
}

/// `declared` with the entry of migration `name` put before the end of the
/// list of migrations, where that list is found.
pub open spec fn with_migration_entry(declared: Seq<char>, name: Seq<char>) -> Seq<char> {
    match entry_position(declared) {
        Some(at) => declared.take(at) + migration_entry(name) + declared.skip(at),
        None => declared,
    }
}

/// `content` with the declaration of module `name` appended after a line
/// break, unless `content` already holds that declaration: the way a build
/// of the project declares the migration.
pub open spec fn with_module_decl_at_build(content: Seq<char>, name: Seq<char>) -> Seq<char> {
    if contains(content, module_decl(name)) {
        content
    } else {
        content + "\n"@ + module_decl(name) + "\n"@
    }
}

/// The migrations `mod.rs` text `content` after a build of the project
/// registers migration `name`.
pub open spec fn registered_migration_at_build(content: Seq<char>, name: Seq<char>) -> Seq<char> {
    with_migration_entry(with_module_decl_at_build(content, name), name)
}

/// The text a build of the project appends to the models `mod.rs` text
/// `content` to register model module `name`: only its declaration, and
/// nothing when it is declared already.
pub open spec fn model_addition_at_build(content: Seq<char>, name: Seq<char>) -> Option<Seq<char>> {
    if contains(content, module_decl(name)) {
        None
    } else {
        Some(module_decl(name) + "\n"@)
    }
}

/// `name` contains the mark of an activity-log migration.
pub open spec fn is_activity_log_migration(name: Seq<char>) -> bool {
    contains(name, ACTIVITY_LOG_MIGRATION_MARK@)
}

/// The line that re-exports the model of module `name` as `ActivityLog`.
pub open spec fn model_export(name: Seq<char>) -> Seq<char> {
    "pub use "@ + name + "::Model as ActivityLog;"@
}

/// The text to append to the models `mod.rs` text `content` to register
/// model module `name`: nothing when the module is already declared.
pub open spec fn model_addition(content: Seq<char>, name: Seq<char>) -> Option<Seq<char>> {
    if contains(content, module_decl(name)) {
        None
    } else {
        Some(module_decl(name) + "\n"@ + model_export(name) + "\n"@)
    }
}

/// The name of the migration made at `timestamp`:
/// `m{timestamp}_create_activity_log_table`.
pub fn migration_name(timestamp: &str) -> (name: String)
    ensures
        name@ == spec_migration_name(timestamp@),
{
    let mut name = String::from_str("m");
    name.append(timestamp);
    name.append("_create_activity_log_table");
    name
}

/// The format of the timestamp in a migration's name: local date and time
/// as `YYYYMMDD_HHMMSS`.
pub const MIGRATION_TIMESTAMP_FORMAT: &'static str = "%Y%m%d_%H%M%S";

/// The name of a migration made now: `migration_name` of the local clock's
/// current date and time in `MIGRATION_TIMESTAMP_FORMAT`, that is, year,
/// month and day, `_`, hour, minute and second, each zero-padded.
pub fn new_migration_name() -> (name: String)
    ensures
        exists|timestamp: Seq<char>|
            is_compact_timestamp(timestamp) && name@ == #[trigger] spec_migration_name(timestamp),
{
    let timestamp = crate::clock::local_datetime_formatted(MIGRATION_TIMESTAMP_FORMAT);
    migration_name(timestamp.as_str())
}

/// The path of the migration file named `name`.
pub fn migration_path(name: &str) -> (path: String)
    ensures
        path@ == spec_migration_path(name@),
{
    let mut path = String::from_str("database/migrations/");
    path.append(name);
    path.append(".rs");
    path
}

/// The source of the migration named `name`, which creates the
/// `activity_log` table and drops it again.
pub fn migration_source(name: &str) -> (source: String)
    ensures
        source@ == spec_migration_source(name@),
{
    let mut source = String::from_str(MIGRATION_TEMPLATE_HEAD);
    source.append(name);
    source.append(MIGRATION_TEMPLATE_TAIL);
    source
}

/// The line that declares module `name`.
fn module_decl_line(name: &str) -> (line: String)
    ensures
        line@ == module_decl(name@),
{
    let mut line = String::from_str("pub mod ");
    line.append(name);
    line.append(";");
    line
}

/// The migrations `mod.rs` text `content` after the migration module
/// `mod_name` is registered in it.
pub fn register_migration(content: &str, mod_name: &str) -> (updated: String)
    ensures
        updated@ == registered_migration(content@, mod_name@),
{
    let decl = module_decl_line(mod_name);
    let existing = chars_of(content);
    let decl_chars = chars_of(decl.as_str());
    let mut declared = String::from_str(content);
    if !contains_chars(&existing, &decl_chars) {
        let n = existing.len();
        if n > 0 && existing[n - 1] != '\n' {
            declared.append("\n");
        }
        declared.append(decl.as_str());
        declared.append("\n");
    }
    assert(declared@ == with_module_decl(content@, mod_name@));
    insert_migration_entry(declared, mod_name)
}

/// `declared` with the entry of migration `mod_name` put before the end of
/// the list of migrations, where that list is found.
fn insert_migration_entry(declared: String, mod_name: &str) -> (updated: String)
    ensures
        updated@ == with_migration_entry(declared@, mod_name@),
{
    let chars = chars_of(declared.as_str());
    let header = chars_of(MIGRATIONS_FN_HEADER);
    let list_end = chars_of(MIGRATIONS_LIST_END);
    match find_chars(&chars, &header, 0) {
        Some(pos) => match find_chars(&chars, &list_end, pos) {
            Some(at) => {
                proof {
                    crate::text::lemma_find_from_is_first(chars@, list_end@, pos as int);
                }
                let whole = declared.as_str();
                let len = whole.unicode_len();
                let mut updated = String::from_str(whole.substring_char(0, at));
                updated.append("            Box::new(");
                updated.append(mod_name);
                updated.append("::Migration),\n");
                updated.append(whole.substring_char(at, len));
                assert(declared@.subrange(0, at as int) == declared@.take(at as int));
                assert(declared@.subrange(at as int, declared@.len() as int) == declared@.skip(at as int));
                updated
            },
            None => declared,
        },
        None => declared,
    }
}

/// The migrations `mod.rs` text `content` after a build of the project
/// registers the migration module `mod_name`: as `register_migration`, but
/// the declaration always goes after a line break.
pub fn register_migration_at_build(content: &str, mod_name: &str) -> (updated: String)
    ensures
        updated@ == registered_migration_at_build(content@, mod_name@),
{
    let decl = module_decl_line(mod_name);
    let mut declared = String::from_str(content);
    if !contains_chars(&chars_of(content), &chars_of(decl.as_str())) {
        declared.append("\n");
        declared.append(decl.as_str());
        declared.append("\n");
    }
    assert(declared@ == with_module_decl_at_build(content@, mod_name@));
    insert_migration_entry(declared, mod_name)
}

/// The text a build of the project appends to the models `mod.rs` text
/// `content` to register the model module `snake_name`, or `None` when it is
/// declared already.
pub fn model_registration_at_build(content: &str, snake_name: &str) -> (addition: Option<String>)
    ensures
        addition.deep_view() == model_addition_at_build(content@, snake_name@),
{
    let decl = module_decl_line(snake_name);
    if contains_chars(&chars_of(content), &chars_of(decl.as_str())) {
        return None;
    }
    let mut addition = decl;
    addition.append("\n");
    Some(addition)
}

/// Whether one of the file names `file_names` is that of an activity-log
/// migration.
pub fn has_activity_log_migration(file_names: &Vec<String>) -> (found: bool)
    ensures
        found == exists|i: int| 0 <= i < file_names@.len()
            && is_activity_log_migration(#[trigger] file_names@[i]@),
{
    let mark = chars_of(ACTIVITY_LOG_MIGRATION_MARK);
    let mut i: usize = 0;
    while i < file_names.len()
        invariant
            i <= file_names@.len(),
            mark@ == ACTIVITY_LOG_MIGRATION_MARK@,
            forall|j: int| 0 <= j < i ==> !is_activity_log_migration(#[trigger] file_names@[j]@),
        decreases file_names@.len() - i,
    {
        if contains_chars(&chars_of(file_names[i].as_str()), &mark) {
            return true;
        }
        i = i + 1;
    }
    false
}

/// A migration file to write: its name, path and source.
pub struct MigrationFile {
    pub name: String,
    pub path: String,
    pub source: String,
}

/// `file` is the migration made at some valid local date and time.
pub open spec fn is_new_migration(file: MigrationFile) -> bool {
    &&& exists|timestamp: Seq<char>|
        is_compact_timestamp(timestamp) && file.name@ == #[trigger] spec_migration_name(timestamp)
    &&& file.path@ == spec_migration_path(file.name@)
    &&& file.source@ == spec_migration_source(file.name@)
}

/// The migration file for a migration made now.
pub fn new_migration_file() -> (file: MigrationFile)
    ensures
        is_new_migration(file),
{
    let name = new_migration_name();
    let path = migration_path(name.as_str());
    let source = migration_source(name.as_str());
    MigrationFile { name, path, source }
}

/// What the `install` command writes: a new migration, and the model when
/// the project has none yet.
pub struct ScaffoldPlan {
    pub migration: MigrationFile,
    pub create_model: bool,
}

/// What the `install` command writes into a project: nothing when no
/// project is found (no `Cargo.toml`); otherwise a new migration, and the
/// model unless its file exists.
pub fn plan_scaffolding(project_found: bool, model_exists: bool) -> (plan: Option<ScaffoldPlan>)
    ensures
        plan is Some <==> project_found,
        plan matches Some(p) ==> is_new_migration(p.migration) && p.create_model == !model_exists,
{
    if !project_found {
        return None;
    }
    Some(ScaffoldPlan { migration: new_migration_file(), create_model: !model_exists })
}

/// Whether a build of a project scaffolds the activity log: not for a
/// documentation build, only in a project (with a `Cargo.toml`), and not in
/// the package of this library itself.
pub fn scaffolding_applies_at_build(docs_build: bool, project_found: bool, is_this_package: bool) -> (applies: bool)
    ensures
        applies == (!docs_build && project_found && !is_this_package),
{
    !docs_build && project_found && !is_this_package
}

/// What a build of a project writes: a new migration unless one of the
/// migration files is an activity-log migration already, and the model
/// unless its file exists.
pub struct BuildScaffoldPlan {
    pub migration: Option<MigrationFile>,
    pub create_model: bool,
}

/// What a build of a project writes, given the names of its migration files
/// and whether its model file exists.
pub fn plan_build_scaffolding(migration_files: &Vec<String>, model_exists: bool) -> (plan: BuildScaffoldPlan)
    ensures
        plan.migration is None <==> exists|i: int| 0 <= i < migration_files@.len()
            && is_activity_log_migration(#[trigger] migration_files@[i]@),
        plan.migration matches Some(file) ==> is_new_migration(file),
        plan.create_model == !model_exists,
{
    let migration = if has_activity_log_migration(migration_files) {
        None
    } else {
        Some(new_migration_file())
    };
    BuildScaffoldPlan { migration, create_model: !model_exists }
}

/// The text to append to the models `mod.rs` text `content` to register
/// the model module `snake_name`, or `None` when it is declared already.
pub fn model_registration(content: &str, snake_name: &str) -> (addition: Option<String>)
    ensures
        addition.deep_view() == model_addition(content@, snake_name@),
{
    let decl = module_decl_line(snake_name);
    if contains_chars(&chars_of(content), &chars_of(decl.as_str())) {
        return None;
    }
    let mut addition = decl;
    addition.append("\n");
    addition.append("pub use ");
    addition.append(snake_name);
    addition.append("::Model as ActivityLog;");
    addition.append("\n");
    Some(addition)
}

/// The existing text is kept: `with_module_decl` only ever appends.
pub proof fn lemma_declaring_keeps_content(content: Seq<char>, name: Seq<char>)
    ensures
        with_module_decl(content, name).len() >= content.len(),
        with_module_decl(content, name).take(content.len() as int) == content,
{
    let declared = with_module_decl(content, name);
    assert(declared.take(content.len() as int) =~= content);
}

/// After `with_module_decl`, the text declares the module.
pub proof fn lemma_declaring_declares(content: Seq<char>, name: Seq<char>)
    ensures
        contains(with_module_decl(content, name), module_decl(name)),
{
    let decl = module_decl(name);
    if !contains(content, decl) {
        let declared = with_module_decl(content, name);
        let i: int = (content.len() + line_break_before(content).len()) as int;
        assert(declared.subrange(i, i + decl.len()) =~= decl);
        assert(occurs_at(declared, decl, i));
    }
}

/// Where an entry position is found, the closing line of the list stands there.
pub proof fn lemma_entry_position_is_list_end(content: Seq<char>)
    ensures
        entry_position(content) matches Some(at) ==> occurs_at(content, MIGRATIONS_LIST_END@, at),
{
    crate::text::lemma_find_from_is_first(content, MIGRATIONS_FN_HEADER@, 0);
    if let Some(pos) = find_from(content, MIGRATIONS_FN_HEADER@, 0) {
        crate::text::lemma_find_from_is_first(content, MIGRATIONS_LIST_END@, pos);
    }
}

/// Registering a migration inserts exactly its entry, right before the line
/// that closes the list of migrations, into the text with the module
/// declared; without such a list the declared text is all that changes.
pub proof fn lemma_registration_inserts_entry(content: Seq<char>, name: Seq<char>)
    ensures
        ({
            let declared = with_module_decl(content, name);
            let updated = registered_migration(content, name);
            let entry = migration_entry(name);
            match entry_position(declared) {
                Some(at) => {
                    &&& occurs_at(updated, entry, at)
                    &&& occurs_at(updated, MIGRATIONS_LIST_END@, at + entry.len())
                    &&& updated.take(at) + updated.skip(at + entry.len()) == declared
                },
                None => updated == declared,
            }
        }),
{
    let declared = with_module_decl(content, name);
    let updated = registered_migration(content, name);
    let entry = migration_entry(name);
    lemma_entry_position_is_list_end(declared);
    if let Some(at) = entry_position(declared) {
        let l = MIGRATIONS_LIST_END@.len();
        assert(updated.subrange(at, at + entry.len()) =~= entry);
        assert(updated.subrange(at + entry.len(), at + entry.len() + l)
            =~= declared.subrange(at, at + l));
        assert(updated.take(at) + updated.skip(at + entry.len()) =~= declared);
    }
}

/// A declaration and the closing line of a list cannot overlap when the
/// module name holds no space: the closing line starts with two spaces,
/// which no position inside the declaration is followed by.
proof fn lemma_declaration_not_across_list_end(s: Seq<char>, name: Seq<char>, i: int, at: int)
    requires
        forall|k: int| 0 <= k < name.len() ==> name[k] != ' ',
        occurs_at(s, module_decl(name), i),
        occurs_at(s, MIGRATIONS_LIST_END@, at),
    ensures
        !(i < at < i + module_decl(name).len()),
{
    reveal_strlit("pub mod ");
    reveal_strlit(";");
    reveal_strlit("        ]");
    let decl = module_decl(name);
    let end = MIGRATIONS_LIST_END@;
    if i < at < i + decl.len() {
        let k = at - i;
        assert(s[at] == end[0]);
        assert(s[at + 1] == end[1]);
        assert(s[at] == decl[k]);
        if k < 8 {
            assert(decl[k] == "pub mod "@[k]);
            assert(k == 3 || k == 7);
            assert(s[at + 1] == decl[k + 1]);
            if k == 3 {
                assert(decl[4] == 'm');
            } else if name.len() > 0 {
                assert(decl[8] == name[0]);
            } else {
                assert(decl[8] == ';');
            }
        } else if k < 8 + name.len() {
            assert(decl[k] == name[k - 8]);
        } else {
            assert(decl[k] == ';');
        }
    }
}

/// Putting a migration's entry into a text that declares its module keeps
/// the declaration, when the module name holds no space.
proof fn lemma_entry_keeps_declaration(declared: Seq<char>, name: Seq<char>)
    requires
        forall|k: int| 0 <= k < name.len() ==> name[k] != ' ',
        contains(declared, module_decl(name)),
    ensures
        contains(with_migration_entry(declared, name), module_decl(name)),
{
    let updated = with_migration_entry(declared, name);
    let decl = module_decl(name);
    let entry = migration_entry(name);
    let i = choose|i: int| occurs_at(declared, decl, i);
    lemma_entry_position_is_list_end(declared);
    if let Some(at) = entry_position(declared) {
        lemma_declaration_not_across_list_end(declared, name, i, at);
        if i + decl.len() <= at {
            assert(updated.subrange(i, i + decl.len()) =~= declared.subrange(i, i + decl.len()));
            assert(occurs_at(updated, decl, i));
        } else {
            let j = i + entry.len();
            assert(updated.subrange(j, j + decl.len()) =~= declared.subrange(i, i + decl.len()));
            assert(occurs_at(updated, decl, j));
        }
    } else {
        assert(occurs_at(updated, decl, i));
    }
}

/// Registering a migration leaves its module declared, so a second
/// registration of the same migration appends no second declaration. This
/// holds for every module name without a space in it (module names are
/// identifiers).
pub proof fn lemma_registration_declares_module(content: Seq<char>, name: Seq<char>)
    requires
        forall|k: int| 0 <= k < name.len() ==> name[k] != ' ',
    ensures
        contains(registered_migration(content, name), module_decl(name)),
        with_module_decl(registered_migration(content, name), name)
            == registered_migration(content, name),
{
    lemma_declaring_declares(content, name);
    lemma_entry_keeps_declaration(with_module_decl(content, name), name);
}

/// The same for a build of the project: the existing text is kept as it
/// was, the module is declared afterwards, and a second registration
/// appends no second declaration (for module names without a space).
pub proof fn lemma_build_registration_declares_module(content: Seq<char>, name: Seq<char>)
    requires
        forall|k: int| 0 <= k < name.len() ==> name[k] != ' ',
    ensures
        with_module_decl_at_build(content, name).take(content.len() as int) == content,
        contains(registered_migration_at_build(content, name), module_decl(name)),
        with_module_decl_at_build(registered_migration_at_build(content, name), name)
            == registered_migration_at_build(content, name),
{
    let decl = module_decl(name);
    let declared = with_module_decl_at_build(content, name);
    assert(declared.take(content.len() as int) =~= content);
    if !contains(content, decl) {
        reveal_strlit("\n");
        let i: int = (content.len() + 1) as int;
        assert(declared.subrange(i, i + decl.len()) =~= decl);
        assert(occurs_at(declared, decl, i));
    }
    lemma_entry_keeps_declaration(declared, name);
}

/// A build registers a model once: after its addition is appended, a
/// second registration adds nothing.
pub proof fn lemma_build_model_registration_once(content: Seq<char>, name: Seq<char>)
    ensures
        model_addition_at_build(content, name) is None <==> contains(content, module_decl(name)),
        model_addition_at_build(content, name) matches Some(addition)
            ==> model_addition_at_build(content + addition, name) is None,
{
    if let Some(addition) = model_addition_at_build(content, name) {
        let decl = module_decl(name);
        let whole = content + addition;
        assert(whole.subrange(content.len() as int, (content.len() + decl.len()) as int) =~= decl);
        assert(occurs_at(whole, decl, content.len() as int));
    }
}

/// Registering a model a second time, after its addition was appended,
/// adds nothing; and nothing is added only where the module is declared.
pub proof fn lemma_model_registration_once(content: Seq<char>, name: Seq<char>)
    ensures
        model_addition(content, name) is None <==> contains(content, module_decl(name)),
        model_addition(content, name) matches Some(addition)
            ==> model_addition(content + addition, name) is None,
{
    if let Some(addition) = model_addition(content, name) {
        let decl = module_decl(name);
        let whole = content + addition;
        assert(whole.subrange(content.len() as int, (content.len() + decl.len()) as int) =~= decl);
        assert(occurs_at(whole, decl, content.len() as int));
    }
}

/// Where the entry goes, said by occurrences: at the first closing line
/// `        ]` at or after the first header of the migrations function; and
/// nowhere when there is no header, or no closing line after it.
pub proof fn lemma_entry_position_is_first_list_end_after_header(content: Seq<char>)
    ensures
        entry_position(content) matches Some(at) ==> exists|pos: int| {
            &&& 0 <= pos <= at
            &&& occurs_at(content, "fn migrations() -> Vec<Box<dyn MigrationTrait>> {"@, pos)
            &&& (forall|j: int| 0 <= j < pos
                ==> !occurs_at(content, "fn migrations() -> Vec<Box<dyn MigrationTrait>> {"@, j))
            &&& occurs_at(content, "        ]"@, at)
            &&& forall|j: int| pos <= j < at ==> !occurs_at(content, "        ]"@, j)
        },
        entry_position(content) is None ==> {
            ||| forall|j: int| 0 <= j ==> !occurs_at(content, "fn migrations() -> Vec<Box<dyn MigrationTrait>> {"@, j)
            ||| exists|pos: int| {
                &&& occurs_at(content, "fn migrations() -> Vec<Box<dyn MigrationTrait>> {"@, pos)
                &&& forall|j: int| pos <= j ==> !occurs_at(content, "        ]"@, j)
            }
        },
{
    let header = MIGRATIONS_FN_HEADER@;
    let end = MIGRATIONS_LIST_END@;
    crate::text::lemma_find_from_is_first(content, header, 0);
    if let Some(pos) = find_from(content, header, 0) {
        crate::text::lemma_find_from_is_first(content, end, pos);
    }
}

/// Putting migration `name`'s entry into `declared`: at the entry position
/// the text gains exactly the line `            Box::new({name}::Migration),`
/// and its line break, with the whole module name in it, before the
/// closing line of the list; everything else stays as it was, in order.
/// Without an entry position nothing changes.
pub proof fn lemma_entry_names_whole_module(declared: Seq<char>, name: Seq<char>)
    ensures
        entry_position(declared) matches Some(at) ==> {
            let updated = with_migration_entry(declared, name);
            let line = "            Box::new("@ + name + "::Migration),\n"@;
            &&& updated == declared.take(at) + line + declared.skip(at)
            &&& updated.len() == declared.len() + name.len() + 35
            &&& updated.subrange(at, at + 21) == "            Box::new("@
            &&& updated.subrange(at + 21, at + 21 + name.len()) == name
            &&& updated.subrange(at + 21 + name.len(), at + 35 + name.len()) == "::Migration),\n"@
            &&& updated.subrange(at + 35 + name.len(), at + 44 + name.len()) == "        ]"@
        },
        entry_position(declared) is None ==> with_migration_entry(declared, name) == declared,
{
    reveal_strlit("            Box::new(");
    reveal_strlit("::Migration),\n");
    reveal_strlit("        ]");
    lemma_entry_position_is_list_end(declared);
    if let Some(at) = entry_position(declared) {
        let updated = with_migration_entry(declared, name);
        let line = "            Box::new("@ + name + "::Migration),\n"@;
        assert(migration_entry(name) == line);
        assert(updated.subrange(at, at + 21) =~= "            Box::new("@);
        assert(updated.subrange(at + 21, at + 21 + name.len()) =~= name);
        assert(updated.subrange(at + 21 + name.len(), at + 35 + name.len()) =~= "::Migration),\n"@);
        assert(updated.subrange(at + 35 + name.len(), at + 44 + name.len())
            =~= declared.subrange(at, at + 9));
    }
}

/// Declaring module `name` in the migrations `mod.rs` text: nothing changes
/// when `pub mod {name};` stands there already; otherwise the line
/// `pub mod {name};` is appended, after a line break when the text does not
/// end one.
pub proof fn lemma_declaration_line(content: Seq<char>, name: Seq<char>)
    ensures
        contains(content, "pub mod "@ + name + ";"@) ==> with_module_decl(content, name) == content,
        !contains(content, "pub mod "@ + name + ";"@) && content.len() > 0 && content.last() != '\n'
            ==> with_module_decl(content, name) == content + "\n"@ + "pub mod "@ + name + ";\n"@,
        !contains(content, "pub mod "@ + name + ";"@) && (content.len() == 0 || content.last() == '\n')
            ==> with_module_decl(content, name) == content + "pub mod "@ + name + ";\n"@,
        contains(content, "pub mod "@ + name + ";"@)
            ==> with_module_decl_at_build(content, name) == content,
        !contains(content, "pub mod "@ + name + ";"@)
            ==> with_module_decl_at_build(content, name) == content + "\n"@ + "pub mod "@ + name + ";\n"@,
{
    reveal_strlit(";");
    reveal_strlit("\n");
    reveal_strlit(";\n");
    assert(";"@ + "\n"@ =~= ";\n"@);
    let decl = "pub mod "@ + name + ";"@;
    assert(content + Seq::<char>::empty() + decl + "\n"@ =~= content + "pub mod "@ + name + ";\n"@);
    assert(content + "\n"@ + decl + "\n"@ =~= content + "\n"@ + "pub mod "@ + name + ";\n"@);
}

/// Registering migration `name` in the migrations `mod.rs` text, by the
/// `install` command or by a build: the module is declared as
/// `lemma_declaration_line` says, and then the entry naming the whole
/// module goes in as `lemma_entry_names_whole_module` says.
pub proof fn lemma_registration_is_declaration_then_entry(content: Seq<char>, name: Seq<char>)
    ensures
        registered_migration(content, name)
            == with_migration_entry(with_module_decl(content, name), name),
        registered_migration_at_build(content, name)
            == with_migration_entry(with_module_decl_at_build(content, name), name),
{
}

} // verus!
