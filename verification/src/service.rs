//! The activity logger: a builder that collects what an activity is about,
//! and the row it stores for it in the `activity_log` table.

use vstd::prelude::*;

use rustbasic_core::serde_json::Value;
use rustbasic_core::sql::AnyPool;

use crate::clock::{is_datetime_text, local_datetime_text};
use crate::json::{json_text, to_json_text};

verus! {

/// rustbasic_core's database pool. Opaque here: the logger only carries it
/// to the place that stores the row.
#[verifier::external_type_specification]
#[verifier::external_body]
pub struct ExAnyPool(AnyPool);

/// The statement that stores one activity; its placeholders take the values
/// of `ActivityRecord::bind_values`, in order.
pub const INSERT_ACTIVITY_SQL: &'static str = "INSERT INTO activity_log (log_name, description, subject_type, subject_id, causer_type, causer_id, properties, created_at, updated_at) VALUES (?, ?, ?, ?, ?, ?, ?, ?, ?)";

/// The log name of a logger that was given none.
pub const DEFAULT_LOG_NAME: &'static str = "default";

/// Builder for one activity to record in the `activity_log` table.
pub struct ActivityLogger {
    db: AnyPool,
    log_name: String,
    subject: Option<(String, i32)>,
    causer: Option<(String, i32)>,
    properties: Option<Value>,
}

/// What a logger holds: the pool, the log name, the subject and the causer
/// (each a type and an id), and the properties.
pub struct ActivityLoggerView {
    pub db: AnyPool,
    pub log_name: Seq<char>,
    pub subject: Option<(Seq<char>, i32)>,
    pub causer: Option<(Seq<char>, i32)>,
    pub properties: Option<Value>,
}

/// A type and an id, as text and number.
pub open spec fn tagged_view(tagged: Option<(String, i32)>) -> Option<(Seq<char>, i32)> {
    match tagged {
        Some((kind, id)) => Some((kind@, id)),
        None => None,
    }
}

impl View for ActivityLogger {
    type V = ActivityLoggerView;

    closed spec fn view(&self) -> ActivityLoggerView {
        ActivityLoggerView {
            db: self.db,
            log_name: self.log_name@,
            subject: tagged_view(self.subject),
            causer: tagged_view(self.causer),
            properties: self.properties,
        }
    }
}

/// One row of the `activity_log` table, column by column.
#[derive(Clone, Debug, PartialEq, Eq)]
pub struct ActivityRecord {
    pub log_name: String,
    pub description: String,
    pub subject_type: Option<String>,
    pub subject_id: Option<i32>,
    pub causer_type: Option<String>,
    pub causer_id: Option<i32>,
    pub properties: Option<String>,
    pub created_at: String,
    pub updated_at: String,
}

/// A row of the `activity_log` table, with its texts as character sequences.
pub struct ActivityRecordView {
    pub log_name: Seq<char>,
    pub description: Seq<char>,
    pub subject_type: Option<Seq<char>>,
    pub subject_id: Option<i32>,
    pub causer_type: Option<Seq<char>>,
    pub causer_id: Option<i32>,
    pub properties: Option<Seq<char>>,
    pub created_at: Seq<char>,
    pub updated_at: Seq<char>,
}

impl View for ActivityRecord {
    type V = ActivityRecordView;

    open spec fn view(&self) -> ActivityRecordView {
        ActivityRecordView {
            log_name: self.log_name@,
            description: self.description@,
            subject_type: self.subject_type.deep_view(),
            subject_id: self.subject_id,
            causer_type: self.causer_type.deep_view(),
            causer_id: self.causer_id,
            properties: self.properties.deep_view(),
            created_at: self.created_at@,
            updated_at: self.updated_at@,
        }
    }
}

/// A new logger on `db`: log name `default`, nothing else set.
pub open spec fn spec_new(db: AnyPool) -> ActivityLoggerView {
    ActivityLoggerView {
        db: db,
        log_name: DEFAULT_LOG_NAME@,
        subject: None,
        causer: None,
        properties: None,
    }
}

/// `logger` with its log name set to `name`.
pub open spec fn spec_use_log(logger: ActivityLoggerView, name: Seq<char>) -> ActivityLoggerView {
    ActivityLoggerView { log_name: name, ..logger }
}

/// `logger` with its subject set to `subject_type` and `subject_id`.
pub open spec fn spec_performed_on(
    logger: ActivityLoggerView,
    subject_type: Seq<char>,
    subject_id: i32,
) -> ActivityLoggerView {
    ActivityLoggerView { subject: Some((subject_type, subject_id)), ..logger }
}

/// `logger` with its causer set to `causer_type` and `causer_id`.
pub open spec fn spec_caused_by(
    logger: ActivityLoggerView,
    causer_type: Seq<char>,
    causer_id: i32,
) -> ActivityLoggerView {
    ActivityLoggerView { causer: Some((causer_type, causer_id)), ..logger }
}

/// `logger` with its properties set to `properties`.
pub open spec fn spec_with_properties(logger: ActivityLoggerView, properties: Value) -> ActivityLoggerView {
    ActivityLoggerView { properties: Some(properties), ..logger }
}

/// The type of a subject or causer, if one is set.
pub open spec fn kind_of(tagged: Option<(Seq<char>, i32)>) -> Option<Seq<char>> {
    match tagged {
        Some((kind, _)) => Some(kind),
        None => None,
    }
}

/// The id of a subject or causer, if one is set.
pub open spec fn id_of(tagged: Option<(Seq<char>, i32)>) -> Option<i32> {
    match tagged {
        Some((_, id)) => Some(id),
        None => None,
    }
}

/// The JSON text of the properties, if there are any.
pub open spec fn properties_text(properties: Option<Value>) -> Option<Seq<char>> {
    match properties {
        Some(value) => Some(json_text(value)),
        None => None,
    }
}

/// The row that `logger` stores for `description` at time `now`: both
/// timestamps are `now`.
pub open spec fn record_of(
    logger: ActivityLoggerView,
    description: Seq<char>,
    now: Seq<char>,
) -> ActivityRecordView {
    ActivityRecordView {
        log_name: logger.log_name,
        description: description,
        subject_type: kind_of(logger.subject),
        subject_id: id_of(logger.subject),
        causer_type: kind_of(logger.causer),
        causer_id: id_of(logger.causer),
        properties: properties_text(logger.properties),
        created_at: now,
        updated_at: now,
    }
}

/// A copy of a type-and-id pair's type.
fn clone_kind(tagged: &Option<(String, i32)>) -> (kind: Option<String>)
    ensures
        kind.deep_view() == kind_of(tagged_view(*tagged)),
{
    match tagged {
        Some((kind, _)) => Some(kind.clone()),
        None => None,
    }
}

/// A pair's id.
fn copy_id(tagged: &Option<(String, i32)>) -> (id: Option<i32>)
    ensures
        id == id_of(tagged_view(*tagged)),
{
    match tagged {
        Some((_, id)) => Some(*id),
        None => None,
    }
}

impl ActivityLogger {
    /// A logger on `db` with the log name `default` and nothing else set.
    pub fn new(db: AnyPool) -> (logger: Self)
        ensures
            logger@ == spec_new(db),
    {
        ActivityLogger {
            db,
            log_name: String::from_str(DEFAULT_LOG_NAME),
            subject: None,
            causer: None,
            properties: None,
        }
    }

    /// The logger with its log name set to `name`.
    pub fn use_log(self, name: &str) -> (logger: Self)
        ensures
            logger@ == spec_use_log(self@, name@),
    {
        ActivityLogger { log_name: String::from_str(name), ..self }
    }

    /// The logger with its subject, the thing acted on, set to
    /// `subject_type` and `subject_id`.
    pub fn performed_on(self, subject_type: &str, subject_id: i32) -> (logger: Self)
        ensures
            logger@ == spec_performed_on(self@, subject_type@, subject_id),
    {
        ActivityLogger { subject: Some((String::from_str(subject_type), subject_id)), ..self }
    }

    /// The logger with its causer, the actor, set to `causer_type` and
    /// `causer_id`.
    pub fn caused_by(self, causer_type: &str, causer_id: i32) -> (logger: Self)
        ensures
            logger@ == spec_caused_by(self@, causer_type@, causer_id),
    {
        ActivityLogger { causer: Some((String::from_str(causer_type), causer_id)), ..self }
    }

    /// The logger with its properties set to `properties`.
    pub fn with_properties(self, properties: Value) -> (logger: Self)
        ensures
            logger@ == spec_with_properties(self@, properties),
    {
        ActivityLogger { properties: Some(properties), ..self }
    }

    /// The pool the row is stored through.
    pub fn db(&self) -> (db: &AnyPool)
        ensures
            *db == self@.db,
    {
        &self.db
    }

    /// The row this logger stores for `description` at local time `now`.
    pub fn record_at(&self, description: &str, now: &str) -> (record: ActivityRecord)
        ensures
            record@ == record_of(self@, description@, now@),
    {
        let properties = match &self.properties {
            Some(value) => Some(to_json_text(value)),
            None => None,
        };
        ActivityRecord {
            log_name: self.log_name.clone(),
            description: String::from_str(description),
            subject_type: clone_kind(&self.subject),
            subject_id: copy_id(&self.subject),
            causer_type: clone_kind(&self.causer),
            causer_id: copy_id(&self.causer),
            properties,
            created_at: String::from_str(now),
            updated_at: String::from_str(now),
        }
    }

    /// The row this logger stores for `description` now: as `record_at`
    /// with the local clock's current date and time, written
    /// `YYYY-MM-DD HH:MM:SS[.nnnnnnnnn]`.
    pub fn record(&self, description: &str) -> (record: ActivityRecord)
        ensures
            record@ == record_of(self@, description@, record.created_at@),
            is_datetime_text(record.created_at@),
    {
        let now = local_datetime_text();
        self.record_at(description, now.as_str())
    }
}

/// A value bound to a placeholder of a statement.
#[derive(Clone, Debug, PartialEq, Eq)]
pub enum BindValue {
    Null,
    Text(String),
    Integer(i32),
}

/// A bound value, with its text as a character sequence.
pub enum BindValueView {
    Null,
    Text(Seq<char>),
    Integer(i32),
}

impl View for BindValue {
    type V = BindValueView;

    open spec fn view(&self) -> BindValueView {
        match self {
            BindValue::Null => BindValueView::Null,
            BindValue::Text(text) => BindValueView::Text(text@),
            BindValue::Integer(n) => BindValueView::Integer(*n),
        }
    }
}

/// An optional text as a bound value: `NULL` when absent.
pub open spec fn optional_text(text: Option<Seq<char>>) -> BindValueView {
    match text {
        Some(t) => BindValueView::Text(t),
        None => BindValueView::Null,
    }
}

/// An optional number as a bound value: `NULL` when absent.
pub open spec fn optional_integer(n: Option<i32>) -> BindValueView {
    match n {
        Some(v) => BindValueView::Integer(v),
        None => BindValueView::Null,
    }
}

/// The values a row binds to the placeholders of `INSERT_ACTIVITY_SQL`, in
/// the order of its columns.
pub open spec fn record_binds(record: ActivityRecordView) -> Seq<BindValueView> {
    seq![
        BindValueView::Text(record.log_name),
        BindValueView::Text(record.description),
        optional_text(record.subject_type),
        optional_integer(record.subject_id),
        optional_text(record.causer_type),
        optional_integer(record.causer_id),
        optional_text(record.properties),
        BindValueView::Text(record.created_at),
        BindValueView::Text(record.updated_at),
    ]
}

/// An optional text as a bound value.
fn bind_optional_text(text: &Option<String>) -> (value: BindValue)
    ensures
        value@ == optional_text(text.deep_view()),
{
    match text {
        Some(t) => BindValue::Text(t.clone()),
        None => BindValue::Null,
    }
}

/// An optional number as a bound value.
fn bind_optional_integer(n: Option<i32>) -> (value: BindValue)
    ensures
        value@ == optional_integer(n),
{
    match n {
        Some(v) => BindValue::Integer(v),
        None => BindValue::Null,
    }
}

impl ActivityRecord {
    /// The values this row binds to the placeholders of
    /// `INSERT_ACTIVITY_SQL`, in the order of its columns.
    pub fn bind_values(&self) -> (values: Vec<BindValue>)
        ensures
            values@.map_values(|v: BindValue| v@) == record_binds(self@),
    {
        let mut values: Vec<BindValue> = Vec::new();
        values.push(BindValue::Text(self.log_name.clone()));
        values.push(BindValue::Text(self.description.clone()));
        values.push(bind_optional_text(&self.subject_type));
        values.push(bind_optional_integer(self.subject_id));
        values.push(bind_optional_text(&self.causer_type));
        values.push(bind_optional_integer(self.causer_id));
        values.push(bind_optional_text(&self.properties));
        values.push(BindValue::Text(self.created_at.clone()));
        values.push(BindValue::Text(self.updated_at.clone()));
        assert(values@.map_values(|v: BindValue| v@) =~= record_binds(self@));
        values
    }
}

/// A later setting of the same thing replaces the earlier one: only the
/// last log name, subject, causer and properties count.
pub proof fn lemma_last_setting_wins(
    logger: ActivityLoggerView,
    first: Seq<char>,
    second: Seq<char>,
    first_id: i32,
    second_id: i32,
    first_properties: Value,
    second_properties: Value,
)
    ensures
        spec_use_log(spec_use_log(logger, first), second) == spec_use_log(logger, second),
        spec_performed_on(spec_performed_on(logger, first, first_id), second, second_id)
            == spec_performed_on(logger, second, second_id),
        spec_caused_by(spec_caused_by(logger, first, first_id), second, second_id)
            == spec_caused_by(logger, second, second_id),
        spec_with_properties(spec_with_properties(logger, first_properties), second_properties)
            == spec_with_properties(logger, second_properties),
{
}

/// Settings of different things are independent: the order in which the
/// log name, subject, causer and properties are set does not matter.
pub proof fn lemma_settings_commute(
    logger: ActivityLoggerView,
    name: Seq<char>,
    subject_type: Seq<char>,
    subject_id: i32,
    causer_type: Seq<char>,
    causer_id: i32,
    properties: Value,
)
    ensures
        spec_performed_on(spec_caused_by(logger, causer_type, causer_id), subject_type, subject_id)
            == spec_caused_by(spec_performed_on(logger, subject_type, subject_id), causer_type, causer_id),
        spec_use_log(spec_performed_on(logger, subject_type, subject_id), name)
            == spec_performed_on(spec_use_log(logger, name), subject_type, subject_id),
        spec_use_log(spec_caused_by(logger, causer_type, causer_id), name)
            == spec_caused_by(spec_use_log(logger, name), causer_type, causer_id),
        spec_with_properties(spec_use_log(logger, name), properties)
            == spec_use_log(spec_with_properties(logger, properties), name),
        spec_with_properties(spec_performed_on(logger, subject_type, subject_id), properties)
            == spec_performed_on(spec_with_properties(logger, properties), subject_type, subject_id),
        spec_with_properties(spec_caused_by(logger, causer_type, causer_id), properties)
            == spec_caused_by(spec_with_properties(logger, properties), causer_type, causer_id),
{
}

/// In every stored row the subject's type and id are set together, and so
/// are the causer's; the row is created and updated at the same time; and
/// the row carries exactly what the logger was given.
pub proof fn lemma_record_reflects_logger(
    logger: ActivityLoggerView,
    description: Seq<char>,
    now: Seq<char>,
)
    ensures
        ({
            let row = record_of(logger, description, now);
            &&& (row.subject_type is Some <==> row.subject_id is Some)
            &&& (row.causer_type is Some <==> row.causer_id is Some)
            &&& row.created_at == row.updated_at
            &&& row.log_name == logger.log_name
            &&& row.description == description
            &&& (logger.subject matches Some((t, id)) ==> row.subject_type == Some(t) && row.subject_id == Some(id))
            &&& (logger.causer matches Some((t, id)) ==> row.causer_type == Some(t) && row.causer_id == Some(id))
            &&& (row.properties is Some <==> logger.properties is Some)
        }),
{
}

/// A row binds one value to each of the nine columns of
/// `INSERT_ACTIVITY_SQL`, in the order the statement names them, each the
/// row's own value for that column: its text as it is (the properties' JSON
/// text is not written again), its number, or `NULL` exactly where the row
/// has no value.
pub proof fn lemma_binds_cover_columns(record: ActivityRecordView)
    ensures
        record_binds(record).len() == 9,
        (record_binds(record)[2] == BindValueView::Null) <==> record.subject_type is None,
        (record_binds(record)[3] == BindValueView::Null) <==> record.subject_id is None,
        (record_binds(record)[4] == BindValueView::Null) <==> record.causer_type is None,
        (record_binds(record)[5] == BindValueView::Null) <==> record.causer_id is None,
        (record_binds(record)[6] == BindValueView::Null) <==> record.properties is None,
        record_binds(record)[0] == BindValueView::Text(record.log_name),
        record_binds(record)[1] == BindValueView::Text(record.description),
        record.subject_type matches Some(t) ==> record_binds(record)[2] == BindValueView::Text(t),
        record.subject_id matches Some(n) ==> record_binds(record)[3] == BindValueView::Integer(n),
        record.causer_type matches Some(t) ==> record_binds(record)[4] == BindValueView::Text(t),
        record.causer_id matches Some(n) ==> record_binds(record)[5] == BindValueView::Integer(n),
        record.properties matches Some(p) ==> record_binds(record)[6] == BindValueView::Text(p),
        record_binds(record)[7] == BindValueView::Text(record.created_at),
        record_binds(record)[8] == BindValueView::Text(record.updated_at),
{
}

/// The properties column of the row holds the JSON text of the logger's
/// properties, written once: `Some(json_text(value))` when the logger has
/// properties `value`, and nothing otherwise; that text is what the row
/// binds to the properties placeholder.
pub proof fn lemma_properties_column_is_json_text(
    logger: ActivityLoggerView,
    description: Seq<char>,
    now: Seq<char>,
)
    ensures
        logger.properties matches Some(value) ==> {
            &&& record_of(logger, description, now).properties == Some(json_text(value))
            &&& record_binds(record_of(logger, description, now))[6]
                == BindValueView::Text(json_text(value))
        },
        logger.properties is None ==> {
            &&& record_of(logger, description, now).properties is None
            &&& record_binds(record_of(logger, description, now))[6] == BindValueView::Null
        },
        record_of(logger, description, now).created_at == now,
        record_of(logger, description, now).updated_at == now,
{
}

} // verus!
