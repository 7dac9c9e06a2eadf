//! The remote backend: each repository operation as the request that goes
//! to the statement-execution service, and as the reading of what comes
//! back.
//!
//! The caller sends each request and hands the outcome to the function that
//! reads it. No value of a record is ever part of a statement's text: values
//! travel as parameters.

use crate::decode::{records_of_rows, rows_decode};
use crate::error::InterfaceError;
use crate::ident::{hyphenated, uuid_text};
use crate::json::{parse_rows, rows_of, rows_view, Row, RowView};
use crate::model::{GetFieldsAsParams, Model, QuerySet, Record};
use crate::params::{
    parameter_views, Field, FieldView, SqlParameter, SqlParameterView, TypeHint,
};
use crate::rds_client::{
    blank_request, RdsClient, RecordsFormatType, StatementRequest, StatementRequestView,
};
use crate::sql::{
    create_table_sql, delete_by_sql, drop_table_sql, insert_sql, select_all_sql, select_by_sql,
    update_sql, uuid_name,
};
use std::sync::Arc;
use vstd::prelude::*;
use vstd::string::StringExecFns;

verus! {

/// What the service returned for a statement, as far as it is read here.
pub struct StatementOutput {
    /// The rows, formatted as JSON, where the service sent any.
    pub formatted_records: Option<String>,
}

/// A repository of records whose storage is a table of the remote database.
pub struct RdsRepository {
    client: Arc<RdsClient>,
    queryset: Box<Model>,
}

/// The parameter that binds an identifier to the placeholder `:uuid`.
pub open spec fn uuid_binding(id: u128) -> SqlParameterView {
    SqlParameterView {
        name: uuid_name(),
        value: FieldView::StringValue(hyphenated(id)),
        type_hint: Some(TypeHint::Uuid),
    }
}

/// The detail of the failure that an absent payload gives.
pub open spec fn no_records_detail() -> Seq<char> {
    "Amazon RDS Data did not include records in their response."@
}

/// The detail of the failure that a payload gives that is no result set.
pub open spec fn unparsed_detail(reason: Seq<char>) -> Seq<char> {
    "Failed to parse formatted records: "@ + reason
}

/// The reason given for a row that has no value for some field.
pub open spec fn mismatch_reason() -> Seq<char> {
    "a row does not match the record type"@
}

/// The detail of the failure that several rows for one identifier give.
pub open spec fn multiple_results_detail(id: u128) -> Seq<char> {
    "Received multiple results for id: "@ + hyphenated(id)
}

/// `done` is the reading of a statement that returns no rows: success where
/// the service succeeded, else a backend failure with the service's words.
pub open spec fn is_completion(
    done: Result<(), InterfaceError>,
    statement: Result<StatementOutput, String>,
) -> bool {
    match statement {
        Ok(_) => done is Ok,
        Err(reason) => done matches Err(InterfaceError::RdsError(detail)) && detail@ == reason@,
    }
}

/// `read` is the reading of a parsed payload as records of `model`.
pub open spec fn is_decoding(
    read: Result<Vec<Record>, InterfaceError>,
    model: Model,
    parsed: Result<Seq<RowView>, Seq<char>>,
) -> bool {
    match parsed {
        Err(reason) => read matches Err(InterfaceError::FromFields(detail)) && detail@
            == unparsed_detail(reason),
        Ok(rows) => if rows_decode(model.fields(), rows) {
            read matches Ok(records) && records_of_rows(records@, model.fields(), rows)
        } else {
            read matches Err(InterfaceError::FromFields(detail)) && detail@ == unparsed_detail(
                mismatch_reason(),
            )
        },
    }
}

/// `read` is the reading of a statement that returns rows.
pub open spec fn is_reading(
    read: Result<Vec<Record>, InterfaceError>,
    model: Model,
    statement: Result<StatementOutput, String>,
) -> bool {
    match statement {
        Err(reason) => read matches Err(InterfaceError::RdsError(detail)) && detail@ == reason@,
        Ok(output) => match output.formatted_records {
            None => read matches Err(InterfaceError::FromFields(detail)) && detail@
                == no_records_detail(),
            Some(text) => is_decoding(read, model, rows_of(text@)),
        },
    }
}

/// `found` is what the records returned for `id` amount to: none is
/// absence, one is the record, more are a backend failure.
pub open spec fn is_single(
    found: Result<Option<Record>, InterfaceError>,
    id: u128,
    items: Seq<Record>,
) -> bool {
    if items.len() == 0 {
        found matches Ok(None)
    } else if items.len() == 1 {
        found matches Ok(Some(item)) && item == items[0]
    } else {
        found matches Err(InterfaceError::RdsError(detail)) && detail@ == multiple_results_detail(
            id,
        )
    }
}

/// `found` is the reading of the outcome of the `get` statement for `id`:
/// the reading of a statement that returns rows, then of the records
/// returned for one identifier.
pub open spec fn is_fetching(
    found: Result<Option<Record>, InterfaceError>,
    id: u128,
    model: Model,
    statement: Result<StatementOutput, String>,
) -> bool {
    match statement {
        Err(reason) => found matches Err(InterfaceError::RdsError(detail)) && detail@ == reason@,
        Ok(output) => match output.formatted_records {
            None => found matches Err(InterfaceError::FromFields(detail)) && detail@
                == no_records_detail(),
            Some(text) => match rows_of(text@) {
                Err(reason) => found matches Err(InterfaceError::FromFields(detail)) && detail@
                    == unparsed_detail(reason),
                Ok(rows) => if !rows_decode(model.fields(), rows) {
                    found matches Err(InterfaceError::FromFields(detail)) && detail@
                        == unparsed_detail(mismatch_reason())
                } else if rows.len() == 0 {
                    found matches Ok(None)
                } else if rows.len() == 1 {
                    found matches Ok(Some(item)) && records_of_rows(
                        seq![item],
                        model.fields(),
                        rows,
                    )
                } else {
                    found matches Err(InterfaceError::RdsError(detail)) && detail@
                        == multiple_results_detail(id)
                },
            },
        },
    }
}

/// A response to `get` that holds two rows or more never gives a value: it
/// gives a backend failure, or a decode failure where the rows do not match
/// the record type.
pub proof fn law_several_rows_never_a_value(
    found: Result<Option<Record>, InterfaceError>,
    id: u128,
    model: Model,
    output: StatementOutput,
    text: String,
    rows: Seq<RowView>,
)
    requires
        output.formatted_records == Some(text),
        rows_of(text@) == Ok::<Seq<RowView>, Seq<char>>(rows),
        rows.len() >= 2,
        is_fetching(found, id, model, Ok(output)),
    ensures
        found is Err,
        rows_decode(model.fields(), rows) ==> found matches Err(InterfaceError::RdsError(_)),
        !rows_decode(model.fields(), rows) ==> found matches Err(InterfaceError::FromFields(_)),
{
}

impl RdsRepository {
    /// The connection that the repository sends its statements over.
    pub closed spec fn connection(&self) -> RdsClient {
        *self.client
    }

    /// The record type whose table the repository works on.
    pub closed spec fn model(&self) -> Model {
        *self.queryset
    }

    /// The repository is well formed: its record type is.
    pub open spec fn wf(&self) -> bool {
        self.model().wf()
    }

    /// The repository of the records of `queryset`'s type, over `client`.
    pub fn new(client: Arc<RdsClient>, queryset: Box<Model>) -> (repo: Self)
        requires
            queryset.wf(),
        ensures
            repo.wf(),
            repo.connection() == *client,
            repo.model() == *queryset,
    {
        RdsRepository { client, queryset }
    }

    /// The request with the given statement, and nothing else.
    fn statement(&self, sql: String) -> (request: StatementRequest)
        ensures
            request@ == (StatementRequestView {
                sql: Some(sql@),
                ..blank_request(self.connection()@)
            }),
    {
        self.client.execute_statement().sql(sql)
    }

    /// The parameters that bind `id` to the placeholder `:uuid`.
    fn uuid_parameters(id: &u128) -> (params: Vec<SqlParameter>)
        ensures
            parameter_views(params@) == seq![uuid_binding(*id)],
    {
        let param = SqlParameter {
            name: String::from_str("uuid"),
            value: Field::StringValue(uuid_text(*id)),
            type_hint: Some(TypeHint::Uuid),
        };
        let params = vec![param];
        params
    }

    /// The request that creates the remote table.
    pub fn create_table(&self) -> (request: StatementRequest)
        ensures
            request@ == (StatementRequestView {
                sql: Some(create_table_sql(self.model().name(), self.model().fields())),
                ..blank_request(self.connection()@)
            }),
    {
        self.statement(self.queryset.create_table())
    }

    /// The request that drops the remote table, and all its rows with it.
    pub fn drop_table(&self) -> (request: StatementRequest)
        ensures
            request@ == (StatementRequestView {
                sql: Some(drop_table_sql(self.model().name())),
                ..blank_request(self.connection()@)
            }),
    {
        self.statement(self.queryset.drop_table())
    }

    /// The request that persists `item`: the insert statement of the record
    /// type, with one parameter for each field of `item`.
    pub fn create(&self, item: &Record) -> (request: StatementRequest)
        ensures
            request@ == (StatementRequestView {
                sql: Some(insert_sql(self.model().name(), self.model().fields())),
                parameters: item.params(),
                ..blank_request(self.connection()@)
            }),
    {
        self.statement(self.queryset.create()).set_parameters(
            item.get_fields_as_params(),
        )
    }

    /// The request that fetches the record under `id`: the select statement
    /// by `uuid`, the identifier as its one parameter, rows asked for as JSON.
    pub fn get(&self, id: &u128) -> (request: StatementRequest)
        ensures
            request@ == (StatementRequestView {
                sql: Some(select_by_sql(self.model().name(), uuid_name())),
                parameters: Some(seq![uuid_binding(*id)]),
                format_records_as: Some(RecordsFormatType::Json),
                ..blank_request(self.connection()@)
            }),
    {
        self.statement(self.queryset.get("uuid")).set_parameters(
            Some(Self::uuid_parameters(id)),
        ).format_records_as(RecordsFormatType::Json)
    }

    /// The request that removes the record under `id`: the delete statement
    /// by `uuid`, the identifier as its one parameter.
    pub fn delete(&self, id: &u128) -> (request: StatementRequest)
        ensures
            request@ == (StatementRequestView {
                sql: Some(delete_by_sql(self.model().name(), uuid_name())),
                parameters: Some(seq![uuid_binding(*id)]),
                ..blank_request(self.connection()@)
            }),
    {
        self.statement(self.queryset.delete("uuid")).set_parameters(
            Some(Self::uuid_parameters(id)),
        )
    }

    /// The request that persists the current fields of `item` under its
    /// identifier: the update statement of the record type, with one
    /// parameter for each field of `item`. Where the table holds no row
    /// under that identifier, the statement changes nothing and succeeds.
    pub fn update(&self, item: &Record) -> (request: StatementRequest)
        ensures
            request@ == (StatementRequestView {
                sql: Some(update_sql(self.model().name(), self.model().fields())),
                parameters: item.params(),
                ..blank_request(self.connection()@)
            }),
    {
        self.statement(self.queryset.update()).set_parameters(
            item.get_fields_as_params(),
        )
    }

    /// The request that fetches all the records: the select statement over
    /// the table, rows asked for as JSON.
    pub fn list(&self) -> (request: StatementRequest)
        ensures
            request@ == (StatementRequestView {
                sql: Some(select_all_sql(self.model().name())),
                format_records_as: Some(RecordsFormatType::Json),
                ..blank_request(self.connection()@)
            }),
    {
        self.statement(self.queryset.list()).format_records_as(
            RecordsFormatType::Json,
        )
    }

    /// Reads the outcome of a statement that returns no rows (`create`,
    /// `update`, `delete`, `create_table`, `drop_table`).
    pub fn completion(statement: Result<StatementOutput, String>) -> (done: Result<
        (),
        InterfaceError,
    >)
        ensures
            is_completion(done, statement),
    {
        match statement {
            Ok(_) => Ok(()),
            Err(reason) => Err(InterfaceError::RdsError(reason)),
        }
    }

    /// Reads a parsed payload as records: every row must give a value to
    /// every field of the record type.
    pub fn records_of_parsed(&self, parsed: Result<Vec<Row>, String>) -> (read: Result<
        Vec<Record>,
        InterfaceError,
    >)
        requires
            self.wf(),
        ensures
            is_decoding(
                read,
                self.model(),
                match parsed {
                    Ok(rows) => Ok(rows_view(rows@)),
                    Err(reason) => Err(reason@),
                },
            ),
    {
        match parsed {
            Ok(rows) => match self.queryset.decode_rows(&rows) {
                Some(records) => Ok(records),
                None => Err(
                    InterfaceError::FromFields(
                        String::from_str("Failed to parse formatted records: ").concat(
                            "a row does not match the record type",
                        ),
                    ),
                ),
            },
            Err(reason) => Err(
                InterfaceError::FromFields(
                    String::from_str("Failed to parse formatted records: ").concat(
                        reason.as_str(),
                    ),
                ),
            ),
        }
    }

    /// Reads the outcome of a statement that returns rows: a failure of the
    /// service is a backend failure; an absent payload, a payload that is no
    /// result set and a row that does not match the record type are decode
    /// failures; an empty result set is an empty list.
    pub fn parse_rds_output(&self, statement: Result<StatementOutput, String>) -> (read: Result<
        Vec<Record>,
        InterfaceError,
    >)
        requires
            self.wf(),
        ensures
            is_reading(read, self.model(), statement),
    {
        match statement {
            Err(reason) => Err(InterfaceError::RdsError(reason)),
            Ok(output) => match output.formatted_records {
                None => Err(
                    InterfaceError::FromFields(
                        String::from_str(
                            "Amazon RDS Data did not include records in their response.",
                        ),
                    ),
                ),
                Some(text) => self.records_of_parsed(parse_rows(text.as_str())),
            },
        }
    }

    /// What the records returned for one identifier amount to: no record is
    /// absence, one record is the answer, and several are a violation of the
    /// primary key, reported as a backend failure and never as a value.
    pub fn single(id: &u128, items: Vec<Record>) -> (found: Result<Option<Record>, InterfaceError>)
        ensures
            is_single(found, *id, items@),
    {
        let mut items = items;
        if items.len() > 1 {
            return Err(
                InterfaceError::RdsError(
                    String::from_str("Received multiple results for id: ").concat(
                        uuid_text(*id).as_str(),
                    ),
                ),
            );
        }
        match items.pop() {
            Some(item) => Ok(Some(item)),
            None => Ok(None),
        }
    }

    /// Reads the outcome of the `get` statement for `id`.
    pub fn get_response(&self, id: &u128, statement: Result<StatementOutput, String>) -> (found:
        Result<Option<Record>, InterfaceError>)
        requires
            self.wf(),
        ensures
            is_fetching(found, *id, self.model(), statement),
    {
        match self.parse_rds_output(statement) {
            Ok(items) => Self::single(id, items),
            Err(error) => Err(error),
        }
    }

    /// Reads the outcome of the `list` statement.
    pub fn list_response(&self, statement: Result<StatementOutput, String>) -> (read: Result<
        Vec<Record>,
        InterfaceError,
    >)
        requires
            self.wf(),
        ensures
            is_reading(read, self.model(), statement),
    {
        self.parse_rds_output(statement)
    }
}

} // verus!
