//! Databases and the collections in them: handles that carry a name and
//! the settings inherited from above.

use vstd::prelude::*;
use std::marker::PhantomData;
use std::sync::Arc;
use crate::change_stream::{
    optional_options, AggregateTarget, ChangeStreamData, ChangeStreamOptions,
    ChangeStreamOptionsView,
};
use crate::client::Client;
use crate::concern::{ReadConcern, WriteConcern};
use crate::document::{doc_view, lookup, Fields};
use crate::error::{texts, Error, ErrorKindView};
use crate::field::{fields_of, has_field, text_at, text_field};
use crate::namespace::Namespace;
use crate::operation::aggregate::{Aggregate, AggregateOptions};
use crate::operation::create::{Create, CreateCollectionOptions};
use crate::operation::drop_database::{DropDatabase, DropDatabaseOptions};
use crate::operation::list_collections::{ListCollections, ListCollectionsOptions};
use crate::operation::run_command::RunCommand;
use crate::operation::PinnedConnectionHandle;
use crate::selection_criteria::SelectionCriteria;
use crate::session::Transaction;
use crate::shared::arc_clone;

verus! {

/// The settings that a database may override.
#[derive(Debug)]
pub struct DatabaseOptions {
    pub selection_criteria: Option<SelectionCriteria>,
    pub read_concern: Option<ReadConcern>,
    pub write_concern: Option<WriteConcern>,
}

/// The settings that a collection may override.
#[derive(Debug)]
pub struct CollectionOptions {
    pub selection_criteria: Option<SelectionCriteria>,
    pub read_concern: Option<ReadConcern>,
    pub write_concern: Option<WriteConcern>,
}

/// A setting as it is in force: the one given, else the one inherited.
pub open spec fn inherited<T>(given: Option<T>, from_above: Option<T>) -> Option<T> {
    match given {
        Some(v) => Some(v),
        None => from_above,
    }
}

/// The read concern in force: a copy of the one given, else a copy of the
/// one inherited.
pub fn resolve_read_concern(given: Option<&ReadConcern>, from_above: Option<&ReadConcern>) -> (r:
    Option<ReadConcern>)
    ensures
        r == match given {
            Some(v) => Some(*v),
            None => match from_above {
                Some(v) => Some(*v),
                None => None,
            },
        },
{
    match given {
        Some(v) => Some(v.clone()),
        None => match from_above {
            Some(v) => Some(v.clone()),
            None => None,
        },
    }
}

/// The write concern in force: a copy of the one given, else a copy of the
/// one inherited.
pub fn resolve_write_concern(given: Option<&WriteConcern>, from_above: Option<&WriteConcern>) -> (r:
    Option<WriteConcern>)
    ensures
        r == match given {
            Some(v) => Some(*v),
            None => match from_above {
                Some(v) => Some(*v),
                None => None,
            },
        },
{
    match given {
        Some(v) => Some(v.clone()),
        None => match from_above {
            Some(v) => Some(v.clone()),
            None => None,
        },
    }
}

/// The selection criteria in force: those given, else those inherited.
pub fn resolve_selection_criteria(
    given: Option<&SelectionCriteria>,
    from_above: Option<&SelectionCriteria>,
) -> (r: Option<SelectionCriteria>)
    ensures
        r == match given {
            Some(v) => Some(*v),
            None => match from_above {
                Some(v) => Some(*v),
                None => None,
            },
        },
{
    match given {
        Some(v) => Some(*v),
        None => match from_above {
            Some(v) => Some(*v),
            None => None,
        },
    }
}

#[derive(Debug)]
pub struct DatabaseInner {
    pub client: Client,
    pub name: String,
    pub selection_criteria: Option<SelectionCriteria>,
    pub read_concern: Option<ReadConcern>,
    pub write_concern: Option<WriteConcern>,
}

/// A handle to a database. Handles are cheap to copy and share one set of
/// settings.
#[derive(Debug)]
pub struct Database {
    inner: Arc<DatabaseInner>,
}

impl Clone for Database {
    fn clone(&self) -> (r: Self)
        ensures
            r == *self,
    {
        Database { inner: arc_clone(&self.inner) }
    }
}

impl Database {
    /// What the handle stands for: the client, the name and the settings
    /// in force.
    pub closed spec fn state(&self) -> DatabaseInner {
        *self.inner
    }

    /// The database `name` of `client`. Each setting that `options` leaves
    /// open is inherited from the client.
    pub fn new(client: Client, name: &str, options: Option<DatabaseOptions>) -> (r: Database)
        ensures
            r.state().client == client,
            r.state().name@ == name@,
            r.state().selection_criteria == inherited(
                match options {
                    Some(o) => o.selection_criteria,
                    None => None,
                },
                client.options().selection_criteria,
            ),
            r.state().read_concern == inherited(
                match options {
                    Some(o) => o.read_concern,
                    None => None,
                },
                client.options().read_concern,
            ),
            r.state().write_concern == inherited(
                match options {
                    Some(o) => o.write_concern,
                    None => None,
                },
                client.options().write_concern,
            ),
    {
        let options = match options {
            Some(o) => o,
            None => DatabaseOptions {
                selection_criteria: None,
                read_concern: None,
                write_concern: None,
            },
        };
        let selection_criteria = resolve_selection_criteria(
            options.selection_criteria.as_ref(),
            client.selection_criteria(),
        );
        let read_concern = resolve_read_concern(options.read_concern.as_ref(), client.read_concern());
        let write_concern = resolve_write_concern(
            options.write_concern.as_ref(),
            client.write_concern(),
        );
        Database {
            inner: Arc::new(
                DatabaseInner {
                    client,
                    name: name.to_string(),
                    selection_criteria,
                    read_concern,
                    write_concern,
                },
            ),
        }
    }

    /// The client that the database descends from.
    pub fn client(&self) -> (r: &Client)
        ensures
            *r == self.state().client,
    {
        &self.inner.client
    }

    /// The name of the database.
    pub fn name(&self) -> (r: &str)
        ensures
            r@ == self.state().name@,
    {
        self.inner.name.as_str()
    }

    /// The selection criteria of the database.
    pub fn selection_criteria(&self) -> (r: Option<&SelectionCriteria>)
        ensures
            match r {
                Some(c) => self.state().selection_criteria == Some(*c),
                None => self.state().selection_criteria is None,
            },
    {
        self.inner.selection_criteria.as_ref()
    }

    /// The read concern of the database.
    pub fn read_concern(&self) -> (r: Option<&ReadConcern>)
        ensures
            match r {
                Some(c) => self.state().read_concern == Some(*c),
                None => self.state().read_concern is None,
            },
    {
        self.inner.read_concern.as_ref()
    }

    /// The write concern of the database.
    pub fn write_concern(&self) -> (r: Option<&WriteConcern>)
        ensures
            match r {
                Some(c) => self.state().write_concern == Some(*c),
                None => self.state().write_concern is None,
            },
    {
        self.inner.write_concern.as_ref()
    }

    /// A handle to the collection `name` of this database, with the
    /// settings of the database.
    pub fn collection<T>(&self, name: &str) -> (r: Collection<T>)
        ensures
            r.state().db == *self,
            r.state().name@ == name@,
            r.state().selection_criteria == self.state().selection_criteria,
            r.state().read_concern == self.state().read_concern,
            r.state().write_concern == self.state().write_concern,
    {
        Collection::new(self.clone(), name, None)
    }

    /// A handle to the collection `name` of this database. Each setting
    /// that `options` leaves open is inherited from the database.
    pub fn collection_with_options<T>(&self, name: &str, options: CollectionOptions) -> (r:
        Collection<T>)
        ensures
            r.state().db == *self,
            r.state().name@ == name@,
            r.state().selection_criteria == inherited(
                options.selection_criteria,
                self.state().selection_criteria,
            ),
            r.state().read_concern == inherited(options.read_concern, self.state().read_concern),
            r.state().write_concern == inherited(options.write_concern, self.state().write_concern),
    {
        Collection::new(self.clone(), name, Some(options))
    }
}

/// The names that a listing of collections holds: the string under `name`
/// of each document, in order. `None` where a document has no such string.
pub open spec fn names_in(docs: Seq<Fields>) -> Option<Seq<Seq<char>>> {
    if forall|i: int| 0 <= i < docs.len() ==> text_at(#[trigger] docs[i], "name"@) is Some {
        Some(docs.map_values(|d: Fields| text_at(d, "name"@)->Some_0))
    } else {
        None
    }
}

/// The name of the collection that one document of a listing describes:
/// the string under `name`. A document without one is an invalid response.
pub fn collection_name(doc: &bson::Document) -> (r: Result<String, Error>)
    ensures
        match r {
            Ok(name) => text_at(doc_view(*doc), "name"@) == Some(name@),
            Err(e) => text_at(doc_view(*doc), "name"@) is None && e@.kind
                == (ErrorKindView::InvalidResponse {
                message: "Expected name field in server response, but there was none."@,
            }) && e@.labels.len() == 0,
        },
{
    match text_field(doc, "name") {
        Some(name) => Ok(name.to_string()),
        None => Err(
            Error::invalid_response("Expected name field in server response, but there was none."),
        ),
    }
}

/// The names that a listing of collections holds, read document by
/// document; the first document without a name makes the listing an
/// invalid response.
pub fn collection_names(docs: &Vec<bson::Document>) -> (r: Result<Vec<String>, Error>)
    ensures
        match r {
            Ok(names) => names_in(fields_of(docs@)) == Some(texts(names@)),
            Err(e) => names_in(fields_of(docs@)) is None && e@.kind
                == (ErrorKindView::InvalidResponse {
                message: "Expected name field in server response, but there was none."@,
            }) && e@.labels.len() == 0,
        },
{
    let mut names: Vec<String> = Vec::new();
    let mut i: usize = 0;
    let ghost all = fields_of(docs@);
    while i < docs.len()
        invariant
            i <= docs.len(),
            all == fields_of(docs@),
            names@.len() == i,
            forall|j: int| 0 <= j < i ==> text_at(#[trigger] all[j], "name"@) == Some(names@[j]@),
        decreases docs.len() - i,
    {
        assert(all[i as int] == doc_view(docs@[i as int]));
        match collection_name(&docs[i]) {
            Ok(name) => {
                names.push(name);
            },
            Err(e) => {
                return Err(e);
            },
        }
        i += 1;
    }
    assert(all.map_values(|d: Fields| text_at(d, "name"@)->Some_0) =~= texts(names@));
    Ok(names)
}

/// The options of a drop with the database's write concern filled in
/// where the caller set none.
pub open spec fn resolved_drop(options: Option<DropDatabaseOptions>, db: DatabaseInner) -> Option<
    DropDatabaseOptions,
> {
    match options {
        Some(o) => Some(
            DropDatabaseOptions { write_concern: inherited(o.write_concern, db.write_concern) },
        ),
        None => match db.write_concern {
            Some(w) => Some(DropDatabaseOptions { write_concern: Some(w) }),
            None => None,
        },
    }
}

/// The options of a creation with the database's write concern filled in
/// where the caller set none.
pub open spec fn resolved_create(options: Option<CreateCollectionOptions>, db: DatabaseInner)
    -> Option<CreateCollectionOptions> {
    match options {
        Some(o) => Some(
            CreateCollectionOptions {
                write_concern: inherited(o.write_concern, db.write_concern),
                ..o
            },
        ),
        None => match db.write_concern {
            Some(w) => Some(
                CreateCollectionOptions {
                    capped: None,
                    size: None,
                    max: None,
                    write_concern: Some(w),
                },
            ),
            None => None,
        },
    }
}

/// Whether the database has any of the settings that an aggregation
/// inherits.
pub open spec fn has_defaults(db: DatabaseInner) -> bool {
    db.read_concern is Some || db.write_concern is Some || db.selection_criteria is Some
}

/// The options of an aggregation with the database's read concern, write
/// concern and selection criteria filled in where the caller set none.
pub open spec fn resolved_aggregate(options: Option<AggregateOptions>, db: DatabaseInner)
    -> Option<AggregateOptions> {
    match options {
        Some(o) => Some(
            AggregateOptions {
                read_concern: inherited(o.read_concern, db.read_concern),
                write_concern: inherited(o.write_concern, db.write_concern),
                selection_criteria: inherited(o.selection_criteria, db.selection_criteria),
                ..o
            },
        ),
        None => if has_defaults(db) {
            Some(
                AggregateOptions {
                    allow_disk_use: None,
                    batch_size: None,
                    max_await_time: None,
                    max_time: None,
                    read_concern: db.read_concern,
                    selection_criteria: db.selection_criteria,
                    write_concern: db.write_concern,
                },
            )
        } else {
            None
        },
    }
}

/// The options of a change stream with the given read concern and
/// selection criteria filled in where the caller set none.
pub open spec fn resolved_watch(
    options: Option<ChangeStreamOptionsView>,
    read_concern: Option<ReadConcern>,
    selection_criteria: Option<SelectionCriteria>,
) -> Option<ChangeStreamOptionsView> {
    match options {
        Some(o) => Some(
            ChangeStreamOptionsView {
                read_concern: inherited(o.read_concern, read_concern),
                selection_criteria: inherited(o.selection_criteria, selection_criteria),
                ..o
            },
        ),
        None => if read_concern is Some || selection_criteria is Some {
            Some(
                ChangeStreamOptionsView {
                    read_concern,
                    selection_criteria,
                    ..ChangeStreamOptions::unset()
                },
            )
        } else {
            None
        },
    }
}

/// The selection criteria of a command that the caller wrote out, run in a
/// session: inside a transaction the criteria of the transaction stand in
/// where the caller gave none; outside, the caller's stand alone.
pub open spec fn session_criteria(given: Option<SelectionCriteria>, transaction: Transaction)
    -> Option<SelectionCriteria> {
    if transaction.active() {
        inherited(given, transaction.criteria())
    } else {
        given
    }
}

/// Whether the caller's options set a read concern.
pub open spec fn sets_read_concern(options: Option<ChangeStreamOptions>) -> bool {
    match options {
        Some(o) => o.read_concern is Some,
        None => false,
    }
}

/// The options of a change stream opened in a session: inside a
/// transaction the selection criteria of the transaction are filled in,
/// outside the read concern and selection criteria of the database.
pub open spec fn session_watch(
    options: Option<ChangeStreamOptionsView>,
    db: DatabaseInner,
    transaction: Transaction,
) -> Option<ChangeStreamOptionsView> {
    if transaction.active() {
        resolved_watch(options, None, transaction.criteria())
    } else {
        resolved_watch(options, db.read_concern, db.selection_criteria)
    }
}

fn fill_watch(
    options: Option<ChangeStreamOptions>,
    read_concern: Option<ReadConcern>,
    selection_criteria: Option<SelectionCriteria>,
) -> (r: Option<ChangeStreamOptions>)
    ensures
        optional_options(r) == resolved_watch(
            optional_options(options),
            read_concern,
            selection_criteria,
        ),
{
    match options {
        Some(o) => Some(
            ChangeStreamOptions {
                resume_after: o.resume_after,
                start_after: o.start_after,
                start_at_operation_time: o.start_at_operation_time,
                max_await_time: o.max_await_time,
                batch_size: o.batch_size,
                read_concern: match o.read_concern {
                    Some(c) => Some(c),
                    None => read_concern,
                },
                selection_criteria: match o.selection_criteria {
                    Some(c) => Some(c),
                    None => selection_criteria,
                },
            },
        ),
        None => if read_concern.is_some() || selection_criteria.is_some() {
            Some(
                ChangeStreamOptions {
                    resume_after: None,
                    start_after: None,
                    start_at_operation_time: None,
                    max_await_time: None,
                    batch_size: None,
                    read_concern,
                    selection_criteria,
                },
            )
        } else {
            None
        },
    }
}

impl Database {
    /// The operation that drops this database. The write concern of the
    /// database stands in where the caller set none.
    pub fn drop_operation(&self, options: Option<DropDatabaseOptions>) -> (r: DropDatabase)
        ensures
            r.target_db@ == self.state().name@,
            r.options == resolved_drop(options, self.state()),
    {
        let inherited = resolve_write_concern(None, self.write_concern());
        let options = match options {
            Some(o) => Some(
                DropDatabaseOptions {
                    write_concern: match o.write_concern {
                        Some(w) => Some(w),
                        None => inherited,
                    },
                },
            ),
            None => match inherited {
                Some(w) => Some(DropDatabaseOptions { write_concern: Some(w) }),
                None => None,
            },
        };
        DropDatabase::new(self.name().to_string(), options)
    }

    /// The operation that lists the collections of this database that pass
    /// the filter, with all that the server knows of each.
    pub fn list_collections_operation(
        &self,
        filter: Option<bson::Document>,
        options: Option<ListCollectionsOptions>,
    ) -> (r: ListCollections)
        ensures
            r.db@ == self.state().name@,
            r.filter == filter,
            !r.name_only,
            r.options == options,
    {
        ListCollections::new(self.name().to_string(), filter, false, options)
    }

    /// The operation that lists the names of the collections of this
    /// database that pass the filter.
    pub fn list_collection_names_operation(&self, filter: Option<bson::Document>) -> (r:
        ListCollections)
        ensures
            r.db@ == self.state().name@,
            r.filter == filter,
            r.name_only,
            r.options is None,
    {
        ListCollections::new(self.name().to_string(), filter, true, None)
    }

    /// The operation that creates the collection `name` in this database.
    /// The write concern of the database stands in where the caller set
    /// none.
    pub fn create_collection_operation(&self, name: &str, options: Option<CreateCollectionOptions>)
        -> (r: Create)
        ensures
            r.ns.db@ == self.state().name@,
            r.ns.coll@ == name@,
            r.options == resolved_create(options, self.state()),
    {
        let inherited = resolve_write_concern(None, self.write_concern());
        let options = match options {
            Some(o) => Some(
                CreateCollectionOptions {
                    capped: o.capped,
                    size: o.size,
                    max: o.max,
                    write_concern: match o.write_concern {
                        Some(w) => Some(w),
                        None => inherited,
                    },
                },
            ),
            None => match inherited {
                Some(w) => Some(
                    CreateCollectionOptions {
                        capped: None,
                        size: None,
                        max: None,
                        write_concern: Some(w),
                    },
                ),
                None => None,
            },
        };
        Create::new(Namespace::new(self.name(), name), options)
    }

    /// The operation that runs the caller's command against this database.
    /// The command is not looked into: the concerns of the database do not
    /// apply to it.
    pub fn run_command_operation(
        &self,
        command: bson::Document,
        selection_criteria: Option<SelectionCriteria>,
        pinned_connection: Option<PinnedConnectionHandle>,
    ) -> (r: RunCommand)
        ensures
            r.db@ == self.state().name@,
            r.command == command,
            r.selection_criteria == selection_criteria,
            r.pinned_connection == pinned_connection,
    {
        RunCommand::new(self.name().to_string(), command, selection_criteria, pinned_connection)
    }

    /// The operation that runs the caller's command against this database
    /// in a session.
    ///
    /// Inside a transaction the command must not set a read concern of its
    /// own, which is an argument error, and the selection criteria of the
    /// transaction stand in where the caller gave none.
    pub fn run_command_in_session(
        &self,
        command: bson::Document,
        selection_criteria: Option<SelectionCriteria>,
        transaction: &Transaction,
    ) -> (r: Result<RunCommand, Error>)
        ensures
            match r {
                Ok(op) => !(transaction.active() && lookup(doc_view(command), "readConcern"@)
                    is Some) && op.db@ == self.state().name@ && op.command == command
                    && op.selection_criteria == session_criteria(selection_criteria, *transaction)
                    && op.pinned_connection is None,
                Err(e) => transaction.active() && lookup(doc_view(command), "readConcern"@)
                    is Some && e@.kind == (ErrorKindView::InvalidArgument {
                    message: "Cannot set read concern after starting a transaction"@,
                }) && e@.labels.len() == 0,
            },
    {
        let mut selection_criteria = selection_criteria;
        if transaction.is_active() {
            if has_field(&command, "readConcern") {
                return Err(
                    Error::invalid_argument("Cannot set read concern after starting a transaction"),
                );
            }
            selection_criteria = match selection_criteria {
                Some(c) => Some(c),
                None => transaction.selection_criteria(),
            };
        }
        Ok(self.run_command_operation(command, selection_criteria, None))
    }

    /// The operation that runs an aggregation over this database. The read
    /// concern, the write concern and the selection criteria of the
    /// database stand in where the caller set none.
    pub fn aggregate_operation(&self, pipeline: Vec<bson::Document>, options: Option<
        AggregateOptions,
    >) -> (r: Aggregate)
        ensures
            r.target.db() == self.state().name@,
            r.target is Database,
            r.pipeline == pipeline,
            r.options == resolved_aggregate(options, self.state()),
    {
        let read_concern = resolve_read_concern(None, self.read_concern());
        let write_concern = resolve_write_concern(None, self.write_concern());
        let selection_criteria = resolve_selection_criteria(None, self.selection_criteria());
        let options = match options {
            Some(o) => Some(
                AggregateOptions {
                    allow_disk_use: o.allow_disk_use,
                    batch_size: o.batch_size,
                    max_await_time: o.max_await_time,
                    max_time: o.max_time,
                    read_concern: match o.read_concern {
                        Some(c) => Some(c),
                        None => read_concern,
                    },
                    selection_criteria: match o.selection_criteria {
                        Some(c) => Some(c),
                        None => selection_criteria,
                    },
                    write_concern: match o.write_concern {
                        Some(c) => Some(c),
                        None => write_concern,
                    },
                },
            ),
            None => if read_concern.is_some() || write_concern.is_some()
                || selection_criteria.is_some() {
                Some(
                    AggregateOptions {
                        allow_disk_use: None,
                        batch_size: None,
                        max_await_time: None,
                        max_time: None,
                        read_concern,
                        selection_criteria,
                        write_concern,
                    },
                )
            } else {
                None
            },
        };
        Aggregate::new(AggregateTarget::Database(self.name().to_string()), pipeline, options)
    }

    /// What a change stream over this database keeps in order to open
    /// itself again. The read concern and the selection criteria of the
    /// database stand in where the caller set none.
    pub fn watch(&self, pipeline: Vec<bson::Document>, options: Option<ChangeStreamOptions>) -> (r:
        ChangeStreamData)
        ensures
            r.pipeline == pipeline,
            r.client == self.state().client,
            r.target.db() == self.state().name@,
            r.target is Database,
            optional_options(r.options) == resolved_watch(
                optional_options(options),
                self.state().read_concern,
                self.state().selection_criteria,
            ),
            !r.resume_attempted,
            !r.document_returned,
    {
        let read_concern = resolve_read_concern(None, self.read_concern());
        let selection_criteria = resolve_selection_criteria(None, self.selection_criteria());
        ChangeStreamData::new(
            pipeline,
            self.client().clone(),
            AggregateTarget::Database(self.name().to_string()),
            fill_watch(options, read_concern, selection_criteria),
        )
    }

    /// What a change stream over this database, opened in a session, keeps
    /// in order to open itself again.
    ///
    /// Inside a transaction the caller must not set a read concern, which
    /// is an argument error; the transaction's own concern applies, and
    /// the selection criteria of the transaction stand in where the caller
    /// set none. Outside a transaction the settings of the database stand
    /// in.
    pub fn watch_with_session(
        &self,
        pipeline: Vec<bson::Document>,
        options: Option<ChangeStreamOptions>,
        transaction: &Transaction,
    ) -> (r: Result<ChangeStreamData, Error>)
        ensures
            match r {
                Ok(data) => !(transaction.active() && sets_read_concern(options))
                    && data.pipeline == pipeline && data.client == self.state().client
                    && data.target.db() == self.state().name@ && data.target is Database
                    && optional_options(data.options) == session_watch(
                    optional_options(options),
                    self.state(),
                    *transaction,
                ) && !data.resume_attempted && !data.document_returned,
                Err(e) => transaction.active() && sets_read_concern(options) && e@.kind
                    == (ErrorKindView::InvalidArgument {
                    message: "Cannot set read concern after starting a transaction"@,
                }) && e@.labels.len() == 0,
            },
    {
        if transaction.is_active() {
            let sets_read_concern = match &options {
                Some(o) => o.read_concern.is_some(),
                None => false,
            };
            if sets_read_concern {
                return Err(
                    Error::invalid_argument("Cannot set read concern after starting a transaction"),
                );
            }
            Ok(
                ChangeStreamData::new(
                    pipeline,
                    self.client().clone(),
                    AggregateTarget::Database(self.name().to_string()),
                    fill_watch(options, None, transaction.selection_criteria()),
                ),
            )
        } else {
            Ok(self.watch(pipeline, options))
        }
    }
}

#[derive(Debug)]
pub struct CollectionInner {
    pub db: Database,
    pub name: String,
    pub selection_criteria: Option<SelectionCriteria>,
    pub read_concern: Option<ReadConcern>,
    pub write_concern: Option<WriteConcern>,
}

/// A handle to a collection of documents of type `T`.
#[derive(Debug)]
pub struct Collection<T> {
    inner: Arc<CollectionInner>,
    _phantom: PhantomData<T>,
}

impl<T> Collection<T> {
    /// What the handle stands for: the database, the name and the settings
    /// in force.
    pub closed spec fn state(&self) -> CollectionInner {
        *self.inner
    }

    /// The collection `name` of `db`. Each setting that `options` leaves
    /// open is inherited from the database.
    pub fn new(db: Database, name: &str, options: Option<CollectionOptions>) -> (r: Collection<T>)
        ensures
            r.state().db == db,
            r.state().name@ == name@,
            r.state().selection_criteria == inherited(
                match options {
                    Some(o) => o.selection_criteria,
                    None => None,
                },
                db.state().selection_criteria,
            ),
            r.state().read_concern == inherited(
                match options {
                    Some(o) => o.read_concern,
                    None => None,
                },
                db.state().read_concern,
            ),
            r.state().write_concern == inherited(
                match options {
                    Some(o) => o.write_concern,
                    None => None,
                },
                db.state().write_concern,
            ),
    {
        let options = match options {
            Some(o) => o,
            None => CollectionOptions {
                selection_criteria: None,
                read_concern: None,
                write_concern: None,
            },
        };
        let selection_criteria = resolve_selection_criteria(
            options.selection_criteria.as_ref(),
            db.selection_criteria(),
        );
        let read_concern = resolve_read_concern(options.read_concern.as_ref(), db.read_concern());
        let write_concern = resolve_write_concern(options.write_concern.as_ref(), db.write_concern());
        Collection {
            inner: Arc::new(
                CollectionInner {
                    db,
                    name: name.to_string(),
                    selection_criteria,
                    read_concern,
                    write_concern,
                },
            ),
            _phantom: PhantomData,
        }
    }

    /// The name of the collection.
    pub fn name(&self) -> (r: &str)
        ensures
            r@ == self.state().name@,
    {
        self.inner.name.as_str()
    }

    /// The namespace of the collection: its database and its own name.
    pub fn namespace(&self) -> (r: Namespace)
        ensures
            r.db@ == self.state().db.state().name@,
            r.coll@ == self.state().name@,
    {
        Namespace::new(self.inner.db.name(), self.inner.name.as_str())
    }

    /// The selection criteria of the collection.
    pub fn selection_criteria(&self) -> (r: Option<&SelectionCriteria>)
        ensures
            match r {
                Some(c) => self.state().selection_criteria == Some(*c),
                None => self.state().selection_criteria is None,
            },
    {
        self.inner.selection_criteria.as_ref()
    }

    /// The read concern of the collection.
    pub fn read_concern(&self) -> (r: Option<&ReadConcern>)
        ensures
            match r {
                Some(c) => self.state().read_concern == Some(*c),
                None => self.state().read_concern is None,
            },
    {
        self.inner.read_concern.as_ref()
    }

    /// The write concern of the collection.
    pub fn write_concern(&self) -> (r: Option<&WriteConcern>)
        ensures
            match r {
                Some(c) => self.state().write_concern == Some(*c),
                None => self.state().write_concern is None,
            },
    {
        self.inner.write_concern.as_ref()
    }
}

} // verus!
