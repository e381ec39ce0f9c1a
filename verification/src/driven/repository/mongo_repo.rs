//! The MongoDB sandwich store: the stored form of a sandwich, the connection settings, the
//! search filter, and what each store operation makes of the database's reply. The database
//! calls themselves are made by the program around this library.
use vstd::prelude::*;
use vstd::string::*;

use crate::config::{config_problem, PersistenceConfig};
use crate::domain::sandwich::{
    is_valid_sandwich, new_sandwich, sandwich_result_view, Sandwich, SandwichType, SandwichView,
};
use crate::driven::repository::object_id::{
    decode_object_id, encode_object_id, is_canonical_object_id_hex, is_object_id_hex,
    lemma_decode_encode, lemma_encode_decode, names_object_id, new_object_id, object_id_parse_error,
    object_id_to_hex, parse_object_id,
};
use crate::driven::repository::{
    FindSandwich, FindSandwichView, RepoCreateError, RepoDeleteError, RepoFindAllError,
    RepoSelectError, RepoUpdateError,
};
use crate::text::{clone_strings, decimal_digits, decimal_string, strings_view};

verus! {

/// A sandwich as the store keeps it: the identifier is the twelve bytes of an object id.
#[derive(Debug)]
pub struct SandwichMongo {
    pub _id: [u8; 12],
    pub name: String,
    pub ingredients: Vec<String>,
    pub sandwich_type: SandwichType,
}

/// A stored sandwich as mathematical values.
pub struct SandwichMongoView {
    pub id: Seq<u8>,
    pub name: Seq<char>,
    pub ingredients: Seq<Seq<char>>,
    pub sandwich_type: SandwichType,
}

impl View for SandwichMongo {
    type V = SandwichMongoView;

    open spec fn view(&self) -> SandwichMongoView {
        SandwichMongoView {
            id: self._id@,
            name: self.name@,
            ingredients: strings_view(self.ingredients@),
            sandwich_type: self.sandwich_type,
        }
    }
}

/// The sandwich that a stored document gives back: its identifier is the hex text of the
/// stored bytes.
pub open spec fn loaded_sandwich(m: SandwichMongoView) -> Result<SandwichView, Seq<char>> {
    new_sandwich(encode_object_id(m.id), m.name, m.ingredients, m.sandwich_type)
}

/// The stored form of a sandwich whose identifier spells the given bytes.
pub open spec fn stored_sandwich(s: SandwichView, id: Seq<u8>) -> SandwichMongoView {
    SandwichMongoView { id, name: s.name, ingredients: s.ingredients, sandwich_type: s.sandwich_type }
}

/// A sandwich can be stored when it has no identifier yet or its identifier names an object id.
pub open spec fn is_storable(s: SandwichView) -> bool {
    s.id matches Some(id) ==> is_object_id_hex(id)
}

impl SandwichMongo {
    /// The stored form of a sandwich. A sandwich without an identifier gets a fresh object id,
    /// drawn from the clock, a random process value and a counter.
    pub fn from(sandwich: Sandwich) -> (r: SandwichMongo)
        requires
            is_storable(sandwich@),
        ensures
            r@.name == sandwich@.name,
            r@.ingredients == sandwich@.ingredients,
            r@.sandwich_type == sandwich@.sandwich_type,
            sandwich@.id matches Some(id) ==> r@.id == decode_object_id(id),
    {
        if sandwich.id().is_none() {
            let fresh = new_object_id();
            SandwichMongo::with_fresh_id(sandwich, fresh)
        } else {
            // The sandwich's own identifier is used; no fresh one is drawn.
            SandwichMongo::with_fresh_id(sandwich, [0u8; 12])
        }
    }

    /// The stored form of a sandwich, taking `fresh` as the object id when the sandwich has
    /// no identifier yet; a sandwich with an identifier keeps the object id it names.
    pub fn with_fresh_id(sandwich: Sandwich, fresh: [u8; 12]) -> (r: SandwichMongo)
        requires
            is_storable(sandwich@),
        ensures
            r@.name == sandwich@.name,
            r@.ingredients == sandwich@.ingredients,
            r@.sandwich_type == sandwich@.sandwich_type,
            sandwich@.id matches Some(id) ==> r@.id == decode_object_id(id),
            sandwich@.id is None ==> r@.id == fresh@,
    {
        let object_id = match sandwich.id() {
            Some(id) => {
                let parsed = parse_object_id(id.as_str());
                parsed.unwrap()
            },
            None => fresh,
        };
        SandwichMongo {
            _id: object_id,
            name: sandwich.name().clone(),
            ingredients: clone_strings(sandwich.ingredients()),
            sandwich_type: sandwich.sandwich_type(),
        }
    }

    /// Whether a sandwich can be stored: it has no identifier yet, or its identifier names
    /// an object id.
    pub fn can_store(sandwich: &Sandwich) -> (r: bool)
        ensures
            r == is_storable(sandwich@),
    {
        match sandwich.id() {
            Some(id) => names_object_id(id.as_str()),
            None => true,
        }
    }

    /// Whether this document holds a valid sandwich.
    pub fn is_loadable(&self) -> (r: bool)
        ensures
            r == loaded_sandwich(self@) is Ok,
    {
        !self.name.as_str().is_empty() && self.ingredients.len() > 0
    }

    /// The sandwich that this document stands for, or the message of the rule it breaks.
    pub fn try_into(self) -> (r: Result<Sandwich, String>)
        ensures
            sandwich_result_view(r) == loaded_sandwich(self@),
    {
        Sandwich::new(object_id_to_hex(self._id), self.name, self.ingredients, self.sandwich_type)
    }
}

/// Storing a sandwich whose identifier is canonical hex text and loading it back gives the
/// same sandwich.
pub proof fn lemma_store_then_load(s: SandwichView)
    requires
        is_valid_sandwich(s.name, s.ingredients),
        s.id matches Some(id) && is_canonical_object_id_hex(id),
    ensures
        loaded_sandwich(stored_sandwich(s, decode_object_id(s.id->0))) == Ok::<SandwichView, Seq<char>>(s),
{
    lemma_encode_decode(s.id->0);
}

/// Loading a stored document and storing the sandwich again keeps the document's identifier.
pub proof fn lemma_load_then_store(m: SandwichMongoView)
    requires
        m.id.len() == 12,
        loaded_sandwich(m) is Ok,
    ensures
        is_storable(loaded_sandwich(m)->Ok_0),
        stored_sandwich(loaded_sandwich(m)->Ok_0, decode_object_id(loaded_sandwich(m)->Ok_0.id->0)) == m,
{
    lemma_decode_encode(m.id);
}

/// The filter the store searches with.
#[derive(Debug)]
pub enum SandwichFilter {
    /// The document with this object id.
    ById([u8; 12]),
    /// Documents with this name, if one is given, holding all of these ingredients, if any
    /// are given.
    ByFields { name: Option<String>, all_ingredients: Option<Vec<String>> },
}

/// A filter as mathematical values.
pub enum SandwichFilterView {
    ById(Seq<u8>),
    ByFields { name: Option<Seq<char>>, all_ingredients: Option<Seq<Seq<char>>> },
}

impl View for SandwichFilter {
    type V = SandwichFilterView;

    open spec fn view(&self) -> SandwichFilterView {
        match self {
            SandwichFilter::ById(id) => SandwichFilterView::ById(id@),
            SandwichFilter::ByFields { name, all_ingredients } => SandwichFilterView::ByFields {
                name: match name {
                    Some(n) => Some(n@),
                    None => None,
                },
                all_ingredients: match all_ingredients {
                    Some(v) => Some(strings_view(v@)),
                    None => None,
                },
            },
        }
    }
}

/// The filter for search criteria: an identifier wins over everything else; otherwise an
/// empty name and an empty ingredient list do not restrict the search.
pub open spec fn filter_for(find: FindSandwichView) -> SandwichFilterView {
    match find.id {
        Some(id) => SandwichFilterView::ById(decode_object_id(id)),
        None => SandwichFilterView::ByFields {
            name: if find.name.len() == 0 { None } else { Some(find.name) },
            all_ingredients: if find.ingredients.len() == 0 { None } else { Some(find.ingredients) },
        },
    }
}

/// Without an identifier, the name and the ingredient list restrict the search each on its
/// own: a non-empty name is matched as given, a non-empty ingredient list is required in
/// full, and an empty one restricts nothing, whatever the other criterion is.
pub proof fn lemma_filter_criteria_are_independent(find: FindSandwichView)
    requires
        find.id is None,
    ensures
        filter_for(find) is ByFields,
        find.name.len() > 0 ==> filter_for(find)->name == Some(find.name),
        find.name.len() == 0 ==> filter_for(find)->name is None,
        find.ingredients.len() > 0 ==> filter_for(find)->all_ingredients == Some(find.ingredients),
        find.ingredients.len() == 0 ==> filter_for(find)->all_ingredients is None,
{
}

/// Changing only the name of search criteria without an identifier leaves the ingredient
/// restriction as it was, and changing only the ingredients leaves the name restriction.
pub proof fn lemma_filter_criteria_do_not_interact(a: FindSandwichView, b: FindSandwichView)
    requires
        a.id is None,
        b.id is None,
    ensures
        a.ingredients == b.ingredients ==> filter_for(a)->all_ingredients == filter_for(b)->all_ingredients,
        a.name == b.name ==> filter_for(a)->name == filter_for(b)->name,
{
}

/// An identifier in the criteria selects by that identifier alone: two criteria with the
/// same identifier give the same filter, whatever their names and ingredients.
pub proof fn lemma_filter_by_identifier_ignores_the_rest(a: FindSandwichView, b: FindSandwichView)
    requires
        a.id is Some,
        a.id == b.id,
    ensures
        filter_for(a) == filter_for(b),
        filter_for(a) == SandwichFilterView::ById(decode_object_id(a.id->0)),
{
}

/// The identifier that a created sandwich gets, used as search criteria, selects the
/// document that the store inserted, whatever name and ingredients come with it.
pub proof fn lemma_created_identifier_selects_inserted(
    inserted: Seq<u8>,
    name: Seq<char>,
    ingredients: Seq<Seq<char>>,
)
    requires
        inserted.len() == 12,
    ensures
        is_object_id_hex(encode_object_id(inserted)),
        filter_for(FindSandwichView { id: Some(encode_object_id(inserted)), name, ingredients })
            == SandwichFilterView::ById(inserted),
{
    lemma_decode_encode(inserted);
}

/// The connection URI for the settings:
/// `mongodb://<user>:<password>@<host>[:<port>]/<auth_db>`.
pub open spec fn connection_uri(config: PersistenceConfig) -> Seq<char> {
    let address = match config.port {
        None => config.host@,
        Some(port) => config.host@ + ":"@ + decimal_digits(port as nat),
    };
    "mongodb://"@ + config.user@ + ":"@ + config.password@ + "@"@ + address + "/"@ + config.auth_db@
}

/// The connection URI starts with `mongodb://`, the user, `:`, the password, `@` and the
/// host; it ends with `/` and the authentication database; in between stands nothing
/// without a port, and `:` with the port's decimal digits with one.
pub proof fn lemma_connection_uri_parts(config: PersistenceConfig)
    ensures
        ({
            let uri = connection_uri(config);
            let head = "mongodb://"@ + config.user@ + ":"@ + config.password@ + "@"@ + config.host@;
            let tail = "/"@ + config.auth_db@;
            let port_part = match config.port {
                None => Seq::<char>::empty(),
                Some(port) => ":"@ + decimal_digits(port as nat),
            };
            &&& uri.len() == head.len() + port_part.len() + tail.len()
            &&& uri.take(head.len() as int) == head
            &&& uri.skip(uri.len() - tail.len()) == tail
            &&& uri.subrange(head.len() as int, (head.len() + port_part.len()) as int) == port_part
        }),
{
    let uri = connection_uri(config);
    let head = "mongodb://"@ + config.user@ + ":"@ + config.password@ + "@"@ + config.host@;
    let tail = "/"@ + config.auth_db@;
    let port_part = match config.port {
        None => Seq::<char>::empty(),
        Some(port) => ":"@ + decimal_digits(port as nat),
    };
    assert(uri =~= head + port_part + tail);
    assert(uri.take(head.len() as int) =~= head);
    assert(uri.skip(uri.len() - tail.len()) =~= tail);
    assert(uri.subrange(head.len() as int, (head.len() + port_part.len()) as int) =~= port_part);
}

/// Builds the connection URI for the settings.
pub fn create_connection_uri(config: &PersistenceConfig) -> (r: String)
    ensures
        r@ == connection_uri(*config),
{
    let mut uri = String::new();
    uri.append("mongodb://");
    uri.append(config.user.as_str());
    uri.append(":");
    uri.append(config.password.as_str());
    uri.append("@");
    uri.append(config.host.as_str());
    match config.port {
        None => {},
        Some(port) => {
            uri.append(":");
            let digits = decimal_string(port);
            uri.append(digits.as_str());
        },
    }
    uri.append("/");
    uri.append(config.auth_db.as_str());
    proof {
        assert(uri@ =~= connection_uri(*config));
    }
    uri
}

/// What an update writes: the document with this object id gets this name and these
/// ingredients; its kind is left as stored.
#[derive(Debug)]
pub struct SandwichUpdate {
    pub id: [u8; 12],
    pub name: String,
    pub ingredients: Vec<String>,
}

/// An update as mathematical values.
pub struct SandwichUpdateView {
    pub id: Seq<u8>,
    pub name: Seq<char>,
    pub ingredients: Seq<Seq<char>>,
}

impl View for SandwichUpdate {
    type V = SandwichUpdateView;

    open spec fn view(&self) -> SandwichUpdateView {
        SandwichUpdateView { id: self.id@, name: self.name@, ingredients: strings_view(self.ingredients@) }
    }
}

impl SandwichUpdate {
    /// The update for a stored sandwich: select it by its object id and set its name and
    /// ingredients.
    pub fn from(stored: SandwichMongo) -> (r: SandwichUpdate)
        ensures
            r@ == (SandwichUpdateView { id: stored@.id, name: stored@.name, ingredients: stored@.ingredients }),
    {
        SandwichUpdate { id: stored._id, name: stored.name, ingredients: stored.ingredients }
    }
}

/// One thing that walking the store's cursor can bring.
#[derive(Debug)]
pub enum CursorEvent {
    /// Moving the cursor failed.
    AdvanceFailed,
    /// The cursor has no more documents.
    Exhausted,
    /// The cursor's current document.
    Document(SandwichMongo),
    /// The current document could not be read as a stored sandwich.
    DeserializeFailed,
}

/// Where listing sandwiches stands: go on with the sandwiches found so far, or done.
#[derive(Debug)]
pub enum FindAllStep {
    Continue(Vec<Sandwich>),
    Done(Result<Vec<Sandwich>, RepoFindAllError>),
}

/// The views of a list of sandwiches.
pub open spec fn sandwiches_view(v: Seq<Sandwich>) -> Seq<SandwichView> {
    v.map_values(|s: Sandwich| s@)
}

/// A cursor event as mathematical values.
pub enum CursorEventView {
    AdvanceFailed,
    Exhausted,
    Document(SandwichMongoView),
    DeserializeFailed,
}

impl View for CursorEvent {
    type V = CursorEventView;

    open spec fn view(&self) -> CursorEventView {
        match self {
            CursorEvent::AdvanceFailed => CursorEventView::AdvanceFailed,
            CursorEvent::Exhausted => CursorEventView::Exhausted,
            CursorEvent::Document(m) => CursorEventView::Document(m@),
            CursorEvent::DeserializeFailed => CursorEventView::DeserializeFailed,
        }
    }
}

/// A listing step as mathematical values; a failure is its message.
pub enum FindAllStepView {
    Continue(Seq<SandwichView>),
    Done(Result<Seq<SandwichView>, Seq<char>>),
}

impl View for FindAllStep {
    type V = FindAllStepView;

    open spec fn view(&self) -> FindAllStepView {
        match self {
            FindAllStep::Continue(found) => FindAllStepView::Continue(sandwiches_view(found@)),
            FindAllStep::Done(Ok(found)) => FindAllStepView::Done(Ok(sandwiches_view(found@))),
            FindAllStep::Done(Err(RepoFindAllError::Unknown(m))) => FindAllStepView::Done(Err(m@)),
        }
    }
}

/// One step of walking the cursor: a document's sandwich joins the end of the list; the
/// end of the cursor gives the list; any failure ends the walk with its message.
pub open spec fn cursor_step(found: Seq<SandwichView>, event: CursorEventView) -> FindAllStepView {
    match event {
        CursorEventView::AdvanceFailed => FindAllStepView::Done(Err("Cursor iteration error"@)),
        CursorEventView::Exhausted => FindAllStepView::Done(Ok(found)),
        CursorEventView::DeserializeFailed => FindAllStepView::Done(Err("Error while deserializing"@)),
        CursorEventView::Document(m) => match loaded_sandwich(m) {
            Ok(s) => FindAllStepView::Continue(found.push(s)),
            Err(msg) => FindAllStepView::Done(Err(msg)),
        },
    }
}

/// Where a walk over the given events ends, starting from the sandwiches found so far:
/// none while the events run out before the walk is done.
pub open spec fn walk_cursor(found: Seq<SandwichView>, events: Seq<CursorEventView>) -> Option<Result<Seq<SandwichView>, Seq<char>>>
    decreases events.len(),
{
    if events.len() == 0 {
        None
    } else {
        match cursor_step(found, events[0]) {
            FindAllStepView::Continue(more) => walk_cursor(more, events.drop_first()),
            FindAllStepView::Done(r) => Some(r),
        }
    }
}

/// Whatever has been found so far, a failure of the cursor (moving it, or reading its
/// document) ends the walk with an error, and the end of the cursor gives exactly what was
/// found.
pub proof fn lemma_cursor_step_ends(found: Seq<SandwichView>)
    ensures
        cursor_step(found, CursorEventView::AdvanceFailed) matches FindAllStepView::Done(Err(_)),
        cursor_step(found, CursorEventView::DeserializeFailed) matches FindAllStepView::Done(Err(_)),
        cursor_step(found, CursorEventView::Exhausted) == FindAllStepView::Done(Ok::<Seq<SandwichView>, Seq<char>>(found)),
{
}

/// A document joins the list only at its end, after everything found before it, and a
/// document that holds no valid sandwich ends the walk with an error.
pub proof fn lemma_cursor_step_document(found: Seq<SandwichView>, m: SandwichMongoView)
    ensures
        loaded_sandwich(m) is Ok ==> (cursor_step(found, CursorEventView::Document(m)) matches FindAllStepView::Continue(more)
            && more.len() == found.len() + 1 && more.take(found.len() as int) == found),
        loaded_sandwich(m) is Err ==> cursor_step(found, CursorEventView::Document(m)) matches FindAllStepView::Done(Err(_)),
{
    if loaded_sandwich(m) is Ok {
        let more = found.push(loaded_sandwich(m)->Ok_0);
        assert(more.take(found.len() as int) =~= found);
    }
}

/// A walk that meets a cursor failure before the cursor's end never gives a list: it ends
/// with an error.
pub proof fn lemma_walk_with_failure_is_an_error(found: Seq<SandwichView>, events: Seq<CursorEventView>, k: int)
    requires
        0 <= k < events.len(),
        events[k] is AdvanceFailed || events[k] is DeserializeFailed,
        forall|i: int| 0 <= i < k ==> #[trigger] events[i] is Document,
    ensures
        walk_cursor(found, events) matches Some(Err(_)),
    decreases k,
{
    if k > 0 {
        assert(events[0] is Document);
        match cursor_step(found, events[0]) {
            FindAllStepView::Continue(more) => {
                let rest = events.drop_first();
                assert forall|i: int| 0 <= i < k - 1 implies #[trigger] rest[i] is Document by {
                    assert(rest[i] == events[i + 1]);
                    assert(events[i + 1] is Document);
                }
                assert(rest[k - 1] == events[k]);
                lemma_walk_with_failure_is_an_error(more, rest, k - 1);
            },
            FindAllStepView::Done(_) => {},
        }
    }
}

/// A cursor over valid documents, walked to its end, lists their sandwiches after those
/// already found, in the cursor's order.
pub proof fn lemma_walk_lists_documents_in_order(found: Seq<SandwichView>, documents: Seq<SandwichMongoView>)
    requires
        forall|i: int| 0 <= i < documents.len() ==> #[trigger] loaded_sandwich(documents[i]) is Ok,
    ensures
        walk_cursor(
            found,
            documents.map_values(|m: SandwichMongoView| CursorEventView::Document(m)).push(CursorEventView::Exhausted),
        ) == Some(Ok::<Seq<SandwichView>, Seq<char>>(
            found + documents.map_values(|m: SandwichMongoView| loaded_sandwich(m)->Ok_0),
        )),
    decreases documents.len(),
{
    let events = documents.map_values(|m: SandwichMongoView| CursorEventView::Document(m)).push(CursorEventView::Exhausted);
    let loaded = documents.map_values(|m: SandwichMongoView| loaded_sandwich(m)->Ok_0);
    if documents.len() == 0 {
        assert(events.drop_first() =~= Seq::<CursorEventView>::empty());
        assert(found + loaded =~= found);
    } else {
        let first = documents[0];
        let rest = documents.drop_first();
        assert(loaded_sandwich(documents[0]) is Ok);
        assert forall|i: int| 0 <= i < rest.len() implies #[trigger] loaded_sandwich(rest[i]) is Ok by {
            assert(rest[i] == documents[i + 1]);
            assert(loaded_sandwich(documents[i + 1]) is Ok);
        }
        let s = loaded_sandwich(first)->Ok_0;
        lemma_walk_lists_documents_in_order(found.push(s), rest);
        assert(events[0] == CursorEventView::Document(first));
        assert(events.drop_first() =~= rest.map_values(|m: SandwichMongoView| CursorEventView::Document(m)).push(CursorEventView::Exhausted));
        assert(found.push(s) + rest.map_values(|m: SandwichMongoView| loaded_sandwich(m)->Ok_0) =~= found + loaded);
    }
}

/// The store for sandwiches in one MongoDB collection.
#[derive(Clone, Debug)]
pub struct SandwichMongoRepository {
    database: String,
    collection: String,
    conn_uri: String,
}

impl SandwichMongoRepository {
    /// A store for the settings, or the settings' problem.
    pub fn new(config: &PersistenceConfig) -> (r: Result<SandwichMongoRepository, String>)
        ensures
            match config_problem(config.host@, config.database@, config.schema_collection@) {
                None => r matches Ok(repo) && repo.database()@ == config.database@
                    && repo.collection()@ == config.schema_collection@
                    && repo.conn_uri()@ == connection_uri(*config),
                Some(m) => r matches Err(e) && e@ == m,
            },
    {
        match config.validate() {
            Ok(()) => {},
            Err(e) => {
                return Err(e);
            },
        }
        let conn_uri = create_connection_uri(config);
        Ok(SandwichMongoRepository {
            database: config.database.clone(),
            collection: config.schema_collection.clone(),
            conn_uri,
        })
    }

    /// The database name.
    pub closed spec fn database(&self) -> String {
        self.database
    }

    /// The collection name.
    pub closed spec fn collection(&self) -> String {
        self.collection
    }

    /// The connection URI.
    pub closed spec fn conn_uri(&self) -> String {
        self.conn_uri
    }

    /// The database name.
    pub fn database_name(&self) -> (r: &String)
        ensures
            r@ == self.database()@,
    {
        &self.database
    }

    /// The collection name.
    pub fn collection_name(&self) -> (r: &String)
        ensures
            r@ == self.collection()@,
    {
        &self.collection
    }

    /// The connection URI.
    pub fn connection_uri(&self) -> (r: &String)
        ensures
            r@ == self.conn_uri()@,
    {
        &self.conn_uri
    }

    /// The filter for search criteria. An identifier must name an object id.
    pub fn compose_document_from_sandwich(&self, sandwich: FindSandwich) -> (r: SandwichFilter)
        requires
            sandwich@.id matches Some(id) ==> is_object_id_hex(id),
        ensures
            r@ == filter_for(sandwich@),
    {
        match sandwich.id {
            Some(id) => {
                let parsed = parse_object_id(id.as_str());
                SandwichFilter::ById(parsed.unwrap())
            },
            None => {
                let name = if sandwich.name.as_str().is_empty() {
                    None
                } else {
                    Some(sandwich.name)
                };
                let all_ingredients = if sandwich.ingredients.len() == 0 {
                    None
                } else {
                    Some(sandwich.ingredients)
                };
                SandwichFilter::ByFields { name, all_ingredients }
            },
        }
    }

    /// What creating gives once the store has answered the insert of the sandwich's stored
    /// form with the new document's object id, or with an error message.
    pub fn create_outcome(sandwich: &Sandwich, inserted: Result<[u8; 12], String>) -> (r: Result<Sandwich, RepoCreateError>)
        ensures
            match inserted {
                Ok(id) => r matches Ok(created) && created@ == (SandwichView {
                    id: Some(encode_object_id(id@)),
                    name: sandwich@.name,
                    ingredients: sandwich@.ingredients,
                    sandwich_type: sandwich@.sandwich_type,
                }),
                Err(m) => r matches Err(RepoCreateError::Unknown(e)) && e@ == m@,
            },
    {
        match inserted {
            Ok(id) => {
                let name = sandwich.name().clone();
                let ingredients = clone_strings(sandwich.ingredients());
                let hex = object_id_to_hex(id);
                proof {
                    lemma_decode_encode(id@);
                }
                let created = Sandwich::new(hex, name, ingredients, sandwich.sandwich_type());
                Ok(created.unwrap())
            },
            Err(m) => Err(RepoCreateError::Unknown(m)),
        }
    }

    /// What reading one sandwich gives once the store has answered the search: the
    /// document found, none, or a failure. A document found must hold a valid sandwich.
    pub fn find_one_outcome(found: Result<Option<SandwichMongo>, ()>) -> (r: Result<Sandwich, RepoSelectError>)
        requires
            found matches Ok(Some(m)) ==> loaded_sandwich(m@) is Ok,
        ensures
            match found {
                Ok(Some(m)) => r matches Ok(s) && loaded_sandwich(m@) == Ok::<SandwichView, Seq<char>>(s@),
                Ok(None) => r matches Err(RepoSelectError::NotFound),
                Err(()) => r matches Err(RepoSelectError::Unknown(e)) && e@ == "unknown error"@,
            },
    {
        match found {
            Ok(Some(m)) => {
                let loaded = m.try_into();
                Ok(loaded.unwrap())
            },
            Ok(None) => Err(RepoSelectError::NotFound),
            Err(()) => Err(RepoSelectError::Unknown("unknown error".to_owned())),
        }
    }

    /// Where listing stands once the store has answered the search: with no cursor the
    /// list is empty, with a cursor the walk starts from no sandwich.
    pub fn find_all_start(opened: bool) -> (r: FindAllStep)
        ensures
            opened ==> (r matches FindAllStep::Continue(found) && found@.len() == 0),
            !opened ==> (r matches FindAllStep::Done(Ok(found)) && found@.len() == 0),
    {
        if opened {
            FindAllStep::Continue(Vec::new())
        } else {
            FindAllStep::Done(Ok(Vec::new()))
        }
    }

    /// One step of walking the cursor: a document's sandwich joins the end of the list;
    /// the end of the cursor gives the list; any failure ends the walk with its message.
    pub fn find_all_step(found: Vec<Sandwich>, event: CursorEvent) -> (r: FindAllStep)
        ensures
            r@ == cursor_step(sandwiches_view(found@), event@),
    {
        match event {
            CursorEvent::AdvanceFailed => FindAllStep::Done(
                Err(RepoFindAllError::Unknown("Cursor iteration error".to_owned())),
            ),
            CursorEvent::Exhausted => FindAllStep::Done(Ok(found)),
            CursorEvent::DeserializeFailed => FindAllStep::Done(
                Err(RepoFindAllError::Unknown("Error while deserializing".to_owned())),
            ),
            CursorEvent::Document(m) => {
                match m.try_into() {
                    Ok(s) => {
                        let mut list = found;
                        list.push(s);
                        proof {
                            assert(sandwiches_view(list@) =~= sandwiches_view(found@).push(s@));
                        }
                        FindAllStep::Continue(list)
                    },
                    Err(msg) => FindAllStep::Done(Err(RepoFindAllError::Unknown(msg))),
                }
            },
        }
    }

    /// What updating gives once the store has answered with the number of documents the
    /// sandwich's identifier matched, or with a failure.
    pub fn update_outcome(sandwich: Sandwich, matched: Result<u64, ()>) -> (r: Result<Sandwich, RepoUpdateError>)
        ensures
            match matched {
                Ok(n) => if n > 0 {
                    r matches Ok(s) && s@ == sandwich@
                } else {
                    r matches Err(RepoUpdateError::NotFound)
                },
                Err(()) => r matches Err(RepoUpdateError::Unknown(e))
                    && e@ == "An error occurred while updating the document"@,
            },
    {
        match matched {
            Ok(n) => {
                if n > 0 {
                    Ok(sandwich)
                } else {
                    Err(RepoUpdateError::NotFound)
                }
            },
            Err(()) => Err(RepoUpdateError::Unknown("An error occurred while updating the document".to_owned())),
        }
    }

    /// The object id to delete, or invalid data when the text names none.
    pub fn delete_target(id: &str) -> (r: Result<[u8; 12], RepoDeleteError>)
        ensures
            r is Ok <==> is_object_id_hex(id@),
            r matches Ok(bytes) ==> bytes@ == decode_object_id(id@),
            r matches Err(e) ==> (e matches RepoDeleteError::InvalidData(m) && m@ == object_id_parse_error(id@)),
    {
        match parse_object_id(id) {
            Ok(bytes) => Ok(bytes),
            Err(m) => Err(RepoDeleteError::InvalidData(m)),
        }
    }

    /// What deleting gives once the store has answered with the number of documents
    /// deleted, or with a failure: success only when exactly one went.
    pub fn delete_outcome(deleted: Result<u64, ()>) -> (r: Result<(), RepoDeleteError>)
        ensures
            match deleted {
                Ok(n) => if n == 1 {
                    r is Ok
                } else {
                    r matches Err(RepoDeleteError::NotFound)
                },
                Err(()) => r matches Err(RepoDeleteError::Unknown(e))
                    && e@ == "An error occurred during the deletion"@,
            },
    {
        match deleted {
            Ok(n) => {
                if n == 1 {
                    Ok(())
                } else {
                    Err(RepoDeleteError::NotFound)
                }
            },
            Err(()) => Err(RepoDeleteError::Unknown("An error occurred during the deletion".to_owned())),
        }
    }
}

} // verus!
