//! Query client: the queries sent to the query service and the reading of the
//! rows it returns.
use vstd::prelude::*;
use vstd::string::*;
use crate::bridge::opt_view;
use crate::ids::{last_segment, read_id_from_url};
use crate::known_entities::{EntitiesId, LocationType};
use crate::text::{cat, find_value, join, joined, lookup, views};

verus! {

/// One row of a query answer: the value bound to each projected variable.
#[derive(Debug, Clone)]
pub struct Row {
    pub vars: Vec<String>,
    pub values: Vec<String>,
}

impl Row {
    /// The value bound to `var` in the row.
    pub open spec fn binding(self, var: Seq<char>) -> Option<Seq<char>> {
        lookup(views(self.vars@), views(self.values@), var)
    }

    pub fn get(&self, var: &str) -> (r: Option<String>)
        ensures
            opt_view(r) == self.binding(var@),
    {
        find_value(&self.vars, &self.values, var)
    }
}

/// Failures of the query side.
#[derive(Debug, Clone, PartialEq, Eq)]
pub enum QueryError {
    /// No schema element carries the marker value.
    TopoIdNotFound(String),
    /// Several schema elements carry the marker value.
    DuplicatedTopoId(String),
    /// The query could not be carried out or its answer not read.
    Transport(String),
    /// The reference found for a schema element is not usable (the reference,
    /// the marker value).
    TopoInvalidId(String, String),
    /// A search meant to find at most one entity found several.
    Duplicate(String),
}

impl QueryError {
    /// A line describing the error.
    pub fn message(&self) -> (r: String)
        ensures
            r@ == match self {
                QueryError::TopoIdNotFound(t) => "No entity with topo id "@ + t@ + " found"@,
                QueryError::DuplicatedTopoId(t) => "Several entities with topo id "@ + t@,
                QueryError::Transport(m) => "sparql error: "@ + m@,
                QueryError::TopoInvalidId(id, t) => "Error parsing the id "@ + id@
                    + " for entity with topo id "@ + t@,
                QueryError::Duplicate(m) => "Too many elements "@ + m@,
            },
    {
        match self {
            QueryError::TopoIdNotFound(t) => {
                let s = cat("No entity with topo id ", t.as_str());
                cat(s.as_str(), " found")
            },
            QueryError::DuplicatedTopoId(t) => cat("Several entities with topo id ", t.as_str()),
            QueryError::Transport(m) => cat("sparql error: ", m.as_str()),
            QueryError::TopoInvalidId(id, t) => {
                let s = cat("Error parsing the id ", id.as_str());
                let s = cat(s.as_str(), " for entity with topo id ");
                cat(s.as_str(), t.as_str())
            },
            QueryError::Duplicate(m) => cat("Too many elements ", m.as_str()),
        }
    }
}

/// The full query text for the projected `variables` and the pattern
/// `where_clause`, with English labels available.
pub open spec fn select_text(variables: Seq<Seq<char>>, where_clause: Seq<char>) -> Seq<char> {
    "SELECT "@ + joined(variables, " "@) + " WHERE { "@ + where_clause
        + " SERVICE wikibase:label { bd:serviceParam wikibase:language \"en\". } }"@
}

/// The query text projecting `variables` out of `where_clause`.
pub fn select_query(variables: &Vec<String>, where_clause: &str) -> (r: String)
    ensures
        r@ == select_text(views(variables@), where_clause@),
{
    let mut s = "SELECT ".to_owned();
    let vars = join(variables, " ");
    s.append(vars.as_str());
    s.append(" WHERE { ");
    s.append(where_clause);
    s.append(" SERVICE wikibase:label { bd:serviceParam wikibase:language \"en\". } }");
    s
}

/// The pattern finding the entities whose marker property `topo_id_id` has the
/// value `item_topo_id`, bound to `?item_id`.
pub open spec fn topo_id_pattern(topo_id_id: Seq<char>, item_topo_id: Seq<char>) -> Seq<char> {
    "?item_id wdt:"@ + topo_id_id + " '"@ + item_topo_id + "'"@
}

pub fn topo_id_query(topo_id_id: &str, item_topo_id: &str) -> (r: String)
    ensures
        r@ == topo_id_pattern(topo_id_id@, item_topo_id@),
{
    let mut s = "?item_id wdt:".to_owned();
    s.append(topo_id_id);
    s.append(" '");
    s.append(item_topo_id);
    s.append("'");
    s
}

/// Resolves a schema element from the rows of its marker query: exactly one
/// row is required, and its reference gives the identifier.
pub fn resolve_topo_rows(rows: &Vec<Row>, item_topo_id: &str) -> (r: Result<String, QueryError>)
    ensures
        rows@.len() == 0 ==> r is Err && r->Err_0 is TopoIdNotFound && r->Err_0->TopoIdNotFound_0@
            == item_topo_id@,
        rows@.len() > 1 ==> r is Err && r->Err_0 is DuplicatedTopoId
            && r->Err_0->DuplicatedTopoId_0@ == item_topo_id@,
        rows@.len() == 1 ==> match rows@[0].binding("item_id"@) {
            Some(url) => r is Ok && r->Ok_0@ == last_segment(url),
            None => r is Err && r->Err_0 is TopoInvalidId,
        },
{
    if rows.len() == 0 {
        Err(QueryError::TopoIdNotFound(item_topo_id.to_owned()))
    } else if rows.len() > 1 {
        Err(QueryError::DuplicatedTopoId(item_topo_id.to_owned()))
    } else {
        match rows[0].get("item_id") {
            Some(url) => match read_id_from_url(url.as_str()) {
                Some(id) => Ok(id),
                None => Err(QueryError::TopoInvalidId(url, item_topo_id.to_owned())),
            },
            None => Err(QueryError::TopoInvalidId(String::new(), item_topo_id.to_owned())),
        }
    }
}

/// What a search for at most one entity, bound to `var`, finds in `rows`.
pub open spec fn single_match_spec(rows: Seq<Row>, var: Seq<char>) -> Option<Option<Seq<char>>> {
    if rows.len() == 0 {
        Some(None)
    } else if rows.len() == 1 {
        match rows[0].binding(var) {
            Some(url) => Some(Some(last_segment(url))),
            None => Some(None),
        }
    } else {
        None
    }
}

/// Reads the rows of a search for at most one entity: no row is "not found",
/// one row gives the identifier of the entity bound to `var`, several rows are
/// the error `Duplicate` with `what` as its text.
pub fn single_match(rows: &Vec<Row>, var: &str, what: &str) -> (r: Result<
    Option<String>,
    QueryError,
>)
    ensures
        match single_match_spec(rows@, var@) {
            Some(found) => r is Ok && opt_view(r->Ok_0) == found,
            None => r is Err && r->Err_0 is Duplicate && r->Err_0->Duplicate_0@ == what@,
        },
{
    if rows.len() == 0 {
        Ok(None)
    } else if rows.len() == 1 {
        match rows[0].get(var) {
            Some(url) => match read_id_from_url(url.as_str()) {
                Some(id) => Ok(Some(id)),
                None => Ok(None),
            },
            None => Ok(None),
        }
    } else {
        Err(QueryError::Duplicate(what.to_owned()))
    }
}

/// The pattern of the routes of the producer `producer_id` with the feed
/// identifier `gtfs_id`, reached through their data source.
pub open spec fn route_pattern(e: EntitiesId, producer_id: Seq<char>, gtfs_id: Seq<char>) -> Seq<
    char,
> {
    "?route wdt:"@ + e.properties.instance_of@ + " wd:"@ + e.items.route@ + ". ?route wdt:"@
        + e.properties.gtfs_id@ + " \""@ + gtfs_id + "\". ?route wdt:"@ + e.properties.data_source@
        + " ?data_source. ?data_source wdt:"@ + e.properties.produced_by@ + " wd:"@ + producer_id
        + "."@
}

pub fn route_query(e: &EntitiesId, producer_id: &str, gtfs_id: &str) -> (r: String)
    ensures
        r@ == route_pattern(*e, producer_id@, gtfs_id@),
{
    let mut s = "?route wdt:".to_owned();
    s.append(e.properties.instance_of.as_str());
    s.append(" wd:");
    s.append(e.items.route.as_str());
    s.append(". ?route wdt:");
    s.append(e.properties.gtfs_id.as_str());
    s.append(" \"");
    s.append(gtfs_id);
    s.append("\". ?route wdt:");
    s.append(e.properties.data_source.as_str());
    s.append(" ?data_source. ?data_source wdt:");
    s.append(e.properties.produced_by.as_str());
    s.append(" wd:");
    s.append(producer_id);
    s.append(".");
    s
}

/// The pattern of the stops of kind `kind` of the producer `producer_id` with
/// the feed identifier `gtfs_id`, reached through their data source.
pub open spec fn stop_pattern(
    e: EntitiesId,
    producer_id: Seq<char>,
    gtfs_id: Seq<char>,
    kind: LocationType,
) -> Seq<char> {
    "?stop wdt:"@ + e.properties.instance_of@ + " wd:"@ + e.location_type_spec(kind)
        + ". ?stop wdt:"@ + e.properties.gtfs_id@ + " \""@ + gtfs_id + "\". ?stop wdt:"@
        + e.properties.data_source@ + " ?data_source. ?data_source wdt:"@
        + e.properties.produced_by@ + " wd:"@ + producer_id + ". ?stop wdt:"@
        + e.properties.gtfs_name@ + " ?stop_name."@
}

pub fn stop_query(e: &EntitiesId, producer_id: &str, gtfs_id: &str, kind: LocationType) -> (r:
    String)
    ensures
        r@ == stop_pattern(*e, producer_id@, gtfs_id@, kind),
{
    let mut s = "?stop wdt:".to_owned();
    s.append(e.properties.instance_of.as_str());
    s.append(" wd:");
    s.append(e.location_type(kind));
    s.append(". ?stop wdt:");
    s.append(e.properties.gtfs_id.as_str());
    s.append(" \"");
    s.append(gtfs_id);
    s.append("\". ?stop wdt:");
    s.append(e.properties.data_source.as_str());
    s.append(" ?data_source. ?data_source wdt:");
    s.append(e.properties.produced_by.as_str());
    s.append(" wd:");
    s.append(producer_id);
    s.append(". ?stop wdt:");
    s.append(e.properties.gtfs_name.as_str());
    s.append(" ?stop_name.");
    s
}

/// The pattern giving the label of the producer `producer_id`.
pub open spec fn producer_label_pattern(e: EntitiesId, producer_id: Seq<char>) -> Seq<char> {
    "wd:"@ + producer_id + " wdt:"@ + e.properties.instance_of@ + " wd:"@ + e.items.producer@
        + "; rdfs:label ?label."@
}

pub fn producer_label_query(e: &EntitiesId, producer_id: &str) -> (r: String)
    ensures
        r@ == producer_label_pattern(*e, producer_id@),
{
    let mut s = "wd:".to_owned();
    s.append(producer_id);
    s.append(" wdt:");
    s.append(e.properties.instance_of.as_str());
    s.append(" wd:");
    s.append(e.items.producer.as_str());
    s.append("; rdfs:label ?label.");
    s
}

/// Reads the label of a producer: none without a row, the `?label` binding of a
/// single row, `Duplicate` with the producer for several rows.
pub fn producer_label(rows: &Vec<Row>, producer_id: &str) -> (r: Result<Option<String>, QueryError>)
    ensures
        rows@.len() == 0 ==> r == Ok::<Option<String>, QueryError>(None),
        rows@.len() == 1 ==> r is Ok && opt_view(r->Ok_0) == rows@[0].binding("label"@),
        rows@.len() > 1 ==> r is Err && r->Err_0 is Duplicate && r->Err_0->Duplicate_0@
            == producer_id@,
{
    if rows.len() == 0 {
        Ok(None)
    } else if rows.len() == 1 {
        Ok(rows[0].get("label"))
    } else {
        Err(QueryError::Duplicate(producer_id.to_owned()))
    }
}

} // verus!
