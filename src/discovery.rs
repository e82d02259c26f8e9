//! Registry discovery: each schema element is found by its marker, in a fixed
//! order, one query at a time.
use vstd::prelude::*;
use crate::ids::last_segment;
use crate::known_entities::{EntitiesId, discovered_name_list, discovered_names};
use crate::sparql::{QueryError, Row, resolve_topo_rows, select_query, select_text, topo_id_pattern, topo_id_query};
use crate::text::views;

verus! {

/// Progress of a discovery: the marker property, and the identifiers found so
/// far, in the order of `discovered_names`.
#[derive(Debug, Clone)]
pub struct Discovery {
    pub topo_id_id: String,
    pub ids: Vec<String>,
}

/// What a discovery asks for next.
#[derive(Debug, Clone)]
pub enum DiscoveryAction {
    /// Run this query, projecting `?item_id`, and hand its rows back.
    Query(String),
    /// Every element is found.
    Done(EntitiesId),
}

/// The identifier that the rows of a marker query give: the one row's
/// reference, when there is exactly one row and it binds `?item_id`.
pub open spec fn topo_resolution(rows: Seq<Row>) -> Option<Seq<char>> {
    if rows.len() == 1 {
        match rows[0].binding("item_id"@) {
            Some(url) => Some(last_segment(url)),
            None => None,
        }
    } else {
        None
    }
}

impl Discovery {
    pub open spec fn wf(self) -> bool {
        self.ids.len() <= discovered_names().len()
    }

    /// A discovery that has found nothing yet.
    pub fn new(topo_id_id: &str) -> (r: Discovery)
        ensures
            r.wf(),
            r.topo_id_id@ == topo_id_id@,
            r.ids@.len() == 0,
    {
        Discovery { topo_id_id: topo_id_id.to_owned(), ids: Vec::new() }
    }
}

/// `action` is what a discovery with marker `topo_id_id` and identifiers `ids`
/// asks for.
pub open spec fn discovery_action(topo_id_id: Seq<char>, ids: Seq<Seq<char>>, action: DiscoveryAction) -> bool {
    if ids.len() == discovered_names().len() {
        action is Done && action->Done_0.properties.topo_id_id@ == topo_id_id
            && action->Done_0.discovered_ids() == ids
    } else {
        action is Query && action->Query_0@ == select_text(
            seq!["?item_id"@],
            topo_id_pattern(topo_id_id, discovered_names()[ids.len() as int]),
        )
    }
}

/// One step of discovery: takes in the rows of the last query (none at the
/// start) and says what to do next. Each element must be found exactly once:
/// no row is `TopoIdNotFound`, several are `DuplicatedTopoId`, for the
/// element's name.
pub fn discover_known_entities(state: &mut Discovery, rows: Option<Vec<Row>>) -> (r: Result<
    DiscoveryAction,
    QueryError,
>)
    requires
        old(state).wf(),
    ensures
        final(state).wf(),
        final(state).topo_id_id == old(state).topo_id_id,
        match rows {
            None => r is Ok && final(state).ids == old(state).ids,
            Some(rows) => if old(state).ids.len() < discovered_names().len() && topo_resolution(rows@) is Some {
                &&& r is Ok
                &&& views(final(state).ids@) == views(old(state).ids@).push(topo_resolution(rows@).unwrap())
            } else {
                r is Err
            },
        },
        r is Ok ==> discovery_action(final(state).topo_id_id@, views(final(state).ids@), r->Ok_0),
        r is Err && rows is Some && old(state).ids.len() < discovered_names().len() ==> {
            let name = discovered_names()[old(state).ids.len() as int];
            let rs = rows.unwrap()@;
            &&& rs.len() == 0 ==> r->Err_0 is TopoIdNotFound && r->Err_0->TopoIdNotFound_0@ == name
            &&& rs.len() > 1 ==> r->Err_0 is DuplicatedTopoId && r->Err_0->DuplicatedTopoId_0@ == name
        },
{
    let names = discovered_name_list();
    let n = names.len();
    if let Some(rows) = rows {
        let i = state.ids.len();
        if i >= n {
            return Err(QueryError::Duplicate(state.topo_id_id.clone()));
        }
        let id = resolve_topo_rows(&rows, names[i].as_str())?;
        let ghost before = views(state.ids@);
        let ghost idv = id@;
        state.ids.push(id);
        assert(views(state.ids@) =~= before.push(idv));
    }
    let i = state.ids.len();
    if i == n {
        return Ok(DiscoveryAction::Done(EntitiesId::from_ids(state.topo_id_id.as_str(), &state.ids)));
    }
    let vars = vec!["?item_id".to_owned()];
    assert(views(vars@) =~= seq!["?item_id"@]);
    let pattern = topo_id_query(state.topo_id_id.as_str(), names[i].as_str());
    Ok(DiscoveryAction::Query(select_query(&vars, pattern.as_str())))
}

} // verus!
