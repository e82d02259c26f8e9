//! Known-entity registry: the identifiers that the store gave to the schema
//! elements (properties and taxonomy items) this library writes with.
use vstd::prelude::*;
use crate::text::{find_value, lookup, views};

verus! {

/// Identifiers of the schema properties.
#[derive(Debug, Clone, Default)]
pub struct Properties {
    /// The marker property: its value on each schema element is the element's
    /// symbolic name, by which later sessions find the element again.
    pub topo_id_id: String,
    /// Link to the data producer
    pub produced_by: String,
    /// Type of the entity
    pub instance_of: String,
    /// Short name in the feed
    pub gtfs_short_name: String,
    /// Long name in the feed
    pub gtfs_long_name: String,
    /// Basic name in the feed
    pub gtfs_name: String,
    /// Identifier in the feed
    pub gtfs_id: String,
    /// Data source in which the entity first appeared
    pub first_seen_in: String,
    /// Link to the data source
    pub data_source: String,
    /// Path of the file the data was imported from
    pub source: String,
    /// Format of the file the data was imported from
    pub file_format: String,
    /// Checksum of the file the data was imported from
    pub sha_256: String,
    /// Link to the physical mode of the entity
    pub has_physical_mode: String,
    /// Version of the tool that imported the entities
    pub tool_version: String,
    /// Inclusion: a stop point is part of a stop area, a stop of a route
    pub part_of: String,
    /// A stop is connected to a line
    pub connecting_line: String,
    /// Coordinates of an entity
    pub coordinate_location: String,
}

/// Identifiers of the schema items: physical modes, classes and stop kinds.
#[derive(Debug, Clone, Default)]
pub struct Items {
    pub physical_mode: String,
    pub route: String,
    pub producer: String,
    pub tramway: String,
    pub subway: String,
    pub railway: String,
    pub bus: String,
    pub ferry: String,
    pub cable_car: String,
    pub gondola: String,
    pub funicular: String,
    pub stop_point: String,
    pub stop_area: String,
    pub stop_entrance: String,
    pub stop_generic_node: String,
    pub stop_boarding_area: String,
}

/// The identifiers of all schema elements.
#[derive(Debug, Clone, Default)]
pub struct EntitiesId {
    pub properties: Properties,
    pub items: Items,
}

/// Symbolic names of the schema items, in discovery order.
pub open spec fn item_names() -> Seq<Seq<char>> {
    seq!["physical_mode"@, "route"@, "producer"@, "tramway"@, "subway"@, "railway"@, "bus"@, "ferry"@, "cable_car"@, "gondola"@, "funicular"@, "stop_point"@, "stop_area"@, "stop_entrance"@, "stop_generic_node"@, "stop_boarding_area"@]
}

/// Symbolic names of the schema properties but the marker, in discovery order.
pub open spec fn discovered_property_names() -> Seq<Seq<char>> {
    seq!["produced_by"@, "instance_of"@, "gtfs_short_name"@, "gtfs_long_name"@, "gtfs_name"@, "gtfs_id"@, "first_seen_in"@, "data_source"@, "source"@, "file_format"@, "sha_256"@, "has_physical_mode"@, "tool_version"@, "part_of"@, "connecting_line"@, "coordinate_location"@]
}

/// Symbolic names of all schema properties.
pub open spec fn property_names() -> Seq<Seq<char>> {
    seq!["topo_id_id"@] + discovered_property_names()
}

/// Symbolic names of the elements that discovery looks up, items first.
pub open spec fn discovered_names() -> Seq<Seq<char>> {
    item_names() + discovered_property_names()
}

/// The symbolic names of the schema items, in discovery order.
pub fn item_name_list() -> (r: Vec<String>)
    ensures
        views(r@) == item_names(),
{
    let r = vec!["physical_mode".to_owned(), "route".to_owned(), "producer".to_owned(), "tramway".to_owned(), "subway".to_owned(), "railway".to_owned(), "bus".to_owned(), "ferry".to_owned(), "cable_car".to_owned(), "gondola".to_owned(), "funicular".to_owned(), "stop_point".to_owned(), "stop_area".to_owned(), "stop_entrance".to_owned(), "stop_generic_node".to_owned(), "stop_boarding_area".to_owned()];
    assert(views(r@) =~= item_names());
    r
}

/// The symbolic names of the schema properties but the marker, in discovery
/// order.
pub fn discovered_property_name_list() -> (r: Vec<String>)
    ensures
        views(r@) == discovered_property_names(),
{
    let r = vec!["produced_by".to_owned(), "instance_of".to_owned(), "gtfs_short_name".to_owned(), "gtfs_long_name".to_owned(), "gtfs_name".to_owned(), "gtfs_id".to_owned(), "first_seen_in".to_owned(), "data_source".to_owned(), "source".to_owned(), "file_format".to_owned(), "sha_256".to_owned(), "has_physical_mode".to_owned(), "tool_version".to_owned(), "part_of".to_owned(), "connecting_line".to_owned(), "coordinate_location".to_owned()];
    assert(views(r@) =~= discovered_property_names());
    r
}

/// The symbolic names that discovery resolves, items first, then properties.
pub fn discovered_name_list() -> (r: Vec<String>)
    ensures
        views(r@) == discovered_names(),
{
    let mut r = item_name_list();
    let mut p = discovered_property_name_list();
    r.append(&mut p);
    assert(views(r@) =~= discovered_names());
    r
}

impl EntitiesId {
    /// Item identifiers, in the order of `item_names`.
    pub open spec fn item_ids(self) -> Seq<Seq<char>> {
        seq![self.items.physical_mode@, self.items.route@, self.items.producer@, self.items.tramway@, self.items.subway@, self.items.railway@, self.items.bus@, self.items.ferry@, self.items.cable_car@, self.items.gondola@, self.items.funicular@, self.items.stop_point@, self.items.stop_area@, self.items.stop_entrance@, self.items.stop_generic_node@, self.items.stop_boarding_area@]
    }

    /// Property identifiers but the marker's, in the order of
    /// `discovered_property_names`.
    pub open spec fn discovered_property_ids(self) -> Seq<Seq<char>> {
        seq![self.properties.produced_by@, self.properties.instance_of@, self.properties.gtfs_short_name@, self.properties.gtfs_long_name@, self.properties.gtfs_name@, self.properties.gtfs_id@, self.properties.first_seen_in@, self.properties.data_source@, self.properties.source@, self.properties.file_format@, self.properties.sha_256@, self.properties.has_physical_mode@, self.properties.tool_version@, self.properties.part_of@, self.properties.connecting_line@, self.properties.coordinate_location@]
    }

    /// Property identifiers, in the order of `property_names`.
    pub open spec fn property_ids(self) -> Seq<Seq<char>> {
        seq![self.properties.topo_id_id@] + self.discovered_property_ids()
    }

    /// Identifiers of the discovered elements, in the order of
    /// `discovered_names`.
    pub open spec fn discovered_ids(self) -> Seq<Seq<char>> {
        self.item_ids() + self.discovered_property_ids()
    }

    fn item_id_list(&self) -> (r: Vec<String>)
        ensures
            views(r@) == self.item_ids(),
    {
        let r = vec![self.items.physical_mode.clone(), self.items.route.clone(), self.items.producer.clone(), self.items.tramway.clone(), self.items.subway.clone(), self.items.railway.clone(), self.items.bus.clone(), self.items.ferry.clone(), self.items.cable_car.clone(), self.items.gondola.clone(), self.items.funicular.clone(), self.items.stop_point.clone(), self.items.stop_area.clone(), self.items.stop_entrance.clone(), self.items.stop_generic_node.clone(), self.items.stop_boarding_area.clone()];
        assert(views(r@) =~= self.item_ids());
        r
    }

    fn property_id_list(&self) -> (r: Vec<String>)
        ensures
            views(r@) == self.property_ids(),
    {
        let r = vec![self.properties.topo_id_id.clone(), self.properties.produced_by.clone(), self.properties.instance_of.clone(), self.properties.gtfs_short_name.clone(), self.properties.gtfs_long_name.clone(), self.properties.gtfs_name.clone(), self.properties.gtfs_id.clone(), self.properties.first_seen_in.clone(), self.properties.data_source.clone(), self.properties.source.clone(), self.properties.file_format.clone(), self.properties.sha_256.clone(), self.properties.has_physical_mode.clone(), self.properties.tool_version.clone(), self.properties.part_of.clone(), self.properties.connecting_line.clone(), self.properties.coordinate_location.clone()];
        assert(views(r@) =~= self.property_ids());
        r
    }

    /// The registry whose marker property is `topo_id_id` and whose other
    /// elements have the identifiers `ids`, given in the order of
    /// `discovered_names`.
    pub fn from_ids(topo_id_id: &str, ids: &Vec<String>) -> (r: EntitiesId)
        requires
            ids.len() == discovered_names().len(),
        ensures
            r.properties.topo_id_id@ == topo_id_id@,
            r.discovered_ids() == views(ids@),
    {
        let r = EntitiesId {
            items: Items {
                physical_mode: ids[0].clone(),
                route: ids[1].clone(),
                producer: ids[2].clone(),
                tramway: ids[3].clone(),
                subway: ids[4].clone(),
                railway: ids[5].clone(),
                bus: ids[6].clone(),
                ferry: ids[7].clone(),
                cable_car: ids[8].clone(),
                gondola: ids[9].clone(),
                funicular: ids[10].clone(),
                stop_point: ids[11].clone(),
                stop_area: ids[12].clone(),
                stop_entrance: ids[13].clone(),
                stop_generic_node: ids[14].clone(),
                stop_boarding_area: ids[15].clone(),
            },
            properties: Properties {
                topo_id_id: topo_id_id.to_owned(),
                produced_by: ids[16].clone(),
                instance_of: ids[17].clone(),
                gtfs_short_name: ids[18].clone(),
                gtfs_long_name: ids[19].clone(),
                gtfs_name: ids[20].clone(),
                gtfs_id: ids[21].clone(),
                first_seen_in: ids[22].clone(),
                data_source: ids[23].clone(),
                source: ids[24].clone(),
                file_format: ids[25].clone(),
                sha_256: ids[26].clone(),
                has_physical_mode: ids[27].clone(),
                tool_version: ids[28].clone(),
                part_of: ids[29].clone(),
                connecting_line: ids[30].clone(),
                coordinate_location: ids[31].clone(),
            },
        };
        assert(r.discovered_ids() =~= views(ids@));
        r
    }

    /// The identifier of the schema property called `name`.
    pub fn property_id(&self, name: &str) -> (r: Option<String>)
        ensures
            crate::bridge::opt_view(r) == lookup(property_names(), self.property_ids(), name@),
    {
        let names = vec!["topo_id_id".to_owned()];
        let mut names = names;
        let mut rest = discovered_property_name_list();
        names.append(&mut rest);
        assert(views(names@) =~= property_names());
        let ids = self.property_id_list();
        find_value(&names, &ids, name)
    }

    /// The identifier of the schema item called `name`.
    pub fn item_id(&self, name: &str) -> (r: Option<String>)
        ensures
            crate::bridge::opt_view(r) == lookup(item_names(), self.item_ids(), name@),
    {
        let names = item_name_list();
        let ids = self.item_id_list();
        find_value(&names, &ids, name)
    }

    /// The item of the physical mode of routes of type `t`.
    pub open spec fn physical_mode_spec(self, t: RouteType) -> Seq<char> {
        match t {
            RouteType::Tramway => self.items.tramway@,
            RouteType::Subway => self.items.subway@,
            RouteType::Rail => self.items.railway@,
            RouteType::Bus => self.items.bus@,
            RouteType::Ferry => self.items.ferry@,
            RouteType::CableCar => self.items.cable_car@,
            RouteType::Gondola => self.items.gondola@,
            RouteType::Funicular => self.items.funicular@,
            RouteType::Other(_) => self.items.bus@,
        }
    }

    /// The item of the physical mode of routes of type `t`; bus for the types
    /// without a mode of their own.
    pub fn physical_mode(&self, t: RouteType) -> (r: &str)
        ensures
            r@ == self.physical_mode_spec(t),
    {
        match t {
            RouteType::Tramway => self.items.tramway.as_str(),
            RouteType::Subway => self.items.subway.as_str(),
            RouteType::Rail => self.items.railway.as_str(),
            RouteType::Bus => self.items.bus.as_str(),
            RouteType::Ferry => self.items.ferry.as_str(),
            RouteType::CableCar => self.items.cable_car.as_str(),
            RouteType::Gondola => self.items.gondola.as_str(),
            RouteType::Funicular => self.items.funicular.as_str(),
            RouteType::Other(_) => self.items.bus.as_str(),
        }
    }

    /// The item of the stop kind `t`.
    pub open spec fn location_type_spec(self, t: LocationType) -> Seq<char> {
        match t {
            LocationType::StopPoint => self.items.stop_point@,
            LocationType::StopArea => self.items.stop_area@,
            LocationType::StationEntrance => self.items.stop_entrance@,
            LocationType::GenericNode => self.items.stop_generic_node@,
            LocationType::BoardingArea => self.items.stop_boarding_area@,
            LocationType::Unknown(_) => self.items.stop_point@,
        }
    }

    /// The item of the stop kind `t`; a plain stop point for unknown kinds.
    pub fn location_type(&self, t: LocationType) -> (r: &str)
        ensures
            r@ == self.location_type_spec(t),
    {
        match t {
            LocationType::StopPoint => self.items.stop_point.as_str(),
            LocationType::StopArea => self.items.stop_area.as_str(),
            LocationType::StationEntrance => self.items.stop_entrance.as_str(),
            LocationType::GenericNode => self.items.stop_generic_node.as_str(),
            LocationType::BoardingArea => self.items.stop_boarding_area.as_str(),
            LocationType::Unknown(_) => self.items.stop_point.as_str(),
        }
    }
}

/// Transport mode of a feed route.
#[derive(Debug, Clone, Copy, PartialEq, Eq, Structural)]
pub enum RouteType {
    Tramway,
    Subway,
    Rail,
    Bus,
    Ferry,
    CableCar,
    Gondola,
    Funicular,
    /// Any other code of the feed.
    Other(i16),
}

impl RouteType {
    /// The name of the mode, as route labels show it.
    pub open spec fn name_spec(self) -> Seq<char> {
        match self {
            RouteType::Tramway => "Tramway"@,
            RouteType::Subway => "Subway"@,
            RouteType::Rail => "Rail"@,
            RouteType::Bus => "Bus"@,
            RouteType::Ferry => "Ferry"@,
            RouteType::CableCar => "CableCar"@,
            RouteType::Gondola => "Gondola"@,
            RouteType::Funicular => "Funicular"@,
            RouteType::Other(_) => "Other"@,
        }
    }

    pub fn name(&self) -> (r: &'static str)
        ensures
            r@ == self.name_spec(),
    {
        match self {
            RouteType::Tramway => "Tramway",
            RouteType::Subway => "Subway",
            RouteType::Rail => "Rail",
            RouteType::Bus => "Bus",
            RouteType::Ferry => "Ferry",
            RouteType::CableCar => "CableCar",
            RouteType::Gondola => "Gondola",
            RouteType::Funicular => "Funicular",
            RouteType::Other(_) => "Other",
        }
    }
}

/// Kind of a feed stop.
#[derive(Debug, Clone, Copy, PartialEq, Eq, Structural)]
pub enum LocationType {
    StopPoint,
    StopArea,
    StationEntrance,
    GenericNode,
    BoardingArea,
    /// Any other code of the feed.
    Unknown(i16),
}

} // verus!
