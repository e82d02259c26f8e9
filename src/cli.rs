//! The logic of the entity tools: claim expressions `property=value`, with
//! `@name` standing for a schema element, turned into searches and creations.
use vstd::prelude::*;
use vstd::string::*;
use crate::bridge::{regex_group, regex_group_of};
use crate::claims::{
    Claim, ClaimModel, EditRequest, ObjectType, PropertyDataType, claim_item, claim_string,
    create_request, lemma_models_somes, models, opt_model, somes, string_claim_model,
};
use crate::ids::{last_segment, read_id_from_url};
use crate::known_entities::{EntitiesId, item_names, property_names};
use crate::sparql::{Row, select_query, select_text};
use crate::text::{join, joined, lookup, replace_all, replaced, views};

verus! {

/// Kind of entity the tools create.
#[derive(Debug, Clone, Copy, PartialEq, Eq, Structural)]
pub enum EntityType {
    Item,
    StringProperty,
    ItemProperty,
    UrlProperty,
}

impl EntityType {
    pub open spec fn object_type(self) -> ObjectType {
        match self {
            EntityType::Item => ObjectType::Item,
            EntityType::StringProperty => ObjectType::Property(PropertyDataType::String),
            EntityType::ItemProperty => ObjectType::Property(PropertyDataType::Item),
            EntityType::UrlProperty => ObjectType::Property(PropertyDataType::Url),
        }
    }

    pub fn get_object_type(&self) -> (r: ObjectType)
        ensures
            r == self.object_type(),
    {
        match self {
            EntityType::Item => ObjectType::Item,
            EntityType::StringProperty => ObjectType::Property(PropertyDataType::String),
            EntityType::ItemProperty => ObjectType::Property(PropertyDataType::Item),
            EntityType::UrlProperty => ObjectType::Property(PropertyDataType::Url),
        }
    }
}

/// A parsed claim expression.
#[derive(Debug, Clone)]
pub struct ClaimExpr {
    pub property: String,
    pub value: String,
}

/// Failures of the entity tools.
#[derive(Debug, Clone, PartialEq, Eq)]
pub enum ToolError {
    /// The expression is not of the form `property=value`.
    UnparsableClaim(String),
    /// A search needs at least one claim.
    NoClaims,
    /// Several entities have the label and the unique claims.
    TooManyEntities,
}

impl ToolError {
    /// A line describing the error.
    pub fn message(&self) -> (r: String)
        ensures
            r@ == match self {
                ToolError::UnparsableClaim(c) => "Could not parse claim "@ + c@,
                ToolError::NoClaims => "no claims provided, cannot find anything"@,
                ToolError::TooManyEntities => "too many entities"@,
            },
    {
        match self {
            ToolError::UnparsableClaim(c) => crate::text::cat("Could not parse claim ", c.as_str()),
            ToolError::NoClaims => "no claims provided, cannot find anything".to_owned(),
            ToolError::TooManyEntities => "too many entities".to_owned(),
        }
    }
}

/// A claim expression: everything before and after an `=`.
pub const CLAIM_PATTERN: &'static str = "^(.*)=(.*)$";

/// A value naming an item, `wd:<id>`.
pub const CLAIM_ITEM_PATTERN: &'static str = "^wd:(.*)$";

/// The property of a resolved claim: `@name` of a schema property becomes its
/// identifier; anything else stays.
pub open spec fn resolved_property(e: EntitiesId, p: Seq<char>) -> Seq<char> {
    if p.len() > 0 && p[0] == '@' && lookup(property_names(), e.property_ids(), p.drop_first()) is Some {
        lookup(property_names(), e.property_ids(), p.drop_first()).unwrap()
    } else {
        p
    }
}

/// The value of a resolved claim: `@name` of a schema item becomes
/// `wd:<identifier>`; anything else stays.
pub open spec fn resolved_value(e: EntitiesId, v: Seq<char>) -> Seq<char> {
    if v.len() > 0 && v[0] == '@' && lookup(item_names(), e.item_ids(), v.drop_first()) is Some {
        "wd:"@ + lookup(item_names(), e.item_ids(), v.drop_first()).unwrap()
    } else {
        v
    }
}

/// The name after a leading `@`.
fn at_name(s: &str) -> (r: Option<String>)
    ensures
        r is Some <==> s@.len() > 0 && s@[0] == '@',
        r is Some ==> r.unwrap()@ == s@.drop_first(),
{
    let n = s.unicode_len();
    if n > 0 && s.get_char(0) == '@' {
        let rest = s.substring_char(1, n);
        assert(rest@ =~= s@.drop_first());
        Some(rest.to_owned())
    } else {
        None
    }
}

/// Resolves the schema names of a claim expression against the registry.
pub fn replace_known_entities(c: &ClaimExpr, e: &EntitiesId) -> (r: ClaimExpr)
    ensures
        r.property@ == resolved_property(*e, c.property@),
        r.value@ == resolved_value(*e, c.value@),
{
    let property = match at_name(c.property.as_str()) {
        Some(name) => match e.property_id(name.as_str()) {
            Some(id) => id,
            None => c.property.clone(),
        },
        None => c.property.clone(),
    };
    let value = match at_name(c.value.as_str()) {
        Some(name) => match e.item_id(name.as_str()) {
            Some(id) => {
                let mut v = "wd:".to_owned();
                v.append(id.as_str());
                v
            },
            None => c.value.clone(),
        },
        None => c.value.clone(),
    };
    ClaimExpr { property, value }
}

/// The expression `s` read as a claim, with schema names resolved.
pub open spec fn parsed_claim(e: EntitiesId, s: Seq<char>) -> Option<(Seq<char>, Seq<char>)> {
    match (regex_group_of(CLAIM_PATTERN@, s, 1), regex_group_of(CLAIM_PATTERN@, s, 2)) {
        (Some(p), Some(v)) => Some((resolved_property(e, p), resolved_value(e, v))),
        _ => None,
    }
}

/// The claims of `exprs` all parse, and `claims` are what they say.
pub open spec fn parsed_all(e: EntitiesId, exprs: Seq<String>, claims: Seq<ClaimExpr>) -> bool {
    &&& claims.len() == exprs.len()
    &&& forall|k: int|
        0 <= k < exprs.len() ==> #[trigger] parsed_claim(e, exprs[k]@) == Some(
            (claims[k].property@, claims[k].value@),
        )
}

/// Parses claim expressions `property=value` and resolves `@name` references
/// to schema elements; the first expression that is not a claim is the error.
pub fn parse_claims(exprs: &Vec<String>, e: &EntitiesId) -> (r: Result<Vec<ClaimExpr>, ToolError>)
    ensures
        r is Ok <==> forall|k: int| 0 <= k < exprs@.len() ==> #[trigger] parsed_claim(*e, exprs@[k]@) is Some,
        r is Ok ==> parsed_all(*e, exprs@, r->Ok_0@),
        r is Err ==> r->Err_0 is UnparsableClaim && exists|k: int|
            0 <= k < exprs@.len() && #[trigger] parsed_claim(*e, exprs@[k]@) is None
                && r->Err_0->UnparsableClaim_0@ == exprs@[k]@,
{
    let mut out: Vec<ClaimExpr> = Vec::new();
    let mut i: usize = 0;
    while i < exprs.len()
        invariant
            i <= exprs.len(),
            out@.len() == i,
            forall|k: int|
                0 <= k < i ==> #[trigger] parsed_claim(*e, exprs@[k]@) == Some(
                    (out@[k].property@, out@[k].value@),
                ),
        decreases exprs.len() - i,
    {
        let s = exprs[i].as_str();
        let p = regex_group(CLAIM_PATTERN, s, 1);
        let v = regex_group(CLAIM_PATTERN, s, 2);
        match (p, v) {
            (Some(p), Some(v)) => {
                let c = replace_known_entities(&ClaimExpr { property: p, value: v }, e);
                out.push(c);
            },
            _ => {
                assert(parsed_claim(*e, exprs@[i as int]@) is None);
                return Err(ToolError::UnparsableClaim(exprs[i].clone()));
            },
        }
        i = i + 1;
    }
    Ok(out)
}

/// One triple of a search pattern: a property with a `:` is taken as written
/// (`rdfs:label`), any other is a direct property.
pub open spec fn search_part(c: (Seq<char>, Seq<char>)) -> Seq<char> {
    if c.0.contains(':') {
        c.0 + " "@ + c.1
    } else {
        "wdt:"@ + c.0 + " "@ + c.1
    }
}

/// The triples of a search pattern, one per claim.
pub open spec fn search_parts_of(claims: Seq<ClaimExpr>) -> Seq<Seq<char>> {
    claims.map_values(|c: ClaimExpr| search_part((c.property@, c.value@)))
}

/// The pattern of the entities with all `claims`.
pub open spec fn search_pattern(claims: Seq<ClaimExpr>) -> Seq<char> {
    "?item "@ + joined(search_parts_of(claims), "; "@) + "."@
}

fn has_colon(s: &str) -> (r: bool)
    ensures
        r == s@.contains(':'),
{
    let n = s.unicode_len();
    let mut i: usize = 0;
    while i < n
        invariant
            n == s@.len(),
            i <= n,
            forall|k: int| 0 <= k < i ==> s@[k] != ':',
        decreases n - i,
    {
        if s.get_char(i) == ':' {
            return true;
        }
        i = i + 1;
    }
    false
}

fn search_parts(claims: &Vec<ClaimExpr>) -> (r: Vec<String>)
    ensures
        views(r@) == search_parts_of(claims@),
{
    let mut out: Vec<String> = Vec::new();
    let mut i: usize = 0;
    while i < claims.len()
        invariant
            i <= claims.len(),
            views(out@) == search_parts_of(claims@.subrange(0, i as int)),
        decreases claims.len() - i,
    {
        let c = &claims[i];
        let colon = has_colon(c.property.as_str());
        let mut s = if colon {
            c.property.clone()
        } else {
            let mut w = "wdt:".to_owned();
            w.append(c.property.as_str());
            w
        };
        s.append(" ");
        s.append(c.value.as_str());
        assert(s@ == search_part((c.property@, c.value@)));
        let ghost sv = s@;
        let ghost before = out@;
        assert(views(before).len() == i);
        out.push(s);
        assert(out@.len() == i + 1);
        assert(out@[i as int]@ == sv);
        assert(forall|k: int| 0 <= k < i ==> out@[k] == before[k]);
        assert forall|k: int| 0 <= k < i + 1 implies views(out@)[k] == search_parts_of(
            claims@.subrange(0, i + 1),
        )[k] by {
            if k < i {
                assert(views(before)[k] == search_parts_of(claims@.subrange(0, i as int))[k]);
                assert(claims@.subrange(0, i as int)[k] == claims@.subrange(0, i + 1)[k]);
            } else {
                assert(claims@.subrange(0, i + 1)[k] == claims@[i as int]);
            }
        }
        assert(views(out@) =~= search_parts_of(claims@.subrange(0, i + 1)));
        i = i + 1;
    }
    assert(claims@.subrange(0, claims@.len() as int) =~= claims@);
    out
}

/// The query for the entities with all the claims of `exprs`; at least one
/// claim is needed.
pub fn search(exprs: &Vec<String>, e: &EntitiesId) -> (r: Result<String, ToolError>)
    ensures
        exprs@.len() == 0 ==> r == Err::<String, ToolError>(ToolError::NoClaims),
        exprs@.len() > 0 ==> match r {
            Ok(q) => exists|claims: Seq<ClaimExpr>|
                parsed_all(*e, exprs@, claims) && q@ == select_text(
                    seq!["?item"@],
                    search_pattern(claims),
                ),
            Err(err) => err is UnparsableClaim && exists|k: int|
                0 <= k < exprs@.len() && #[trigger] parsed_claim(*e, exprs@[k]@) is None,
        },
{
    if exprs.len() == 0 {
        return Err(ToolError::NoClaims);
    }
    let claims = parse_claims(exprs, e)?;
    let parts = search_parts(&claims);
    let mut p = "?item ".to_owned();
    let j = join(&parts, "; ");
    p.append(j.as_str());
    p.append(".");
    let vars = vec!["?item".to_owned()];
    assert(views(vars@) =~= seq!["?item"@]);
    let q = select_query(&vars, p.as_str());
    assert(parsed_all(*e, exprs@, claims@));
    Ok(q)
}

/// Identifiers of the entities bound to `?item` in `rows`, in order.
pub open spec fn item_ids_of(rows: Seq<Row>) -> Seq<Seq<char>>
    decreases rows.len(),
{
    if rows.len() == 0 {
        Seq::empty()
    } else {
        item_ids_of(rows.drop_last()) + match rows.last().binding("item"@) {
            Some(url) => seq![last_segment(url)],
            None => Seq::empty(),
        }
    }
}

/// The identifiers of the entities a search found.
pub fn search_ids(rows: &Vec<Row>) -> (r: Vec<String>)
    ensures
        views(r@) == item_ids_of(rows@),
{
    let mut out: Vec<String> = Vec::new();
    let mut i: usize = 0;
    while i < rows.len()
        invariant
            i <= rows.len(),
            views(out@) == item_ids_of(rows@.subrange(0, i as int)),
        decreases rows.len() - i,
    {
        let ghost prev = rows@.subrange(0, i as int);
        assert(rows@.subrange(0, i + 1).drop_last() =~= prev);
        if let Some(url) = rows[i].get("item") {
            let id = read_id_from_url(url.as_str()).unwrap();
            out.push(id);
            assert(views(out@) =~= item_ids_of(rows@.subrange(0, i + 1)));
        } else {
            assert(views(out@) =~= item_ids_of(rows@.subrange(0, i + 1)));
        }
        i = i + 1;
    }
    assert(rows@.subrange(0, rows@.len() as int) =~= rows@);
    out
}

/// What a resolved claim expression states in the write API, which wants
/// neither the `wdt:` prefix of properties nor the brackets around addresses:
/// a value `wd:<id>` links to the item `<id>`, any other is a string.
pub open spec fn api_claim_model(c: ClaimExpr) -> Seq<ClaimModel> {
    let p = replaced(c.property@, "wdt:"@, ""@);
    let v = replaced(replaced(c.value@, "<"@, ""@), ">"@, ""@);
    match regex_group_of(CLAIM_ITEM_PATTERN@, v, 1) {
        Some(id) => seq![ClaimModel::Link(p, id)],
        None => string_claim_model(p, v),
    }
}

/// What a list of resolved claim expressions states in the write API.
pub open spec fn api_claims_model(claims: Seq<ClaimExpr>) -> Seq<ClaimModel>
    decreases claims.len(),
{
    if claims.len() == 0 {
        Seq::empty()
    } else {
        api_claims_model(claims.drop_last()) + api_claim_model(claims.last())
    }
}

/// The write API's claim for a resolved claim expression.
pub fn api_claim(c: &ClaimExpr) -> (r: Option<Claim>)
    ensures
        opt_model(r) == api_claim_model(*c),
{
    proof {
        reveal_strlit("wdt:");
        reveal_strlit("<");
        reveal_strlit(">");
        reveal_strlit("");
    }
    let p = replace_all(c.property.as_str(), "wdt:", "");
    let v = replace_all(c.value.as_str(), "<", "");
    let v = replace_all(v.as_str(), ">", "");
    match regex_group(CLAIM_ITEM_PATTERN, v.as_str(), 1) {
        Some(id) => {
            let r = claim_item(p.as_str(), id.as_str());
            assert(opt_model(r) =~= seq![ClaimModel::Link(p@, id@)]);
            r
        },
        None => {
            let r = claim_string(p.as_str(), v.as_str());
            proof {
                crate::writer::lemma_string_claim(r, p@, v@);
            }
            r
        },
    }
}

fn api_claims(claims: &Vec<ClaimExpr>) -> (r: Vec<Option<Claim>>)
    ensures
        models(somes(r@)) == api_claims_model(claims@),
{
    let mut out: Vec<Option<Claim>> = Vec::new();
    let mut i: usize = 0;
    proof {
        lemma_models_somes(out@);
    }
    while i < claims.len()
        invariant
            i <= claims.len(),
            models(somes(out@)) == api_claims_model(claims@.subrange(0, i as int)),
        decreases claims.len() - i,
    {
        let c = api_claim(&claims[i]);
        let ghost before = out@;
        out.push(c);
        proof {
            lemma_somes_push(before, c);
            assert(claims@.subrange(0, i + 1).drop_last() =~= claims@.subrange(0, i as int));
        }
        i = i + 1;
    }
    assert(claims@.subrange(0, claims@.len() as int) =~= claims@);
    out
}

proof fn lemma_somes_push(s: Seq<Option<Claim>>, c: Option<Claim>)
    ensures
        models(somes(s.push(c))) == models(somes(s)) + opt_model(c),
    decreases s.len(),
{
    lemma_models_somes(s.push(c));
    lemma_models_somes(s);
    if s.len() == 0 {
        lemma_models_somes(s.push(c).drop_first());
        assert(s.push(c).drop_first() =~= Seq::<Option<Claim>>::empty());
        assert(s.push(c)[0] == c);
        assert(models(somes(s.push(c))) =~= models(somes(s)) + opt_model(c));
    } else {
        lemma_somes_push(s.drop_first(), c);
        assert(s.push(c).drop_first() =~= s.drop_first().push(c));
        assert(s.push(c)[0] == s[0]);
        assert(models(somes(s.push(c))) =~= models(somes(s)) + opt_model(c));
    }
}

/// The pattern of the entities with the English label `label` and the
/// direct properties of `unique`.
pub open spec fn unique_pattern(label: Seq<char>, unique: Seq<ClaimExpr>) -> Seq<char> {
    "?item rdfs:label \""@ + label + "\"@en; "@ + joined(unique_parts_of(unique), "; "@) + "."@
}

/// The triples of the unique claims: direct properties.
pub open spec fn unique_parts_of(unique: Seq<ClaimExpr>) -> Seq<Seq<char>> {
    unique.map_values(|c: ClaimExpr| "wdt:"@ + c.property@ + " "@ + c.value@)
}

fn unique_parts(claims: &Vec<ClaimExpr>) -> (r: Vec<String>)
    ensures
        views(r@) == unique_parts_of(claims@),
{
    let mut out: Vec<String> = Vec::new();
    let mut i: usize = 0;
    while i < claims.len()
        invariant
            i <= claims.len(),
            views(out@) == unique_parts_of(claims@.subrange(0, i as int)),
        decreases claims.len() - i,
    {
        let c = &claims[i];
        let mut s = "wdt:".to_owned();
        s.append(c.property.as_str());
        s.append(" ");
        s.append(c.value.as_str());
        let ghost sv = s@;
        let ghost before = out@;
        assert(views(before).len() == i);
        out.push(s);
        assert(out@.len() == i + 1);
        assert(out@[i as int]@ == sv);
        assert(forall|k: int| 0 <= k < i ==> out@[k] == before[k]);
        assert forall|k: int| 0 <= k < i + 1 implies views(out@)[k] == unique_parts_of(
            claims@.subrange(0, i + 1),
        )[k] by {
            if k < i {
                assert(views(before)[k] == unique_parts_of(claims@.subrange(0, i as int))[k]);
                assert(claims@.subrange(0, i as int)[k] == claims@.subrange(0, i + 1)[k]);
            } else {
                assert(claims@.subrange(0, i + 1)[k] == claims@[i as int]);
                assert(out@[k]@ == sv);
            }
        }
        assert(views(out@) =~= unique_parts_of(claims@.subrange(0, i + 1)));
        i = i + 1;
    }
    assert(claims@.subrange(0, claims@.len() as int) =~= claims@);
    out
}

/// The query checking whether an entity with `label` and the unique claims
/// `unique_exprs` exists.
pub fn unique_search(label: &str, unique_exprs: &Vec<String>, e: &EntitiesId) -> (r: Result<
    String,
    ToolError,
>)
    ensures
        r is Ok <==> forall|k: int| 0 <= k < unique_exprs@.len() ==> #[trigger] parsed_claim(*e, unique_exprs@[k]@) is Some,
        r is Ok ==> exists|unique: Seq<ClaimExpr>|
            parsed_all(*e, unique_exprs@, unique) && r->Ok_0@ == select_text(
                seq!["?item"@],
                unique_pattern(label@, unique),
            ),
{
    let unique = parse_claims(unique_exprs, e)?;
    let parts = unique_parts(&unique);
    let mut p = "?item rdfs:label \"".to_owned();
    p.append(label);
    p.append("\"@en; ");
    let j = join(&parts, "; ");
    p.append(j.as_str());
    p.append(".");
    let vars = vec!["?item".to_owned()];
    assert(views(vars@) =~= seq!["?item"@]);
    let q = select_query(&vars, p.as_str());
    assert(parsed_all(*e, unique_exprs@, unique@));
    Ok(q)
}

/// What the entity tool does once it knows which entities hold the label and
/// unique claims.
#[derive(Debug, Clone)]
pub enum EntityDecision {
    /// One entity holds them: it is the answer.
    Existing(String),
    /// None does: create the entity with this request.
    Create(EditRequest),
}

/// Decides on a creation from the rows of the uniqueness search: the one
/// entity found is the answer; with none, the entity is created with the
/// claims and then the unique claims; several are the error `TooManyEntities`.
pub fn create_entity(
    entity_type: EntityType,
    label: &str,
    unique_exprs: &Vec<String>,
    exprs: &Vec<String>,
    e: &EntitiesId,
    rows: &Vec<Row>,
) -> (r: Result<EntityDecision, ToolError>)
    ensures
        (forall|k: int| 0 <= k < unique_exprs@.len() ==> #[trigger] parsed_claim(*e, unique_exprs@[k]@) is Some)
            ==> {
            let ids = item_ids_of(rows@);
            &&& ids.len() == 1 ==> r is Ok && r->Ok_0 is Existing && r->Ok_0->Existing_0@ == ids[0]
            &&& ids.len() > 1 ==> r == Err::<EntityDecision, ToolError>(ToolError::TooManyEntities)
            &&& ids.len() == 0 ==> ((forall|k: int| 0 <= k < exprs@.len() ==> #[trigger] parsed_claim(*e, exprs@[k]@) is Some)
                <==> r is Ok)
            &&& ids.len() == 0 && r is Ok ==> r->Ok_0 is Create && exists|claims: Seq<ClaimExpr>, unique: Seq<ClaimExpr>|
                #![trigger parsed_all(*e, exprs@, claims), parsed_all(*e, unique_exprs@, unique)]
            {
                let req = r->Ok_0->Create_0;
                &&& parsed_all(*e, exprs@, claims)
                &&& parsed_all(*e, unique_exprs@, unique)
                &&& req.target == crate::claims::EditTarget::New(entity_type.object_type())
                &&& req.label is Some
                &&& req.label.unwrap()@ == label@
                &&& models(req.claims@) == api_claims_model(claims + unique)
                &&& !req.clear
            }
        },
        !(forall|k: int| 0 <= k < unique_exprs@.len() ==> #[trigger] parsed_claim(*e, unique_exprs@[k]@) is Some)
            ==> r is Err && r->Err_0 is UnparsableClaim,
{
    let unique = parse_claims(unique_exprs, e)?;
    let ids = search_ids(rows);
    if ids.len() == 1 {
        return Ok(EntityDecision::Existing(ids[0].clone()));
    } else if ids.len() > 1 {
        return Err(ToolError::TooManyEntities);
    }
    let claims = parse_claims(exprs, e)?;
    let ghost cv = claims@;
    let ghost uv = unique@;
    let mut all = claims;
    let mut u = unique;
    all.append(&mut u);
    assert(all@ =~= cv + uv);
    let api = api_claims(&all);
    let req = create_request(entity_type.get_object_type(), label, api);
    Ok(EntityDecision::Create(req))
}

} // verus!
