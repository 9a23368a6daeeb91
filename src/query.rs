//! Fetch queries over imports: parameters as they arrive, and the checked
//! filter the store is asked with.
use crate::ids::Uuid;
use crate::patch::bucket_view;
use crate::pipeline::eq_ignore_ascii_case;
use vstd::prelude::*;

verus! {

/// The most results a fetch returns when no limit is given.
pub const DEFAULT_API_RESPONSE_LIMIT: u32 = 100;

/// The value of a hexadecimal digit (either case); -1 for any other
/// character.
pub open spec fn hex_digit_value(c: char) -> int {
    let u = c as u32;
    if 48 <= u <= 57 {
        u - 48
    } else if 97 <= u <= 102 {
        u - 87
    } else if 65 <= u <= 70 {
        u - 55
    } else {
        -1
    }
}

/// Whether every character is a hexadecimal digit.
pub open spec fn all_hex(s: Seq<char>) -> bool {
    forall|i: int| 0 <= i < s.len() ==> hex_digit_value(#[trigger] s[i]) >= 0
}

/// The number that hexadecimal digits write, most significant first.
pub open spec fn hex_value(s: Seq<char>) -> int
    decreases s.len(),
{
    if s.len() == 0 {
        0
    } else {
        hex_value(s.drop_last()) * 16 + hex_digit_value(s.last())
    }
}

/// The 32 digits of a hyphenated UUID (`8-4-4-4-12`), if `s` has that
/// shape.
pub open spec fn hyphenated_digits(s: Seq<char>) -> Option<Seq<char>> {
    if s.len() == 36 && s[8] == '-' && s[13] == '-' && s[18] == '-' && s[23] == '-' {
        Some(
            s.subrange(0, 8) + s.subrange(9, 13) + s.subrange(14, 18) + s.subrange(19, 23)
                + s.subrange(24, 36),
        )
    } else {
        None
    }
}

/// The 32 digits of a UUID written simple, hyphenated, braced
/// (`{hyphenated}`) or as a URN (`urn:uuid:hyphenated`, prefix in either
/// case), if `s` has one of these shapes.
pub open spec fn uuid_digits(s: Seq<char>) -> Option<Seq<char>> {
    if s.len() == 32 {
        Some(s)
    } else if s.len() == 36 {
        hyphenated_digits(s)
    } else if s.len() == 38 && s[0] == '{' && s[37] == '}' {
        hyphenated_digits(s.subrange(1, 37))
    } else if s.len() == 45 && eq_ignore_ascii_case(s.subrange(0, 9), "urn:uuid:"@) {
        hyphenated_digits(s.subrange(9, 45))
    } else {
        None
    }
}

/// The identifier a text denotes in one of the UUID formats, if it does.
pub open spec fn uuid_from_text(s: Seq<char>) -> Option<u128> {
    match uuid_digits(s) {
        Some(d) => if all_hex(d) {
            Some(hex_value(d) as u128)
        } else {
            None
        },
        None => None,
    }
}

/// Relies on uuid::Uuid::try_parse (and Uuid::as_u128): the identifier
/// written in `s` as 32 hexadecimal digits, simple, hyphenated, braced or as
/// a URN, if `s` is one.
#[verifier::external_body]
fn try_parse_uuid(s: &str) -> (r: Option<Uuid>)
    ensures
        r is None <==> uuid_from_text(s@) is None,
        r is Some ==> r->0.value == uuid_from_text(s@)->0,
{
    match uuid::Uuid::try_parse(s) {
        Ok(u) => Some(Uuid { value: u.as_u128() }),
        Err(_) => None,
    }
}

/// A text that is not an identifier.
#[derive(Clone, Copy, Debug, PartialEq, Eq, Structural)]
pub struct InvalidUuid;

/// Parses one identifier.
pub fn parse_uuid(string: &str) -> (r: Result<Uuid, InvalidUuid>)
    ensures
        r is Err <==> uuid_from_text(string@) is None,
        r is Ok ==> r->Ok_0.value == uuid_from_text(string@)->0,
{
    match try_parse_uuid(string) {
        Some(u) => Ok(u),
        None => Err(InvalidUuid),
    }
}

/// Whether every text of `s` denotes an identifier.
pub open spec fn all_parse(s: Seq<Seq<char>>) -> bool {
    forall|i: int| 0 <= i < s.len() ==> (#[trigger] uuid_from_text(s[i])) is Some
}

/// Parses a list of identifiers: all of them, or an error if any fails.
pub fn parse_uuids(strings: &Vec<String>) -> (r: Result<Vec<Uuid>, InvalidUuid>)
    ensures
        r is Ok <==> all_parse(bucket_view(strings@)),
        r is Ok ==> r->Ok_0@.len() == strings@.len() && forall|i: int|
            0 <= i < strings@.len() ==> (#[trigger] r->Ok_0@[i]).value == uuid_from_text(
                strings@[i]@,
            )->0,
{
    let ghost texts = bucket_view(strings@);
    let mut out: Vec<Uuid> = Vec::new();
    let mut i: usize = 0;
    while i < strings.len()
        invariant
            0 <= i <= strings.len(),
            texts == bucket_view(strings@),
            out@.len() == i,
            forall|k: int| 0 <= k < i ==> (#[trigger] uuid_from_text(texts[k])) is Some,
            forall|k: int|
                0 <= k < i ==> (#[trigger] out@[k]).value == uuid_from_text(strings@[k]@)->0,
        decreases strings.len() - i,
    {
        match try_parse_uuid(strings[i].as_str()) {
            Some(u) => out.push(u),
            None => {
                assert(uuid_from_text(texts[i as int]) is None);
                return Err(InvalidUuid);
            },
        }
        i = i + 1;
    }
    Ok(out)
}

/// The parameters of a fetch of imports, as the client sends them. Every
/// parameter is optional.
#[derive(Debug, Clone)]
pub struct BulkQuery {
    /// Only imports with one of these identifiers.
    pub id: Option<Vec<String>>,
    /// Only imports started by one of these users.
    pub creator: Option<Vec<String>>,
    /// The most imports to return.
    pub limit: Option<u32>,
    /// How many matching imports to skip.
    pub offset: Option<u32>,
}

/// A checked fetch: identifiers parsed, limit and offset settled.
#[derive(Debug, Clone)]
pub struct BulkFilter {
    pub ids: Option<Vec<Uuid>>,
    pub creators: Option<Vec<Uuid>>,
    pub limit: u32,
    pub offset: u32,
}

/// The parsed identifiers of an optional list, when all of them parse.
pub open spec fn parsed_list(o: Option<Vec<String>>, r: Option<Vec<Uuid>>) -> bool {
    match o {
        None => r is None,
        Some(v) => r is Some && r->0@.len() == v@.len() && forall|i: int|
            0 <= i < v@.len() ==> (#[trigger] r->0@[i]).value == uuid_from_text(v@[i]@)->0,
    }
}

/// Whether every text of an optional list parses.
pub open spec fn list_parses(o: Option<Vec<String>>) -> bool {
    match o {
        None => true,
        Some(v) => all_parse(bucket_view(v@)),
    }
}

fn parse_optional(o: &Option<Vec<String>>) -> (r: Result<Option<Vec<Uuid>>, InvalidUuid>)
    ensures
        r is Ok <==> list_parses(*o),
        r is Ok ==> parsed_list(*o, r->Ok_0),
{
    match o {
        None => Ok(None),
        Some(v) => match parse_uuids(v) {
            Ok(ids) => Ok(Some(ids)),
            Err(e) => Err(e),
        },
    }
}

impl BulkQuery {
    /// No filter, the default limit, no offset.
    pub fn new() -> (r: BulkQuery)
        ensures
            r.id is None,
            r.creator is None,
            r.limit == Some(DEFAULT_API_RESPONSE_LIMIT),
            r.offset == Some(0u32),
    {
        BulkQuery { id: None, creator: None, limit: Some(DEFAULT_API_RESPONSE_LIMIT), offset: Some(0) }
    }

    /// Sets the most imports to return.
    pub fn with_limit(self, limit: u32) -> (r: BulkQuery)
        ensures
            r.limit == Some(limit),
            r.id == self.id,
            r.creator == self.creator,
            r.offset == self.offset,
    {
        BulkQuery { limit: Some(limit), ..self }
    }

    /// Sets how many matching imports to skip.
    pub fn with_offset(self, offset: u32) -> (r: BulkQuery)
        ensures
            r.offset == Some(offset),
            r.id == self.id,
            r.creator == self.creator,
            r.limit == self.limit,
    {
        BulkQuery { offset: Some(offset), ..self }
    }

    /// Only imports with one of these identifiers (as text).
    pub fn with_ids_string(self, id: Vec<String>) -> (r: BulkQuery)
        ensures
            r.id == Some(id),
            r.creator == self.creator,
            r.limit == self.limit,
            r.offset == self.offset,
    {
        BulkQuery { id: Some(id), ..self }
    }

    /// Only imports started by one of these users (as text).
    pub fn with_creators_string(self, creator: Vec<String>) -> (r: BulkQuery)
        ensures
            r.creator == Some(creator),
            r.id == self.id,
            r.limit == self.limit,
            r.offset == self.offset,
    {
        BulkQuery { creator: Some(creator), ..self }
    }

    /// Checks the query: a text that is not an identifier rejects it. The
    /// limit defaults to [`DEFAULT_API_RESPONSE_LIMIT`], the offset to 0.
    pub fn to_filter(&self) -> (r: Result<BulkFilter, InvalidUuid>)
        ensures
            r is Ok <==> list_parses(self.id) && list_parses(self.creator),
            r is Ok ==> {
                &&& parsed_list(self.id, r->Ok_0.ids)
                &&& parsed_list(self.creator, r->Ok_0.creators)
                &&& r->Ok_0.limit == match self.limit {
                    Some(l) => l,
                    None => DEFAULT_API_RESPONSE_LIMIT,
                }
                &&& r->Ok_0.offset == match self.offset {
                    Some(o) => o,
                    None => 0u32,
                }
            },
    {
        let ids = match parse_optional(&self.id) {
            Ok(ids) => ids,
            Err(e) => return Err(e),
        };
        let creators = match parse_optional(&self.creator) {
            Ok(c) => c,
            Err(e) => return Err(e),
        };
        let limit = match self.limit {
            Some(l) => l,
            None => DEFAULT_API_RESPONSE_LIMIT,
        };
        let offset = match self.offset {
            Some(o) => o,
            None => 0,
        };
        Ok(BulkFilter { ids, creators, limit, offset })
    }
}

/// The parameters of a fetch of records.
#[derive(Debug, Clone)]
pub struct PigQuery {
    /// Only records with one of these identifiers.
    pub id: Option<Vec<String>>,
    /// Only records whose name resembles this text.
    pub name: Option<String>,
    pub limit: Option<u32>,
    pub offset: Option<u32>,
}

/// The most matches the duplicate detector returns for one name.
pub const DUPLICATE_LIMIT: u32 = 10;

impl PigQuery {
    /// No filter, the default limit, no offset.
    pub fn new() -> (r: PigQuery)
        ensures
            r.id is None,
            r.name is None,
            r.limit == Some(DEFAULT_API_RESPONSE_LIMIT),
            r.offset == Some(0u32),
    {
        PigQuery { id: None, name: None, limit: Some(DEFAULT_API_RESPONSE_LIMIT), offset: Some(0) }
    }

    /// Only records whose name resembles `name`.
    pub fn with_name(self, name: &String) -> (r: PigQuery)
        ensures
            r.name matches Some(n) && n@ == name@,
            r.id == self.id,
            r.limit == self.limit,
            r.offset == self.offset,
    {
        PigQuery { name: Some(name.clone()), ..self }
    }

    /// Sets the most records to return.
    pub fn with_limit(self, limit: u32) -> (r: PigQuery)
        ensures
            r.limit == Some(limit),
            r.id == self.id,
            r.name == self.name,
            r.offset == self.offset,
    {
        PigQuery { limit: Some(limit), ..self }
    }

    /// The duplicate detector's question for a name: records that resemble
    /// it, at most [`DUPLICATE_LIMIT`] of them.
    pub fn duplicates_of(name: &String) -> (r: PigQuery)
        ensures
            r.id is None,
            r.name matches Some(n) && n@ == name@,
            r.limit == Some(DUPLICATE_LIMIT),
            r.offset == Some(0u32),
    {
        PigQuery::new().with_name(name).with_limit(DUPLICATE_LIMIT)
    }
}

/// Which imports a fetch may return.
#[derive(Clone, Copy, Debug, PartialEq, Eq, Structural)]
pub enum FetchScope {
    /// Any import (an import administrator).
    Everything,
    /// Only the caller's own imports (an import editor).
    OwnOnly,
}

/// The scope of a fetch for a caller with the given roles; `None` when the
/// caller may not fetch imports at all.
pub fn fetch_scope(is_bulk_admin: bool, is_bulk_editor: bool) -> (r: Option<FetchScope>)
    ensures
        is_bulk_admin ==> r == Some(FetchScope::Everything),
        !is_bulk_admin && is_bulk_editor ==> r == Some(FetchScope::OwnOnly),
        !is_bulk_admin && !is_bulk_editor ==> r is None,
{
    if is_bulk_admin {
        Some(FetchScope::Everything)
    } else if is_bulk_editor {
        Some(FetchScope::OwnOnly)
    } else {
        None
    }
}

/// The filter narrowed to the scope: for [`FetchScope::OwnOnly`] the
/// creators are replaced by the caller alone, whatever was asked.
pub fn restrict_to_scope(filter: BulkFilter, scope: FetchScope, caller: Uuid) -> (r: BulkFilter)
    ensures
        r.ids == filter.ids,
        r.limit == filter.limit,
        r.offset == filter.offset,
        scope == FetchScope::Everything ==> r.creators == filter.creators,
        scope == FetchScope::OwnOnly ==> (r.creators matches Some(c) && c@ == seq![caller]),
{
    match scope {
        FetchScope::Everything => filter,
        FetchScope::OwnOnly => {
            let r = BulkFilter { creators: Some(vec![caller]), ..filter };
            assert(r.creators->0@ =~= seq![caller]);
            r
        },
    }
}

} // verus!
