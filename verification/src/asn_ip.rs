//! The dataset record: what it holds, and which JSON values are records.

use crate::json::{member_of, Json, JsonNumber};
use vstd::prelude::*;
use vstd::string::*;

pub mod cidr;
pub mod sync;
pub mod upstream;

verus! {

/// The record of one autonomous system, as the dataset publishes it.
#[derive(Debug, PartialEq, Eq)]
pub struct ASNInfo {
    pub asn: u32,
    pub handle: String,
    pub description: String,
    pub subnets: Subnets,
}

/// The networks of one autonomous system, each in CIDR notation, in the
/// order in which the dataset lists them. The texts are kept as published.
#[derive(Debug, PartialEq, Eq)]
pub struct Subnets {
    pub ipv4: Vec<String>,
    pub ipv6: Vec<String>,
}

/// The networks of one autonomous system, as sequences of texts.
pub struct SubnetsView {
    pub ipv4: Seq<Seq<char>>,
    pub ipv6: Seq<Seq<char>>,
}

/// A record, with its texts as sequences of characters.
pub struct ASNInfoView {
    pub asn: u32,
    pub handle: Seq<char>,
    pub description: Seq<char>,
    pub subnets: SubnetsView,
}

impl View for Subnets {
    type V = SubnetsView;

    open spec fn view(&self) -> SubnetsView {
        SubnetsView { ipv4: self.ipv4.deep_view(), ipv6: self.ipv6.deep_view() }
    }
}

impl View for ASNInfo {
    type V = ASNInfoView;

    open spec fn view(&self) -> ASNInfoView {
        ASNInfoView {
            asn: self.asn,
            handle: self.handle@,
            description: self.description@,
            subnets: self.subnets@,
        }
    }
}

/// The members that make a record.
#[derive(Clone, Copy, Debug, PartialEq, Eq, Structural)]
pub enum Field {
    Asn,
    Handle,
    Description,
    Subnets,
    Ipv4,
    Ipv6,
}

/// Why a JSON value is no record.
#[derive(Clone, Copy, Debug, PartialEq, Eq, Structural)]
pub enum RecordError {
    /// The value is not an object.
    NotAnObject,
    /// The object has no such member.
    Missing(Field),
    /// The member does not hold what a record holds there.
    Mistyped(Field),
}

/// The name of a member.
pub open spec fn field_name(field: Field) -> Seq<char> {
    match field {
        Field::Asn => "asn"@,
        Field::Handle => "handle"@,
        Field::Description => "description"@,
        Field::Subnets => "subnets"@,
        Field::Ipv4 => "ipv4"@,
        Field::Ipv6 => "ipv6"@,
    }
}

/// The text of a [`RecordError`].
pub open spec fn record_error_text(error: RecordError) -> Seq<char> {
    match error {
        RecordError::NotAnObject => "invalid type: expected a record"@,
        RecordError::Missing(field) => "missing field `"@ + field_name(field) + "`"@,
        RecordError::Mistyped(field) => "invalid type for field `"@ + field_name(field) + "`"@,
    }
}

/// The identifier that `json` holds: a whole number from 0 to 2^32 - 1.
pub open spec fn as_identifier(json: Json) -> Option<u32> {
    match json {
        Json::Number(JsonNumber::Unsigned(number)) => if number <= u32::MAX {
            Some(number as u32)
        } else {
            None
        },
        _ => None,
    }
}

/// The text that `json` holds.
pub open spec fn as_text(json: Json) -> Option<Seq<char>> {
    match json {
        Json::Text(text) => Some(text@),
        _ => None,
    }
}

/// The texts that `json` holds: an array of nothing but texts, in its order.
pub open spec fn as_texts(json: Json) -> Option<Seq<Seq<char>>> {
    match json {
        Json::Array(items) => if forall|i: int|
            0 <= i < items@.len() ==> as_text(#[trigger] items@[i]) is Some {
            Some(Seq::new(items@.len(), |i: int| as_text(items@[i]).unwrap()))
        } else {
            None
        },
        _ => None,
    }
}

/// What the member `field` of the object `json` holds, read with `read`.
pub open spec fn field_of<T>(json: Json, field: Field, read: spec_fn(Json) -> Option<T>) -> Result<
    T,
    RecordError,
> {
    match json.member(field_name(field)) {
        None => Err(RecordError::Missing(field)),
        Some(value) => match read(value) {
            Some(held) => Ok(held),
            None => Err(RecordError::Mistyped(field)),
        },
    }
}

/// The subnets that `json` holds: an object with the two lists. Members
/// beside them are passed over.
pub open spec fn subnets_of(json: Json) -> Result<SubnetsView, RecordError> {
    if !(json is Object) {
        Err(RecordError::Mistyped(Field::Subnets))
    } else {
        match field_of(json, Field::Ipv4, |value: Json| as_texts(value)) {
            Err(error) => Err(error),
            Ok(ipv4) => match field_of(json, Field::Ipv6, |value: Json| as_texts(value)) {
                Err(error) => Err(error),
                Ok(ipv6) => Ok(SubnetsView { ipv4, ipv6 }),
            },
        }
    }
}

/// The record that `json` holds: an object with an identifier, a handle, a
/// description and subnets. The members are read in this order, and the first
/// that is missing or holds something else decides the error. Members beside
/// them are passed over.
pub open spec fn record_of(json: Json) -> Result<ASNInfoView, RecordError> {
    if !(json is Object) {
        Err(RecordError::NotAnObject)
    } else {
        match field_of(json, Field::Asn, |value: Json| as_identifier(value)) {
            Err(error) => Err(error),
            Ok(asn) => match field_of(json, Field::Handle, |value: Json| as_text(value)) {
                Err(error) => Err(error),
                Ok(handle) => match field_of(json, Field::Description, |value: Json| as_text(value)) {
                    Err(error) => Err(error),
                    Ok(description) => match json.member(field_name(Field::Subnets)) {
                        None => Err(RecordError::Missing(Field::Subnets)),
                        Some(value) => match subnets_of(value) {
                            Err(error) => Err(error),
                            Ok(subnets) => Ok(ASNInfoView { asn, handle, description, subnets }),
                        },
                    },
                },
            },
        }
    }
}

impl Field {
    /// The name of this member.
    pub fn name(self) -> (name: &'static str)
        ensures
            name@ == field_name(self),
    {
        match self {
            Field::Asn => "asn",
            Field::Handle => "handle",
            Field::Description => "description",
            Field::Subnets => "subnets",
            Field::Ipv4 => "ipv4",
            Field::Ipv6 => "ipv6",
        }
    }
}

impl RecordError {
    /// The text of this error.
    pub fn message(&self) -> (text: String)
        ensures
            text@ == record_error_text(*self),
    {
        match self {
            RecordError::NotAnObject => String::from_str("invalid type: expected a record"),
            RecordError::Missing(field) => String::from_str("missing field `").concat(
                field.name(),
            ).concat("`"),
            RecordError::Mistyped(field) => String::from_str("invalid type for field `").concat(
                field.name(),
            ).concat("`"),
        }
    }
}

/// Finds the member `field` of `json`.
fn required(json: &Json, field: Field) -> (result: Result<&Json, RecordError>)
    ensures
        match json.member(field_name(field)) {
            Some(value) => result == Ok::<&Json, RecordError>(&value),
            None => result == Err::<&Json, RecordError>(RecordError::Missing(field)),
        },
{
    match json.get(field.name()) {
        Some(value) => Ok(value),
        None => Err(RecordError::Missing(field)),
    }
}

/// Reads an identifier.
fn read_identifier(json: &Json) -> (result: Option<u32>)
    ensures
        result == as_identifier(*json),
{
    match json {
        Json::Number(JsonNumber::Unsigned(number)) => {
            if *number <= 0xffff_ffff {
                Some(*number as u32)
            } else {
                None
            }
        },
        _ => None,
    }
}

/// Reads a text.
fn read_text(json: &Json) -> (result: Option<String>)
    ensures
        result.deep_view() == as_text(*json),
{
    match json {
        Json::Text(text) => Some(text.clone()),
        _ => None,
    }
}

/// Reads a list of texts.
fn read_texts(json: &Json) -> (result: Option<Vec<String>>)
    ensures
        result.deep_view() == as_texts(*json),
{
    match json {
        Json::Array(items) => {
            let mut texts: Vec<String> = Vec::new();
            let mut i: usize = 0;
            while i < items.len()
                invariant
                    i <= items.len(),
                    texts.len() == i,
                    *json == Json::Array(*items),
                    forall|j: int| 0 <= j < i ==> as_text(#[trigger] items@[j]) == Some(texts@[j]@),
                decreases items.len() - i,
            {
                match read_text(&items[i]) {
                    Some(text) => {
                        texts.push(text);
                    },
                    None => {
                        assert(as_text(items@[i as int]) is None);
                        return None;
                    },
                }
                i += 1;
            }
            assert(texts.deep_view() =~= Seq::new(
                items@.len(),
                |i: int| as_text(items@[i]).unwrap(),
            ));
            Some(texts)
        },
        _ => None,
    }
}

/// Reads the text of the member `field` of `json`.
fn text_field(json: &Json, field: Field) -> (result: Result<String, RecordError>)
    ensures
        match field_of(*json, field, |value: Json| as_text(value)) {
            Ok(text) => result matches Ok(held) && held@ == text,
            Err(error) => result == Err::<String, RecordError>(error),
        },
{
    match required(json, field) {
        Ok(value) => match read_text(value) {
            Some(text) => Ok(text),
            None => Err(RecordError::Mistyped(field)),
        },
        Err(error) => Err(error),
    }
}

/// Reads the texts of the member `field` of `json`.
fn texts_field(json: &Json, field: Field) -> (result: Result<Vec<String>, RecordError>)
    ensures
        match field_of(*json, field, |value: Json| as_texts(value)) {
            Ok(texts) => result matches Ok(held) && held.deep_view() == texts,
            Err(error) => result == Err::<Vec<String>, RecordError>(error),
        },
{
    match required(json, field) {
        Ok(value) => match read_texts(value) {
            Some(texts) => Ok(texts),
            None => Err(RecordError::Mistyped(field)),
        },
        Err(error) => Err(error),
    }
}

impl Subnets {
    /// Reads the subnets that `json` holds.
    pub fn from_json(json: &Json) -> (result: Result<Subnets, RecordError>)
        ensures
            match subnets_of(*json) {
                Ok(subnets) => result matches Ok(held) && held@ == subnets,
                Err(error) => result == Err::<Subnets, RecordError>(error),
            },
    {
        match json {
            Json::Object(_) => {},
            _ => {
                return Err(RecordError::Mistyped(Field::Subnets));
            },
        }
        let ipv4 = match texts_field(json, Field::Ipv4) {
            Ok(texts) => texts,
            Err(error) => {
                return Err(error);
            },
        };
        let ipv6 = match texts_field(json, Field::Ipv6) {
            Ok(texts) => texts,
            Err(error) => {
                return Err(error);
            },
        };
        Ok(Subnets { ipv4, ipv6 })
    }
}

impl ASNInfo {
    /// Reads the record that `json` holds.
    pub fn from_json(json: &Json) -> (result: Result<ASNInfo, RecordError>)
        ensures
            match record_of(*json) {
                Ok(record) => result matches Ok(held) && held@ == record,
                Err(error) => result == Err::<ASNInfo, RecordError>(error),
            },
    {
        match json {
            Json::Object(_) => {},
            _ => {
                return Err(RecordError::NotAnObject);
            },
        }
        let asn = match required(json, Field::Asn) {
            Ok(value) => match read_identifier(value) {
                Some(asn) => asn,
                None => {
                    return Err(RecordError::Mistyped(Field::Asn));
                },
            },
            Err(error) => {
                return Err(error);
            },
        };
        let handle = match text_field(json, Field::Handle) {
            Ok(text) => text,
            Err(error) => {
                return Err(error);
            },
        };
        let description = match text_field(json, Field::Description) {
            Ok(text) => text,
            Err(error) => {
                return Err(error);
            },
        };
        let subnets = match required(json, Field::Subnets) {
            Ok(value) => match Subnets::from_json(value) {
                Ok(subnets) => subnets,
                Err(error) => {
                    return Err(error);
                },
            },
            Err(error) => {
                return Err(error);
            },
        };
        Ok(ASNInfo { asn, handle, description, subnets })
    }
}

/// A list of texts as a JSON array.
fn texts_json(texts: &Vec<String>) -> (json: Json)
    ensures
        as_texts(json) == Some(texts.deep_view()),
{
    let mut items: Vec<Json> = Vec::new();
    let mut i: usize = 0;
    while i < texts.len()
        invariant
            i <= texts.len(),
            items.len() == i,
            forall|j: int| 0 <= j < i ==> as_text(#[trigger] items@[j]) == Some(texts@[j]@),
        decreases texts.len() - i,
    {
        items.push(Json::Text(texts[i].clone()));
        i += 1;
    }
    let json = Json::Array(items);
    assert(as_texts(json).unwrap() =~= texts.deep_view());
    json
}

/// One member of an object.
fn member(field: Field, value: Json) -> (member: (String, Json))
    ensures
        member.0@ == field_name(field),
        member.1 == value,
{
    (String::from_str(field.name()), value)
}

/// The names of the members of a record are all different.
proof fn lemma_field_names_differ(a: Field, b: Field)
    ensures
        field_name(a) == field_name(b) ==> a == b,
{
    reveal_strlit("asn");
    reveal_strlit("handle");
    reveal_strlit("description");
    reveal_strlit("subnets");
    reveal_strlit("ipv4");
    reveal_strlit("ipv6");
    if field_name(a) == field_name(b) {
        assert(field_name(a).len() == field_name(b).len());
        assert(field_name(a)[3] == field_name(b)[3]);
    }
}

/// Whether `json` is `subnets` as written: an object of two members and no
/// other, the list of IPv4 networks and the list of IPv6 networks under their
/// names, in this order, each list an array of texts in the order of the
/// list.
pub open spec fn writes_subnets(json: Json, subnets: SubnetsView) -> bool {
    &&& json matches Json::Object(members)
    &&& members@.len() == 2
    &&& members@[0].0@ == field_name(Field::Ipv4)
    &&& as_texts(members@[0].1) == Some(subnets.ipv4)
    &&& members@[1].0@ == field_name(Field::Ipv6)
    &&& as_texts(members@[1].1) == Some(subnets.ipv6)
}

/// Whether `json` is `record` as written: an object of four members and no
/// other, the identifier as a whole number, the handle and the description as
/// texts and the subnets as written, under their names, in this order.
pub open spec fn writes_record(json: Json, record: ASNInfoView) -> bool {
    &&& json matches Json::Object(members)
    &&& members@.len() == 4
    &&& members@[0].0@ == field_name(Field::Asn)
    &&& members@[0].1 == Json::Number(JsonNumber::Unsigned(record.asn as u64))
    &&& members@[1].0@ == field_name(Field::Handle)
    &&& as_text(members@[1].1) == Some(record.handle)
    &&& members@[2].0@ == field_name(Field::Description)
    &&& as_text(members@[2].1) == Some(record.description)
    &&& members@[3].0@ == field_name(Field::Subnets)
    &&& writes_subnets(members@[3].1, record.subnets)
}

/// Subnets that were written read back as they were.
pub proof fn lemma_written_subnets_read_back(json: Json, subnets: SubnetsView)
    requires
        writes_subnets(json, subnets),
    ensures
        subnets_of(json) == Ok::<SubnetsView, RecordError>(subnets),
{
    let all = json->Object_0@;
    lemma_field_names_differ(Field::Ipv4, Field::Ipv6);
    assert(all.drop_first()[0] == all[1]);
    assert(member_of(all, field_name(Field::Ipv4)) == Some(all[0].1));
    assert(member_of(all.drop_first(), field_name(Field::Ipv6)) == Some(all[1].1));
    assert(member_of(all, field_name(Field::Ipv6)) == Some(all[1].1));
}

/// A record that was written reads back as it was.
pub proof fn lemma_written_record_reads_back(json: Json, record: ASNInfoView)
    requires
        writes_record(json, record),
    ensures
        record_of(json) == Ok::<ASNInfoView, RecordError>(record),
{
    let all = json->Object_0@;
    let rest1 = all.drop_first();
    let rest2 = rest1.drop_first();
    let rest3 = rest2.drop_first();
    lemma_field_names_differ(Field::Asn, Field::Handle);
    lemma_field_names_differ(Field::Asn, Field::Description);
    lemma_field_names_differ(Field::Asn, Field::Subnets);
    lemma_field_names_differ(Field::Handle, Field::Description);
    lemma_field_names_differ(Field::Handle, Field::Subnets);
    lemma_field_names_differ(Field::Description, Field::Subnets);
    lemma_written_subnets_read_back(all[3].1, record.subnets);
    assert(rest1[0] == all[1]);
    assert(rest2[0] == all[2]);
    assert(rest3[0] == all[3]);
    assert(member_of(all, field_name(Field::Asn)) == Some(all[0].1));
    assert(member_of(rest1, field_name(Field::Handle)) == Some(all[1].1));
    assert(member_of(all, field_name(Field::Handle)) == Some(all[1].1));
    assert(member_of(rest2, field_name(Field::Description)) == Some(all[2].1));
    assert(member_of(rest1, field_name(Field::Description)) == Some(all[2].1));
    assert(member_of(all, field_name(Field::Description)) == Some(all[2].1));
    assert(member_of(rest3, field_name(Field::Subnets)) == Some(all[3].1));
    assert(member_of(rest2, field_name(Field::Subnets)) == Some(all[3].1));
    assert(member_of(rest1, field_name(Field::Subnets)) == Some(all[3].1));
    assert(member_of(all, field_name(Field::Subnets)) == Some(all[3].1));
}

impl Subnets {
    /// The subnets as a JSON object: the two lists under their names and
    /// nothing else, each in its order. Reading the object gives the subnets
    /// back.
    pub fn to_json(&self) -> (json: Json)
        ensures
            writes_subnets(json, self@),
            subnets_of(json) == Ok::<SubnetsView, RecordError>(self@),
    {
        let mut members: Vec<(String, Json)> = Vec::new();
        members.push(member(Field::Ipv4, texts_json(&self.ipv4)));
        members.push(member(Field::Ipv6, texts_json(&self.ipv6)));
        let json = Json::Object(members);
        proof {
            lemma_written_subnets_read_back(json, self@);
        }
        json
    }
}

impl ASNInfo {
    /// The record as a JSON object: identifier, handle, description and
    /// subnets under their names and nothing else. Reading the object gives
    /// the record back.
    pub fn to_json(&self) -> (json: Json)
        ensures
            writes_record(json, self@),
            record_of(json) == Ok::<ASNInfoView, RecordError>(self@),
    {
        let mut members: Vec<(String, Json)> = Vec::new();
        members.push(member(Field::Asn, Json::Number(JsonNumber::Unsigned(self.asn as u64))));
        members.push(member(Field::Handle, Json::Text(self.handle.clone())));
        members.push(member(Field::Description, Json::Text(self.description.clone())));
        members.push(member(Field::Subnets, self.subnets.to_json()));
        let json = Json::Object(members);
        proof {
            lemma_written_record_reads_back(json, self@);
        }
        json
    }
}

} // verus!
