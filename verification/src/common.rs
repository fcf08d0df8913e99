//! The resource tags: the attributes that identify the service on every
//! signal it exports.
use crate::config::Config;
use crate::options::Options;
use opentelemetry::KeyValue;
use opentelemetry_sdk::Resource;
use opentelemetry_semantic_conventions::resource::{SERVICE_NAME, SERVICE_VERSION};
use opentelemetry_semantic_conventions::SCHEMA_URL;
use vstd::prelude::*;

verus! {

#[verifier::external_type_specification]
#[verifier::external_body]
pub struct ExResource(Resource);

/// The attributes that a resource holds, each value as the text it stands
/// for, by key.
pub uninterp spec fn attributes(resource: Resource) -> Map<Seq<char>, Seq<char>>;

/// The schema URL that a resource was made with, if it was made with one.
pub uninterp spec fn schema_url(resource: Resource) -> Option<Seq<char>>;

/// The attributes that a list of pairs leaves in a resource: for a key that
/// occurs more than once, the last value.
pub open spec fn collect(pairs: Seq<(String, String)>) -> Map<Seq<char>, Seq<char>>
    decreases pairs.len(),
{
    if pairs.len() == 0 {
        Map::empty()
    } else {
        collect(pairs.drop_last()).insert(pairs.last().0@, pairs.last().1@)
    }
}

/// The tags of a service: its name under `service.name`, its version under
/// `service.version`, and nothing else.
pub open spec fn service_tags(name: Seq<char>, version: Seq<char>) -> Map<Seq<char>, Seq<char>> {
    Map::empty().insert("service.name"@, name).insert("service.version"@, version)
}

/// The schema that the attribute names are taken from.
pub open spec fn conventions_schema() -> Seq<char> {
    "https://opentelemetry.io/schemas/1.28.0"@
}

/// The constant `SERVICE_NAME`: the attribute key `service.name`.
#[verifier::external_body]
fn service_name_key() -> (key: &'static str)
    ensures
        key@ == "service.name"@,
{
    SERVICE_NAME
}

/// The constant `SERVICE_VERSION`: the attribute key `service.version`.
#[verifier::external_body]
fn service_version_key() -> (key: &'static str)
    ensures
        key@ == "service.version"@,
{
    SERVICE_VERSION
}

/// The constant `SCHEMA_URL`: the schema of this version of the conventions.
#[verifier::external_body]
fn conventions_schema_url() -> (url: &'static str)
    ensures
        url@ == conventions_schema(),
{
    SCHEMA_URL
}

/// `Resource::new`: a resource of string attributes, inserted in the order
/// given, so that a later pair replaces an earlier one with the same key.
/// It carries no schema URL.
#[verifier::external_body]
fn resource_new(pairs: Vec<(String, String)>) -> (resource: Resource)
    ensures
        attributes(resource) == collect(pairs@),
        schema_url(resource) is None,
{
    Resource::new(pairs.into_iter().map(|(key, value)| KeyValue::new(key, value)))
}

/// `Resource::from_schema_url`: as `Resource::new`, and the resource carries
/// the schema URL, unless that is empty.
#[verifier::external_body]
fn resource_from_schema_url(pairs: Vec<(String, String)>, url: &'static str) -> (resource: Resource)
    ensures
        attributes(resource) == collect(pairs@),
        schema_url(resource) == if url@.len() == 0 {
            None
        } else {
            Some(url@)
        },
{
    Resource::from_schema_url(pairs.into_iter().map(|(key, value)| KeyValue::new(key, value)), url)
}

/// `Resource::clone`: another handle to the same attributes.
#[verifier::external_body]
pub(crate) fn resource_clone(resource: &Resource) -> (copy: Resource)
    ensures
        copy == *resource,
{
    resource.clone()
}

fn service_pairs(name: &str, version: &str) -> (pairs: Vec<(String, String)>)
    ensures
        collect(pairs@) == service_tags(name@, version@),
{
    let mut pairs: Vec<(String, String)> = Vec::new();
    pairs.push((service_name_key().to_owned(), name.to_owned()));
    pairs.push((service_version_key().to_owned(), version.to_owned()));
    proof {
        let first = pairs@.drop_last();
        assert(first.drop_last() =~= Seq::<(String, String)>::empty());
        assert(collect(first.drop_last()) == Map::<Seq<char>, Seq<char>>::empty());
        assert(collect(first) == Map::<Seq<char>, Seq<char>>::empty().insert(
            "service.name"@,
            name@,
        ));
    }
    pairs
}

/// The resource tags of a configuration: the service's name and version.
/// They depend on nothing else.
pub fn tags(config: &Config) -> (resource: Resource)
    ensures
        attributes(resource) == service_tags(config@.service_name, config@.service_version),
        schema_url(resource) is None,
{
    resource_new(service_pairs(config.service_name.as_str(), config.service_version.as_str()))
}

/// The resource tags of a set of options: the service's name and version,
/// under the schema that names the two attributes.
pub fn get_resource(options: &Options) -> (resource: Resource)
    ensures
        attributes(resource) == service_tags(options.service_name@, options.service_version@),
        schema_url(resource) == Some(conventions_schema()),
{
    proof {
        reveal_strlit("https://opentelemetry.io/schemas/1.28.0");
    }
    resource_from_schema_url(
        service_pairs(options.service_name.as_str(), options.service_version.as_str()),
        conventions_schema_url(),
    )
}

} // verus!
