use vstd::prelude::*;

verus! {

#[verifier::external_type_specification]
#[verifier::external_body]
#[verifier::reject_recursive_types(K)]
#[verifier::reject_recursive_types(V)]
pub struct ExTomlMap<K, V>(toml::map::Map<K, V>);

#[verifier::external_type_specification]
#[verifier::external_body]
pub struct ExTomlValue(toml::Value);

#[verifier::external_type_specification]
#[verifier::external_body]
pub struct ExTomlError(toml::de::Error);

/// The names of the top-level entries of a TOML table.
pub uninterp spec fn toml_table_keys(t: toml::Table) -> Set<Seq<char>>;

/// What a text reads as, as TOML: the names of the top-level entries of the
/// document, or `None` when the text is not well-formed TOML.
pub uninterp spec fn toml_document_keys(content: Seq<char>) -> Option<Set<Seq<char>>>;

/// `str::parse::<toml::Table>`, which calls `toml::from_str`: the result is a
/// table exactly when the text is well-formed TOML, and then its top-level
/// entries are those of the document; both depend on the text alone. What
/// each entry holds is not stated.
#[verifier::external_body]
fn parse_table(content: &str) -> (r: Result<toml::Table, toml::de::Error>)
    ensures
        match r {
            Ok(t) => toml_document_keys(content@) == Some(toml_table_keys(t)),
            Err(_) => toml_document_keys(content@) is None,
        },
{
    content.parse::<toml::Table>()
}

/// Reads the text of the configuration file as a TOML table.
pub fn parse_config(content: &str) -> (r: Result<toml::Table, toml::de::Error>)
    ensures
        match r {
            Ok(t) => toml_document_keys(content@) == Some(toml_table_keys(t)),
            Err(_) => toml_document_keys(content@) is None,
        },
{
    parse_table(content)
}

} // verus!
