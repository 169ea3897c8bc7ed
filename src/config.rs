use vstd::prelude::*;

verus! {

#[verifier::external_type_specification]
#[verifier::external_body]
pub struct ExJsonValue(serde_json::Value);

#[verifier::external_type_specification]
#[verifier::external_body]
pub struct ExYamlValue(serde_yaml::Value);

/// Whether serde_yaml reads `text` into a value. It refuses malformed YAML,
/// and also text with more than one document, duplicate mapping keys, or
/// nesting beyond its limit.
pub uninterp spec fn yaml_accepts(text: Seq<char>) -> bool;

/// The value serde_yaml reads from `text`, where it accepts it.
pub uninterp spec fn yaml_value_of(text: Seq<char>) -> serde_yaml::Value;

/// Whether serde_json converts the YAML value `v` into a JSON value.
pub uninterp spec fn json_converts(v: serde_yaml::Value) -> bool;

/// The JSON value serde_json makes of the YAML value `v`, where it converts.
pub uninterp spec fn json_value_of(v: serde_yaml::Value) -> serde_json::Value;

/// Whether serde_yaml writes the JSON value `v` as YAML text.
pub uninterp spec fn yaml_encodes(v: serde_json::Value) -> bool;

/// The YAML text serde_yaml writes for the JSON value `v`, where it does.
pub uninterp spec fn yaml_text_of(v: serde_json::Value) -> Seq<char>;

/// The message of serde_yaml's error for `text`, where it refuses it.
pub uninterp spec fn yaml_error_of(text: Seq<char>) -> Seq<char>;

/// The message of serde_json's error for the YAML value `v`, where it does
/// not convert.
pub uninterp spec fn json_error_of(v: serde_yaml::Value) -> Seq<char>;

/// The message of serde_yaml's error for the JSON value `v`, where it does
/// not write it.
pub uninterp spec fn yaml_encode_error_of(v: serde_json::Value) -> Seq<char>;

/// The JSON object with no members. The argument carries nothing: every
/// empty object is the same value.
pub uninterp spec fn empty_object(unit: ()) -> serde_json::Value;

/// Relies on serde_yaml::from_str into a serde_yaml::Value: the value read
/// from the text, or the parser's message when it refuses the text.
#[verifier::external_body]
fn parse_yaml(text: &str) -> (r: Result<serde_yaml::Value, String>)
    ensures
        r is Ok <==> yaml_accepts(text@),
        r matches Ok(v) ==> v == yaml_value_of(text@),
        r matches Err(m) ==> m@ == yaml_error_of(text@),
{
    match serde_yaml::from_str::<serde_yaml::Value>(text) {
        Ok(v) => Ok(v),
        Err(e) => Err(e.to_string()),
    }
}

/// Relies on serde_json::to_value: the same document as a JSON value; fails
/// where a mapping key has no string form.
#[verifier::external_body]
fn yaml_to_json(v: serde_yaml::Value) -> (r: Result<serde_json::Value, String>)
    ensures
        r is Ok <==> json_converts(v),
        r matches Ok(j) ==> j == json_value_of(v),
        r matches Err(m) ==> m@ == json_error_of(v),
{
    match serde_json::to_value(v) {
        Ok(j) => Ok(j),
        Err(e) => Err(e.to_string()),
    }
}

/// Relies on serde_yaml::to_string: the YAML text of a JSON value.
#[verifier::external_body]
fn json_to_yaml(v: &serde_json::Value) -> (r: Result<String, String>)
    ensures
        r is Ok <==> yaml_encodes(*v),
        r matches Ok(s) ==> s@ == yaml_text_of(*v),
        r matches Err(m) ==> m@ == yaml_encode_error_of(*v),
{
    match serde_yaml::to_string(v) {
        Ok(s) => Ok(s),
        Err(e) => Err(e.to_string()),
    }
}

/// Relies on serde_json::Map::new: a JSON object with no members.
#[verifier::external_body]
fn empty_json_object() -> (r: serde_json::Value)
    ensures
        r == empty_object(()),
{
    serde_json::Value::Object(serde_json::Map::new())
}

/// Why the front end's configuration document could not be converted.
pub enum ConfigError {
    /// The stored text is not well-formed YAML.
    Parse(String),
    /// The YAML document has no JSON form.
    Convert(String),
    /// The JSON value could not be written as YAML.
    Encode(String),
}

impl ConfigError {
    pub fn message(&self) -> (r: String)
        ensures
            r@ == match self {
                ConfigError::Parse(m) => m@,
                ConfigError::Convert(m) => m@,
                ConfigError::Encode(m) => m@,
            },
    {
        match self {
            ConfigError::Parse(m) => m.clone(),
            ConfigError::Convert(m) => m.clone(),
            ConfigError::Encode(m) => m.clone(),
        }
    }
}

/// The configuration document as a JSON value, from its stored YAML text; an
/// empty object while nothing is stored.
pub fn config_from_yaml(text: Option<String>) -> (r: Result<serde_json::Value, ConfigError>)
    ensures
        text is None ==> r == Ok::<serde_json::Value, ConfigError>(empty_object(())),
        text matches Some(t) ==> {
            &&& (r matches Err(ConfigError::Parse(_))) <==> !yaml_accepts(t@)
            &&& (r matches Err(ConfigError::Convert(_))) <==> yaml_accepts(t@) && !json_converts(
                yaml_value_of(t@),
            )
            &&& r is Ok <==> yaml_accepts(t@) && json_converts(yaml_value_of(t@))
            &&& (r matches Ok(j) ==> j == json_value_of(yaml_value_of(t@)))
            &&& (r matches Err(ConfigError::Parse(m)) ==> m@ == yaml_error_of(t@))
            &&& (r matches Err(ConfigError::Convert(m)) ==> m@ == json_error_of(
                yaml_value_of(t@),
            ))
        },
        !(r matches Err(ConfigError::Encode(_))),
{
    match text {
        None => Ok(empty_json_object()),
        Some(t) => match parse_yaml(t.as_str()) {
            Err(m) => Err(ConfigError::Parse(m)),
            Ok(doc) => match yaml_to_json(doc) {
                Ok(j) => Ok(j),
                Err(m) => Err(ConfigError::Convert(m)),
            },
        },
    }
}

/// The YAML text to store for a configuration document given as JSON.
pub fn config_to_yaml(config: &serde_json::Value) -> (r: Result<String, ConfigError>)
    ensures
        r is Ok <==> yaml_encodes(*config),
        r matches Ok(s) ==> s@ == yaml_text_of(*config),
        r is Err ==> r matches Err(ConfigError::Encode(_)),
        r matches Err(ConfigError::Encode(m)) ==> m@ == yaml_encode_error_of(*config),
{
    match json_to_yaml(config) {
        Ok(s) => Ok(s),
        Err(m) => Err(ConfigError::Encode(m)),
    }
}

} // verus!
