//! The configuration of the Zenoh session that messages arrive on.

use vstd::prelude::*;
use vstd::string::*;
use zenoh::config::Config;

verus! {

/// `zenoh::config::Config`, the configuration that a session is opened with.
#[verifier::external_type_specification]
#[verifier::external_body]
pub struct ExConfig(Config);

/// What a configuration holds at the keys `mode` and `connect/endpoints`: for each of the two,
/// the text that `zenoh::config::Config::get_json` gives for it.
pub uninterp spec fn client_settings(config: Config) -> Map<Seq<char>, Seq<char>>;

/// What a configuration holds everywhere else: for the key of each single setting but `mode` and
/// `connect/endpoints`, the value of that setting as JSON text, members of objects in the order
/// of their names.
pub uninterp spec fn other_settings(config: Config) -> Map<Seq<char>, Seq<char>>;

/// The value that a JSON5 text denotes at a key of `zenoh::config::Config`, as the JSON text that
/// `zenoh::config::Config::get_json` gives for it, or nothing where the text denotes none.
pub uninterp spec fn stored_json(key: Seq<char>, json5: Seq<char>) -> Option<Seq<char>>;

/// `zenoh::config::Config::default`. Nothing is claimed of what it holds: it counts the
/// processors of the machine.
#[verifier::external_body]
fn default_config() -> (config: Config) {
    Config::default()
}

/// `zenoh::config::Config::insert_json5`, at the two keys that a client session needs.
///
/// An accepted text denotes a value at its key, which replaces the one there, and every other
/// setting stays; a refused text changes nothing. Which value is stored depends on the key and
/// the text alone.
///
/// Success is not promised, not even for a text that denotes a value: the parser underneath,
/// `pest`, also refuses where little is left of the stack of the calling thread, or after a
/// number of calls that a program may set for the whole process. Of the text of an error nothing
/// is claimed: it names a place in the sources of the crate that raised it.
#[verifier::external_body]
fn insert_json5(config: &mut Config, key: &str, json5: &str) -> (result: Result<(), String>)
    requires
        key@ == "mode"@ || key@ == "connect/endpoints"@,
    ensures
        result is Ok ==> stored_json(key@, json5@) is Some,
        result is Ok ==> client_settings(*final(config)) == client_settings(*old(config)).insert(
            key@,
            stored_json(key@, json5@)->0,
        ),
        result is Err ==> client_settings(*final(config)) == client_settings(*old(config)),
        other_settings(*final(config)) == other_settings(*old(config)),
{
    config.insert_json5(key, json5).map_err(|error| error.to_string())
}

/// The JSON5 text of a list that holds the one locator.
pub open spec fn endpoints_text(locator: Seq<char>) -> Seq<char> {
    "[\""@ + locator + "\"]"@
}

/// Writes the JSON5 text of a list that holds the one locator.
pub fn endpoints_json5(locator: &str) -> (text: String)
    ensures
        text@ == endpoints_text(locator@),
        text@.len() == locator@.len() + 4,
        text@.take(2) == seq!['[', '"'],
        text@.subrange(2, text@.len() - 2) == locator@,
        text@.skip(text@.len() - 2) == seq!['"', ']'],
{
    let mut text: String = String::new();
    text.append("[\"");
    text.append(locator);
    text.append("\"]");
    proof {
        locators_are_quoted_whole(locator@);
    }
    text
}

/// The text of the endpoints is the locator, whole and unchanged, between an opening bracket with
/// a quote and a quote with a closing bracket.
pub proof fn locators_are_quoted_whole(locator: Seq<char>)
    ensures
        endpoints_text(locator).len() == locator.len() + 4,
        endpoints_text(locator).take(2) == seq!['[', '"'],
        endpoints_text(locator).subrange(2, endpoints_text(locator).len() - 2) == locator,
        endpoints_text(locator).skip(endpoints_text(locator).len() - 2) == seq!['"', ']'],
{
    reveal_strlit("[\"");
    reveal_strlit("\"]");
    let text = endpoints_text(locator);
    assert(text.take(2) =~= seq!['[', '"']);
    assert(text.subrange(2, text.len() - 2) =~= locator);
    assert(text.skip(text.len() - 2) =~= seq!['"', ']']);
}

/// Different locators give different texts.
pub proof fn locators_are_told_apart(a: Seq<char>, b: Seq<char>)
    requires
        a != b,
    ensures
        endpoints_text(a) != endpoints_text(b),
{
    locators_are_quoted_whole(a);
    locators_are_quoted_whole(b);
}

/// The mode of a client session is the quoted word.
pub proof fn mode_is_client()
    ensures
        mode_text() == seq!['"', 'c', 'l', 'i', 'e', 'n', 't', '"'],
{
    reveal_strlit("\"client\"");
    assert(mode_text() =~= seq!['"', 'c', 'l', 'i', 'e', 'n', 't', '"']);
}

/// The JSON5 text of the mode of a client session.
pub open spec fn mode_text() -> Seq<char> {
    "\"client\""@
}

/// Whether the two settings of a client session at `locator` denote values.
pub open spec fn is_meaningful(locator: Seq<char>) -> bool {
    &&& stored_json("mode"@, mode_text()) is Some
    &&& stored_json("connect/endpoints"@, endpoints_text(locator)) is Some
}

/// What the two settings of a client session at `locator` make of the settings before.
pub open spec fn with_client_settings(
    before: Map<Seq<char>, Seq<char>>,
    locator: Seq<char>,
) -> Map<Seq<char>, Seq<char>> {
    before.insert("mode"@, stored_json("mode"@, mode_text())->0).insert(
        "connect/endpoints"@,
        stored_json("connect/endpoints"@, endpoints_text(locator))->0,
    )
}

/// The configuration after both settings were made, or the text of the first refusal.
pub fn settled_config(
    config: Config,
    mode: Result<(), String>,
    endpoints: Result<(), String>,
) -> (result: Result<Config, String>)
    ensures
        mode matches Err(text) ==> result == Err::<Config, String>(text),
        mode is Ok ==> (endpoints matches Err(text) ==> result == Err::<Config, String>(text)),
        mode is Ok && endpoints is Ok ==> result == Ok::<Config, String>(config),
{
    match mode {
        Err(text) => Err(text),
        Ok(()) => match endpoints {
            Err(text) => Err(text),
            Ok(()) => Ok(config),
        },
    }
}

/// The given configuration, made that of a client session that connects to the router at
/// `locator`, or the text of the error with which Zenoh refused it. That text is the one that
/// the refused insertion gave, as [`settled_config`] says.
pub fn client_config(config: Config, locator: &str) -> (result: Result<Config, String>)
    ensures
        result is Ok ==> is_meaningful(locator@),
        result matches Ok(made) ==> {
            &&& client_settings(made) == with_client_settings(client_settings(config), locator@)
            &&& other_settings(made) == other_settings(config)
        },
        result is Ok ==> stored_json("mode"@, "\"client\""@) is Some,
        result is Ok ==> stored_json(
            "connect/endpoints"@,
            seq!['[', '"'] + locator@ + seq!['"', ']'],
        ) is Some,
        result matches Ok(made) ==> client_settings(made) == client_settings(config).insert(
            "mode"@,
            stored_json("mode"@, "\"client\""@)->0,
        ).insert(
            "connect/endpoints"@,
            stored_json("connect/endpoints"@, seq!['[', '"'] + locator@ + seq!['"', ']'])->0,
        ),
{
    proof {
        reveal_strlit("[\"");
        reveal_strlit("\"]");
        assert(endpoints_text(locator@) =~= seq!['[', '"'] + locator@ + seq!['"', ']']);
    }
    let mut made = config;
    let mode = insert_json5(&mut made, "mode", "\"client\"");
    let text = endpoints_json5(locator);
    let endpoints = insert_json5(&mut made, "connect/endpoints", text.as_str());
    settled_config(made, mode, endpoints)
}

/// The configuration of a client session that connects to the router at `locator`, or the text
/// of the error with which Zenoh refused it: what [`client_config`] makes of the default
/// configuration, which depends on the machine.
pub fn zenoh_config(locator: &str) -> (result: Result<Config, String>)
    ensures
        result is Ok ==> is_meaningful(locator@),
        result matches Ok(made) ==> {
            &&& client_settings(made).contains_pair("mode"@, stored_json("mode"@, mode_text())->0)
            &&& client_settings(made).contains_pair(
                "connect/endpoints"@,
                stored_json("connect/endpoints"@, endpoints_text(locator@))->0,
            )
        },
        result is Ok ==> stored_json("mode"@, "\"client\""@) is Some,
        result is Ok ==> stored_json(
            "connect/endpoints"@,
            seq!['[', '"'] + locator@ + seq!['"', ']'],
        ) is Some,
        result matches Ok(made) ==> {
            &&& client_settings(made).contains_pair(
                "mode"@,
                stored_json("mode"@, "\"client\""@)->0,
            )
            &&& client_settings(made).contains_pair(
                "connect/endpoints"@,
                stored_json("connect/endpoints"@, seq!['[', '"'] + locator@ + seq!['"', ']'])->0,
            )
        },
{
    proof {
        reveal_strlit("[\"");
        reveal_strlit("\"]");
        assert(endpoints_text(locator@) =~= seq!['[', '"'] + locator@ + seq!['"', ']']);
        reveal_strlit("mode");
        reveal_strlit("connect/endpoints");
        assert("mode"@.len() != "connect/endpoints"@.len());
    }
    client_config(default_config(), locator)
}

} // verus!
