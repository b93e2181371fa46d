//! What the editor is handed once the language server is resolved: the
//! command to start it, and the configuration to pass on to it.

use vstd::prelude::*;
use vstd::string::*;
use serde_json::Value;
use crate::error::{message_text, ResolveError};
use crate::extension::TyposExtension;
use crate::resolution::TyposBinary;

verus! {

/// A JSON value of `serde_json`. The library passes such values on and never
/// looks inside one.
#[verifier::external_type_specification]
#[verifier::external_body]
pub struct ExValue(serde_json::Value);

/// How the editor starts the language server.
#[derive(Clone, Debug, PartialEq, Eq)]
pub struct Command {
    pub command: String,
    pub args: Vec<String>,
    pub env: Vec<(String, String)>,
}

/// The mathematical content of a [`Command`].
pub struct CommandView {
    pub command: Seq<char>,
    pub args: Seq<Seq<char>>,
    pub env: Seq<(Seq<char>, Seq<char>)>,
}

impl View for Command {
    type V = CommandView;

    open spec fn view(&self) -> CommandView {
        CommandView {
            command: self.command@,
            args: Seq::new(self.args@.len(), |i: int| self.args@[i]@),
            env: Seq::new(self.env@.len(), |i: int| (self.env@[i].0@, self.env@[i].1@)),
        }
    }
}

/// What the user has configured for the language server.
pub struct LspSettings {
    /// The initialization options to pass to the language server.
    pub initialization_options: Option<Value>,
    /// The workspace settings to pass to the language server.
    pub settings: Option<Value>,
}

/// Calls `Value::default()` of `serde_json`, which gives the value that
/// stands for nothing configured. Nothing is claimed of the result.
#[verifier::external_body]
fn empty_value() -> Value {
    Value::default()
}

/// The configured value, or `fallback` where nothing is configured.
pub fn configured_or(configured: Option<Value>, fallback: Value) -> (value: Value)
    ensures
        value == match configured {
            Some(configured) => configured,
            None => fallback,
        },
{
    match configured {
        Some(configured) => configured,
        None => fallback,
    }
}

impl TyposExtension {
    /// The identifier under which the editor knows the language server.
    pub const LANGUAGE_SERVER_ID: &'static str = "typos";

    /// The command that starts a resolved language server: its executable
    /// with its arguments, in an environment without additions. A failed
    /// resolution is reported by its message.
    pub fn language_server_command(outcome: Result<TyposBinary, ResolveError>) -> (command: Result<
        Command,
        String,
    >)
        ensures
            match outcome {
                Ok(binary) => command matches Ok(command) && command@ == (CommandView {
                    command: binary@.path,
                    args: binary@.args,
                    env: Seq::empty(),
                }),
                Err(error) => command matches Err(message) && message@ == message_text(error@),
            },
    {
        match outcome {
            Ok(binary) => {
                let command = Command { command: binary.path, args: binary.args, env: Vec::new() };
                assert(command@.env =~= Seq::empty());
                Ok(command)
            },
            Err(error) => Err(error.message()),
        }
    }

    /// The initialization options to pass to the language server: those the
    /// user has configured, and an empty value where the settings could not
    /// be had or hold none.
    pub fn language_server_initialization_options(settings: Result<LspSettings, String>) -> (options:
        Result<Option<Value>, String>)
        ensures
            options matches Ok(Some(_)),
            settings matches Ok(LspSettings { initialization_options: Some(configured), .. })
                ==> options == Ok::<Option<Value>, String>(Some(configured)),
    {
        let configured = match settings {
            Ok(settings) => settings.initialization_options,
            Err(_) => None,
        };
        Ok(Some(configured_or(configured, empty_value())))
    }

    /// The workspace configuration to pass to the language server: the
    /// settings the user has configured, and an empty value where the settings
    /// could not be had or hold none.
    pub fn language_server_workspace_configuration(settings: Result<LspSettings, String>) -> (configuration:
        Result<Option<Value>, String>)
        ensures
            configuration matches Ok(Some(_)),
            settings matches Ok(LspSettings { settings: Some(configured), .. })
                ==> configuration == Ok::<Option<Value>, String>(Some(configured)),
    {
        let configured = match settings {
            Ok(settings) => settings.settings,
            Err(_) => None,
        };
        Ok(Some(configured_or(configured, empty_value())))
    }
}

} // verus!
