//! What the adapter tells its host about configuring it: how to install the
//! binary, a settings template, and the schema of the settings.

use vstd::prelude::*;

verus! {

/// How to install the binary, in Markdown.
pub const INSTALLATION_INSTRUCTIONS: &'static str =
    "# Container Use\n\nThis context server starts the `cu` command-line tool in stdio mode.\n\nInstall `cu` and make sure that it is on your `PATH`, or set `cu_path` in the settings of this context server to the full path of the binary.\n";

/// A settings template, in JSON with comments.
pub const DEFAULT_SETTINGS: &'static str =
    "{\n  // Path to the cu binary. Without it, cu is looked up on PATH.\n  // \"cu_path\": \"/usr/local/bin/cu\"\n}\n";

/// The configuration metadata that the host shows to the user.
#[derive(Debug, PartialEq, Eq)]
pub struct ContextServerConfiguration {
    /// Installation instructions in Markdown.
    pub installation_instructions: String,
    /// JSON schema of the settings.
    pub settings_schema: String,
    /// Default settings template.
    pub default_settings: String,
}

/// The configuration metadata as texts.
pub struct ConfigurationView {
    pub installation_instructions: Seq<char>,
    pub settings_schema: Seq<char>,
    pub default_settings: Seq<char>,
}

impl View for ContextServerConfiguration {
    type V = ConfigurationView;

    open spec fn view(&self) -> ConfigurationView {
        ConfigurationView {
            installation_instructions: self.installation_instructions@,
            settings_schema: self.settings_schema@,
            default_settings: self.default_settings@,
        }
    }
}

/// The metadata around a given schema: the two embedded texts, unchanged,
/// and the schema.
pub open spec fn configuration_with(schema: Seq<char>) -> ConfigurationView {
    ConfigurationView {
        installation_instructions: INSTALLATION_INSTRUCTIONS@,
        settings_schema: schema,
        default_settings: DEFAULT_SETTINGS@,
    }
}

/// Neither embedded text is empty.
pub proof fn lemma_embedded_texts_nonempty()
    ensures
        INSTALLATION_INSTRUCTIONS@.len() > 0,
        DEFAULT_SETTINGS@.len() > 0,
{
    reveal_strlit(
        "# Container Use\n\nThis context server starts the `cu` command-line tool in stdio mode.\n\nInstall `cu` and make sure that it is on your `PATH`, or set `cu_path` in the settings of this context server to the full path of the binary.\n",
    );
    reveal_strlit(
        "{\n  // Path to the cu binary. Without it, cu is looked up on PATH.\n  // \"cu_path\": \"/usr/local/bin/cu\"\n}\n",
    );
}

/// The configuration metadata. `schema` is the JSON schema of the settings
/// as text, or the reason why it could not be written out; such a reason is
/// handed on as it is.
pub fn context_server_configuration(schema: Result<String, String>) -> (configuration: Result<
    Option<ContextServerConfiguration>,
    String,
>)
    ensures
        match schema {
            Ok(text) => configuration matches Ok(Some(c)) && c@ == configuration_with(text@),
            Err(reason) => configuration matches Err(message) && message@ == reason@,
        },
        configuration matches Ok(Some(c)) ==> c@.installation_instructions.len() > 0
            && c@.default_settings.len() > 0,
{
    proof {
        lemma_embedded_texts_nonempty();
    }
    match schema {
        Ok(settings_schema) => Ok(
            Some(
                ContextServerConfiguration {
                    installation_instructions: INSTALLATION_INSTRUCTIONS.to_string(),
                    settings_schema,
                    default_settings: DEFAULT_SETTINGS.to_string(),
                },
            ),
        ),
        Err(reason) => Err(reason),
    }
}

} // verus!
