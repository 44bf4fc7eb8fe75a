//! What an upgrade run is asked to do, and how a configuration file that
//! names only some of it is completed.

use crate::error::{ErrorView, NixosUpgradeError};
use crate::window::{RebootWindow, WindowView};
use vstd::prelude::*;
use vstd::string::*;

verus! {

/// The settings of one upgrade run.
#[derive(Debug, Clone, PartialEq, Eq)]
pub struct NixosUpgradeConfig {
    /// The action asked of the rebuild tool.
    pub operation: String,
    /// The flake to build from; without one the channel is upgraded.
    pub flake: Option<String>,
    /// A channel to take `nixpkgs` from instead of the system's.
    pub channel: Option<String>,
    /// Flags handed to the rebuild tool as they are, in this order.
    pub flags: Vec<String>,
    /// Whether the run may reboot the machine.
    pub allow_reboot: bool,
    /// When a reboot is permitted; without a window, always.
    pub reboot_window: Option<RebootWindow>,
}

/// A `NixosUpgradeConfig` with its texts as sequences of characters.
pub struct ConfigView {
    pub operation: Seq<char>,
    pub flake: Option<Seq<char>>,
    pub channel: Option<Seq<char>>,
    pub flags: Seq<Seq<char>>,
    pub allow_reboot: bool,
    pub reboot_window: Option<WindowView>,
}

/// The window of a configuration, by its view.
pub open spec fn window_view(window: Option<RebootWindow>) -> Option<WindowView> {
    match window {
        Some(w) => Some(w@),
        None => None,
    }
}

impl View for NixosUpgradeConfig {
    type V = ConfigView;

    open spec fn view(&self) -> ConfigView {
        ConfigView {
            operation: self.operation@,
            flake: self.flake.deep_view(),
            channel: self.channel.deep_view(),
            flags: self.flags.deep_view(),
            allow_reboot: self.allow_reboot,
            reboot_window: window_view(self.reboot_window),
        }
    }
}

impl ConfigView {
    /// The configuration used where none is given.
    pub open spec fn standard() -> ConfigView {
        ConfigView {
            operation: "boot"@,
            flake: None,
            channel: None,
            flags: seq!["--no-build-output"@],
            allow_reboot: false,
            reboot_window: None,
        }
    }

    /// The operation is named.
    pub open spec fn well_formed(self) -> bool {
        self.operation.len() > 0
    }

    /// The run is one after which a reboot is considered at all.
    pub open spec fn considers_reboot(self) -> bool {
        self.allow_reboot && self.operation == "boot"@
    }
}

impl Default for NixosUpgradeConfig {
    fn default() -> (config: NixosUpgradeConfig)
        ensures
            config@ == ConfigView::standard(),
            config@.well_formed(),
    {
        let mut flags: Vec<String> = Vec::new();
        flags.push(String::from_str("--no-build-output"));
        let config = NixosUpgradeConfig {
            operation: String::from_str("boot"),
            flake: None,
            channel: None,
            flags,
            allow_reboot: false,
            reboot_window: None,
        };
        proof {
            reveal_strlit("boot");
            assert(config.flags.deep_view() =~= seq!["--no-build-output"@]);
        }
        config
    }
}

/// What a configuration file holds: each setting, where the file names it.
#[derive(Debug, Clone, PartialEq, Eq)]
pub struct ConfigDocument {
    pub operation: Option<String>,
    pub flake: Option<String>,
    pub channel: Option<String>,
    pub flags: Option<Vec<String>>,
    pub allow_reboot: Option<bool>,
    pub reboot_window: Option<RebootWindow>,
}

/// A `ConfigDocument` with its texts as sequences of characters.
pub struct DocumentView {
    pub operation: Option<Seq<char>>,
    pub flake: Option<Seq<char>>,
    pub channel: Option<Seq<char>>,
    pub flags: Option<Seq<Seq<char>>>,
    pub allow_reboot: Option<bool>,
    pub reboot_window: Option<WindowView>,
}

impl View for ConfigDocument {
    type V = DocumentView;

    open spec fn view(&self) -> DocumentView {
        DocumentView {
            operation: self.operation.deep_view(),
            flake: self.flake.deep_view(),
            channel: self.channel.deep_view(),
            flags: self.flags.deep_view(),
            allow_reboot: self.allow_reboot,
            reboot_window: window_view(self.reboot_window),
        }
    }
}

impl DocumentView {
    /// The configuration that the document stands for: each setting it
    /// names, and for each one it leaves out that setting's own default.
    /// An operation given as the empty text counts as left out.
    pub open spec fn completed(self) -> ConfigView {
        ConfigView {
            operation: match self.operation {
                Some(operation) if operation.len() > 0 => operation,
                _ => ConfigView::standard().operation,
            },
            flake: self.flake,
            channel: self.channel,
            flags: match self.flags {
                Some(flags) => flags,
                None => ConfigView::standard().flags,
            },
            allow_reboot: match self.allow_reboot {
                Some(allow) => allow,
                None => ConfigView::standard().allow_reboot,
            },
            reboot_window: self.reboot_window,
        }
    }
}

impl NixosUpgradeConfig {
    /// Whether a reboot is considered at all after this run's rebuild: it
    /// must be allowed, and the operation must be the one that takes effect
    /// at the next boot.
    pub fn considers_reboot(&self) -> (considered: bool)
        ensures
            considered == self@.considers_reboot(),
    {
        let boot = String::from_str("boot");
        self.allow_reboot && self.operation == boot
    }

    /// Completes a document with the default of each setting it leaves out.
    pub fn from_document(document: ConfigDocument) -> (config: NixosUpgradeConfig)
        ensures
            config@ == document@.completed(),
            config@.well_formed(),
    {
        let ConfigDocument { operation, flake, channel, flags, allow_reboot, reboot_window } =
            document;
        let standard = NixosUpgradeConfig::default();
        let operation: String = match operation {
            Some(named) => if named.as_str().is_empty() {
                standard.operation
            } else {
                named
            },
            None => standard.operation,
        };
        let flags: Vec<String> = match flags {
            Some(given) => given,
            None => standard.flags,
        };
        let allow_reboot: bool = match allow_reboot {
            Some(allow) => allow,
            None => standard.allow_reboot,
        };
        NixosUpgradeConfig { operation, flake, channel, flags, allow_reboot, reboot_window }
    }
}

/// What was found where the configuration file should be.
#[derive(Debug, Clone, PartialEq, Eq)]
pub enum ConfigSource {
    /// No file is there.
    Missing,
    /// A file is there and could not be read; the cause.
    Unreadable(String),
    /// The file was read and does not hold a configuration; the cause.
    Malformed(String),
    /// The file's settings.
    Document(ConfigDocument),
}

/// A `ConfigSource` with its texts as sequences of characters.
pub enum SourceView {
    Missing,
    Unreadable(Seq<char>),
    Malformed(Seq<char>),
    Document(DocumentView),
}

impl View for ConfigSource {
    type V = SourceView;

    open spec fn view(&self) -> SourceView {
        match self {
            ConfigSource::Missing => SourceView::Missing,
            ConfigSource::Unreadable(cause) => SourceView::Unreadable(cause@),
            ConfigSource::Malformed(cause) => SourceView::Malformed(cause@),
            ConfigSource::Document(document) => SourceView::Document(document@),
        }
    }
}

impl SourceView {
    /// The configuration to run with, or why there is none.
    pub open spec fn loaded(self) -> Result<ConfigView, ErrorView> {
        match self {
            SourceView::Missing => Ok(ConfigView::standard()),
            SourceView::Unreadable(cause) => Err(ErrorView::ConfigRead(cause)),
            SourceView::Malformed(cause) => Err(ErrorView::ConfigParse(cause)),
            SourceView::Document(document) => Ok(document.completed()),
        }
    }
}

/// The outcome of loading, by its view.
pub open spec fn loaded_view(outcome: Result<NixosUpgradeConfig, NixosUpgradeError>) -> Result<
    ConfigView,
    ErrorView,
> {
    match outcome {
        Ok(config) => Ok(config@),
        Err(error) => Err(error@),
    }
}

/// Settles the configuration of a run from what was found at the file's
/// place. A missing file is no error: the run uses the standard
/// configuration. A file that cannot be read or understood ends the run.
pub fn load_config(source: ConfigSource) -> (outcome: Result<NixosUpgradeConfig, NixosUpgradeError>)
    ensures
        loaded_view(outcome) == source@.loaded(),
        outcome is Ok ==> outcome->Ok_0@.well_formed(),
{
    match source {
        ConfigSource::Missing => Ok(NixosUpgradeConfig::default()),
        ConfigSource::Unreadable(cause) => Err(NixosUpgradeError::ConfigRead(cause)),
        ConfigSource::Malformed(cause) => Err(NixosUpgradeError::ConfigParse(cause)),
        ConfigSource::Document(document) => Ok(NixosUpgradeConfig::from_document(document)),
    }
}

/// Each setting that a document leaves out has its own default in the
/// completed configuration, and each one that it names is kept, whatever
/// the document says of the other settings.
pub proof fn lemma_settings_default_one_by_one(document: DocumentView)
    ensures
        document.operation is None ==> document.completed().operation == "boot"@,
        document.operation == Some(Seq::<char>::empty()) ==> document.completed().operation
            == "boot"@,
        document.operation matches Some(operation) ==> operation.len() > 0
            ==> document.completed().operation == operation,
        document.flake is None ==> document.completed().flake is None,
        document.flake is Some ==> document.completed().flake == document.flake,
        document.channel is None ==> document.completed().channel is None,
        document.channel is Some ==> document.completed().channel == document.channel,
        document.flags is None ==> document.completed().flags == seq!["--no-build-output"@],
        document.flags matches Some(flags) ==> document.completed().flags == flags,
        document.allow_reboot is None ==> !document.completed().allow_reboot,
        document.allow_reboot matches Some(allow) ==> document.completed().allow_reboot == allow,
        document.reboot_window is None ==> document.completed().reboot_window is None,
        document.reboot_window is Some ==> document.completed().reboot_window
            == document.reboot_window,
        document.completed().well_formed(),
{
    reveal_strlit("boot");
}

/// A document that names no setting stands for the standard configuration.
pub proof fn lemma_empty_document_is_standard(document: DocumentView)
    requires
        document.operation is None,
        document.flake is None,
        document.channel is None,
        document.flags is None,
        document.allow_reboot is None,
        document.reboot_window is None,
    ensures
        document.completed() == ConfigView::standard(),
{
}

/// Two documents that agree on one setting give configurations that agree
/// on it, whatever else the two say.
pub proof fn lemma_settings_are_independent(a: DocumentView, b: DocumentView)
    ensures
        a.operation == b.operation ==> a.completed().operation == b.completed().operation,
        a.flake == b.flake ==> a.completed().flake == b.completed().flake,
        a.channel == b.channel ==> a.completed().channel == b.completed().channel,
        a.flags == b.flags ==> a.completed().flags == b.completed().flags,
        a.allow_reboot == b.allow_reboot ==> a.completed().allow_reboot
            == b.completed().allow_reboot,
        a.reboot_window == b.reboot_window ==> a.completed().reboot_window
            == b.completed().reboot_window,
{
}

} // verus!
