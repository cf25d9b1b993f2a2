//! Core data types of the resolver and their abstract views.
use vstd::prelude::*;
use vstd::string::StringExecFns;

verus! {

/// Operating system of the machine the editor runs on.
#[derive(Clone, Copy, PartialEq, Eq, Structural, Debug)]
pub enum Os {
    Mac,
    Linux,
    Windows,
}

/// CPU architecture of the machine the editor runs on.
#[derive(Clone, Copy, PartialEq, Eq, Structural, Debug)]
pub enum Arch {
    Aarch64,
    X86,
    X8664,
}

/// A single downloadable file attached to a release.
pub struct Asset {
    pub name: String,
    pub download_url: String,
}

/// Abstract view of an [`Asset`].
#[verifier::ext_equal]
pub struct AbsAsset {
    pub name: Seq<char>,
    pub url: Seq<char>,
}

impl View for Asset {
    type V = AbsAsset;

    open spec fn view(&self) -> AbsAsset {
        AbsAsset { name: self.name@, url: self.download_url@ }
    }
}

impl DeepView for Asset {
    type V = AbsAsset;

    open spec fn deep_view(&self) -> AbsAsset {
        self@
    }
}

/// A published release: a version string and its downloadable assets.
pub struct Release {
    pub version: String,
    pub assets: Vec<Asset>,
}

/// Abstract view of a [`Release`].
#[verifier::ext_equal]
pub struct AbsRelease {
    pub version: Seq<char>,
    pub assets: Seq<AbsAsset>,
}

impl View for Release {
    type V = AbsRelease;

    open spec fn view(&self) -> AbsRelease {
        AbsRelease { version: self.version@, assets: self.assets.deep_view() }
    }
}

impl DeepView for Release {
    type V = AbsRelease;

    open spec fn deep_view(&self) -> AbsRelease {
        self@
    }
}

/// A launch command handed back to the host: the executable path, an
/// empty argument list and an empty environment-override list.
pub struct Command {
    pub command: String,
    pub args: Vec<String>,
    pub env: Vec<(String, String)>,
}

/// Abstract view of a [`Command`].
#[verifier::ext_equal]
pub struct AbsCommand {
    pub command: Seq<char>,
    pub args: Seq<Seq<char>>,
    pub env: Seq<(Seq<char>, Seq<char>)>,
}

impl View for Command {
    type V = AbsCommand;

    open spec fn view(&self) -> AbsCommand {
        AbsCommand {
            command: self.command@,
            args: self.args.deep_view(),
            env: self.env.deep_view(),
        }
    }
}

/// The command that launches the binary at `path`: no arguments, no
/// environment overrides.
pub open spec fn abs_command_for(path: Seq<char>) -> AbsCommand {
    AbsCommand { command: path, args: Seq::empty(), env: Seq::empty() }
}

impl Command {
    /// Wraps a resolved executable path in a command with no arguments
    /// and no environment overrides.
    pub fn for_binary(path: String) -> (c: Command)
        ensures
            c@ == abs_command_for(path@),
    {
        Command { command: path, args: Vec::new(), env: Vec::new() }
    }
}

/// Why a resolution attempt failed.
#[derive(Debug)]
pub enum ResolveError {
    /// The shell environment has no `HOME` entry, so no user state
    /// directory can be derived.
    MissingHome,
    /// No release asset is published for this machine's operating
    /// system and architecture.
    UnsupportedPlatform,
    /// The latest release has no asset with the expected name.
    AssetNotFound { asset_name: String },
    /// A filesystem or network operation reported a failure.
    Io { message: String },
    /// The host answered a step with an event the resolver did not ask
    /// for.
    UnexpectedEvent,
}

impl ResolveError {
    /// A human-readable description of the failure, for the host to
    /// show.
    pub fn message(&self) -> (r: String)
        ensures
            r@ == match self@ {
                AbsError::MissingHome => "No HOME env var"@,
                AbsError::UnsupportedPlatform => "unsupported platform architecture"@,
                AbsError::AssetNotFound { asset_name } => "no asset found matching "@ + asset_name,
                AbsError::Io { message } => message,
                AbsError::UnexpectedEvent => "unexpected event during resolution"@,
            },
    {
        match self {
            ResolveError::MissingHome => "No HOME env var".to_owned(),
            ResolveError::UnsupportedPlatform => "unsupported platform architecture".to_owned(),
            ResolveError::AssetNotFound { asset_name } => {
                let mut m = "no asset found matching ".to_owned();
                m.append(asset_name.as_str());
                m
            },
            ResolveError::Io { message } => message.clone(),
            ResolveError::UnexpectedEvent => "unexpected event during resolution".to_owned(),
        }
    }
}

/// Abstract view of a [`ResolveError`].
#[verifier::ext_equal]
pub enum AbsError {
    MissingHome,
    UnsupportedPlatform,
    AssetNotFound { asset_name: Seq<char> },
    Io { message: Seq<char> },
    UnexpectedEvent,
}

impl View for ResolveError {
    type V = AbsError;

    open spec fn view(&self) -> AbsError {
        match self {
            ResolveError::MissingHome => AbsError::MissingHome,
            ResolveError::UnsupportedPlatform => AbsError::UnsupportedPlatform,
            ResolveError::AssetNotFound { asset_name } => AbsError::AssetNotFound {
                asset_name: asset_name@,
            },
            ResolveError::Io { message } => AbsError::Io { message: message@ },
            ResolveError::UnexpectedEvent => AbsError::UnexpectedEvent,
        }
    }
}

} // verus!
