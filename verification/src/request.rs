//! The formatting request and the choices it is made of.

use vstd::prelude::*;
use crate::overrides::{ConfigOverrides, Entry};

verus! {

/// How the formatter reports or applies its result.
#[derive(Clone, Copy, Debug, PartialEq, Eq, PartialOrd)]
pub enum EmitMode {
    /// Rewrite each source file in place.
    Overwrite,
    /// Write the formatted source to a new file beside the source file.
    NewFile,
    /// Print the formatted source to standard output.
    StdOut,
    /// Print a diff between the source as it stands and as formatted.
    Diff,
}

impl EmitMode {
    /// The spelling of a mode on the formatter's command line.
    pub open spec fn keyword(self) -> Seq<char> {
        match self {
            EmitMode::Overwrite => "overwrite"@,
            EmitMode::NewFile => "new_file"@,
            EmitMode::StdOut => "stdout"@,
            EmitMode::Diff => "diff"@,
        }
    }

    /// Returns the spelling of this mode on the formatter's command line.
    pub fn as_str(&self) -> (word: &'static str)
        ensures
            word@ == self.keyword(),
    {
        match self {
            EmitMode::Overwrite => "overwrite",
            EmitMode::NewFile => "new_file",
            EmitMode::StdOut => "stdout",
            EmitMode::Diff => "diff",
        }
    }
}

impl Default for EmitMode {
    /// A request that names no mode rewrites the files in place.
    fn default() -> (mode: Self)
        ensures
            mode == EmitMode::Overwrite,
    {
        EmitMode::Overwrite
    }
}

/// How much the formatter says while it works.
#[derive(Clone, Copy, Debug, PartialEq, Eq)]
pub enum Verbosity {
    Normal,
    Verbose,
    Quiet,
}

impl Verbosity {
    /// The verbosity that the two switches of the command line ask for. Where
    /// both are on, `verbose` wins.
    pub open spec fn of_flags(verbose: bool, quiet: bool) -> Verbosity {
        if verbose {
            Verbosity::Verbose
        } else if quiet {
            Verbosity::Quiet
        } else {
            Verbosity::Normal
        }
    }

    /// Settles the verbosity from the two switches of the command line.
    pub fn from_flags(verbose: bool, quiet: bool) -> (verbosity: Self)
        ensures
            verbosity == Self::of_flags(verbose, quiet),
    {
        if verbose {
            Verbosity::Verbose
        } else if quiet {
            Verbosity::Quiet
        } else {
            Verbosity::Normal
        }
    }
}

/// What the formatter works on.
#[derive(Debug, PartialEq, Eq)]
pub enum Target {
    /// One source file.
    FilePath(String),
    /// Every source file below a directory.
    DirPath(String),
    /// Nothing was named: the current directory.
    Unspecified,
}

/// A target as the contracts see it.
pub enum TargetView {
    FilePath(Seq<char>),
    DirPath(Seq<char>),
    Unspecified,
}

impl View for Target {
    type V = TargetView;

    open spec fn view(&self) -> TargetView {
        match self {
            Target::FilePath(path) => TargetView::FilePath(path@),
            Target::DirPath(path) => TargetView::DirPath(path@),
            Target::Unspecified => TargetView::Unspecified,
        }
    }
}

/// Why a request could not be made.
#[derive(Clone, Copy, Debug, PartialEq, Eq)]
pub enum RequestError {
    /// Both a file and a directory were named as the target.
    ConflictingTargets,
}

impl Target {
    /// The target that a file path and a directory path, each of which may be
    /// missing, stand for. There is none where both are given.
    pub open spec fn of_paths(
        file_path: Option<Seq<char>>,
        dir_path: Option<Seq<char>>,
    ) -> Option<TargetView> {
        match (file_path, dir_path) {
            (Some(_), Some(_)) => None,
            (Some(path), None) => Some(TargetView::FilePath(path)),
            (None, Some(path)) => Some(TargetView::DirPath(path)),
            (None, None) => Some(TargetView::Unspecified),
        }
    }

    /// Settles the target from the two paths of the command line, and refuses
    /// the pair where both are given.
    pub fn from_paths(file_path: Option<String>, dir_path: Option<String>) -> (target: Result<
        Target,
        RequestError,
    >)
        ensures
            match Self::of_paths(file_path.deep_view(), dir_path.deep_view()) {
                Some(view) => target is Ok && target->Ok_0@ == view,
                None => target == Err::<Target, RequestError>(RequestError::ConflictingTargets),
            },
    {
        match (file_path, dir_path) {
            (Some(_), Some(_)) => Err(RequestError::ConflictingTargets),
            (Some(path), None) => Ok(Target::FilePath(path)),
            (None, Some(path)) => Ok(Target::DirPath(path)),
            (None, None) => Ok(Target::Unspecified),
        }
    }
}

/// One invocation of the formatter, as asked for on the command line.
#[derive(Debug, PartialEq, Eq)]
pub struct FmtCommand {
    /// How to generate and show the result after reformatting.
    pub emit_mode: EmitMode,
    /// The file or directory to be formatted.
    pub target: Target,
    /// Where the search for the formatter's configuration file starts.
    pub config_path: Option<String>,
    /// Options set on the command line; they take priority over the
    /// configuration file.
    pub config: ConfigOverrides,
    /// Whether to print more or less than usual.
    pub verbosity: Verbosity,
}

/// A request as the contracts see it.
pub struct FormatRequest {
    pub emit_mode: EmitMode,
    pub target: TargetView,
    pub config_path: Option<Seq<char>>,
    pub overrides: Seq<Entry>,
    pub verbosity: Verbosity,
}

impl View for FmtCommand {
    type V = FormatRequest;

    open spec fn view(&self) -> FormatRequest {
        FormatRequest {
            emit_mode: self.emit_mode,
            target: self.target@,
            config_path: self.config_path.deep_view(),
            overrides: self.config@,
            verbosity: self.verbosity,
        }
    }
}

impl FmtCommand {
    /// The request that the values of the command line stand for. There is
    /// none where both a file and a directory are named.
    pub open spec fn of_flags(
        emit_mode: EmitMode,
        file_path: Option<Seq<char>>,
        dir_path: Option<Seq<char>>,
        config_path: Option<Seq<char>>,
        overrides: Seq<Entry>,
        verbose: bool,
        quiet: bool,
    ) -> Option<FormatRequest> {
        match Target::of_paths(file_path, dir_path) {
            Some(target) => Some(
                FormatRequest {
                    emit_mode,
                    target,
                    config_path,
                    overrides,
                    verbosity: Verbosity::of_flags(verbose, quiet),
                },
            ),
            None => None,
        }
    }

    /// Makes a request from the values of the command line. Naming both a file
    /// and a directory is refused; naming neither means the current directory.
    pub fn new(
        emit_mode: EmitMode,
        file_path: Option<String>,
        dir_path: Option<String>,
        config_path: Option<String>,
        config: ConfigOverrides,
        verbose: bool,
        quiet: bool,
    ) -> (request: Result<FmtCommand, RequestError>)
        ensures
            match Self::of_flags(
                emit_mode,
                file_path.deep_view(),
                dir_path.deep_view(),
                config_path.deep_view(),
                config@,
                verbose,
                quiet,
            ) {
                Some(view) => request is Ok && request->Ok_0@ == view,
                None => request == Err::<FmtCommand, RequestError>(
                    RequestError::ConflictingTargets,
                ),
            },
    {
        match Target::from_paths(file_path, dir_path) {
            Ok(target) => Ok(
                FmtCommand {
                    emit_mode,
                    target,
                    config_path,
                    config,
                    verbosity: Verbosity::from_flags(verbose, quiet),
                },
            ),
            Err(error) => Err(error),
        }
    }
}

/// The `fmt` command of the command-line tool.
#[derive(Debug)]
pub struct Fmt {
    pub command: FmtCommand,
}

impl Fmt {
    /// Returns the name under which the command is reported.
    pub fn command_name(&self) -> (name: &'static str)
        ensures
            name@ == "Fmt"@,
    {
        "Fmt"
    }
}

} // verus!
