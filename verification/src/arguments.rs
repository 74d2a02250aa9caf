//! The argument vector that the formatter is started with. The formatter reads
//! its arguments in a fixed order:
//!
//! ```text
//! --emit=<mode> [--config-path=<path>] [-v|-q] [--config=<k=v>(,<k=v>)*]
//!     (--file-path=<path> | --dir-path=<path>)
//! ```

use vstd::prelude::*;
use vstd::string::*;
use crate::overrides::Entry;
use crate::request::{EmitMode, FmtCommand, FormatRequest, Target, TargetView, Verbosity};

verus! {

/// The argument that selects the emit mode.
pub open spec fn emit_argument(mode: EmitMode) -> Seq<char> {
    "--emit="@ + mode.keyword()
}

/// The argument that names the configuration path, where one is given.
pub open spec fn config_path_arguments(path: Option<Seq<char>>) -> Seq<Seq<char>> {
    match path {
        Some(path) => seq!["--config-path="@ + path],
        None => seq![],
    }
}

/// The switch that a verbosity other than the normal one is asked for with.
pub open spec fn verbosity_arguments(verbosity: Verbosity) -> Seq<Seq<char>> {
    match verbosity {
        Verbosity::Verbose => seq!["-v"@],
        Verbosity::Quiet => seq!["-q"@],
        Verbosity::Normal => seq![],
    }
}

/// One override written as `key=value`.
pub open spec fn pair_text(entry: Entry) -> Seq<char> {
    entry.0 + "="@ + entry.1
}

/// The overrides written one after the other in their order, with a comma
/// between each two.
pub open spec fn joined_pairs(entries: Seq<Entry>) -> Seq<char>
    decreases entries.len(),
{
    if entries.len() == 0 {
        Seq::empty()
    } else if entries.len() == 1 {
        pair_text(entries[0])
    } else {
        joined_pairs(entries.drop_last()) + ","@ + pair_text(entries.last())
    }
}

/// The argument that carries the overrides, where there are any.
pub open spec fn overrides_arguments(entries: Seq<Entry>) -> Seq<Seq<char>> {
    if entries.len() == 0 {
        seq![]
    } else {
        seq!["--config="@ + joined_pairs(entries)]
    }
}

/// The argument that names the target.
pub open spec fn target_argument(target: TargetView) -> Seq<char> {
    match target {
        TargetView::FilePath(path) => "--file-path="@ + path,
        TargetView::DirPath(path) => "--dir-path="@ + path,
        TargetView::Unspecified => "--dir-path=./"@,
    }
}

impl FormatRequest {
    /// The arguments of the child process, in the order in which the formatter
    /// expects them.
    pub open spec fn arguments(self) -> Seq<Seq<char>> {
        seq![emit_argument(self.emit_mode)] + config_path_arguments(self.config_path)
            + verbosity_arguments(self.verbosity) + overrides_arguments(self.overrides)
            + seq![target_argument(self.target)]
    }
}

/// Writing out one more override appends it after a comma, or alone where it
/// is the first.
proof fn lemma_joined_pairs_step(entries: Seq<Entry>, count: int)
    requires
        0 <= count < entries.len(),
    ensures
        joined_pairs(entries.take(count + 1)) == if count == 0 {
            pair_text(entries[0])
        } else {
            joined_pairs(entries.take(count)) + ","@ + pair_text(entries[count])
        },
{
    let taken = entries.take(count + 1);
    assert(taken.last() == entries[count]);
    assert(taken.drop_last() =~= entries.take(count));
}

fn overrides_argument(entries: &Vec<(String, String)>) -> (argument: String)
    requires
        entries.len() > 0,
    ensures
        argument@ == "--config="@ + joined_pairs(entries.deep_view()),
{
    let ghost pairs = entries.deep_view();
    let mut argument = "--config=".to_owned();
    let mut done: usize = 0;
    while done < entries.len()
        invariant
            done <= entries.len(),
            pairs == entries.deep_view(),
            argument@ == "--config="@ + joined_pairs(pairs.take(done as int)),
        decreases entries.len() - done,
    {
        let ghost so_far = argument@;
        if done > 0 {
            argument.append(",");
        }
        argument.append(entries[done].0.as_str());
        argument.append("=");
        argument.append(entries[done].1.as_str());
        proof {
            lemma_joined_pairs_step(pairs, done as int);
            let joined = joined_pairs(pairs.take(done as int));
            let pair = pair_text(pairs[done as int]);
            if done > 0 {
                assert(argument@ =~= "--config="@ + (joined + ","@ + pair));
            } else {
                assert(joined =~= Seq::<char>::empty());
                assert(argument@ =~= "--config="@ + pair);
            }
        }
        done += 1;
    }
    assert(pairs.take(done as int) =~= pairs);
    argument
}

fn target_text(target: &Target) -> (argument: String)
    ensures
        argument@ == target_argument(target@),
{
    match target {
        Target::FilePath(path) => {
            let mut argument = "--file-path=".to_owned();
            argument.append(path.as_str());
            argument
        },
        Target::DirPath(path) => {
            let mut argument = "--dir-path=".to_owned();
            argument.append(path.as_str());
            argument
        },
        Target::Unspecified => "--dir-path=./".to_owned(),
    }
}

impl FmtCommand {
    /// Builds the arguments that the formatter is started with for this
    /// request.
    pub fn build_arguments(&self) -> (arguments: Vec<String>)
        ensures
            arguments.deep_view() == self@.arguments(),
    {
        let mut arguments: Vec<String> = Vec::new();
        let mut emit = "--emit=".to_owned();
        emit.append(self.emit_mode.as_str());
        arguments.push(emit);
        assert(arguments.deep_view() =~= seq![emit_argument(self.emit_mode)]);
        let ghost head = arguments.deep_view();

        if let Some(path) = &self.config_path {
            let mut argument = "--config-path=".to_owned();
            argument.append(path.as_str());
            arguments.push(argument);
        }
        assert(arguments.deep_view() =~= head + config_path_arguments(self@.config_path));
        let ghost head = arguments.deep_view();

        match self.verbosity {
            Verbosity::Verbose => arguments.push("-v".to_owned()),
            Verbosity::Quiet => arguments.push("-q".to_owned()),
            Verbosity::Normal => {},
        }
        assert(arguments.deep_view() =~= head + verbosity_arguments(self.verbosity));
        let ghost head = arguments.deep_view();

        if !self.config.is_empty() {
            arguments.push(overrides_argument(self.config.entries()));
        }
        assert(arguments.deep_view() =~= head + overrides_arguments(self@.overrides));
        let ghost head = arguments.deep_view();

        arguments.push(target_text(&self.target));
        assert(arguments.deep_view() =~= head + seq![target_argument(self@.target)]);
        arguments
    }
}

} // verus!
