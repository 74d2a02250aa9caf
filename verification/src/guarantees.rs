//! What holds of the argument vector of every request, whatever the request.

use vstd::prelude::*;
use crate::arguments::{
    config_path_arguments,
    emit_argument,
    joined_pairs,
    overrides_arguments,
    pair_text,
    target_argument,
    verbosity_arguments,
};
use crate::overrides::Entry;
use crate::request::{EmitMode, FmtCommand, FormatRequest, TargetView, Verbosity};

verus! {

/// Where the argument that carries the overrides stands, if there is one:
/// behind the emit mode, the configuration path and the verbosity switch.
pub open spec fn overrides_position(request: FormatRequest) -> int {
    1 + config_path_arguments(request.config_path).len() as int + verbosity_arguments(
        request.verbosity,
    ).len() as int
}

/// What was written before the override at `at`.
pub open spec fn written_before(entries: Seq<Entry>, at: int) -> Seq<char> {
    if at == 0 {
        Seq::empty()
    } else {
        joined_pairs(entries.take(at)) + ","@
    }
}

/// What is written after the override at `at`.
pub open spec fn written_after(entries: Seq<Entry>, at: int) -> Seq<char> {
    if at + 1 == entries.len() {
        Seq::empty()
    } else {
        ","@ + joined_pairs(entries.skip(at + 1))
    }
}

/// A text does not begin with `prefix` when it is too short to hold the
/// position `at` of the prefix, or differs from the prefix there.
proof fn lemma_differs_at(prefix: Seq<char>, text: Seq<char>, at: int)
    requires
        0 <= at < prefix.len(),
        at < text.len() ==> text[at] != prefix[at],
    ensures
        !prefix.is_prefix_of(text),
{
    if prefix.is_prefix_of(text) {
        assert(text.subrange(0, prefix.len() as int)[at] == text[at]);
    }
}

/// Which argument stands at a given position.
proof fn lemma_argument_at(request: FormatRequest, i: int)
    requires
        0 <= i < request.arguments().len(),
    ensures
        ({
            let argument = request.arguments()[i];
            let path = config_path_arguments(request.config_path);
            let switch = verbosity_arguments(request.verbosity);
            let overrides = overrides_arguments(request.overrides);
            let at = overrides_position(request);
            &&& request.arguments().len() == at + overrides.len() + 1
            &&& if i == 0 {
                argument == emit_argument(request.emit_mode)
            } else if i < 1 + path.len() {
                argument == path[0]
            } else if i < at {
                argument == switch[0]
            } else if i < at + overrides.len() {
                argument == overrides[0]
            } else {
                argument == target_argument(request.target)
            }
        }),
{
}

/// Which flag an argument begins with, or which switch it is, by its position.
proof fn lemma_flag_at(request: FormatRequest, i: int)
    requires
        0 <= i < request.arguments().len(),
    ensures
        ({
            let argument = request.arguments()[i];
            let last = request.arguments().len() - 1;
            let at = overrides_position(request);
            &&& "--emit="@.is_prefix_of(argument) <==> i == 0
            &&& "--config="@.is_prefix_of(argument) <==> request.overrides.len() > 0 && i == at
            &&& "--file-path="@.is_prefix_of(argument) <==> i == last && request.target is FilePath
            &&& "--dir-path="@.is_prefix_of(argument) <==> i == last && !(request.target
                is FilePath)
            &&& argument == "-v"@ <==> i == at - 1 && request.verbosity == Verbosity::Verbose
            &&& argument == "-q"@ <==> i == at - 1 && request.verbosity == Verbosity::Quiet
        }),
{
    reveal_strlit("--emit=");
    reveal_strlit("--config-path=");
    reveal_strlit("-v");
    reveal_strlit("-q");
    reveal_strlit("--config=");
    reveal_strlit("--file-path=");
    reveal_strlit("--dir-path=");
    reveal_strlit("--dir-path=./");
    let argument = request.arguments()[i];
    let path = config_path_arguments(request.config_path);
    let at = overrides_position(request);
    lemma_argument_at(request, i);
    if i == 0 {
        assert(argument.subrange(0, 7) =~= "--emit="@);
        lemma_differs_at("--config="@, argument, 2);
        lemma_differs_at("--file-path="@, argument, 2);
        lemma_differs_at("--dir-path="@, argument, 2);
    } else if i < 1 + path.len() {
        lemma_differs_at("--emit="@, argument, 2);
        lemma_differs_at("--config="@, argument, 8);
        lemma_differs_at("--file-path="@, argument, 2);
        lemma_differs_at("--dir-path="@, argument, 2);
    } else if i < at {
        lemma_differs_at("--emit="@, argument, 2);
        lemma_differs_at("--config="@, argument, 2);
        lemma_differs_at("--file-path="@, argument, 2);
        lemma_differs_at("--dir-path="@, argument, 2);
        assert("-v"@[1] != "-q"@[1]);
    } else if i < at + overrides_arguments(request.overrides).len() {
        assert(argument.subrange(0, 9) =~= "--config="@);
        lemma_differs_at("--emit="@, argument, 2);
        lemma_differs_at("--file-path="@, argument, 2);
        lemma_differs_at("--dir-path="@, argument, 2);
    } else {
        lemma_differs_at("--emit="@, argument, 2);
        lemma_differs_at("--config="@, argument, 2);
        if request.target is FilePath {
            assert(argument.subrange(0, 12) =~= "--file-path="@);
            lemma_differs_at("--dir-path="@, argument, 2);
        } else {
            assert(argument.subrange(0, 11) =~= "--dir-path="@);
            lemma_differs_at("--file-path="@, argument, 2);
        }
    }
    if argument == "-v"@ || argument == "-q"@ {
        assert(argument.len() == 2);
    }
}

/// The keyword of a mode is spelled in lower-case letters and underscores, and
/// no two modes share a keyword.
pub proof fn lemma_keywords(mode: EmitMode, other: EmitMode)
    ensures
        mode.keyword().len() > 0,
        forall|i: int|
            0 <= i < mode.keyword().len() ==> {
                let c = #[trigger] mode.keyword()[i];
                'a' <= c <= 'z' || c == '_'
            },
        mode.keyword() == other.keyword() ==> mode == other,
{
    reveal_strlit("overwrite");
    reveal_strlit("new_file");
    reveal_strlit("stdout");
    reveal_strlit("diff");
    if mode != other && mode.keyword() == other.keyword() {
        assert(mode.keyword().len() == other.keyword().len());
        assert(mode.keyword()[0] == other.keyword()[0]);
    }
}

/// Every request has its emit mode as the first argument, spelled with the
/// keyword of the mode, and no other argument begins with `--emit=`.
pub proof fn lemma_emit_argument_first_and_only(request: FormatRequest)
    ensures
        request.arguments().len() >= 2,
        request.arguments()[0] == "--emit="@ + request.emit_mode.keyword(),
        forall|i: int|
            0 < i < request.arguments().len() ==> !"--emit="@.is_prefix_of(
                #[trigger] request.arguments()[i],
            ),
{
    lemma_argument_at(request, 0);
    assert forall|i: int| 0 < i < request.arguments().len() implies !"--emit="@.is_prefix_of(
        #[trigger] request.arguments()[i],
    ) by {
        lemma_flag_at(request, i);
    }
}

/// The target is always the last argument. A request that names no target
/// has `--dir-path=./` there.
pub proof fn lemma_target_argument_last(request: FormatRequest)
    ensures
        request.arguments().last() == target_argument(request.target),
        request.target is Unspecified ==> request.arguments().last() == "--dir-path=./"@,
{
    lemma_argument_at(request, request.arguments().len() - 1);
}

/// A request for a file has no `--dir-path=` argument, a request for a
/// directory, named or not, has no `--file-path=` argument, and in either case
/// no argument before the last begins with one of the two.
pub proof fn lemma_one_target_argument(request: FormatRequest)
    ensures
        forall|i: int|
            0 <= i < request.arguments().len() - 1 ==> {
                let argument = #[trigger] request.arguments()[i];
                !"--file-path="@.is_prefix_of(argument) && !"--dir-path="@.is_prefix_of(argument)
            },
        request.target is FilePath ==> "--file-path="@.is_prefix_of(request.arguments().last())
            && !"--dir-path="@.is_prefix_of(request.arguments().last()),
        !(request.target is FilePath) ==> "--dir-path="@.is_prefix_of(request.arguments().last())
            && !"--file-path="@.is_prefix_of(request.arguments().last()),
{
    lemma_flag_at(request, request.arguments().len() - 1);
    assert forall|i: int| 0 <= i < request.arguments().len() - 1 implies {
        let argument = #[trigger] request.arguments()[i];
        !"--file-path="@.is_prefix_of(argument) && !"--dir-path="@.is_prefix_of(argument)
    } by {
        lemma_flag_at(request, i);
    }
}

/// The overrides written out in their order are those before any place, a
/// comma, and those from that place on.
pub proof fn lemma_joined_pairs_split(entries: Seq<Entry>, at: int)
    requires
        0 < at < entries.len(),
    ensures
        joined_pairs(entries) == joined_pairs(entries.take(at)) + ","@ + joined_pairs(
            entries.skip(at),
        ),
    decreases entries.len(),
{
    let front = entries.drop_last();
    let back = entries.skip(at);
    let last = pair_text(entries.last());
    if at == entries.len() - 1 {
        assert(front =~= entries.take(at));
        assert(back =~= seq![entries.last()]);
    } else {
        lemma_joined_pairs_split(front, at);
        assert(front.take(at) =~= entries.take(at));
        assert(front.skip(at) =~= back.drop_last());
        assert(back.last() == entries.last());
        let head = joined_pairs(entries.take(at)) + ","@;
        let middle = joined_pairs(back.drop_last());
        assert(joined_pairs(entries) =~= head + (middle + ","@ + last));
    }
}

/// Every override is written into the joined text as `key=value`, after the
/// overrides that come before it and before those that come after it, with a
/// comma on each side where there is a neighbour.
pub proof fn lemma_every_pair_written(entries: Seq<Entry>, at: int)
    requires
        0 <= at < entries.len(),
    ensures
        joined_pairs(entries) == written_before(entries, at) + pair_text(entries[at])
            + written_after(entries, at),
{
    let pair = pair_text(entries[at]);
    let tail = entries.skip(at);
    assert(tail[0] == entries[at]);
    if at + 1 < entries.len() {
        lemma_joined_pairs_split(tail, 1);
        assert(tail.take(1) =~= seq![entries[at]]);
        assert(tail.skip(1) =~= entries.skip(at + 1));
    } else {
        assert(tail =~= seq![entries[at]]);
    }
    assert(joined_pairs(tail) =~= pair + written_after(entries, at));
    if at > 0 {
        lemma_joined_pairs_split(entries, at);
        assert(joined_pairs(entries) =~= written_before(entries, at) + pair + written_after(
            entries,
            at,
        ));
    } else {
        assert(tail =~= entries);
        assert(joined_pairs(entries) =~= written_before(entries, at) + pair + written_after(
            entries,
            at,
        ));
    }
}

/// A request with overrides has exactly one argument that begins with
/// `--config=`: it stands at the overrides' position and holds all of them,
/// joined by commas in their order. A request without overrides has no such
/// argument.
pub proof fn lemma_overrides_argument(request: FormatRequest)
    ensures
        request.overrides.len() > 0 ==> overrides_position(request) < request.arguments().len()
            - 1 && request.arguments()[overrides_position(request)] == "--config="@
            + joined_pairs(request.overrides),
        forall|i: int|
            0 <= i < request.arguments().len() ==> ("--config="@.is_prefix_of(
                #[trigger] request.arguments()[i],
            ) <==> request.overrides.len() > 0 && i == overrides_position(request)),
{
    let at = overrides_position(request);
    if request.overrides.len() > 0 {
        lemma_argument_at(request, at);
    }
    assert forall|i: int| 0 <= i < request.arguments().len() implies ("--config="@.is_prefix_of(
        #[trigger] request.arguments()[i],
    ) <==> request.overrides.len() > 0 && i == at) by {
        lemma_flag_at(request, i);
    }
}

/// A verbose request has the switch `-v` and never `-q`, a quiet one has `-q`
/// and never `-v`, and any other request has neither.
pub proof fn lemma_verbosity_switch(request: FormatRequest)
    ensures
        request.arguments().contains("-v"@) <==> request.verbosity == Verbosity::Verbose,
        request.arguments().contains("-q"@) <==> request.verbosity == Verbosity::Quiet,
{
    let arguments = request.arguments();
    let at = overrides_position(request) - 1;
    assert forall|i: int| 0 <= i < arguments.len() implies (arguments[i] == "-v"@ <==> i == at
        && request.verbosity == Verbosity::Verbose) && (arguments[i] == "-q"@ <==> i == at
        && request.verbosity == Verbosity::Quiet) by {
        lemma_flag_at(request, i);
    }
    if request.verbosity != Verbosity::Normal {
        lemma_argument_at(request, at);
        lemma_flag_at(request, at);
    }
}

/// When both switches of the command line are on, the request is verbose: its
/// arguments hold `-v` and not `-q`.
pub proof fn lemma_verbose_wins(request: FormatRequest, quiet: bool)
    requires
        request.verbosity == Verbosity::of_flags(true, quiet),
    ensures
        request.arguments().contains("-v"@),
        !request.arguments().contains("-q"@),
{
    lemma_verbosity_switch(request);
}

/// Naming both a file and a directory gives no request. Any other pair gives
/// one whose target is the path that was named, or none where none was named.
pub proof fn lemma_targets_exclude_each_other(
    emit_mode: EmitMode,
    file_path: Option<Seq<char>>,
    dir_path: Option<Seq<char>>,
    config_path: Option<Seq<char>>,
    overrides: Seq<Entry>,
    verbose: bool,
    quiet: bool,
)
    ensures
        match FmtCommand::of_flags(
            emit_mode,
            file_path,
            dir_path,
            config_path,
            overrides,
            verbose,
            quiet,
        ) {
            None => file_path is Some && dir_path is Some,
            Some(request) => match request.target {
                TargetView::FilePath(path) => file_path == Some(path) && dir_path is None,
                TargetView::DirPath(path) => dir_path == Some(path) && file_path is None,
                TargetView::Unspecified => file_path is None && dir_path is None,
            },
        },
{
}

/// A command line that names neither a file nor a directory gives a request
/// whose last argument is `--dir-path=./`.
pub proof fn lemma_no_target_means_current_directory(
    emit_mode: EmitMode,
    config_path: Option<Seq<char>>,
    overrides: Seq<Entry>,
    verbose: bool,
    quiet: bool,
)
    ensures
        FmtCommand::of_flags(emit_mode, None, None, config_path, overrides, verbose, quiet)
            matches Some(request) && request.arguments().last() == "--dir-path=./"@,
{
    let request = FmtCommand::of_flags(
        emit_mode,
        None,
        None,
        config_path,
        overrides,
        verbose,
        quiet,
    )->Some_0;
    lemma_target_argument_last(request);
}

} // verus!
