//! What holds of resolutions as a whole, proved from the definitions of the
//! other modules.

use vstd::prelude::*;
use crate::cleanup::{cleanup_of, is_stale, readable_until, stale_below, EntryView};
use crate::platform::{Architecture, Os};
use crate::release::{path_within_archive, release_name};
use crate::resolution::{
    initial, launched, request_of, resolved, step, AnswerView, BinaryView, InstallationStatus,
    RequestView, ResolutionView, StageView,
};

verus! {

/// The remembered path and the resolution after the host has given the
/// answers in order to a resolution that started with `cache` remembered.
pub open spec fn run(
    cache: Option<Seq<char>>,
    os: Os,
    architecture: Architecture,
    answers: Seq<AnswerView>,
) -> (Option<Seq<char>>, ResolutionView)
    decreases answers.len(),
{
    if answers.len() == 0 {
        (cache, initial(os, architecture))
    } else {
        let (cache, resolution) = run(cache, os, architecture, answers.drop_last());
        step(cache, resolution, answers.last())
    }
}

/// Whether serving the request takes the network.
pub open spec fn uses_network(request: Option<RequestView>) -> bool {
    request matches Some(request) && (request is LatestRelease || request is Download)
}

/// 32-bit and 64-bit x86 are served by the same archive, with the binary at
/// the same place in it.
pub proof fn lemma_x86_shares_the_x86_64_release(version: Seq<char>, os: Os)
    ensures
        release_name(version, os, Architecture::X86) == release_name(
            version,
            os,
            Architecture::X8664,
        ),
        path_within_archive(os, Architecture::X86) == path_within_archive(os, Architecture::X8664),
{
}

proof fn lemma_run_one(
    cache: Option<Seq<char>>,
    os: Os,
    architecture: Architecture,
    answer: AnswerView,
)
    ensures
        run(cache, os, architecture, seq![answer]) == step(
            cache,
            initial(os, architecture),
            answer,
        ),
{
    let answers = seq![answer];
    assert(answers.drop_last() =~= Seq::empty());
    assert(run(cache, os, architecture, answers.drop_last()) == (cache, initial(os, architecture)));
}

proof fn lemma_run_push(
    cache: Option<Seq<char>>,
    os: Os,
    architecture: Architecture,
    answers: Seq<AnswerView>,
    answer: AnswerView,
)
    ensures
        run(cache, os, architecture, answers.push(answer)) == step(
            run(cache, os, architecture, answers).0,
            run(cache, os, architecture, answers).1,
            answer,
        ),
{
    assert(answers.push(answer).drop_last() =~= answers);
}

/// What holds after one or more answers of which the first told what the
/// `PATH` lookup found.
spec fn follows_lookup(
    initial_cache: Option<Seq<char>>,
    on_path: Option<Seq<char>>,
    cache: Option<Seq<char>>,
    stage: StageView,
) -> bool {
    match on_path {
        Some(path) => cache == initial_cache && stage == resolved(path),
        None => match stage {
            StageView::PathLookup => false,
            StageView::CacheCheck { path } => cache == Some(path),
            StageView::Finished { outcome: Ok(binary) } => cache == Some(binary.path) && binary
                == launched(binary.path),
            _ => true,
        },
    }
}

proof fn lemma_follows_lookup(
    cache: Option<Seq<char>>,
    os: Os,
    architecture: Architecture,
    answers: Seq<AnswerView>,
    on_path: Option<Seq<char>>,
)
    requires
        answers.len() > 0,
        answers[0] == AnswerView::Which(on_path),
    ensures
        follows_lookup(
            cache,
            on_path,
            run(cache, os, architecture, answers).0,
            run(cache, os, architecture, answers).1.stage,
        ),
        run(cache, os, architecture, answers).1.os == os,
        run(cache, os, architecture, answers).1.architecture == architecture,
    decreases answers.len(),
{
    if answers.len() == 1 {
        assert(answers =~= seq![answers[0]]);
        lemma_run_one(cache, os, architecture, answers[0]);
    } else {
        lemma_follows_lookup(cache, os, architecture, answers.drop_last(), on_path);
    }
}

/// Resolving again, with nothing changed outside, gives the same binary and
/// stays off the network.
///
/// Take any resolution that ended with a binary, and let `on_path` be what the
/// `PATH` lookup found in it. In a second resolution the lookup finds the same.
/// If that is a binary, it is the outcome at once. If not, the resolution asks
/// whether a file is at the path of the first outcome, and on hearing that
/// there is, ends with the first outcome. What is remembered stays as it was,
/// and no request of the second resolution takes the network.
pub proof fn lemma_resolving_again_is_served_locally(
    cache: Option<Seq<char>>,
    os: Os,
    architecture: Architecture,
    first: Seq<AnswerView>,
    on_path: Option<Seq<char>>,
    binary: BinaryView,
)
    requires
        first.len() > 0,
        first[0] == AnswerView::Which(on_path),
        run(cache, os, architecture, first).1.stage == (StageView::Finished { outcome: Ok(binary) }),
    ensures
        ({
            let remembered = run(cache, os, architecture, first).0;
            let second = match on_path {
                Some(_) => seq![AnswerView::Which(on_path)],
                None => seq![AnswerView::Which(None), AnswerView::IsFile(true)],
            };
            &&& run(remembered, os, architecture, second) == (
                remembered,
                ResolutionView {
                    os,
                    architecture,
                    stage: StageView::Finished { outcome: Ok(binary) },
                },
            )
            &&& on_path is None ==> request_of(
                run(remembered, os, architecture, second.take(1)).1.stage,
            ) == Some(RequestView::IsFile { path: binary.path })
            &&& forall|k: int|
                0 <= k <= second.len() ==> !uses_network(
                    request_of(
                        (#[trigger] run(remembered, os, architecture, second.take(k))).1.stage,
                    ),
                )
        }),
{
    lemma_follows_lookup(cache, os, architecture, first, on_path);
    let remembered = run(cache, os, architecture, first).0;
    let lookup = AnswerView::Which(on_path);
    lemma_run_one(remembered, os, architecture, lookup);
    match on_path {
        Some(_) => {
            let second = seq![lookup];
            assert forall|k: int| 0 <= k <= second.len() implies !uses_network(
                request_of((#[trigger] run(remembered, os, architecture, second.take(k))).1.stage),
            ) by {
                if k == 0 {
                    assert(second.take(0) =~= Seq::empty());
                } else {
                    assert(second.take(1) =~= second);
                }
            }
        },
        None => {
            let second = seq![lookup, AnswerView::IsFile(true)];
            assert(second =~= seq![lookup].push(AnswerView::IsFile(true)));
            lemma_run_push(remembered, os, architecture, seq![lookup], AnswerView::IsFile(true));
            assert(second.take(1) =~= seq![lookup]);
            assert forall|k: int| 0 <= k <= second.len() implies !uses_network(
                request_of((#[trigger] run(remembered, os, architecture, second.take(k))).1.stage),
            ) by {
                if k == 0 {
                    assert(second.take(0) =~= Seq::empty());
                } else if k == 1 {
                } else {
                    assert(second.take(2) =~= second);
                }
            }
        },
    }
}

/// A remembered path whose file has gone is not used again.
///
/// With nothing on `PATH`, a resolution asks whether a file is at the
/// remembered path. On hearing that there is none, it does not end with that
/// path: it announces an update check and then asks for the latest release.
pub proof fn lemma_missing_file_leads_to_the_release_index(
    remembered: Seq<char>,
    os: Os,
    architecture: Architecture,
)
    ensures
        ({
            let lookup = seq![AnswerView::Which(None)];
            let check = lookup.push(AnswerView::IsFile(false));
            let announce = check.push(AnswerView::StatusSet);
            &&& request_of(run(Some(remembered), os, architecture, lookup).1.stage) == Some(
                RequestView::IsFile { path: remembered },
            )
            &&& request_of(run(Some(remembered), os, architecture, check).1.stage) == Some(
                RequestView::SetStatus { status: InstallationStatus::CheckingForUpdate },
            )
            &&& run(Some(remembered), os, architecture, announce).1.stage
                == StageView::ReleaseQuery
            &&& request_of(run(Some(remembered), os, architecture, announce).1.stage)
                matches Some(RequestView::LatestRelease { .. })
        }),
{
    let cache = Some(remembered);
    let lookup = seq![AnswerView::Which(None)];
    let check = lookup.push(AnswerView::IsFile(false));
    lemma_run_one(cache, os, architecture, AnswerView::Which(None));
    lemma_run_push(cache, os, architecture, lookup, AnswerView::IsFile(false));
    lemma_run_push(cache, os, architecture, check, AnswerView::StatusSet);
}

/// The first entry at or after `from` that could not be read comes after
/// entries that could all be read.
pub proof fn lemma_readable_until(entries: Seq<EntryView>, from: int)
    requires
        0 <= from <= entries.len(),
    ensures
        from <= readable_until(entries, from) <= entries.len(),
        forall|i: int| from <= i < readable_until(entries, from) ==> !(entries[i] is Unreadable),
        readable_until(entries, from) < entries.len() ==> entries[readable_until(
            entries,
            from,
        )] is Unreadable,
    decreases entries.len() - from,
{
    if from < entries.len() && !(entries[from] is Unreadable) {
        lemma_readable_until(entries, from + 1);
    }
}

/// The positions selected below `end` are exactly those of the entries that
/// are to go, each once and in ascending order.
pub proof fn lemma_stale_below(entries: Seq<EntryView>, keep: Seq<char>, end: int)
    requires
        0 <= end <= entries.len() <= usize::MAX,
    ensures
        forall|k: int|
            0 <= k < stale_below(entries, keep, end).len() ==> {
                let position = #[trigger] stale_below(entries, keep, end)[k];
                position < end && is_stale(entries[position as int], keep)
            },
        forall|i: int|
            0 <= i < end && is_stale(#[trigger] entries[i], keep) ==> stale_below(
                entries,
                keep,
                end,
            ).contains(i as usize),
        forall|j: int, k: int|
            0 <= j < k < stale_below(entries, keep, end).len() ==> stale_below(entries, keep, end)[j]
                < stale_below(entries, keep, end)[k],
    decreases end,
{
    if end > 0 {
        lemma_stale_below(entries, keep, end - 1);
        let before = stale_below(entries, keep, end - 1);
        let all = stale_below(entries, keep, end);
        if is_stale(entries[end - 1], keep) {
            assert(all == before.push((end - 1) as usize));
            assert(all[all.len() - 1] == (end - 1) as usize);
            assert forall|i: int| 0 <= i < end && is_stale(#[trigger] entries[i], keep) implies all.contains(
                i as usize,
            ) by {
                if i < end - 1 {
                    let k = choose|k: int| 0 <= k < before.len() && before[k] == i as usize;
                    assert(all[k] == i as usize);
                }
            }
        }
    }
}

/// After a successful cleanup only the installed version is left.
///
/// Where every entry of the working directory could be read, the entries
/// selected for removal are all those not named `keep`. So if the directory of
/// the installed version is listed, as it is after a download, and every
/// removal takes effect, that directory alone remains.
pub proof fn lemma_cleanup_leaves_the_installed_version(entries: Seq<EntryView>, keep: Seq<char>)
    requires
        entries.len() <= usize::MAX,
        cleanup_of(entries, keep).failure is None,
    ensures
        forall|i: int|
            0 <= i < entries.len() ==> (cleanup_of(entries, keep).stale.contains(i as usize) <==> (
            #[trigger] entries[i]) != EntryView::Named(keep)),
        forall|k: int|
            0 <= k < cleanup_of(entries, keep).stale.len() ==> (#[trigger] cleanup_of(
                entries,
                keep,
            ).stale[k]) < entries.len(),
{
    lemma_readable_until(entries, 0);
    let end = readable_until(entries, 0);
    assert(end == entries.len());
    lemma_stale_below(entries, keep, end);
    let stale = cleanup_of(entries, keep).stale;
    assert forall|i: int| 0 <= i < entries.len() implies (stale.contains(i as usize) <==> (
    #[trigger] entries[i]) != EntryView::Named(keep)) by {
        if stale.contains(i as usize) {
            let k = choose|k: int| 0 <= k < stale.len() && stale[k] == i as usize;
            assert(is_stale(entries[stale[k] as int], keep));
        }
    }
}

/// Where the directory of the installed version is listed once, as it is in a
/// directory that holds each name once, it is the one entry that is not
/// selected for removal.
pub proof fn lemma_cleanup_leaves_one_version(
    entries: Seq<EntryView>,
    keep: Seq<char>,
    installed: int,
)
    requires
        entries.len() <= usize::MAX,
        cleanup_of(entries, keep).failure is None,
        0 <= installed < entries.len(),
        entries[installed] == EntryView::Named(keep),
        forall|i: int|
            0 <= i < entries.len() && i != installed ==> (#[trigger] entries[i])
                != EntryView::Named(keep),
    ensures
        forall|i: int|
            0 <= i < entries.len() ==> (#[trigger] cleanup_of(entries, keep).stale.contains(
                i as usize,
            ) <==> i != installed),
{
    lemma_cleanup_leaves_the_installed_version(entries, keep);
    let stale = cleanup_of(entries, keep).stale;
    assert forall|i: int| 0 <= i < entries.len() implies (#[trigger] stale.contains(i as usize)
        <==> i != installed) by {
        if i == installed {
            assert(entries[i] == EntryView::Named(keep));
        } else {
            assert(entries[i] != EntryView::Named(keep));
        }
    }
}

} // verus!
