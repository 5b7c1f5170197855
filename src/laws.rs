use vstd::prelude::*;

use crate::model::{
    asset_name_of, binary_path_of, is_stale, next, on_cache_miss, run, stale_entries, ActionModel, ErrorModel,
    EventModel, Phase, ResolverModel,
};
use crate::platform::{tag_of, Os, Platform};

verus! {

/// When the binary already lies in the version directory, the resolution
/// ends at once with its path: nothing is downloaded, cleared, marked or
/// removed.
pub proof fn lemma_binary_on_disk_ends_resolution(pre: ResolverModel)
    requires
        pre.phase == Phase::CheckingBinary,
    ensures
        next(pre, EventModel::FileStatus(true)).1 == ActionModel::Finish(Ok(pre.binary_path)),
        next(pre, EventModel::FileStatus(true)).0.phase == Phase::Idle,
        next(pre, EventModel::FileStatus(true)).0.cached == Some(pre.binary_path),
{
}

/// A cached path whose file has gone is a miss, not a failure: the
/// resolution goes on as though nothing were cached.
pub proof fn lemma_vanished_cache_is_a_miss(pre: ResolverModel)
    requires
        pre.phase == Phase::CheckingCache,
    ensures
        next(pre, EventModel::FileStatus(false)) == on_cache_miss(pre),
        next(pre, EventModel::FileStatus(false)).1 !is Finish,
        next(pre, EventModel::FileStatus(false)).0.phase != Phase::Idle,
{
}

/// A release without the platform's server archive fails the resolution
/// with an error that names exactly that archive.
pub proof fn lemma_missing_platform_asset(pre: ResolverModel, assets: Seq<(Seq<char>, Seq<char>)>)
    requires
        pre.phase == Phase::FetchingRelease,
        forall|i: int|
            0 <= i < assets.len() ==> assets[i].0 != asset_name_of(tag_of(pre.platform), pre.version),
    ensures
        next(pre, EventModel::Release(Ok(assets))).1 == ActionModel::Finish(
            Err(ErrorModel::AssetNotFound(asset_name_of(tag_of(pre.platform), pre.version))),
        ),
{
}

/// One removal request for each name, in order.
pub open spec fn removals(names: Seq<Seq<char>>) -> Seq<ActionModel> {
    names.map_values(|n: Seq<char>| ActionModel::RemoveDir(n))
}

/// Every event is the outcome of an operation, whether it succeeded or not.
pub open spec fn all_done(events: Seq<EventModel>) -> bool {
    forall|i: int| 0 <= i < events.len() ==> #[trigger] events[i] is Done
}

/// While stale entries remain, each outcome leads to the next removal, and
/// the last one to the end of the resolution.
proof fn lemma_pruning_goes_on(s: ResolverModel, outcomes: Seq<EventModel>)
    requires
        s.phase == Phase::Pruning,
        outcomes.len() == s.stale.len() + 1,
        all_done(outcomes),
    ensures
        run(s, outcomes).1 == removals(s.stale).push(ActionModel::Finish(Ok(s.binary_path))),
        run(s, outcomes).0.phase == Phase::Idle,
        run(s, outcomes).0.cached == Some(s.binary_path),
    decreases outcomes.len(),
{
    assert(outcomes[0] is Done);
    let (mid, a) = next(s, outcomes[0]);
    let rest = outcomes.drop_first();
    assert(run(s, outcomes) == (run(mid, rest).0, seq![a] + run(mid, rest).1));
    if s.stale.len() > 0 {
        assert(all_done(rest)) by {
            assert forall|i: int| 0 <= i < rest.len() implies #[trigger] rest[i] is Done by {
                assert(rest[i] == outcomes[i + 1]);
            }
        }
        lemma_pruning_goes_on(mid, rest);
        assert(removals(s.stale) =~= seq![a] + removals(mid.stale));
        assert(run(s, outcomes).1 =~= removals(s.stale).push(ActionModel::Finish(Ok(s.binary_path))));
    } else {
        assert(rest.len() == 0);
        assert(run(mid, rest) == (mid, Seq::<ActionModel>::empty()));
        assert(run(s, outcomes).1 =~= removals(s.stale).push(ActionModel::Finish(Ok(s.binary_path))));
    }
}

/// After a fresh install, every entry of the working root other than the
/// version's own directory is removed, one by one, and whatever each
/// removal reports, the resolution ends with the installed binary.
pub proof fn lemma_fresh_install_prunes_siblings(
    pre: ResolverModel,
    entries: Seq<Seq<char>>,
    outcomes: Seq<EventModel>,
)
    requires
        pre.phase == Phase::Listing,
        outcomes.len() == stale_entries(entries, pre.version).len(),
        all_done(outcomes),
    ensures
        ({
            let (post, actions) = run(pre, seq![EventModel::Entries(Ok(entries))] + outcomes);
            &&& actions == removals(stale_entries(entries, pre.version)).push(
                ActionModel::Finish(Ok(pre.binary_path)),
            )
            &&& post.phase == Phase::Idle
            &&& post.cached == Some(pre.binary_path)
        }),
        forall|i: int|
            0 <= i < entries.len() && entries[i] != pre.version ==> stale_entries(
                entries,
                pre.version,
            ).contains(#[trigger] entries[i]),
        forall|n: Seq<char>| stale_entries(entries, pre.version).contains(n) ==> n != pre.version,
{
    let events = seq![EventModel::Entries(Ok(entries))] + outcomes;
    let stale = stale_entries(entries, pre.version);
    assert(events[0] == EventModel::Entries(Ok(entries)));
    assert(events.drop_first() =~= outcomes);
    let (mid, a) = next(pre, events[0]);
    assert(run(pre, events) == (run(mid, outcomes).0, seq![a] + run(mid, outcomes).1));
    if stale.len() > 0 {
        assert(mid.phase == Phase::Pruning);
        assert(mid.stale.len() + 1 == outcomes.len());
        lemma_pruning_goes_on(mid, outcomes);
        assert(removals(stale) =~= seq![a] + removals(mid.stale));
        assert(run(pre, events).1 =~= removals(stale).push(ActionModel::Finish(Ok(pre.binary_path))));
    } else {
        assert(outcomes.len() == 0);
        assert(run(mid, outcomes) == (mid, Seq::<ActionModel>::empty()));
        assert(run(pre, events).1 =~= removals(stale).push(ActionModel::Finish(Ok(pre.binary_path))));
    }
    assert forall|i: int|
        0 <= i < entries.len() && entries[i] != pre.version implies stale.contains(
            #[trigger] entries[i],
        ) by {
        entries.lemma_filter_contains(is_stale(pre.version), i);
    }
    assert forall|n: Seq<char>| stale.contains(n) implies n != pre.version by {
        let k = choose|k: int| 0 <= k < stale.len() && stale[k] == n;
        entries.lemma_filter_pred(is_stale(pre.version), k);
    }
}

/// Once a resolution has returned a path, the next resolution on which that
/// file is still in place returns the same path after a single file check,
/// with no network access.
pub proof fn lemma_resolve_twice(pre: ResolverModel, e: EventModel, p: Seq<char>, platform: Platform)
    requires
        next(pre, e).1 == ActionModel::Finish(Ok(p)),
    ensures
        ({
            let (post, actions) = run(
                next(pre, e).0,
                seq![EventModel::Start(platform), EventModel::FileStatus(true)],
            );
            &&& actions == seq![ActionModel::CheckFile(p), ActionModel::Finish(Ok(p))]
            &&& post.cached == Some(p)
            &&& post.phase == Phase::Idle
        }),
{
    let s = next(pre, e).0;
    assert(s.cached == Some(p) && s.phase == Phase::Idle);
    let events = seq![EventModel::Start(platform), EventModel::FileStatus(true)];
    assert(events.drop_first() =~= seq![EventModel::FileStatus(true)]);
    assert(events.drop_first().drop_first() =~= Seq::<EventModel>::empty());
    reveal_with_fuel(run, 3);
    assert(run(s, events).1 =~= seq![ActionModel::CheckFile(p), ActionModel::Finish(Ok(p))]);
}

/// The phases in which the resolver holds the binary path of the release.
pub open spec fn knows_binary(phase: Phase) -> bool {
    !(phase == Phase::Idle || phase == Phase::CheckingCache || phase == Phase::Warning
        || phase == Phase::Announcing || phase == Phase::CreatingDir
        || phase == Phase::FetchingRelease)
}

/// What every state reached from a new resolver satisfies: the cache, when
/// set, holds the binary path of the resolver's own release, and while an
/// install is under way so does the path it works on.
pub open spec fn cache_is_own_binary(s: ResolverModel) -> bool {
    &&& s.cached is Some ==> exists|os: Os| s.cached->0 == binary_path_of(s.version, os)
    &&& knows_binary(s.phase) ==> s.binary_path == binary_path_of(s.version, s.platform.os)
}

/// Every transition keeps the release and `cache_is_own_binary`: whatever
/// the host reports, a resolution only ever returns, and caches, the binary
/// path of the resolver's own release.
pub proof fn lemma_cache_is_own_binary(pre: ResolverModel, e: EventModel)
    requires
        cache_is_own_binary(pre),
    ensures
        next(pre, e).0.version == pre.version,
        cache_is_own_binary(next(pre, e).0),
        next(pre, e).1 matches ActionModel::Finish(Ok(p)) ==> exists|os: Os| p == binary_path_of(pre.version, os),
{
    let post = next(pre, e).0;
    if knows_binary(pre.phase) {
        assert(pre.binary_path == binary_path_of(pre.version, pre.platform.os));
    }
    if post.cached is Some {
        if post.cached == pre.cached {
            let os = choose|os: Os| pre.cached->0 == binary_path_of(pre.version, os);
            assert(post.cached->0 == binary_path_of(post.version, os));
        } else {
            assert(post.cached->0 == binary_path_of(post.version, pre.platform.os));
        }
    }
    assert(knows_binary(post.phase) ==> post.binary_path == binary_path_of(post.version, post.platform.os));
    if let ActionModel::Finish(Ok(p)) = next(pre, e).1 {
        assert(post.cached == Some(p));
    }
}

} // verus!
