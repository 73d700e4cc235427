//! The track listing that is shown as soon as the queue is loaded, and the
//! decision whether it may come from the cache.

use crate::settings::Settings;
use crate::track::{placeholder_row, row_of, FileTrack, FileTrackView, TrackData, TrackDataView};
use vstd::prelude::*;

verus! {

/// The cached metadata may be used: the stored fingerprint is that of the
/// directory, the cache holds something, and its use was asked for.
pub open spec fn cache_valid(fingerprint_matches: bool, cached: nat, check_cache: bool) -> bool {
    fingerprint_matches && cached > 0 && check_cache
}

/// Decides whether the cached metadata may be used. `live` is the
/// fingerprint of the library directory now, none where it could not be
/// taken.
pub fn is_cached(
    settings: &Settings,
    live: Option<u64>,
    cached: &Vec<FileTrack>,
    check_cache: bool,
) -> (valid: bool)
    ensures
        valid == cache_valid(settings@.fingerprint_matches(live), cached@.len(), check_cache),
{
    settings.check_timestamp(live) && cached.len() > 0 && check_cache
}

/// The views of `tracks`, in order.
pub open spec fn track_views(tracks: Seq<FileTrack>) -> Seq<FileTrackView> {
    tracks.map_values(|t: FileTrack| t@)
}

/// The views of `rows`, in order.
pub open spec fn row_views(rows: Seq<TrackData>) -> Seq<TrackDataView> {
    rows.map_values(|r: TrackData| r@)
}

/// The index of the first of `cached`, from `from` on, whose path is
/// `name`.
pub open spec fn find_from(cached: Seq<FileTrackView>, name: Seq<char>, from: int) -> Option<int>
    decreases cached.len() - from,
{
    if from < 0 || from >= cached.len() {
        None
    } else if cached[from].path == name {
        Some(from)
    } else {
        find_from(cached, name, from + 1)
    }
}

/// The listing from the cache: for each name that the cache knows, in the
/// order of the queue, the row of the first cached track of that name, at
/// the name's queue index. Names that the cache does not know are left out.
pub open spec fn cached_rows(
    names: Seq<Seq<char>>,
    cached: Seq<FileTrackView>,
) -> Seq<TrackDataView>
    decreases names.len(),
{
    if names.len() == 0 {
        Seq::empty()
    } else {
        let before = cached_rows(names.drop_last(), cached);
        match find_from(cached, names.last(), 0) {
            Some(k) => before.push(row_of(cached[k], (names.len() - 1) as usize)),
            None => before,
        }
    }
}

/// The listing without a cache: a placeholder for every queue index.
pub open spec fn placeholder_rows(names: Seq<Seq<char>>) -> Seq<TrackDataView> {
    Seq::new(names.len(), |i: int| placeholder_row(names[i], i as usize))
}

/// The listing that is shown as soon as the queue is loaded.
pub open spec fn listing(
    names: Seq<Seq<char>>,
    cached: Seq<FileTrackView>,
    use_cache: bool,
) -> Seq<TrackDataView> {
    if use_cache {
        cached_rows(names, cached)
    } else {
        placeholder_rows(names)
    }
}

/// What `find_from` finds is a track of that name, and no track before it,
/// from `from` on, has that name; where it finds nothing, no track from
/// `from` on has it.
pub proof fn lemma_find_from_is_first(cached: Seq<FileTrackView>, name: Seq<char>, from: int)
    requires
        0 <= from,
    ensures
        match find_from(cached, name, from) {
            Some(k) => {
                &&& from <= k < cached.len()
                &&& cached[k].path == name
                &&& forall|j: int| from <= j < k ==> cached[j].path != name
            },
            None => forall|j: int| from <= j < cached.len() ==> cached[j].path != name,
        },
    decreases cached.len() - from,
{
    if from < cached.len() && cached[from].path != name {
        lemma_find_from_is_first(cached, name, from + 1);
    }
}

/// The rows of a listing from the cache stand at queue indices, in rising
/// order, and there are no more of them than tracks in the queue.
pub proof fn lemma_cached_rows_rise(names: Seq<Seq<char>>, cached: Seq<FileTrackView>)
    requires
        names.len() <= usize::MAX,
    ensures
        cached_rows(names, cached).len() <= names.len(),
        forall|j: int|
            0 <= j < cached_rows(names, cached).len() ==> (#[trigger] cached_rows(
                names,
                cached,
            )[j]).index < names.len(),
        forall|j: int, k: int|
            0 <= j < k < cached_rows(names, cached).len() ==> (#[trigger] cached_rows(
                names,
                cached,
            )[j]).index < (#[trigger] cached_rows(names, cached)[k]).index,
    decreases names.len(),
{
    if names.len() > 0 {
        lemma_cached_rows_rise(names.drop_last(), cached);
    }
}

/// Where the cache knows every track of the queue, the listing from the
/// cache has a row for every queue index: that of the first cached track of
/// the name at that index.
pub proof fn lemma_cached_rows_cover(names: Seq<Seq<char>>, cached: Seq<FileTrackView>)
    requires
        names.len() <= usize::MAX,
        forall|i: int| 0 <= i < names.len() ==> find_from(cached, #[trigger] names[i], 0).is_some(),
    ensures
        cached_rows(names, cached).len() == names.len(),
        forall|i: int|
            0 <= i < names.len() ==> #[trigger] cached_rows(names, cached)[i] == row_of(
                cached[find_from(cached, names[i], 0).unwrap()],
                i as usize,
            ),
    decreases names.len(),
{
    if names.len() > 0 {
        let before = names.drop_last();
        assert forall|i: int| 0 <= i < before.len() implies find_from(
            cached,
            #[trigger] before[i],
            0,
        ).is_some() by {
            assert(before[i] == names[i]);
        }
        lemma_cached_rows_cover(before, cached);
        assert(find_from(cached, names[names.len() - 1], 0).is_some());
    }
}

/// Without the cache the listing has a placeholder for every queue index,
/// titled with the track's name.
pub proof fn lemma_placeholders_cover(names: Seq<Seq<char>>, cached: Seq<FileTrackView>)
    ensures
        listing(names, cached, false).len() == names.len(),
        forall|i: int|
            0 <= i < names.len() ==> #[trigger] listing(names, cached, false)[i]
                == placeholder_row(names[i], i as usize),
{
}

/// Finds the first of `cached` whose path is `name`.
pub fn find_cached(cached: &Vec<FileTrack>, name: &String) -> (found: Option<usize>)
    ensures
        match found {
            Some(k) => find_from(track_views(cached@), name@, 0) == Some(k as int) && k
                < cached@.len(),
            None => find_from(track_views(cached@), name@, 0).is_none(),
        },
{
    let mut k: usize = 0;
    while k < cached.len()
        invariant
            k <= cached.len(),
            find_from(track_views(cached@), name@, 0) == find_from(
                track_views(cached@),
                name@,
                k as int,
            ),
        decreases cached.len() - k,
    {
        if cached[k].path == *name {
            return Some(k);
        }
        k += 1;
    }
    None
}

/// Builds the listing that is shown as soon as the queue is loaded.
/// `names` holds, for each queue index, the track's file name without its
/// extension.
pub fn initial_listing(
    names: &Vec<String>,
    cached: &Vec<FileTrack>,
    use_cache: bool,
) -> (rows: Vec<TrackData>)
    ensures
        row_views(rows@) == listing(names.deep_view(), track_views(cached@), use_cache),
{
    let mut rows: Vec<TrackData> = Vec::new();
    let mut i: usize = 0;
    let ghost all = names.deep_view();
    assert(all.take(0) =~= Seq::empty());
    assert(row_views(rows@) =~= Seq::empty());
    while i < names.len()
        invariant
            i <= names.len(),
            all == names.deep_view(),
            use_cache ==> row_views(rows@) == cached_rows(all.take(i as int), track_views(cached@)),
            !use_cache ==> row_views(rows@) == placeholder_rows(all.take(i as int)),
        decreases names.len() - i,
    {
        let ghost before = row_views(rows@);
        proof {
            let upto = all.take(i + 1);
            assert(upto.drop_last() =~= all.take(i as int));
            assert(upto.last() == names@[i as int]@);
        }
        if use_cache {
            match find_cached(cached, &names[i]) {
                Some(k) => {
                    let row = TrackData::indexed(cached[k].clone(), i);
                    rows.push(row);
                    assert(row_views(rows@) =~= before.push(
                        row_of(track_views(cached@)[k as int], i),
                    ));
                },
                None => {},
            }
        } else {
            let row = TrackData::placeholder(names[i].clone(), i);
            rows.push(row);
            assert(row_views(rows@) =~= before.push(placeholder_row(all[i as int], i)));
            assert(placeholder_rows(all.take(i + 1)) =~= placeholder_rows(all.take(i as int)).push(
                placeholder_row(all[i as int], i),
            ));
        }
        i += 1;
    }
    assert(all.take(i as int) =~= all);
    rows
}

} // verus!
