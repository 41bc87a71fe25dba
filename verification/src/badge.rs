//! Badge catalogs and the two-tier cache that resolves a badge reference
//! carried by a chat message to what the presentation layer shows.

use vstd::prelude::*;
use vstd::string::*;
use crate::string_map::StringMap;

verus! {

/// One version of a badge as the provider's catalog lists it.
#[derive(Debug, Clone)]
pub struct BadgeVersion {
    pub id: String,
    pub image_url_1x: String,
    pub image_url_2x: String,
    pub image_url_4x: String,
    pub title: String,
    pub description: String,
}

/// Mathematical value of a [`BadgeVersion`].
pub struct BadgeVersionView {
    pub id: Seq<char>,
    pub image_url_1x: Seq<char>,
    pub image_url_2x: Seq<char>,
    pub image_url_4x: Seq<char>,
    pub title: Seq<char>,
    pub description: Seq<char>,
}

impl View for BadgeVersion {
    type V = BadgeVersionView;

    open spec fn view(&self) -> BadgeVersionView {
        BadgeVersionView {
            id: self.id@,
            image_url_1x: self.image_url_1x@,
            image_url_2x: self.image_url_2x@,
            image_url_4x: self.image_url_4x@,
            title: self.title@,
            description: self.description@,
        }
    }
}

impl BadgeVersion {
    /// A copy with the same contents.
    pub fn duplicate(&self) -> (r: BadgeVersion)
        ensures
            r@ == self@,
    {
        BadgeVersion {
            id: self.id.clone(),
            image_url_1x: self.image_url_1x.clone(),
            image_url_2x: self.image_url_2x.clone(),
            image_url_4x: self.image_url_4x.clone(),
            title: self.title.clone(),
            description: self.description.clone(),
        }
    }
}

/// A named badge category with its versions, in catalog order.
#[derive(Debug, Clone)]
pub struct BadgeSet {
    pub set_id: String,
    pub versions: Vec<BadgeVersion>,
}

/// Mathematical value of a [`BadgeSet`].
pub struct BadgeSetView {
    pub set_id: Seq<char>,
    pub versions: Seq<BadgeVersionView>,
}

impl View for BadgeSet {
    type V = BadgeSetView;

    open spec fn view(&self) -> BadgeSetView {
        BadgeSetView { set_id: self.set_id@, versions: versions_view(self.versions@) }
    }
}

/// The values of a list of versions, in the same order.
pub open spec fn versions_view(vs: Seq<BadgeVersion>) -> Seq<BadgeVersionView> {
    Seq::new(vs.len(), |i: int| vs[i]@)
}

/// The values of a list of badge sets, in the same order.
pub open spec fn sets_view(sets: Seq<BadgeSet>) -> Seq<BadgeSetView> {
    Seq::new(sets.len(), |i: int| sets[i]@)
}

/// A badge reference as a chat message carries it.
#[derive(Debug, Clone)]
pub struct RawBadge {
    pub set_id: String,
    pub id: String,
}

/// Mathematical value of a [`RawBadge`].
pub struct RawBadgeView {
    pub set_id: Seq<char>,
    pub id: Seq<char>,
}

impl View for RawBadge {
    type V = RawBadgeView;

    open spec fn view(&self) -> RawBadgeView {
        RawBadgeView { set_id: self.set_id@, id: self.id@ }
    }
}

/// What the presentation layer needs to draw one badge.
#[derive(Debug, Clone)]
pub struct SimpleBadge {
    pub id: String,
    pub version: String,
    pub image_url: String,
    pub title: String,
}

/// Mathematical value of a [`SimpleBadge`].
pub struct SimpleBadgeView {
    pub id: Seq<char>,
    pub version: Seq<char>,
    pub image_url: Seq<char>,
    pub title: Seq<char>,
}

impl View for SimpleBadge {
    type V = SimpleBadgeView;

    open spec fn view(&self) -> SimpleBadgeView {
        SimpleBadgeView {
            id: self.id@,
            version: self.version@,
            image_url: self.image_url@,
            title: self.title@,
        }
    }
}

/// The version table of one set: version id to record. Where a catalog
/// lists an id twice, the later record stands.
pub open spec fn version_table(vs: Seq<BadgeVersionView>) -> Map<Seq<char>, BadgeVersionView>
    decreases vs.len(),
{
    if vs.len() == 0 {
        Map::empty()
    } else {
        version_table(vs.drop_last()).insert(vs.last().id, vs.last())
    }
}

/// A tier after a catalog has been stored into it: each set of the
/// catalog, in order, replaces the whole version table kept under its
/// set id; sets that the catalog does not name stay as they were.
pub open spec fn merge_sets(
    tier: Map<Seq<char>, Map<Seq<char>, BadgeVersionView>>,
    sets: Seq<BadgeSetView>,
) -> Map<Seq<char>, Map<Seq<char>, BadgeVersionView>>
    decreases sets.len(),
{
    if sets.len() == 0 {
        tier
    } else {
        merge_sets(tier, sets.drop_last()).insert(
            sets.last().set_id,
            version_table(sets.last().versions),
        )
    }
}

/// Mathematical value of a [`BadgeCache`]: per tier, set id to version id
/// to record.
pub struct BadgeCacheView {
    pub channel: Map<Seq<char>, Map<Seq<char>, BadgeVersionView>>,
    pub global: Map<Seq<char>, Map<Seq<char>, BadgeVersionView>>,
}

/// Whether a tier has a record for this set and version.
pub open spec fn tier_has(
    tier: Map<Seq<char>, Map<Seq<char>, BadgeVersionView>>,
    set_id: Seq<char>,
    id: Seq<char>,
) -> bool {
    tier.contains_key(set_id) && tier[set_id].contains_key(id)
}

/// The display form of a catalog record found under `(set_id, id)`.
pub open spec fn display_of(set_id: Seq<char>, id: Seq<char>, record: BadgeVersionView) -> SimpleBadgeView {
    SimpleBadgeView { id: set_id, version: id, image_url: record.image_url_1x, title: record.title }
}

/// Resolution of `(set_id, id)`: the channel tier is asked first, the
/// global tier second, and a miss in both is `None`.
pub open spec fn resolve(cache: BadgeCacheView, set_id: Seq<char>, id: Seq<char>) -> Option<SimpleBadgeView> {
    if tier_has(cache.channel, set_id, id) {
        Some(display_of(set_id, id, cache.channel[set_id][id]))
    } else if tier_has(cache.global, set_id, id) {
        Some(display_of(set_id, id, cache.global[set_id][id]))
    } else {
        None
    }
}

/// A cache after one fetch cycle has been stored: the channel catalog
/// into the channel tier, the global catalog into the global tier.
pub open spec fn populate(cache: BadgeCacheView, channel_sets: Seq<BadgeSetView>, global_sets: Seq<BadgeSetView>) -> BadgeCacheView {
    BadgeCacheView {
        channel: merge_sets(cache.channel, channel_sets),
        global: merge_sets(cache.global, global_sets),
    }
}

/// Image address of a badge that no tier resolves, made from the id that
/// its reference carries.
pub open spec fn fallback_image_url(id: Seq<char>) -> Seq<char> {
    "https://static-cdn.jtvnw.net/badges/v1/"@ + id + "/1/1"@
}

/// The stand-in shown for a badge that no tier resolves: it keeps the
/// reference's set id, as id and as title, has version "1", and an image
/// address made from the reference's own id.
pub open spec fn fallback(raw: RawBadgeView) -> SimpleBadgeView {
    SimpleBadgeView {
        id: raw.set_id,
        version: "1"@,
        image_url: fallback_image_url(raw.id),
        title: raw.set_id,
    }
}

/// What a raw badge reference is shown as: its cache entry, or the
/// stand-in where the cache has none.
pub open spec fn resolve_or_fallback(cache: BadgeCacheView, raw: RawBadgeView) -> SimpleBadgeView {
    match resolve(cache, raw.set_id, raw.id) {
        Some(badge) => badge,
        None => fallback(raw),
    }
}

/// The values of a list of display badges, in the same order.
pub open spec fn badges_view(badges: Seq<SimpleBadge>) -> Seq<SimpleBadgeView> {
    Seq::new(badges.len(), |i: int| badges[i]@)
}

/// What the badge references of one message are shown as: one display
/// badge per reference, in the same order.
pub open spec fn shown_badges(cache: BadgeCacheView, raws: Seq<RawBadge>) -> Seq<SimpleBadgeView> {
    Seq::new(raws.len(), |i: int| resolve_or_fallback(cache, raws[i]@))
}

/// The values stored in a version table.
pub open spec fn versions_model(m: Map<Seq<char>, BadgeVersion>) -> Map<Seq<char>, BadgeVersionView> {
    Map::new(|k: Seq<char>| m.contains_key(k), |k: Seq<char>| m[k]@)
}

/// The values stored in a tier.
pub open spec fn tier_model(t: Map<Seq<char>, StringMap<BadgeVersion>>) -> Map<
    Seq<char>,
    Map<Seq<char>, BadgeVersionView>,
> {
    Map::new(|s: Seq<char>| t.contains_key(s), |s: Seq<char>| versions_model(t[s]@))
}

/// Builds the version table of one catalog set.
pub fn build_version_table(versions: &Vec<BadgeVersion>) -> (table: StringMap<BadgeVersion>)
    ensures
        versions_model(table@) == version_table(versions_view(versions@)),
{
    let mut table: StringMap<BadgeVersion> = StringMap::new();
    let mut i: usize = 0;
    assert(versions_model(table@) =~= version_table(versions_view(versions@).take(0)));
    while i < versions.len()
        invariant
            i <= versions@.len(),
            versions_model(table@) == version_table(versions_view(versions@).take(i as int)),
        decreases versions@.len() - i,
    {
        let version = versions[i].duplicate();
        let ghost before = table@;
        table.insert(version.id.clone(), version);
        proof {
            let all = versions_view(versions@);
            assert(all.take(i + 1).drop_last() =~= all.take(i as int));
            assert(all.take(i + 1).last() == versions@[i as int]@);
            assert(versions_model(table@) =~= versions_model(before).insert(version@.id, version@));
        }
        i += 1;
    }
    proof {
        let all = versions_view(versions@);
        assert(all.take(i as int) =~= all);
    }
    table
}

/// Stores a catalog into a tier, set by set.
pub fn store_sets(tier: &mut StringMap<StringMap<BadgeVersion>>, badges: &Vec<BadgeSet>)
    ensures
        tier_model(final(tier)@) == merge_sets(tier_model(old(tier)@), sets_view(badges@)),
{
    let mut i: usize = 0;
    assert(sets_view(badges@).take(0).len() == 0);
    while i < badges.len()
        invariant
            i <= badges@.len(),
            tier_model(tier@) == merge_sets(tier_model(old(tier)@), sets_view(badges@).take(i as int)),
        decreases badges@.len() - i,
    {
        let table = build_version_table(&badges[i].versions);
        let ghost before = tier@;
        tier.insert(badges[i].set_id.clone(), table);
        proof {
            let all = sets_view(badges@);
            assert(all.take(i + 1).drop_last() =~= all.take(i as int));
            assert(all.take(i + 1).last() == badges@[i as int]@);
            assert(tier_model(tier@) =~= tier_model(before).insert(
                badges@[i as int]@.set_id,
                versions_model(table@),
            ));
        }
        i += 1;
    }
    proof {
        let all = sets_view(badges@);
        assert(all.take(i as int) =~= all);
    }
}

/// Looks `(set_id, id)` up in one tier.
pub fn find_in_tier<'a>(
    tier: &'a StringMap<StringMap<BadgeVersion>>,
    set_id: &String,
    id: &String,
) -> (r: Option<&'a BadgeVersion>)
    ensures
        match r {
            Some(record) => tier_has(tier_model(tier@), set_id@, id@) && record@ == tier_model(
                tier@,
            )[set_id@][id@],
            None => !tier_has(tier_model(tier@), set_id@, id@),
        },
{
    match tier.get(set_id) {
        Some(versions) => versions.get(id),
        None => None,
    }
}

/// All badges known to the process: the broadcaster's own catalog and
/// the platform-wide one.
pub struct BadgeCache {
    pub channel_badges: StringMap<StringMap<BadgeVersion>>,
    pub global_badges: StringMap<StringMap<BadgeVersion>>,
}

impl View for BadgeCache {
    type V = BadgeCacheView;

    open spec fn view(&self) -> BadgeCacheView {
        BadgeCacheView {
            channel: tier_model(self.channel_badges@),
            global: tier_model(self.global_badges@),
        }
    }
}

impl BadgeCache {
    /// A cache that resolves nothing.
    pub fn new() -> (cache: Self)
        ensures
            cache@.channel == Map::<Seq<char>, Map<Seq<char>, BadgeVersionView>>::empty(),
            cache@.global == Map::<Seq<char>, Map<Seq<char>, BadgeVersionView>>::empty(),
    {
        let cache = BadgeCache { channel_badges: StringMap::new(), global_badges: StringMap::new() };
        assert(cache@.channel =~= Map::<Seq<char>, Map<Seq<char>, BadgeVersionView>>::empty());
        assert(cache@.global =~= Map::<Seq<char>, Map<Seq<char>, BadgeVersionView>>::empty());
        cache
    }

    /// Stores the broadcaster's catalog. A set that the cache already
    /// holds in the channel tier is replaced whole.
    pub fn add_channel_badges(&mut self, badges: Vec<BadgeSet>)
        ensures
            final(self)@.channel == merge_sets(old(self)@.channel, sets_view(badges@)),
            final(self)@.global == old(self)@.global,
    {
        store_sets(&mut self.channel_badges, &badges);
    }

    /// Stores the platform-wide catalog. A set that the cache already
    /// holds in the global tier is replaced whole.
    pub fn add_global_badges(&mut self, badges: Vec<BadgeSet>)
        ensures
            final(self)@.global == merge_sets(old(self)@.global, sets_view(badges@)),
            final(self)@.channel == old(self)@.channel,
    {
        store_sets(&mut self.global_badges, &badges);
    }

    /// Stores the outcome of one fetch cycle, both catalogs at once.
    pub fn populate(&mut self, channel_sets: Vec<BadgeSet>, global_sets: Vec<BadgeSet>)
        ensures
            final(self)@ == populate(old(self)@, sets_view(channel_sets@), sets_view(global_sets@)),
    {
        self.add_channel_badges(channel_sets);
        self.add_global_badges(global_sets);
    }

    /// Resolves `(set_id, id)`, channel tier first.
    pub fn get_badge_info(&self, set_id: &str, id: &str) -> (r: Option<SimpleBadge>)
        ensures
            match r {
                Some(badge) => resolve(self@, set_id@, id@) == Some(badge@),
                None => resolve(self@, set_id@, id@).is_none(),
            },
    {
        let set_key = set_id.to_owned();
        let id_key = id.to_owned();
        if let Some(record) = find_in_tier(&self.channel_badges, &set_key, &id_key) {
            return Some(
                SimpleBadge {
                    id: set_key,
                    version: id_key,
                    image_url: record.image_url_1x.clone(),
                    title: record.title.clone(),
                },
            );
        }
        if let Some(record) = find_in_tier(&self.global_badges, &set_key, &id_key) {
            return Some(
                SimpleBadge {
                    id: set_key,
                    version: id_key,
                    image_url: record.image_url_1x.clone(),
                    title: record.title.clone(),
                },
            );
        }
        None
    }
}

/// The stand-in for a badge that the cache does not resolve.
pub fn fallback_badge(raw: &RawBadge) -> (badge: SimpleBadge)
    ensures
        badge@ == fallback(raw@),
{
    let image_url = String::from_str("https://static-cdn.jtvnw.net/badges/v1/").concat(
        raw.id.as_str(),
    ).concat("/1/1");
    SimpleBadge {
        id: raw.set_id.clone(),
        version: String::from_str("1"),
        image_url,
        title: raw.set_id.clone(),
    }
}

/// Turns the badge references of one chat message into what is shown:
/// one output per input, in order, each resolved through the cache or
/// replaced by its stand-in.
pub fn process_message_badges(cache: &BadgeCache, badges: &Vec<RawBadge>) -> (result: Vec<SimpleBadge>)
    ensures
        result@.len() == badges@.len(),
        badges_view(result@) == shown_badges(cache@, badges@),
{
    let mut result: Vec<SimpleBadge> = Vec::new();
    let mut i: usize = 0;
    while i < badges.len()
        invariant
            i <= badges@.len(),
            result@.len() == i,
            forall|j: int| 0 <= j < i ==> (#[trigger] result@[j])@ == resolve_or_fallback(cache@, badges@[j]@),
        decreases badges@.len() - i,
    {
        let raw = &badges[i];
        match cache.get_badge_info(raw.set_id.as_str(), raw.id.as_str()) {
            Some(badge) => result.push(badge),
            None => result.push(fallback_badge(raw)),
        }
        i += 1;
    }
    assert(badges_view(result@) =~= shown_badges(cache@, badges@));
    result
}

/// Storing a catalog leaves every set that it does not name as it was.
pub proof fn lemma_merge_keeps_other_sets(
    tier: Map<Seq<char>, Map<Seq<char>, BadgeVersionView>>,
    sets: Seq<BadgeSetView>,
    set_id: Seq<char>,
)
    requires
        forall|i: int| 0 <= i < sets.len() ==> (#[trigger] sets[i]).set_id != set_id,
    ensures
        merge_sets(tier, sets).contains_key(set_id) == tier.contains_key(set_id),
        tier.contains_key(set_id) ==> merge_sets(tier, sets)[set_id] == tier[set_id],
    decreases sets.len(),
{
    if sets.len() > 0 {
        let front = sets.drop_last();
        assert forall|i: int| 0 <= i < front.len() implies (#[trigger] front[i]).set_id != set_id by {
            assert(front[i] == sets[i]);
        }
        lemma_merge_keeps_other_sets(tier, front, set_id);
        assert(sets[sets.len() - 1].set_id != set_id);
    }
}

/// What a tier holds under a set id that the stored catalog names is
/// decided by the catalog alone, whatever the tier held before.
pub proof fn lemma_merge_named_set(
    first: Map<Seq<char>, Map<Seq<char>, BadgeVersionView>>,
    second: Map<Seq<char>, Map<Seq<char>, BadgeVersionView>>,
    sets: Seq<BadgeSetView>,
    set_id: Seq<char>,
)
    requires
        exists|i: int| 0 <= i < sets.len() && (#[trigger] sets[i]).set_id == set_id,
    ensures
        merge_sets(first, sets).contains_key(set_id),
        merge_sets(second, sets).contains_key(set_id),
        merge_sets(first, sets)[set_id] == merge_sets(second, sets)[set_id],
    decreases sets.len(),
{
    let front = sets.drop_last();
    if sets.last().set_id != set_id {
        let i = choose|i: int| 0 <= i < sets.len() && (#[trigger] sets[i]).set_id == set_id;
        assert(front[i] == sets[i]);
        lemma_merge_named_set(first, second, front, set_id);
    }
}

/// Storing the same catalog a second time changes nothing in a tier.
pub proof fn lemma_merge_twice(tier: Map<Seq<char>, Map<Seq<char>, BadgeVersionView>>, sets: Seq<BadgeSetView>)
    ensures
        merge_sets(merge_sets(tier, sets), sets) == merge_sets(tier, sets),
{
    let once = merge_sets(tier, sets);
    let twice = merge_sets(once, sets);
    assert forall|set_id: Seq<char>|
        #![trigger twice.contains_key(set_id)]
        #![trigger once.contains_key(set_id)]
        twice.contains_key(set_id) == once.contains_key(set_id) && (once.contains_key(set_id)
            ==> twice[set_id] == once[set_id]) by {
        if exists|i: int| 0 <= i < sets.len() && (#[trigger] sets[i]).set_id == set_id {
            lemma_merge_named_set(once, tier, sets, set_id);
        } else {
            lemma_merge_keeps_other_sets(once, sets, set_id);
        }
    }
    assert(twice =~= once);
}

/// Channel precedence: a key that the channel tier holds resolves to the
/// channel tier's record, whether or not the global tier holds the same
/// key.
pub proof fn lemma_channel_precedence(cache: BadgeCacheView, set_id: Seq<char>, id: Seq<char>)
    requires
        tier_has(cache.channel, set_id, id),
    ensures
        resolve(cache, set_id, id) == Some(display_of(set_id, id, cache.channel[set_id][id])),
{
}

/// A key that the channel tier lacks resolves through the global tier.
pub proof fn lemma_global_is_second(cache: BadgeCacheView, set_id: Seq<char>, id: Seq<char>)
    requires
        !tier_has(cache.channel, set_id, id),
        tier_has(cache.global, set_id, id),
    ensures
        resolve(cache, set_id, id) == Some(display_of(set_id, id, cache.global[set_id][id])),
{
}

/// A reference that neither tier holds is shown as its stand-in, whose
/// version is "1" and whose id and title are the reference's set id.
pub proof fn lemma_miss_gives_fallback(cache: BadgeCacheView, raw: RawBadgeView)
    requires
        !tier_has(cache.channel, raw.set_id, raw.id),
        !tier_has(cache.global, raw.set_id, raw.id),
    ensures
        resolve(cache, raw.set_id, raw.id).is_none(),
        resolve_or_fallback(cache, raw) == fallback(raw),
        resolve_or_fallback(cache, raw).id == raw.set_id,
        resolve_or_fallback(cache, raw).version == "1"@,
        resolve_or_fallback(cache, raw).title == raw.set_id,
{
}

/// Hit or miss, what a reference is shown as keeps the reference's set
/// id as its id.
pub proof fn lemma_shown_badge_keeps_set_id(cache: BadgeCacheView, raw: RawBadgeView)
    ensures
        resolve_or_fallback(cache, raw).id == raw.set_id,
{
}

/// Storing the same fetch outcome twice is the same as storing it once:
/// the cache is equal, and so is the resolution of every key.
pub proof fn lemma_populate_idempotent(
    cache: BadgeCacheView,
    channel_sets: Seq<BadgeSetView>,
    global_sets: Seq<BadgeSetView>,
    set_id: Seq<char>,
    id: Seq<char>,
)
    ensures
        populate(populate(cache, channel_sets, global_sets), channel_sets, global_sets) == populate(
            cache,
            channel_sets,
            global_sets,
        ),
        resolve(
            populate(populate(cache, channel_sets, global_sets), channel_sets, global_sets),
            set_id,
            id,
        ) == resolve(populate(cache, channel_sets, global_sets), set_id, id),
{
    lemma_merge_twice(cache.channel, channel_sets);
    lemma_merge_twice(cache.global, global_sets);
}

} // verus!
