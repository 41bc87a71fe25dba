use chat_hub::badge::{
    fallback_badge, process_message_badges, BadgeCache, BadgeSet, BadgeVersion, RawBadge,
};
use chat_hub::string_map::StringMap;

fn version(id: &str, url: &str, title: &str) -> BadgeVersion {
    BadgeVersion {
        id: id.to_string(),
        image_url_1x: url.to_string(),
        image_url_2x: format!("{}/2", url),
        image_url_4x: format!("{}/4", url),
        title: title.to_string(),
        description: format!("{} badge", title),
    }
}

fn set(set_id: &str, versions: Vec<BadgeVersion>) -> BadgeSet {
    BadgeSet { set_id: set_id.to_string(), versions }
}

fn raw(set_id: &str, id: &str) -> RawBadge {
    RawBadge { set_id: set_id.to_string(), id: id.to_string() }
}

#[test]
fn empty_cache_resolves_nothing() {
    let cache = BadgeCache::new();
    assert!(cache.get_badge_info("subscriber", "0").is_none());
    assert!(cache.get_badge_info("", "").is_none());
}

#[test]
fn channel_entry_is_found() {
    let mut cache = BadgeCache::new();
    cache.add_channel_badges(vec![set("subscriber", vec![version("0", "c-url", "Channel Sub")])]);
    let badge = cache.get_badge_info("subscriber", "0").unwrap();
    assert_eq!(badge.id, "subscriber");
    assert_eq!(badge.version, "0");
    assert_eq!(badge.image_url, "c-url");
    assert_eq!(badge.title, "Channel Sub");
}

#[test]
fn global_entry_is_found_when_channel_lacks_it() {
    let mut cache = BadgeCache::new();
    cache.add_channel_badges(vec![set("subscriber", vec![version("0", "c-url", "Channel Sub")])]);
    cache.add_global_badges(vec![
        set("subscriber", vec![version("3", "g3-url", "Global Sub 3")]),
        set("moderator", vec![version("1", "mod-url", "Moderator")]),
    ]);
    let other_version = cache.get_badge_info("subscriber", "3").unwrap();
    assert_eq!(other_version.image_url, "g3-url");
    assert_eq!(other_version.title, "Global Sub 3");
    let other_set = cache.get_badge_info("moderator", "1").unwrap();
    assert_eq!(other_set.id, "moderator");
    assert_eq!(other_set.version, "1");
    assert_eq!(other_set.image_url, "mod-url");
    assert_eq!(other_set.title, "Moderator");
}

#[test]
fn channel_takes_precedence_over_global() {
    let mut cache = BadgeCache::new();
    cache.add_global_badges(vec![set("subscriber", vec![version("0", "g-url", "Global Sub")])]);
    cache.add_channel_badges(vec![set("subscriber", vec![version("0", "c-url", "Channel Sub")])]);
    let badge = cache.get_badge_info("subscriber", "0").unwrap();
    assert_eq!(badge.image_url, "c-url");
    assert_eq!(badge.title, "Channel Sub");
}

#[test]
fn storing_a_set_again_replaces_all_its_versions() {
    let mut cache = BadgeCache::new();
    cache.add_channel_badges(vec![set(
        "bits",
        vec![version("1", "b1", "Bits 1"), version("100", "b100", "Bits 100")],
    )]);
    cache.add_channel_badges(vec![set("bits", vec![version("1000", "b1000", "Bits 1000")])]);
    assert!(cache.get_badge_info("bits", "1").is_none());
    assert!(cache.get_badge_info("bits", "100").is_none());
    assert_eq!(cache.get_badge_info("bits", "1000").unwrap().title, "Bits 1000");
}

#[test]
fn later_set_of_one_catalog_wins() {
    let mut cache = BadgeCache::new();
    cache.add_global_badges(vec![
        set("vip", vec![version("1", "old", "Old VIP")]),
        set("vip", vec![version("2", "new", "New VIP")]),
    ]);
    assert!(cache.get_badge_info("vip", "1").is_none());
    assert_eq!(cache.get_badge_info("vip", "2").unwrap().image_url, "new");
}

#[test]
fn later_version_with_same_id_wins() {
    let mut cache = BadgeCache::new();
    cache.add_global_badges(vec![set(
        "vip",
        vec![version("1", "first", "First"), version("1", "second", "Second")],
    )]);
    let badge = cache.get_badge_info("vip", "1").unwrap();
    assert_eq!(badge.image_url, "second");
    assert_eq!(badge.title, "Second");
}

#[test]
fn sets_not_named_by_a_catalog_stay() {
    let mut cache = BadgeCache::new();
    cache.add_channel_badges(vec![set("a", vec![version("1", "a1", "A")])]);
    cache.add_channel_badges(vec![set("b", vec![version("1", "b1", "B")])]);
    assert_eq!(cache.get_badge_info("a", "1").unwrap().title, "A");
    assert_eq!(cache.get_badge_info("b", "1").unwrap().title, "B");
}

#[test]
fn populate_twice_resolves_the_same() {
    let channel = vec![
        set("subscriber", vec![version("0", "c0", "Sub"), version("3", "c3", "Sub 3")]),
        set("subscriber", vec![version("6", "c6", "Sub 6")]),
    ];
    let global = vec![set("moderator", vec![version("1", "m1", "Mod")])];
    let mut cache = BadgeCache::new();
    cache.populate(channel.clone(), global.clone());
    let keys = [("subscriber", "0"), ("subscriber", "3"), ("subscriber", "6"), ("moderator", "1"), ("x", "y")];
    let before: Vec<Option<(String, String, String, String)>> = keys
        .iter()
        .map(|(s, v)| cache.get_badge_info(s, v).map(|b| (b.id, b.version, b.image_url, b.title)))
        .collect();
    cache.populate(channel, global);
    let after: Vec<Option<(String, String, String, String)>> = keys
        .iter()
        .map(|(s, v)| cache.get_badge_info(s, v).map(|b| (b.id, b.version, b.image_url, b.title)))
        .collect();
    assert_eq!(before, after);
    assert_eq!(before[0], None);
    assert_eq!(
        before[2],
        Some(("subscriber".to_string(), "6".to_string(), "c6".to_string(), "Sub 6".to_string()))
    );
    assert_eq!(cache.channel_badges.len(), 1);
    assert_eq!(cache.global_badges.len(), 1);
}

#[test]
fn fallback_has_version_one_and_set_id_as_title() {
    let badge = fallback_badge(&raw("bits", "1000"));
    assert_eq!(badge.id, "bits");
    assert_eq!(badge.version, "1");
    assert_eq!(badge.title, "bits");
    assert_eq!(badge.image_url, "https://static-cdn.jtvnw.net/badges/v1/1000/1/1");
}

#[test]
fn unresolved_badges_are_never_dropped() {
    let mut cache = BadgeCache::new();
    cache.add_global_badges(vec![set("moderator", vec![version("1", "mod-url", "Moderator")])]);
    let raws = vec![raw("unknown", "7"), raw("moderator", "1"), raw("moderator", "2")];
    let shown = process_message_badges(&cache, &raws);
    assert_eq!(shown.len(), 3);
    assert_eq!(shown[0].version, "1");
    assert_eq!(shown[0].title, "unknown");
    assert_eq!(shown[0].id, "unknown");
    assert_eq!(shown[0].image_url, "https://static-cdn.jtvnw.net/badges/v1/7/1/1");
    assert_eq!(shown[1].id, "moderator");
    assert_eq!(shown[1].version, "1");
    assert_eq!(shown[1].image_url, "mod-url");
    assert_eq!(shown[1].title, "Moderator");
    assert_eq!(shown[2].version, "1");
    assert_eq!(shown[2].title, "moderator");
    assert_eq!(shown[2].id, "moderator");
    assert_eq!(shown[2].image_url, "https://static-cdn.jtvnw.net/badges/v1/2/1/1");
    for (reference, badge) in raws.iter().zip(shown.iter()) {
        assert_eq!(badge.id, reference.set_id);
    }
}

#[test]
fn no_badges_in_no_badges_out() {
    let cache = BadgeCache::new();
    assert!(process_message_badges(&cache, &Vec::new()).is_empty());
}

#[test]
fn duplicate_keeps_every_field() {
    let v = version("0", "u", "T");
    let d = v.duplicate();
    assert_eq!(d.id, "0");
    assert_eq!(d.image_url_1x, "u");
    assert_eq!(d.image_url_2x, "u/2");
    assert_eq!(d.image_url_4x, "u/4");
    assert_eq!(d.title, "T");
    assert_eq!(d.description, "T badge");
}

#[test]
fn string_map_insert_get_and_replace() {
    let mut m: StringMap<u32> = StringMap::new();
    assert!(m.get(&"a".to_string()).is_none());
    m.insert("a".to_string(), 1);
    m.insert("b".to_string(), 2);
    m.insert("a".to_string(), 3);
    assert_eq!(m.get(&"a".to_string()), Some(&3));
    assert_eq!(m.get(&"b".to_string()), Some(&2));
    assert_eq!(m.get(&"c".to_string()), None);
    assert_eq!(m.position(&"b".to_string()), Some(1));
    assert_eq!(m.position(&"c".to_string()), None);
    assert_eq!(m.len(), 2);
}

#[test]
fn string_map_hands_each_key_out_once() {
    let mut m: StringMap<u32> = StringMap::new();
    assert_eq!(m.len(), 0);
    for (k, v) in [("a", 1), ("b", 2), ("a", 3), ("c", 4), ("b", 5)] {
        m.insert(k.to_string(), v);
    }
    let pairs: Vec<(String, u32)> = m.into_entries().into_iter().map(|e| (e.key, e.value)).collect();
    assert_eq!(pairs, vec![("a".to_string(), 3), ("b".to_string(), 5), ("c".to_string(), 4)]);
}
