//! The text form of the stored API keys: one `NAME=value` per line.

use vstd::prelude::*;
use vstd::string::*;
use crate::string_map::StringMap;

verus! {

/// The text that stores the five API keys.
pub open spec fn secrets_text(
    twitch_client_id: Seq<char>,
    twitch_client_secret: Seq<char>,
    twitch_broadcaster_id: Seq<char>,
    youtube_channel_id: Seq<char>,
    youtube_api_key: Seq<char>,
) -> Seq<char> {
    "TWITCH_CLIENT_ID="@ + twitch_client_id + "\nTWITCH_CLIENT_SECRET="@ + twitch_client_secret
        + "\nTWITCH_BROADCASTER_ID="@ + twitch_broadcaster_id + "\nYOUTUBE_CHANNEL_ID="@
        + youtube_channel_id + "\nYOUTUBE_API_KEY="@ + youtube_api_key
}

/// Writes the five API keys down, one per line.
pub fn save_api_keys(
    twitch_client_id: &str,
    twitch_client_secret: &str,
    twitch_broadcaster_id: &str,
    youtube_channel_id: &str,
    youtube_api_key: &str,
) -> (contents: String)
    ensures
        contents@ == secrets_text(
            twitch_client_id@,
            twitch_client_secret@,
            twitch_broadcaster_id@,
            youtube_channel_id@,
            youtube_api_key@,
        ),
{
    String::from_str("TWITCH_CLIENT_ID=").concat(twitch_client_id).concat(
        "\nTWITCH_CLIENT_SECRET=",
    ).concat(twitch_client_secret).concat("\nTWITCH_BROADCASTER_ID=").concat(
        twitch_broadcaster_id,
    ).concat("\nYOUTUBE_CHANNEL_ID=").concat(youtube_channel_id).concat("\nYOUTUBE_API_KEY=").concat(
        youtube_api_key,
    )
}

/// Position of the first `=` in a line; the line's length where it has
/// none.
pub open spec fn first_equals(line: Seq<char>) -> int
    decreases line.len(),
{
    if line.len() == 0 {
        0
    } else if line[0] == '=' {
        0
    } else {
        1 + first_equals(line.drop_first())
    }
}

/// `first_equals` finds a `=`, and the first one, wherever there is one.
pub proof fn lemma_first_equals(line: Seq<char>)
    ensures
        0 <= first_equals(line) <= line.len(),
        first_equals(line) < line.len() ==> line[first_equals(line)] == '=',
        forall|j: int| 0 <= j < first_equals(line) ==> line[j] != '=',
    decreases line.len(),
{
    if line.len() > 0 && line[0] != '=' {
        let rest = line.drop_first();
        lemma_first_equals(rest);
        assert forall|j: int| 0 <= j < first_equals(line) implies line[j] != '=' by {
            if j > 0 {
                assert(line[j] == rest[j - 1]);
            }
        }
    }
}

/// A line split at its first `=` into name and value; `None` for a line
/// without one.
pub open spec fn split_line(line: Seq<char>) -> Option<(Seq<char>, Seq<char>)> {
    let at = first_equals(line);
    if at < line.len() {
        Some((line.subrange(0, at), line.subrange(at + 1, line.len() as int)))
    } else {
        None
    }
}

/// Splits a line at its first `=`.
pub fn split_key_value(line: &str) -> (r: Option<(String, String)>)
    ensures
        match r {
            Some(pair) => split_line(line@) == Some((pair.0@, pair.1@)),
            None => split_line(line@).is_none(),
        },
{
    let n = line.unicode_len();
    let mut i: usize = 0;
    proof {
        lemma_first_equals(line@);
    }
    while i < n
        invariant
            n == line@.len(),
            i <= n,
            forall|j: int| 0 <= j < i ==> line@[j] != '=',
            i <= first_equals(line@) <= n,
            first_equals(line@) < n ==> line@[first_equals(line@)] == '=',
        decreases n - i,
    {
        if line.get_char(i) == '=' {
            proof {
                lemma_first_equals(line@);
            }
            let key = line.substring_char(0, i).to_owned();
            let value = line.substring_char(i + 1, n).to_owned();
            return Some((key, value));
        }
        i += 1;
    }
    None
}

/// The keys that are always reported, each with the empty value.
pub open spec fn default_keys() -> Map<Seq<char>, Seq<char>> {
    Map::<Seq<char>, Seq<char>>::empty().insert("TWITCH_CLIENT_ID"@, Seq::empty()).insert(
        "TWITCH_CLIENT_SECRET"@,
        Seq::empty(),
    ).insert("TWITCH_BROADCASTER_ID"@, Seq::empty()).insert("YOUTUBE_CHANNEL_ID"@, Seq::empty()).insert(
        "YOUTUBE_API_KEY"@,
        Seq::empty(),
    )
}

/// The keys after one more line has been read: a line `NAME=value` with
/// a value sets the key, any other line changes nothing.
pub open spec fn with_line(keys: Map<Seq<char>, Seq<char>>, line: Seq<char>) -> Map<Seq<char>, Seq<char>> {
    match split_line(line) {
        Some(pair) => if pair.1.len() > 0 {
            keys.insert(pair.0, pair.1)
        } else {
            keys
        },
        None => keys,
    }
}

/// The keys that a stored text yields, line by line; a later line for a
/// name overrides an earlier one.
pub open spec fn keys_of(lines: Seq<Seq<char>>) -> Map<Seq<char>, Seq<char>>
    decreases lines.len(),
{
    if lines.len() == 0 {
        default_keys()
    } else {
        with_line(keys_of(lines.drop_last()), lines.last())
    }
}

/// The texts held in a map of strings.
pub open spec fn map_texts(m: Map<Seq<char>, String>) -> Map<Seq<char>, Seq<char>> {
    Map::new(|k: Seq<char>| m.contains_key(k), |k: Seq<char>| m[k]@)
}

/// The texts of a list of lines.
pub open spec fn line_texts(lines: Seq<String>) -> Seq<Seq<char>> {
    Seq::new(lines.len(), |i: int| lines[i]@)
}

/// Reads the API keys out of the lines of a stored text.
pub fn read_api_keys(lines: &Vec<String>) -> (keys: StringMap<String>)
    ensures
        map_texts(keys@) == keys_of(line_texts(lines@)),
{
    let mut keys: StringMap<String> = StringMap::new();
    keys.insert(String::from_str("TWITCH_CLIENT_ID"), String::new());
    keys.insert(String::from_str("TWITCH_CLIENT_SECRET"), String::new());
    keys.insert(String::from_str("TWITCH_BROADCASTER_ID"), String::new());
    keys.insert(String::from_str("YOUTUBE_CHANNEL_ID"), String::new());
    keys.insert(String::from_str("YOUTUBE_API_KEY"), String::new());
    assert(line_texts(lines@).take(0).len() == 0);
    assert(map_texts(keys@) =~= default_keys());
    let mut i: usize = 0;
    while i < lines.len()
        invariant
            i <= lines@.len(),
            map_texts(keys@) == keys_of(line_texts(lines@).take(i as int)),
        decreases lines@.len() - i,
    {
        proof {
            let all = line_texts(lines@);
            assert(all.take(i + 1).drop_last() =~= all.take(i as int));
            assert(all.take(i + 1).last() == lines@[i as int]@);
        }
        let ghost before = keys@;
        match split_key_value(lines[i].as_str()) {
            Some(pair) => {
                if !pair.1.as_str().is_empty() {
                    let ghost name = pair.0@;
                    let ghost value = pair.1@;
                    keys.insert(pair.0, pair.1);
                    assert(map_texts(keys@) =~= map_texts(before).insert(name, value));
                }
            },
            None => {},
        }
        i += 1;
    }
    proof {
        let all = line_texts(lines@);
        assert(all.take(i as int) =~= all);
    }
    keys
}

} // verus!
