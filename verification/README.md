# ruche

The logic of a League of Legends statistics site, written in Verus. The functions in `src/`
carry contracts that Verus proves; the few small functions that call into std, `urlencoding`
or `dashmap` (marked `#[verifier::external_body]`) have contracts that are taken on trust and
say in their doc comments what they claim of the code they call.

- `src/text.rs`, `src/url_text.rs`: characters, decimal formatting, splitting, parsing of
  numbers, percent-encoding.
- `src/utils.rs`: durations, versions, grouped numbers, summoner slugs and page addresses,
  fixed-size strings; the slug and fixed-size string round trips are proved here.
- `src/consts/`, `src/models/types.rs`: platforms, regions and queues, with their round trips.
- `src/views.rs`, `src/apis.rs`: match filters read from page queries, and dates read back
  from their written form.
- `src/models/update/`, `src/backend/updates/update_match_timeline.rs`, `src/item_order.rs`:
  per-participant item and skill timelines built from match events, sorted and grouped by
  minute.
- `src/backend/updates/update_matches_task.rs`: which fetched matches are kept, which summoners
  are inserted, rewritten or fetched first, team and rune data of participants.
- `src/backend/updates/update_pro_player_task.rs`, `src/backend/server_fns/`: paging through
  remote lists, new match ids, query conditions and page counts.
- `src/components/`: pagination and match detail labels.
- `src/backend/live_game_cache.rs`: the in-memory live game cache, two `DashMap`s from game ids
  to games and from accounts to game ids; what a lookup serves after a store, and what a sweep
  drops.

`app/` holds the program around the library: the cache shared between threads, with its data
as JSON and its periodic sweep, and the floating-point statistics.
