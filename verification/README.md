# kawari_housing

The housing logic of the Kawari world server, written in Verus: every
function in `src/` carries a contract over plain mathematical values
(`Seq`, `Map`, integers, the records' own spec views). All of them are
proved to meet it except two small trusted wrappers in `preset_text`,
whose contracts restate what std documents of `String::from_utf8` and
`String::from_utf16`.

## Layout

- `src/` — the verified library.
  - `common`, `ipc`, `state`: ids, containers, plot sizes and the packet and
    session records the rules speak of.
  - `inventory`, `database`, `gamedata`: the bag and housing stores, the
    estate and furniture tables, and the item tables, each with its view.
  - `context`, `entry`, `ward`, `zoning`: which estate a player acts on,
    who may write where, entering and leaving houses and yards, and what is
    sent on zone-in.
  - `furniture`, `fixtures`, `appearance`, `placement`,
    `housing_item_operation`: appearance staging, interior patterns,
    placing, moving and storing furniture.
  - `fixture_json`, `serialization`, `init`: fixture records and the
    packet contents built from the tables.
  - `remake_place`, `presets`, `preset_text`: ReMakePlace preset import and
    the decoding of preset text files.
  - `commands`: the housing chat commands.
  - `laws`: properties of the rules as a whole (authority, undo, reset,
    preset import).
- `tests/` — tests run against the compiled library.
- `app/` — the launcher, preset file lookup and JSON parsing, stored-record
  text, and the dispatch of housing commands to notices and packets.
