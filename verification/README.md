# Carriage Run rules library

The campaign, roster, loadout, chassis, expedition, content-validation and
preference rules of Carriage Run, an escort strategy game, written in Verus
with their contracts proved.

- `src/` is the verified library. Its modules: `campaign` (campaign state,
  upgrades, guard roster queries), `session` (screens and the actions the
  screens offer, run reports), `chassis`, `journey` (expeditions), `missions`
  (unlock rules, route choices), `validation` (content identifiers and the
  unlock graph), `loadout`, `equipment`, `roster` (repairing loaded saves),
  `order` (authored listing order), `flow` (refusal reasons, save
  migration steps, end-of-run routing, gamepad mapping), `records`,
  `settings`, `localization`,
  `save` (timestamps), `guards`, `kinds`, `keyed`, `ids`, `text`.
- `tests/` runs the library on concrete values.
- `app/` is the game shell: window and keyboard input (macroquad), save and
  content files (serde_json), and the preferences that hold floating-point
  values.

## Data layout

- Text-keyed maps (route choices per mission, mission records) are kept as
  `KeyedList`, a list of entries in which no key occurs twice, rather than a
  `HashMap<String, _>`. vstd states what `HashMap` operations return only
  for key types that obey its key model (`obeys_key_model`), which it grants
  to integers and `bool` but not to `String`, and granting it here would take
  an assumption; with a list of entries every lookup, insertion and repair is
  proved against a `Map` view.
- Guard stars and recovery turns are arrays indexed by guard kind, in roster
  order (`GuardKind::all`), with zero meaning "nothing recorded", so that a
  per-kind rule reads as one array position per kind.
- Saving copies the campaign field by field (`GameSession::to_save` states
  that the saved campaign has the same contents), and
  `lemma_save_then_load_round_trip` proves that loading such a save gives a
  repaired campaign back unchanged.
