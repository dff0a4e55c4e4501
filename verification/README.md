# cofd

Character sheets for Chronicles of Darkness, verified with Verus.

- `src/character` — the sheet: attributes, skills, health, the builder, and the traits a
  sheet derives (Size, Health, Willpower, Speed, Defense, Initiative, Perception, fuel,
  wound penalty). `modifier.rs` computes the modifier tables from a sheet's abilities,
  merits and splat; `traits.rs` holds the attribute grid and the skill lists;
  `dice_pool.rs` the two-part pools.
- `src/dice_pool.rs` — dice pools and their value on a sheet.
- `src/splat` — the supernatural templates (vampire, werewolf, mage, changeling, Bound),
  their choices, abilities and merits.
- `src/overview.rs` — the edits that a sheet's overview page makes, and what each does
  to the sheet.
- `src/extras.rs` — the edits of a sheet's splat extras page and description bar.
- `src/demo.rs` — four sample sheets put together with the builder.
- `src/choices.rs` — the choices a sheet editor offers: regalia, hunter's aspects, and
  the shadow and wolf gifts not yet taken.
- `src/scraper` — reading the tables of the wiki's pages out of their HTML
  (`page.rs`: the walk over the document is verified against names for what the
  `scraper` crate reads at each step) and gift and merit
  records from their rows.
- `app/main.rs` — the program that downloads those pages, reads them with the library
  and writes the records as RON.
- `tests/` — the tests of the library.

The contracts speak of spec functions over the sheet (`attributes_spec`, `mod_sum`,
`max_health_spec`, ...); the laws are the public proof functions (`lemma_*`).
