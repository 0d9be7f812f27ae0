# worldsim

An emergent, tile-based world simulation: terrain and climate, trees,
animals and predators, settlers with needs and intents, factions with
governments and feuds, cultural knowledge, mana practice, and public works.

## Layout

- `src/` is the verified library. It holds the decisions of the simulation
  and proves them against contracts: which intent a settler takes up, what
  it knows and passes on to its children, which civic project a settlement
  starts, which government a faction settles on and when it goes to war,
  what the world director files, how the logs are kept, and the text the
  observer reads. Measures that the simulation keeps as floats reach the
  library as the comparisons that decide, or as integers in the same order.
- `app/` is a headless Bevy program around the library: the ECS systems,
  the float arithmetic of movement, needs and weather, and a text report.
  Run it with a number of frames as its argument.
- `tests/` exercises the library from outside.

## Controls

Space pauses; keys 1 to 6 pick 1x, 5x, 20x, 120x, 300x and 900x; Tab cycles
the inspected entity; F1 to F3 toggle the settings, log and death-log panes.
