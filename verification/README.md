# screen_grabber

The logic of a screenshot grabber, verified with Verus.

- `src/naming.rs`: file names of saved images (default, time and numeric
  conventions) and image formats.
- `src/keys.rs`: keys, their normalized form, duplicate-free key lists.
- `src/shortcuts.rs`: the eight shortcut bindings, their validation and the
  hotkeys built from them.
- `src/selection.rs`: the selected rectangle and the mouse handling of the
  drawing window, over any coordinate type.
- `src/state.rs`: pressed and released keys, hotkey firing, window switches.
- `src/laws.rs`: properties of the library as a whole.
- `app/`: the druid program around the library (windows, capture, files,
  clipboard).
