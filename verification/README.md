# hotkeys

The logic of a keyboard launcher that maps actions to the keys of the numeric
keypad, written in Verus with its behaviour stated in contracts and proved.
A board shows nine pads in a 3x3 grid; a pad runs a sequence of actions
(shortcuts, text, pauses, pastes, addresses) or opens another board.

## Layout

- `src/text.rs`: text operations on character sequences (split, trim, replace,
  join, decimal digits) and the trusted calls into `str` and `char`.
- `src/input/`: virtual keys and modifiers, shortcut expressions
  ("Ctrl K + Ctrl B") parsed into key combinations, input scripts, the capture
  of text and key combinations, and how key events are written.
- `src/domain/`: the stored data (boards, pad sets, pads, color schemes, text
  styles, detections), parameters and paths, and resource files.
- `src/settings/`: the settings repository (lookups, additions, renames and
  deletions that keep names unique), the split of components into files, and
  the validation of names and references.
- `src/model/`: pad numbers, colors and palettes, fonts, handles on the named
  components, and the operations on boards: creating boards and chains,
  deleting boards with their pad sets, modifier pad sets.
- `src/components/`: what each board does with key and mouse events (home
  board, main board, board chains, settings lists, editors of color schemes,
  text styles and pads, the tour, window moves), and the stack of boards.
- `src/actions.rs`: what running a pad's action does, and what follows it.
- `tests/`: tests of the library on concrete values.
- `app/`: the command-line program around the library: reading and writing the
  settings files (serde), printing, detection of a process name.
