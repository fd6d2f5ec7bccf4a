# node_sound_core

The core of a node-based sound synthesiser: the tables, names and
bookkeeping that the sound nodes and the graph editor rely on, verified with
Verus, and beside it the floating-point sample processing.

## Layout

- `src/` — the verified library.
  - `sound_graph/note.rs`: notes, octaves and pitches with their frequency
    table (in hundredths of a hertz), note lengths (in ninety-sixths of a
    beat), their families, and their written names with parsing back.
  - `sound_graph/themes.rs`: the editor's colour themes and their palettes.
  - `sound_graph/graph_types.rs`: the kinds of value carried by node ports.
  - `sound_graph/graph.rs`: which node is active, and which node a plugin
    host plays.
  - `sound_graph/evaluate.rs`: evaluating the graph node by node, with every
    output cached, on any graph without cycles; each kind of node is
    described by its name and the inputs it reads, and run by a closure.
  - `sound_graph/copy_paste_del_helpers.rs`: what copying selected nodes
    takes from the editor's graph, and which connections pasting them
    restores between the new nodes.
  - `sound_map.rs`: the queue in which a graph registers the sources and
    oscillators it builds.
  - `nodes/`, `sounds/`: the structure of each node, the sequencing of
    `After`, the delay lines and taps of the echo effects, the moving
    window of the average, the sample-and-hold counter, the rule switching
    of the weird node (with its random draws), the note-length choice of
    the tempo-synced shapes, and the filter kinds of the equaliser.
  - `text.rs`: character-by-character comparison of text.
- `app/` — ordinary Rust: the sample arithmetic of every node (floating
  point), the boxed source and oscillator traits, the queue with its sample
  rate and tempo, sources built on `rodio`, applying a theme with `egui`, the
  clipboard text of a copy (RON), and serialisable copies of the library's
  enums.
- `tests/` — tests of the library on concrete values.

## Not here

- The node definitions (each `*_node` and `*_logic` function): they build
  node metadata and property types whose definitions are not part of these
  sources, typed with the graph editor crate and with floating-point
  defaults.
- The editor itself: `SoundNodeGraph`, the value widgets, the float
  selector's widgets, the wave-table graph, node building, the clipboard
  access and the graph changes of copy, paste and delete. They are drawn
  with, or act on, the node-graph editor crate, which could not be had; the
  decisions among them (which node is played, which pitch a pick sets,
  what a copy takes, which connections a paste restores) are in `src/`.
- `ValueType` and its conversions: it carries floating-point values and
  MIDI songs.
- The scripted source, the cloneable decoder and the automation mix: they
  depend on a scripting engine or on modules whose definitions are not part
  of these sources.
