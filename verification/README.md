# WP Linux

An animated wallpaper engine for Linux desktops. A project is a stack of
layers: pictures, animated GIFs, text, shaders and adjustments, each with
effects and masks. A render server draws one project for each monitor and hands
the frames out over HTTP. An X11 adapter shows them behind the desktop's
windows, a Wayland player draws by itself, and an editor makes the projects.

## Layout

- `src/` is the library. It holds what the engine decides and computes: the
  project format and its rules, the editor's drafts, saving and opening, the
  library of projects and shaders, which projects may run the commands of their
  text layers, the render server's requests and its loop, the plan of a frame,
  pixel formats and file formats. Every function has a contract that Verus proves.
- `app/` is the program around it: arguments, files, sockets, windows, the
  graphics card, and serde copies of the manifest's types. Floating-point work
  stands here too; the library holds such numbers as their bit patterns.
- `tests/` runs the library on concrete values.

## What is taken on trust

The library calls a few functions of other crates and of std behind small
wrappers marked `#[verifier::external_body]`: `image` decodes, encodes and
resizes pictures, `serde_json` reads and writes JSON, `chrono` formats the
clock, and std lowers, quotes and decodes text. Each wrapper's comment says what
it claims of the function that it calls. Where the result would take pages to
describe, it has a name, and contracts speak of that name.

## Laws

Beside the contracts, public proof functions state what holds across functions.
Among them: what a request names is what the server reads, monitors do not
touch each other, saving power freezes a scene, what is saved is what is opened
again, a save that stops leaves the project as it was, a shader made of two
parts declares the parameters of both, a frame's runs of rows are the frame, and
what the selection points at stays selected when its neighbours move.
