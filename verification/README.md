# Zenit

Zenit is an open-source engine compatible with the PC version of *Star Wars Battlefront II
(2005)*. This crate holds its verified core, written in Verus, and a small program around it.

## Layout

- `src/` is the library. Every function in it is verified against its `requires` and
  `ensures`:
  - `entities`: entity handles, the universe that hands them out, and component storage;
  - `ecs`: the earlier component vector;
  - `assets`: loading textures and shaders from level files, texture data conversion and the
    choice among a texture's stored formats;
  - `graphics`: cubemap faces, mip level upload sizes, frame and surface decisions, and the
    pairing of cameras with scenes;
  - `devui`: how window keyboard, character and mouse input becomes Dear ImGui input;
  - `engine`: per-system stage timing, the bounded frame history, the message bus queues and
    clock readings;
  - `profiler`, `crash`, `cli`, `platform`.
- `app/` is the program: command line, logging, the window event loop, the engine controller
  and system threads, the type-keyed component storage and the developer UI input system.
- `tests/` runs the library on concrete values.

## What the program does not include

The renderer, the Dear ImGui and egui developer UI drawing, the level file parser and the
asset registry are not part of this crate. They rest on `wgpu`, `imgui`, `egui` and the
engine's own level-file and utility crates, none of which this crate depends on. The library
still holds the decisions those parts make — texture and shader loading
(`assets::texture_loader::load_texture`, `assets::shader_loader::load_shader`), upload sizes
(`graphics::mip_level_layout`), frame planning (`graphics::plan_frame`,
`graphics::surface_recovery`), render targets (`graphics::collect_targets`), texture ids
(`graphics::next_texture_id`), the crash window's layout (`crash::HandlerConfig::compute_layout`)
and frame stage profiling (`profiler::FrameProfiler`) — but the program does not call them yet.

No platform has a game installation search or a crash window in this build:
`platform::find_bf2` finds nothing and `crash::enable_panic_handler` leaves Rust's default
panic handler in place.
