use zenit::crash::{generate_error_log, Bounds, ComputedLayout, CrashReport, HandlerConfig};

fn config() -> HandlerConfig {
    HandlerConfig {
        window_title: "Zenit Crash Handler",
        header_text: "here is a wacky randomized error message",
        main_text: "main",
        footer_text: "footer",
        copy_text: "Copy",
        ok_text: "OK",
        logo_bitmap_id: 150,
        logo_size: 128,
        initial_window_width: 500,
        initial_window_height: 500,
        padding: 12,
        header_height: 25,
        footer_height: 25,
        footer_button_width: 100,
        footer_button_height: 30,
    }
}

fn b(x: i32, y: i32, w: i32, h: i32) -> Bounds {
    Bounds { x, y, w, h }
}

#[test]
fn layout_of_a_500_square_window() {
    assert_eq!(
        config().compute_layout(500, 500),
        ComputedLayout {
            logo: b(12, 12, 128, 128),
            header: b(152, 18, 324, 25),
            main: b(152, 43, 324, 103),
            logs: b(12, 152, 476, 269),
            footer: b(12, 433, 476, 25),
            copy: b(276, 458, 100, 30),
            ok: b(388, 458, 100, 30),
        }
    );
}

#[test]
fn buttons_hug_the_right_edge() {
    let layout = config().compute_layout(799, 601);
    assert_eq!(layout.ok.x + layout.ok.w + 12, 799);
    assert_eq!(layout.copy.x + layout.copy.w + 12, layout.ok.x);
    assert_eq!(layout.logs.y + layout.logs.h + 12, layout.footer.y);
}

#[test]
fn odd_padding_rounds_half_toward_zero() {
    let mut c = config();
    c.padding = 7;
    assert_eq!(c.compute_layout(300, 300).header.y, 10);
    c.padding = -7;
    assert_eq!(c.compute_layout(300, 300).header.y, -10);
}

#[test]
fn crash_report_lays_out_every_part() {
    let report = CrashReport {
        engine_version: "0.1.0",
        local_time: "2024-01-02 03:04:05",
        build_type: "Debug",
        commit_hash: "abc123",
        panic_info: "panicked at src/main.rs:1:1: boom",
        thread_name: "main",
        rust_backtrace: "    frame 0",
        lua_backtrace: "    none",
        cpu: "Ryzen",
        cores: "8",
        gfx_name: "Radeon",
        gfx_backend: "Vulkan",
        gfx_drivers: "24.1",
        ram_size: "16 GiB",
        os_name: "Linux",
        loaded_level: "geo1",
        loaded_files: "core.lvl",
    };
    let expected = "```
Zenit Engine 0.1.0 Crash Report

Local time: 2024-01-02 03:04:05
Build type: Debug 0.1.0 abc123

Panic information
=================================================
 - panicked at src/main.rs:1:1: boom
 - panicking thread: main

Rust backtrace:
    frame 0

Lua backtrace:
    none

Hardware information
=================================================
 - CPU: Ryzen (8)
 - GPU: Radeon (Vulkan 24.1)
 - RAM: 16 GiB
 - OS: Linux

Ingame information
=================================================
Loaded level: geo1

Asset manager:
 - loaded data files: core.lvl

<end of crash report>
```";
    assert_eq!(generate_error_log(&report), expected);
}
