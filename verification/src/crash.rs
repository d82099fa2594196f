//! Crash handling: the layout of the crash handler window and the text of the crash report.

use vstd::prelude::*;

verus! {

/// Sets up the panic hook, if any is available for the current platform.
/// No platform has one in this build, so Rust's default handler stays in place.
pub fn enable_panic_handler() {
}

/// A rectangle in window client coordinates.
#[derive(Debug, Clone, Copy, PartialEq, Eq, Structural)]
pub struct Bounds {
    pub x: i32,
    pub y: i32,
    pub w: i32,
    pub h: i32,
}

/// The crash handler window's texts and measurements.
#[derive(Debug, Clone, Copy)]
pub struct HandlerConfig {
    pub window_title: &'static str,
    pub header_text: &'static str,
    pub main_text: &'static str,
    pub footer_text: &'static str,
    pub copy_text: &'static str,
    pub ok_text: &'static str,

    pub logo_bitmap_id: i32,
    pub logo_size: i32,

    pub initial_window_width: i32,
    pub initial_window_height: i32,
    pub padding: i32,

    pub header_height: i32,
    pub footer_height: i32,

    pub footer_button_width: i32,
    pub footer_button_height: i32,
}

/// Where each control of the crash handler window goes.
#[derive(Debug, Clone, Copy, PartialEq, Eq, Structural)]
pub struct ComputedLayout {
    pub logo: Bounds,
    pub header: Bounds,
    pub main: Bounds,
    pub logs: Bounds,
    pub footer: Bounds,
    pub copy: Bounds,
    pub ok: Bounds,
}

/// `x` is representable as an `i32`.
pub open spec fn fits_i32(x: int) -> bool {
    i32::MIN <= x <= i32::MAX
}

/// Half of `x`, rounded toward zero as integer division does.
pub open spec fn half(x: int) -> int {
    if x >= 0 {
        x / 2
    } else {
        -((-x) / 2)
    }
}

/// The rectangle with the given corner and size.
pub open spec fn rect(x: int, y: int, w: int, h: int) -> Bounds {
    Bounds { x: x as i32, y: y as i32, w: w as i32, h: h as i32 }
}

impl HandlerConfig {
    /// The vertical position where the header starts: half a padding below the logo's top.
    pub open spec fn header_y(self) -> int {
        self.padding + half(self.padding as int)
    }

    /// The height left for the crash log between the logo and the footer.
    pub open spec fn logs_height(self, full_height: int) -> int {
        full_height - self.padding * 2 - (self.logo_size + self.padding + self.footer_height + self.padding
            + self.footer_button_height)
    }

    /// The vertical position of the footer: a padding below the crash log.
    pub open spec fn footer_y(self, full_height: int) -> int {
        self.logo_size + self.padding * 2 + (self.logs_height(full_height) + self.padding)
    }

    /// Every intermediate value of the layout computation fits in an `i32`.
    pub open spec fn layout_fits(self, full_width: int, full_height: int) -> bool {
        let p = self.padding as int;
        let ls = self.logo_size as int;
        let width = full_width - p * 2;
        let height = full_height - p * 2;
        &&& fits_i32(p * 2)
        &&& fits_i32(width)
        &&& fits_i32(height)
        &&& fits_i32(self.header_y())
        &&& fits_i32(p * 2 + ls)
        &&& fits_i32(width - ls)
        &&& fits_i32(width - ls - p * 2)
        &&& fits_i32(self.header_y() + self.header_height)
        &&& fits_i32(ls - self.header_height)
        &&& fits_i32(ls + p)
        &&& fits_i32(ls + p + self.footer_height)
        &&& fits_i32(ls + p + self.footer_height + p)
        &&& fits_i32(ls + p + self.footer_height + p + self.footer_button_height)
        &&& fits_i32(ls + p * 2)
        &&& fits_i32(self.logs_height(full_height))
        &&& fits_i32(self.logs_height(full_height) + p)
        &&& fits_i32(self.footer_y(full_height))
        &&& fits_i32(self.footer_y(full_height) + self.footer_height)
        &&& fits_i32(full_width - p)
        &&& fits_i32(full_width - p - self.footer_button_width)
        &&& fits_i32(full_width - p - self.footer_button_width - p)
        &&& fits_i32(full_width - p - self.footer_button_width - p - self.footer_button_width)
    }

    /// The window layout for a client area of the given size, in `padding`-spaced rows: the logo
    /// with the header and main text beside it, the crash log, the footer text, and the Copy and
    /// OK buttons at the bottom right.
    pub open spec fn layout_of(self, full_width: int, full_height: int) -> ComputedLayout {
        let p = self.padding as int;
        let ls = self.logo_size as int;
        let width = full_width - p * 2;
        let header_x = p * 2 + ls;
        let header_w = width - ls - p * 2;
        let bottom_y = self.footer_y(full_height) + self.footer_height;
        let ok_x = full_width - p - self.footer_button_width;
        ComputedLayout {
            logo: rect(p, p, ls, ls),
            header: rect(header_x, self.header_y(), header_w, self.header_height as int),
            main: rect(header_x, self.header_y() + self.header_height, header_w, ls - self.header_height),
            logs: rect(p, ls + p * 2, width, self.logs_height(full_height)),
            footer: rect(p, self.footer_y(full_height), width, self.footer_height as int),
            copy: rect(ok_x - p - self.footer_button_width, bottom_y, self.footer_button_width as int, self.footer_button_height as int),
            ok: rect(ok_x, bottom_y, self.footer_button_width as int, self.footer_button_height as int),
        }
    }

    /// Computes where each control goes in a client area of the given size.
    ///
    /// ## Panics
    /// With overflow checks, panics if an intermediate value overflows; `requires` leaves that out.
    pub fn compute_layout(&self, full_width: i32, full_height: i32) -> (r: ComputedLayout)
        requires
            self.layout_fits(full_width as int, full_height as int),
        ensures
            r == self.layout_of(full_width as int, full_height as int),
    {
        //
        // The layout is hardcoded, and basically looks like this:
        // ┌──────────────────────────┐
        // │ Zenit Crash         _  X │
        // ├──────────────────────────┤
        // │ ┌────┐ Header            │
        // │ │ICON│ Main text text aa │
        // │ │HERE│ Main text text aa │
        // │ └────┘                   │
        // │ ┌──────────────────────┐ │
        // │ │ Crash logs :(        │ │
        // │ │                      │ │
        // │ │                      │ │
        // │ └──────────────────────┘ │
        // │ Footer text is here      │
        // │                          │
        // │              [Copy] [OK] │
        // └──────────────────────────┘
        //

        let padding = self.padding;
        let width = full_width - padding * 2;
        let height = full_height - padding * 2;
        let mut y = padding;

        let logo = Bounds { x: padding, y, w: self.logo_size, h: self.logo_size };

        y += padding / 2;
        let header = Bounds {
            x: padding * 2 + self.logo_size,
            y,
            w: width - logo.w - padding * 2,
            h: self.header_height,
        };

        y += header.h;
        let main = Bounds { x: header.x, y, w: header.w, h: logo.h - header.h };

        y = logo.h + padding * 2;
        let logs = Bounds {
            x: padding,
            y,
            w: width,
            h: height - (logo.h + padding + self.footer_height + padding + self.footer_button_height),
        };

        y += logs.h + padding;
        let footer = Bounds { x: padding, y, w: width, h: self.footer_height };

        y += footer.h;
        let ok = Bounds {
            x: full_width - padding - self.footer_button_width,
            y,
            w: self.footer_button_width,
            h: self.footer_button_height,
        };

        let copy = Bounds {
            x: ok.x - padding - self.footer_button_width,
            y,
            w: self.footer_button_width,
            h: self.footer_button_height,
        };

        ComputedLayout { logo, header, main, logs, footer, copy, ok }
    }
}

/// The bottom row is laid out from the right edge: the OK button ends a padding before it, and
/// the Copy button ends a padding before the OK button, both on the row below the footer.
pub proof fn lemma_buttons_right_aligned(config: HandlerConfig, full_width: int, full_height: int)
    requires
        config.layout_fits(full_width, full_height),
        fits_i32(full_width),
    ensures
        ({
            let l = config.layout_of(full_width, full_height);
            &&& l.ok.x + l.ok.w + config.padding == full_width
            &&& l.copy.x + l.copy.w + config.padding == l.ok.x
            &&& l.copy.y == l.ok.y == l.footer.y + l.footer.h
            &&& l.logs.y + l.logs.h + config.padding == l.footer.y
        }),
{
}

/// What a crash report tells, each part already written out as text.
pub struct CrashReport<'a> {
    /// The engine's version.
    pub engine_version: &'a str,
    /// The local time of the crash.
    pub local_time: &'a str,
    /// `Debug` or `Release`.
    pub build_type: &'a str,
    /// The commit the engine was built from.
    pub commit_hash: &'a str,
    /// What the panic said, and where.
    pub panic_info: &'a str,
    /// The name of the panicking thread.
    pub thread_name: &'a str,
    /// The Rust backtrace, indented.
    pub rust_backtrace: &'a str,
    /// The Lua backtrace, indented.
    pub lua_backtrace: &'a str,
    /// The processor.
    pub cpu: &'a str,
    /// The processor's core count.
    pub cores: &'a str,
    /// The graphics adapter.
    pub gfx_name: &'a str,
    /// The graphics backend.
    pub gfx_backend: &'a str,
    /// The graphics driver version.
    pub gfx_drivers: &'a str,
    /// The amount of memory.
    pub ram_size: &'a str,
    /// The operating system.
    pub os_name: &'a str,
    /// The level loaded at the time of the crash.
    pub loaded_level: &'a str,
    /// The data files the asset manager had open.
    pub loaded_files: &'a str,
}

/// The text of a crash report, as the crash handler shows it and the user copies it.
pub open spec fn crash_report_text(report: CrashReport) -> Seq<char> {
    "```\nZenit Engine "@
        + report.engine_version@
        + " Crash Report\n\nLocal time: "@
        + report.local_time@
        + "\nBuild type: "@
        + report.build_type@
        + " "@
        + report.engine_version@
        + " "@
        + report.commit_hash@
        + "\n\nPanic information\n=================================================\n - "@
        + report.panic_info@
        + "\n - panicking thread: "@
        + report.thread_name@
        + "\n\nRust backtrace:\n"@
        + report.rust_backtrace@
        + "\n\nLua backtrace:\n"@
        + report.lua_backtrace@
        + "\n\nHardware information\n=================================================\n - CPU: "@
        + report.cpu@
        + " ("@
        + report.cores@
        + ")\n - GPU: "@
        + report.gfx_name@
        + " ("@
        + report.gfx_backend@
        + " "@
        + report.gfx_drivers@
        + ")\n - RAM: "@
        + report.ram_size@
        + "\n - OS: "@
        + report.os_name@
        + "\n\nIngame information\n=================================================\nLoaded level: "@
        + report.loaded_level@
        + "\n\nAsset manager:\n - loaded data files: "@
        + report.loaded_files@
        + "\n\n<end of crash report>\n```"@
}

/// Writes the crash report shown by the crash handler: a fenced block with the engine version
/// and build, the panic, the hardware and the game's state.
pub fn generate_error_log(report: &CrashReport) -> (r: String)
    ensures
        r@ == crash_report_text(*report),
{
    let mut text = "```\nZenit Engine ".to_owned();
    text.append(report.engine_version);
    text.append(" Crash Report\n\nLocal time: ");
    text.append(report.local_time);
    text.append("\nBuild type: ");
    text.append(report.build_type);
    text.append(" ");
    text.append(report.engine_version);
    text.append(" ");
    text.append(report.commit_hash);
    text.append("\n\nPanic information\n=================================================\n - ");
    text.append(report.panic_info);
    text.append("\n - panicking thread: ");
    text.append(report.thread_name);
    text.append("\n\nRust backtrace:\n");
    text.append(report.rust_backtrace);
    text.append("\n\nLua backtrace:\n");
    text.append(report.lua_backtrace);
    text.append("\n\nHardware information\n=================================================\n - CPU: ");
    text.append(report.cpu);
    text.append(" (");
    text.append(report.cores);
    text.append(")\n - GPU: ");
    text.append(report.gfx_name);
    text.append(" (");
    text.append(report.gfx_backend);
    text.append(" ");
    text.append(report.gfx_drivers);
    text.append(")\n - RAM: ");
    text.append(report.ram_size);
    text.append("\n - OS: ");
    text.append(report.os_name);
    text.append("\n\nIngame information\n=================================================\nLoaded level: ");
    text.append(report.loaded_level);
    text.append("\n\nAsset manager:\n - loaded data files: ");
    text.append(report.loaded_files);
    text.append("\n\n<end of crash report>\n```");
    text
}

} // verus!
