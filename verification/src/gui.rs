//! Windowing helpers: the process-wide state they keep, and the pure
//! layout rules they apply. The state that once lived in mutable
//! statics is an explicit context object here; the measurements that
//! only the display system can take (text extents, metrics, themes)
//! come in as plain values, and the rules applied to them are proved.

use vstd::prelude::*;

use crate::co;
use crate::co::WS_EX;
use crate::handles::HFONT;
use crate::structs::{POINT, RECT, SIZE};

verus! {

/// Process-wide state of the windowing helpers: the shared interface
/// font, the next automatic control identifier, and the cached screen
/// resolution.
pub struct GuiGlobals {
    ui_font: Option<HFONT>,
    base_ctrl_id: u16,
    dpi: POINT,
}

impl GuiGlobals {
    /// The shared interface font, if one was created.
    pub closed spec fn ui_font_spec(&self) -> Option<HFONT> {
        self.ui_font
    }

    /// The next automatic control identifier.
    pub closed spec fn base_ctrl_id_spec(&self) -> u16 {
        self.base_ctrl_id
    }

    /// The cached screen resolution.
    pub closed spec fn dpi_spec(&self) -> POINT {
        self.dpi
    }

    /// Fresh state: no font yet, identifiers starting in the range
    /// between the common resource-editor values, no cached resolution.
    pub fn new() -> (g: GuiGlobals)
        ensures
            g.ui_font_spec() is None,
            g.base_ctrl_id_spec() == 20_000,
            g.dpi_spec() == (POINT { x: 0, y: 0 }),
    {
        GuiGlobals { ui_font: None, base_ctrl_id: 20_000, dpi: POINT { x: 0, y: 0 } }
    }

    /// Keeps the freshly created interface font.
    pub fn create_ui_font(&mut self, hfont: HFONT)
        ensures
            final(self).ui_font_spec() == Some(hfont),
            final(self).base_ctrl_id_spec() == old(self).base_ctrl_id_spec(),
            final(self).dpi_spec() == old(self).dpi_spec(),
    {
        self.ui_font = Some(hfont);
    }

    /// Forgets the interface font, after its object was given back.
    pub fn delete_ui_font(&mut self)
        ensures
            final(self).ui_font_spec() is None,
            final(self).base_ctrl_id_spec() == old(self).base_ctrl_id_spec(),
            final(self).dpi_spec() == old(self).dpi_spec(),
    {
        self.ui_font = None;
    }

    /// The interface font. Asking before one was created is a logic
    /// error, kept out by contract rather than detected at run time.
    pub fn ui_font(&self) -> (f: HFONT)
        requires
            self.ui_font_spec() is Some,
        ensures
            Some(f) == self.ui_font_spec(),
    {
        match self.ui_font {
            Some(f) => f,
            None => HFONT(0),
        }
    }

    /// Hands out the next automatic control identifier and moves past it.
    pub fn auto_ctrl_id(&mut self) -> (id: u16)
        requires
            old(self).base_ctrl_id_spec() < u16::MAX,
        ensures
            id == old(self).base_ctrl_id_spec(),
            final(self).base_ctrl_id_spec() == old(self).base_ctrl_id_spec() + 1,
            final(self).ui_font_spec() == old(self).ui_font_spec(),
            final(self).dpi_spec() == old(self).dpi_spec(),
    {
        let new_id = self.base_ctrl_id;
        self.base_ctrl_id = self.base_ctrl_id + 1;
        new_id
    }

    /// Reads the cached screen resolution.
    pub fn dpi(&self) -> (p: POINT)
        ensures
            p == self.dpi_spec(),
    {
        self.dpi
    }

    /// Caches the screen resolution once it was read.
    pub fn cache_dpi(&mut self, dpi: POINT)
        ensures
            final(self).dpi_spec() == dpi,
            final(self).ui_font_spec() == old(self).ui_font_spec(),
            final(self).base_ctrl_id_spec() == old(self).base_ctrl_id_spec(),
    {
        self.dpi = dpi;
    }
}

/// The bound box that fits a text whose measured extent is given: for an
/// empty text only the height is kept (the extent then belongs to a
/// placeholder measured in its place), otherwise the extent as measured.
pub fn calc_text_bound_box(text: &str, measured: SIZE) -> (bounds: SIZE)
    ensures
        text@.len() == 0 ==> bounds == (SIZE { cx: 0, cy: measured.cy }),
        text@.len() != 0 ==> bounds == measured,
{
    let mut bounds = measured;
    if text.is_empty() {
        bounds.cx = 0;
    }
    bounds
}

/// The bound box that fits a text and a check box beside it: the check
/// and edge widths are added, and the height grows to the check's where
/// the check is taller than the font.
pub fn calc_text_bound_box_check(
    text: &str,
    measured: SIZE,
    cx_menu_check: i32,
    cx_edge: i32,
    cy_menu_check: i32,
) -> (bounds: SIZE)
    requires
        0 <= measured.cx,
        0 <= cx_menu_check,
        0 <= cx_edge,
        measured.cx + cx_menu_check + cx_edge <= i32::MAX,
    ensures
        ({
            let base_cx: int = if text@.len() == 0 {
                0
            } else {
                measured.cx as int
            };
            &&& bounds.cx == base_cx + cx_menu_check + cx_edge
            &&& bounds.cy == (if cy_menu_check > measured.cy {
                cy_menu_check as int
            } else {
                measured.cy as int
            })
        }),
{
    let mut bound_box = calc_text_bound_box(text, measured);
    bound_box.cx = bound_box.cx + cx_menu_check + cx_edge;
    if cy_menu_check > bound_box.cy {
        bound_box.cy = cy_menu_check;
    }
    bound_box
}

/// Whether a control's themed border is to be painted: only with the
/// client-edge style, an active theme, and a themed application.
pub fn should_paint_control_borders(ex_style: WS_EX, theme_active: bool, app_themed: bool) -> (b:
    bool)
    ensures
        b == (ex_style.0 & co::WS_EX_CLIENTEDGE == co::WS_EX_CLIENTEDGE && theme_active
            && app_themed),
{
    (ex_style.0 & co::WS_EX_CLIENTEDGE) == co::WS_EX_CLIENTEDGE && theme_active && app_themed
}

/// The window rectangle anchored for border painting: shifted by the
/// two-pixel margin it comes up anchored at.
pub fn border_anchor_rect(rc: RECT) -> (r: RECT)
    requires
        rc.left + 2 <= i32::MAX,
        rc.top + 2 <= i32::MAX,
        rc.right + 2 <= i32::MAX,
        rc.bottom + 2 <= i32::MAX,
    ensures
        r == (RECT {
            left: (rc.left + 2) as i32,
            top: (rc.top + 2) as i32,
            right: (rc.right + 2) as i32,
            bottom: (rc.bottom + 2) as i32,
        }),
{
    RECT { left: rc.left + 2, top: rc.top + 2, right: rc.right + 2, bottom: rc.bottom + 2 }
}

/// The four two-pixel strips that make up a control's border, drawn one
/// by one to avoid flickering: left, top, right, bottom.
pub fn control_border_strips(rc: RECT) -> (strips: Vec<RECT>)
    requires
        rc.left + 2 <= i32::MAX,
        rc.top + 2 <= i32::MAX,
        rc.right - 2 >= i32::MIN,
        rc.bottom - 2 >= i32::MIN,
    ensures
        strips@.len() == 4,
        strips@[0] == (RECT { left: rc.left, top: rc.top, right: (rc.left + 2) as i32, bottom: rc.bottom }),
        strips@[1] == (RECT { left: rc.left, top: rc.top, right: rc.right, bottom: (rc.top + 2) as i32 }),
        strips@[2] == (RECT { left: (rc.right - 2) as i32, top: rc.top, right: rc.right, bottom: rc.bottom }),
        strips@[3] == (RECT { left: rc.left, top: (rc.bottom - 2) as i32, right: rc.right, bottom: rc.bottom }),
{
    let mut strips: Vec<RECT> = Vec::new();
    strips.push(RECT { left: rc.left, top: rc.top, right: rc.left + 2, bottom: rc.bottom });
    strips.push(RECT { left: rc.left, top: rc.top, right: rc.right, bottom: rc.top + 2 });
    strips.push(RECT { left: rc.right - 2, top: rc.top, right: rc.right, bottom: rc.bottom });
    strips.push(RECT { left: rc.left, top: rc.bottom - 2, right: rc.right, bottom: rc.bottom });
    strips
}

} // verus!
