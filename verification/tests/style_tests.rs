use webview_host::style::{
    fullscreen_ex_style, fullscreen_style, initial_style, FRAME_BITS, FULLSCREEN_STRIPPED,
    FULLSCREEN_STRIPPED_EX, WS_CAPTION, WS_EX_CLIENTEDGE, WS_EX_DLGMODALFRAME, WS_EX_STATICEDGE,
    WS_EX_WINDOWEDGE, WS_MAXIMIZEBOX, WS_MINIMIZEBOX, WS_OVERLAPPEDWINDOW, WS_SIZEBOX, WS_SYSMENU,
    WS_THICKFRAME,
};

#[test]
fn bit_groups_are_what_their_parts_add_up_to() {
    assert_eq!(
        WS_OVERLAPPEDWINDOW,
        WS_CAPTION | WS_SYSMENU | WS_THICKFRAME | WS_MINIMIZEBOX | WS_MAXIMIZEBOX
    );
    assert_eq!(FRAME_BITS, WS_SYSMENU | WS_CAPTION | WS_MINIMIZEBOX | WS_MAXIMIZEBOX);
    assert_eq!(FULLSCREEN_STRIPPED, WS_CAPTION | WS_THICKFRAME);
    assert_eq!(
        FULLSCREEN_STRIPPED_EX,
        WS_EX_DLGMODALFRAME | WS_EX_WINDOWEDGE | WS_EX_CLIENTEDGE | WS_EX_STATICEDGE
    );
    assert_eq!(WS_SIZEBOX, WS_THICKFRAME);
}

#[test]
fn initial_style_of_each_kind_of_window() {
    assert_eq!(initial_style(true, false), 0x00CF_0000);
    assert_eq!(initial_style(false, false), 0x00CB_0000);
    assert_eq!(initial_style(true, true), 0x0004_0000);
    assert_eq!(initial_style(false, true), 0);
}

#[test]
fn a_window_that_is_not_resizable_has_no_sizing_border() {
    assert_eq!(initial_style(false, false) & WS_SIZEBOX, 0);
    assert_eq!(initial_style(false, true) & WS_SIZEBOX, 0);
    assert_eq!(initial_style(true, false) & WS_SIZEBOX, WS_SIZEBOX);
    assert_eq!(initial_style(true, true) & WS_SIZEBOX, WS_SIZEBOX);
}

#[test]
fn fullscreen_strips_caption_and_borders_only() {
    assert_eq!(fullscreen_style(0x00CF_0000), 0x000B_0000);
    assert_eq!(fullscreen_style(0x14CF_0000), 0x140B_0000);
    assert_eq!(fullscreen_style(0xFFFF_FFFF), 0xFF3B_FFFF);
    assert_eq!(fullscreen_style(0), 0);
    assert_eq!(fullscreen_ex_style(0x0002_0301), 0);
    assert_eq!(fullscreen_ex_style(0x0004_0100), 0x0004_0000);
    assert_eq!(fullscreen_ex_style(0xFFFF_FFFF), 0xFFFD_FCFE);
}
