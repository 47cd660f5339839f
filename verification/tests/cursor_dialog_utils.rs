use seraph::generic::cursor::MouseCursor;
use seraph::windows::cursor::{
    cursor_resource, cursor_visibility_settled, handle_is_invalid, CursorFile, CursorResource,
    SystemCursor, WindowsCursor,
};
use seraph::windows::dialog::{MessageBoxResult, UnexpectedMessageBoxResult};
use seraph::windows::utils::{encode_wide, window_long_ptr_result, ToWide};
use seraph::windows::window_registry::WindowRegistry;

#[test]
fn cursor_resources() {
    assert_eq!(cursor_resource(MouseCursor::NoCursor), CursorResource::NoHandle);
    assert_eq!(cursor_resource(MouseCursor::Custom), CursorResource::NoHandle);
    assert_eq!(cursor_resource(MouseCursor::Default), CursorResource::System(SystemCursor::Arrow));
    assert_eq!(cursor_resource(MouseCursor::SlashedCircle), CursorResource::System(SystemCursor::No));
    assert_eq!(
        cursor_resource(MouseCursor::GrabHand),
        CursorResource::File { file: CursorFile::GrabHand, fallback: Some(SystemCursor::Hand) }
    );
    assert_eq!(
        cursor_resource(MouseCursor::EyeDropper),
        CursorResource::File { file: CursorFile::EyeDropper, fallback: None }
    );
}

#[test]
fn invalid_handles_and_visibility() {
    assert!(handle_is_invalid(0));
    assert!(handle_is_invalid(-1));
    assert!(!handle_is_invalid(65553));
    assert!(cursor_visibility_settled(true, 0));
    assert!(!cursor_visibility_settled(true, -1));
    assert!(cursor_visibility_settled(false, -1));
    assert!(!cursor_visibility_settled(false, 0));
}

#[test]
fn cursor_types_and_overrides() {
    let mut handles = [0isize; 15];
    for (i, h) in handles.iter_mut().enumerate() {
        *h = 100 + i as isize;
    }
    let mut c = WindowsCursor::new(handles);
    assert_eq!(c.get_type(), MouseCursor::Default);
    assert_eq!(c.get_size(), (16, 16));
    assert_eq!(c.set_type(MouseCursor::Hand), 109);
    assert_eq!(c.get_type(), MouseCursor::Hand);
    assert_eq!(c.set_type_shape(MouseCursor::TextEditBeam, 555), None);
    assert_eq!(c.set_type(MouseCursor::TextEditBeam), 555);
    assert_eq!(c.set_type_shape(MouseCursor::TextEditBeam, 777), Some(777));
    assert_eq!(c.set_type_shape(MouseCursor::TextEditBeam, 0), Some(102));
    c.set_custom_shape(999);
    assert_eq!(c.cursor_handles[14], 999);
    assert_eq!(c.set_type(MouseCursor::Custom), 999);
}

#[test]
fn message_box_results() {
    assert_eq!(MessageBoxResult::try_from_code(1), Ok(MessageBoxResult::OkButton));
    assert_eq!(MessageBoxResult::try_from_code(6), Ok(MessageBoxResult::Yes));
    assert_eq!(MessageBoxResult::try_from_code(11), Ok(MessageBoxResult::Continue));
    assert_eq!(MessageBoxResult::try_from_code(8), Err(UnexpectedMessageBoxResult { code: 8 }));
    assert_eq!(MessageBoxResult::try_from_code(0), Err(UnexpectedMessageBoxResult { code: 0 }));
    for r in [
        MessageBoxResult::OkButton,
        MessageBoxResult::Cancel,
        MessageBoxResult::Abort,
        MessageBoxResult::Retry,
        MessageBoxResult::Ignore,
        MessageBoxResult::Yes,
        MessageBoxResult::No,
        MessageBoxResult::TryAgain,
        MessageBoxResult::Continue,
    ] {
        assert_eq!(MessageBoxResult::try_from_code(r.code()), Ok(r));
    }
}

#[test]
fn wide_strings() {
    let expected: Vec<u16> = "Error!".encode_utf16().collect();
    assert_eq!("Error!".to_wide(), expected);
    let mut with_null = expected.clone();
    with_null.push(0);
    assert_eq!("Error!".to_wide_null(), with_null);
    assert_eq!(String::from("Error!").to_wide_null(), with_null);
    let text = "caf\u{e9} \u{1F600}";
    let units: Vec<u16> = text.encode_utf16().collect();
    assert_eq!(encode_wide(text), units);
    assert_eq!(encode_wide("\u{1F600}"), vec![0xd83d, 0xde00]);
    assert_eq!("".to_wide_null(), vec![0]);
}

#[test]
fn window_long_results() {
    assert_eq!(window_long_ptr_result(42, 5), Ok(42));
    assert_eq!(window_long_ptr_result(0, 0), Ok(0));
    assert_eq!(window_long_ptr_result(0, 1400), Err(1400));
}

#[test]
fn registry_of_windows() {
    let mut reg: WindowRegistry<&'static str> = WindowRegistry::new();
    assert_eq!(reg.len(), 0);
    assert_eq!(reg.find_window_by_hwnd(0), None);
    reg.push(1, 0, "first");
    reg.push(2, 0, "second");
    reg.push(3, 0, "third");
    assert_eq!(reg.find_window_by_hwnd(0), Some(0));
    reg.set_hwnd(2, 77);
    assert_eq!(reg.find_window_by_hwnd(77), Some(1));
    assert_eq!(*reg.get(1), "second");
    assert_eq!(reg.id_at(1), 2);
    reg.remove_window(1);
    assert_eq!(reg.len(), 2);
    assert_eq!(*reg.get(0), "second");
    assert_eq!(reg.find_window_by_hwnd(0), Some(1));
    reg.remove_window(9);
    assert_eq!(reg.len(), 2);
    reg.push(2, 77, "again");
    reg.remove_window(2);
    assert_eq!(reg.len(), 1);
    assert_eq!(*reg.get(0), "third");
    assert_eq!(reg.find_window_by_hwnd(77), None);
}

#[test]
fn added_window_is_found_by_its_handle() {
    let mut reg: WindowRegistry<u32> = WindowRegistry::new();
    reg.push(1, 10, 100);
    reg.push(2, 20, 200);
    reg.push(3, 30, 300);
    assert_eq!(reg.find_window_by_hwnd(30), Some(2));
    assert_eq!(*reg.get(2), 300);
    assert_eq!(reg.find_window_by_hwnd(40), None);
}
