use ligth_engine::error::{Context, ErrResult, Error};
use ligth_engine::input::{Keyboard, WindowEvent};
use ligth_engine::surface::{
    accepts_resize, after_render, choose_surface_format, FrameAction, PhysicalSize, SurfaceError,
};
use ligth_engine::wgpu_components::{Disable, SparseVec};

#[derive(Debug, PartialEq, Clone, Copy)]
struct Item {
    value: u32,
    on: bool,
}

impl Disable for Item {
    fn disable(&mut self) {
        self.on = false;
    }
}

fn item(value: u32) -> Item {
    Item { value, on: true }
}

#[test]
fn context_appends_to_the_message_chain() {
    let failed: ErrResult<u32> = Err(Error::new("cause"));
    let chained = failed.context("first").context("second");
    match chained {
        Ok(_) => panic!("a failure became a success"),
        Err(error) => assert_eq!(error.message(), "cause => first => second"),
    }
}

#[test]
fn context_leaves_a_success_alone() {
    let fine: ErrResult<u32> = Ok(5);
    match fine.context("ignored") {
        Ok(value) => assert_eq!(value, 5),
        Err(_) => panic!("a success became a failure"),
    }
}

#[test]
fn context_with_empty_info_still_separates() {
    let failed: ErrResult<()> = Err(Error::new(""));
    match failed.context("") {
        Ok(_) => panic!("a failure became a success"),
        Err(error) => assert_eq!(error.message(), " => "),
    }
}

#[test]
fn keyboard_collects_typed_characters() {
    let mut keyboard = Keyboard::new();
    assert_eq!(keyboard.propagate_events(), None);
    assert!(keyboard.handle_event(&WindowEvent::ReceivedCharacter('h')));
    assert!(keyboard.handle_event(&WindowEvent::ReceivedCharacter('é')));
    assert!(keyboard.handle_event(&WindowEvent::ReceivedCharacter('!')));
    assert_eq!(keyboard.propagate_events(), Some("hé!"));
}

#[test]
fn keyboard_uses_but_drops_control_characters() {
    let mut keyboard = Keyboard::new();
    for c in ['\u{0}', '\u{8}', '\n', '\r', '\u{1b}', '\u{1f}', '\u{7f}'] {
        assert!(keyboard.handle_event(&WindowEvent::ReceivedCharacter(c)));
    }
    assert_eq!(keyboard.propagate_events(), None);
    assert!(keyboard.handle_event(&WindowEvent::ReceivedCharacter(' ')));
    assert!(keyboard.handle_event(&WindowEvent::ReceivedCharacter('\u{80}')));
    assert_eq!(keyboard.propagate_events(), Some(" \u{80}"));
}

#[test]
fn keyboard_ignores_other_events() {
    let mut keyboard = Keyboard::new();
    keyboard.handle_event(&WindowEvent::ReceivedCharacter('a'));
    assert!(!keyboard.handle_event(&WindowEvent::Other));
    assert_eq!(keyboard.propagate_events(), Some("a"));
}

#[test]
fn keyboard_update_forgets_the_frame() {
    let mut keyboard = Keyboard::new();
    keyboard.handle_event(&WindowEvent::ReceivedCharacter('a'));
    keyboard.update();
    assert_eq!(keyboard.propagate_events(), None);
    keyboard.handle_event(&WindowEvent::ReceivedCharacter('b'));
    assert_eq!(keyboard.propagate_events(), Some("b"));
}

#[test]
fn sparse_vec_appends_while_no_slot_is_free() {
    let mut sparse = SparseVec::new();
    assert_eq!(sparse.push(item(1)), 0);
    assert_eq!(sparse.push(item(2)), 1);
    assert_eq!(sparse.push(item(3)), 2);
    assert_eq!(sparse.len(), 3);
    assert_eq!(*sparse.get(1), item(2));
}

#[test]
fn sparse_vec_disables_on_remove_and_keeps_the_slot() {
    let mut sparse = SparseVec::new();
    sparse.push(item(1));
    sparse.push(item(2));
    sparse.remove(0);
    assert_eq!(sparse.len(), 2);
    assert_eq!(*sparse.get(0), Item { value: 1, on: false });
    assert_eq!(*sparse.get(1), item(2));
}

#[test]
fn sparse_vec_fills_the_smallest_free_slot_first() {
    let mut sparse = SparseVec::new();
    for n in 0..6 {
        sparse.push(item(n));
    }
    sparse.remove(4);
    sparse.remove(1);
    sparse.remove(3);
    assert_eq!(sparse.push(item(10)), 1);
    assert_eq!(sparse.push(item(11)), 3);
    assert_eq!(sparse.push(item(12)), 4);
    assert_eq!(sparse.push(item(13)), 6);
    assert_eq!(sparse.len(), 7);
    assert_eq!(*sparse.get(1), item(10));
    assert_eq!(*sparse.get(3), item(11));
    assert_eq!(*sparse.get(4), item(12));
}

#[test]
fn sparse_vec_hands_a_slot_out_as_often_as_it_was_given_up() {
    let mut sparse = SparseVec::new();
    sparse.push(item(0));
    sparse.push(item(1));
    sparse.remove(1);
    sparse.remove(1);
    assert_eq!(sparse.push(item(5)), 1);
    assert_eq!(sparse.push(item(6)), 1);
    assert_eq!(sparse.push(item(7)), 2);
    assert_eq!(*sparse.get(1), item(6));
}

#[test]
fn lost_surface_is_configured_anew() {
    assert_eq!(after_render(Err(SurfaceError::Lost)), FrameAction::Reconfigure);
}

#[test]
fn out_of_memory_ends_the_program() {
    assert_eq!(after_render(Err(SurfaceError::OutOfMemory)), FrameAction::Exit);
}

#[test]
fn timeout_and_outdated_cost_one_frame() {
    assert_eq!(after_render(Err(SurfaceError::Timeout)), FrameAction::Skip);
    assert_eq!(after_render(Err(SurfaceError::Outdated)), FrameAction::Skip);
    assert_eq!(after_render(Ok(())), FrameAction::Continue);
}

#[test]
fn resize_needs_pixels_and_a_change() {
    let current = PhysicalSize { width: 800, height: 600 };
    assert!(accepts_resize(current, PhysicalSize { width: 1920, height: 1080 }));
    assert!(accepts_resize(current, PhysicalSize { width: 800, height: 601 }));
    assert!(accepts_resize(current, PhysicalSize { width: 801, height: 600 }));
    assert!(!accepts_resize(current, current));
    assert!(!accepts_resize(current, PhysicalSize { width: 0, height: 1080 }));
    assert!(!accepts_resize(current, PhysicalSize { width: 1920, height: 0 }));
    assert!(!accepts_resize(current, PhysicalSize { width: 0, height: 0 }));
}

#[test]
fn surface_format_is_the_first_that_is_not_srgb() {
    assert_eq!(choose_surface_format(&vec![true, false, true, false]), Some(1));
    assert_eq!(choose_surface_format(&vec![false]), Some(0));
    assert_eq!(choose_surface_format(&vec![true, true, false]), Some(2));
}

#[test]
fn surface_without_a_linear_format_has_none() {
    assert_eq!(choose_surface_format(&vec![true, true]), None);
    assert_eq!(choose_surface_format(&vec![]), None);
}
