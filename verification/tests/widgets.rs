use console_ui::button::{Button, Interaction, MaskTint};
use console_ui::console::{apply_command, toggle_chord, Console, SlideDirection, SlideFrame};
use console_ui::input_text::{
    focus_on_visibility_change, BackspaceRepeat, CaretBlink, FocusChange, InputText,
};
use console_ui::item_list::{max_visible_items, ItemList, RowOp};
use console_ui::timer::Timer;

#[test]
fn repeating_timer_wraps_and_reports_the_crossing_tick() {
    let mut t = Timer::from_millis(500, true);
    t.tick(200);
    assert!(!t.just_finished);
    assert!(!t.finished());
    assert_eq!(t.elapsed_ms, 200);
    t.tick(400);
    assert!(t.just_finished);
    assert!(t.finished());
    assert_eq!(t.elapsed_ms, 100);
    t.tick(100);
    assert!(!t.just_finished);
    assert_eq!(t.elapsed_ms, 200);
}

#[test]
fn one_shot_timer_caps_at_duration_and_stays_finished() {
    let mut t = Timer::from_millis(100, false);
    t.tick(40);
    assert!(!t.finished());
    t.tick(200);
    assert!(t.just_finished());
    assert!(t.finished());
    assert_eq!(t.elapsed_ms, 100);
    t.tick(10);
    assert!(!t.just_finished());
    assert!(t.finished());
}

#[test]
fn default_timer_finishes_on_its_first_tick() {
    let mut t = Timer::default();
    t.tick(0);
    assert!(t.finished());
}

#[test]
fn typed_characters_reach_only_a_focused_input() {
    let mut input = InputText::new();
    input.feed_char(true, 'h');
    input.feed_char(true, 'i');
    input.feed_char(false, 'x');
    assert_eq!(input.text(), "hi");
}

#[test]
fn backspace_removes_the_last_character() {
    let mut input = InputText::new();
    input.feed_char(true, 'a');
    input.feed_char(true, 'b');
    input.backspace();
    assert_eq!(input.text(), "a");
}

#[test]
fn backspace_on_an_empty_buffer_does_nothing() {
    let mut input = InputText::new();
    input.backspace();
    assert_eq!(input.text(), "");
}

#[test]
fn take_hands_back_the_buffer_and_clears_it() {
    let mut input = InputText::new();
    input.feed_char(true, 'o');
    input.feed_char(true, 'k');
    let taken = input.take();
    assert_eq!(taken, "ok");
    assert_eq!(input.text(), "");
}

#[test]
fn caret_toggles_every_half_second_while_focused() {
    let mut caret = CaretBlink::new();
    assert!(!caret.visible);
    assert!(!caret.tick(true, 499));
    assert!(!caret.visible);
    assert!(caret.tick(true, 1));
    assert!(caret.visible);
    assert!(caret.shown);
    assert!(caret.tick(true, 500));
    assert!(!caret.visible);
    assert!(!caret.shown);
}

#[test]
fn caret_freezes_while_unfocused() {
    let mut caret = CaretBlink::new();
    assert!(!caret.tick(false, 10_000));
    assert!(!caret.visible);
    assert_eq!(caret.timer.elapsed_ms, 0);
}

#[test]
fn shown_caret_is_hidden_on_losing_focus() {
    let mut caret = CaretBlink::new();
    caret.tick(true, 500);
    assert!(caret.visible && caret.shown);
    // while the widget keeps focus the caret stays as the blink left it
    assert!(!caret.hide_on_focus_change(true));
    assert!(caret.shown);
    // focus moves away: the caret node is hidden
    assert!(caret.hide_on_focus_change(false));
    assert!(!caret.shown);
    // the blink phase keeps running: the next flip lands on the hidden phase
    assert!(caret.visible);
    assert!(!caret.hide_on_focus_change(false));
    assert!(caret.tick(true, 500));
    assert!(!caret.visible && !caret.shown);
}

#[test]
fn fresh_backspace_press_erases_at_once() {
    let mut repeat = BackspaceRepeat::new();
    assert!(repeat.poll(true, false, true, 16));
}

#[test]
fn held_backspace_erases_every_hundred_milliseconds() {
    let mut repeat = BackspaceRepeat::new();
    // the zero-duration starting timer lets the first held frame through,
    // then rearms the hundred-millisecond delay
    assert!(repeat.poll(true, true, true, 16));
    assert_eq!(repeat.timer.duration_ms, 100);
    assert!(!repeat.poll(true, true, false, 50));
    assert!(repeat.poll(true, true, false, 50));
    assert!(!repeat.poll(true, true, false, 99));
    assert!(repeat.poll(true, true, false, 1));
}

#[test]
fn unfocused_widget_sees_no_backspace() {
    let mut repeat = BackspaceRepeat::new();
    assert!(!repeat.poll(false, true, true, 16));
    assert_eq!(repeat.timer.elapsed_ms, 0);
}

#[test]
fn focus_follows_visibility() {
    assert_eq!(focus_on_visibility_change(true, false), FocusChange::Revoke);
    assert_eq!(focus_on_visibility_change(false, true), FocusChange::Grant);
    assert_eq!(focus_on_visibility_change(true, true), FocusChange::Keep);
    assert_eq!(focus_on_visibility_change(false, false), FocusChange::Keep);
}

#[test]
fn toggle_needs_control_and_a_fresh_console_key() {
    assert!(toggle_chord(true, false, true));
    assert!(toggle_chord(false, true, true));
    assert!(!toggle_chord(true, true, false));
    assert!(!toggle_chord(false, false, true));
}

#[test]
fn console_starts_hidden_and_at_rest() {
    let console = Console::new();
    assert_eq!(console.top_millipct, -80_000);
    assert_eq!(console.direction, SlideDirection::Idle);
    assert!(!console.open);
}

#[test]
fn toggle_starts_a_slide_and_is_ignored_mid_slide() {
    let mut console = Console::new();
    console.toggle();
    assert_eq!(console.direction, SlideDirection::Opening);
    console.toggle();
    assert_eq!(console.direction, SlideDirection::Opening);
}

#[test]
fn console_at_rest_animates_nothing() {
    let mut console = Console::new();
    assert_eq!(console.animate(16), None);
    assert_eq!(console.top_millipct, -80_000);
}

#[test]
fn opening_console_slides_clamps_and_requests_focus() {
    let mut console = Console::new();
    console.toggle();
    // 100 ms at 250 milli-percent per ms moves a quarter of the panel
    let fx = console.animate(100);
    assert_eq!(console.top_millipct, -55_000);
    assert_eq!(
        fx,
        Some(SlideFrame { request_focus: false, node_visible: true })
    );
    let fx = console.animate(300);
    assert_eq!(console.top_millipct, 0);
    assert_eq!(console.direction, SlideDirection::Idle);
    assert!(console.open);
    assert_eq!(
        fx,
        Some(SlideFrame { request_focus: true, node_visible: true })
    );
}

#[test]
fn closing_console_slides_out_and_hides_its_node() {
    let mut console = Console::new();
    console.toggle();
    console.animate(400);
    assert!(console.open);
    console.toggle();
    assert_eq!(console.direction, SlideDirection::Closing);
    let fx = console.animate(100);
    assert_eq!(console.top_millipct, -25_000);
    assert_eq!(
        fx,
        Some(SlideFrame { request_focus: false, node_visible: true })
    );
    let fx = console.animate(300);
    assert_eq!(console.top_millipct, -80_000);
    assert_eq!(console.direction, SlideDirection::Idle);
    assert!(!console.open);
    assert_eq!(
        fx,
        Some(SlideFrame { request_focus: false, node_visible: false })
    );
}

#[test]
fn submitting_appends_to_the_log_and_clears_the_buffer() {
    let mut input = InputText::new();
    let mut log = ItemList::new();
    for c in "spawn 3".chars() {
        input.feed_char(true, c);
    }
    apply_command(&mut input, &mut log);
    assert_eq!(log.items, vec!["spawn 3".to_string()]);
    assert_eq!(input.text(), "");
    for c in "clear".chars() {
        input.feed_char(true, c);
    }
    apply_command(&mut input, &mut log);
    assert_eq!(log.items, vec!["spawn 3".to_string(), "clear".to_string()]);
    assert_eq!(input.text(), "");
}

#[test]
fn whole_rows_fit_the_container_height() {
    assert_eq!(max_visible_items(205), 10);
    assert_eq!(max_visible_items(200), 10);
    assert_eq!(max_visible_items(19), 0);
    assert_eq!(max_visible_items(0), 0);
}

#[test]
fn sync_plan_shows_newest_items_first() {
    let mut log = ItemList::new();
    log.push("one".to_string());
    log.push("two".to_string());
    log.push("three".to_string());
    let plan = log.sync_plan(10, 0);
    assert_eq!(plan.len(), 3);
    match &plan[0] {
        RowOp::Spawn { text } => assert_eq!(text, "three"),
        _ => panic!("row 0 should spawn"),
    }
    match &plan[2] {
        RowOp::Spawn { text } => assert_eq!(text, "one"),
        _ => panic!("row 2 should spawn"),
    }
}

#[test]
fn sync_plan_reuses_existing_rows_before_spawning() {
    let mut log = ItemList::new();
    log.push("a".to_string());
    log.push("b".to_string());
    log.push("c".to_string());
    let plan = log.sync_plan(10, 2);
    assert_eq!(plan.len(), 3);
    match &plan[0] {
        RowOp::Reuse { child, text } => {
            assert_eq!(*child, 0);
            assert_eq!(text, "c");
        }
        _ => panic!("row 0 should reuse child 0"),
    }
    match &plan[1] {
        RowOp::Reuse { child, text } => {
            assert_eq!(*child, 1);
            assert_eq!(text, "b");
        }
        _ => panic!("row 1 should reuse child 1"),
    }
    match &plan[2] {
        RowOp::Spawn { text } => assert_eq!(text, "a"),
        _ => panic!("row 2 should spawn"),
    }
}

#[test]
fn sync_plan_stops_at_the_visible_window() {
    let mut log = ItemList::new();
    for i in 0..5 {
        log.push(format!("cmd {i}"));
    }
    let plan = log.sync_plan(2, 0);
    assert_eq!(plan.len(), 2);
    match &plan[0] {
        RowOp::Spawn { text } => assert_eq!(text, "cmd 4"),
        _ => panic!("row 0 should spawn"),
    }
    match &plan[1] {
        RowOp::Spawn { text } => assert_eq!(text, "cmd 3"),
        _ => panic!("row 1 should spawn"),
    }
}

#[test]
fn surplus_rows_past_the_visible_items_are_despawned() {
    let mut log = ItemList::new();
    log.push("only".to_string());
    // one item on display: rows 1..4 are surplus, row 0 still shows it
    let stale = log.stale_children(10, 4);
    assert_eq!(stale, vec![1, 2, 3]);
    log.push("more".to_string());
    let stale = log.stale_children(10, 4);
    assert_eq!(stale, vec![2, 3]);
    let stale = log.stale_children(10, 0);
    assert_eq!(stale, Vec::<usize>::new());
}

#[test]
fn rows_past_the_visible_window_are_despawned() {
    let mut log = ItemList::new();
    for i in 0..5 {
        log.push(format!("cmd {i}"));
    }
    // only two rows fit: every row past them is surplus, log length or not
    let stale = log.stale_children(2, 4);
    assert_eq!(stale, vec![2, 3]);
}

#[test]
fn an_empty_log_keeps_no_rows() {
    let log = ItemList::new();
    let stale = log.stale_children(10, 2);
    assert_eq!(stale, vec![0, 1]);
}

#[test]
fn mask_tint_follows_the_interaction() {
    assert_eq!(Button::mask_tint(Interaction::Clicked), MaskTint::Clicked);
    assert_eq!(Button::mask_tint(Interaction::Hovered), MaskTint::Hovered);
    assert_eq!(Button::mask_tint(Interaction::Idle), MaskTint::Normal);
}
