use git_switch_branch::keys::{KeyCode, KeyKind, KeyPress, MOD_CONTROL, MOD_NONE};
use git_switch_branch::menu::{
    clear_menu, redraw_rows, render_menu, Color, Menu, MenuEngine, Phase, TermMode, TermOp,
    TextStyle,
};

fn press(code: KeyCode) -> KeyPress {
    KeyPress { code, modifiers: MOD_NONE, kind: KeyKind::Press }
}

fn three_items() -> Menu {
    Menu::new(vec!["main".to_string(), "dev".to_string(), "feature/x".to_string()], Some(0))
}

fn mode_after(mut m: TermMode, ops: &[TermOp]) -> TermMode {
    for op in ops {
        match op {
            TermOp::EnableRawMode => m.raw = true,
            TermOp::DisableRawMode => m.raw = false,
            TermOp::HideCursor => m.cursor_visible = false,
            TermOp::ShowCursor => m.cursor_visible = true,
            _ => {}
        }
    }
    m
}

fn run(menu: &Menu, keys: &[KeyPress]) -> (MenuEngine, Vec<TermOp>) {
    let (mut engine, mut ops) = MenuEngine::start(menu);
    for k in keys {
        if engine.phase != Phase::Active {
            break;
        }
        ops.extend(engine.step(*k));
    }
    (engine, ops)
}

#[test]
fn default_look() {
    let m = three_items();
    assert_eq!(m.current_label, "(current)");
    assert_eq!(m.current_label_style, TextStyle { foreground: Some(Color::Yellow), underlined: false });
    assert_eq!(m.selected_style, TextStyle { foreground: Some(Color::Green), underlined: true });
    assert_eq!(m.items.len(), 3);
    assert_eq!(m.current, Some(0));
}

#[test]
fn initial_render_marks_first_row() {
    let (engine, ops) = MenuEngine::start(&three_items());
    assert_eq!(engine.phase, Phase::Active);
    assert_eq!(engine.counter.selected, 0);
    assert_eq!(
        ops,
        vec![
            TermOp::Item { index: 0, selected: true },
            TermOp::CurrentLabel,
            TermOp::LineBreak,
            TermOp::Item { index: 1, selected: false },
            TermOp::LineBreak,
            TermOp::Item { index: 2, selected: false },
            TermOp::LineBreak,
            TermOp::EnableRawMode,
            TermOp::HideCursor,
        ]
    );
}

#[test]
fn render_labels_only_the_current_row() {
    let ops = render_menu(3, 2, Some(1));
    assert_eq!(
        ops,
        vec![
            TermOp::Item { index: 0, selected: false },
            TermOp::LineBreak,
            TermOp::Item { index: 1, selected: false },
            TermOp::CurrentLabel,
            TermOp::LineBreak,
            TermOp::Item { index: 2, selected: true },
            TermOp::LineBreak,
        ]
    );
    assert!(!render_menu(2, 0, None).contains(&TermOp::CurrentLabel));
}

#[test]
fn next_next_select_chooses_third() {
    let keys = [press(KeyCode::Down), press(KeyCode::Char('j')), press(KeyCode::Enter)];
    let (engine, _) = run(&three_items(), &keys);
    assert_eq!(engine.phase, Phase::Selected(2));
}

#[test]
fn prev_from_first_wraps_to_last() {
    let keys = [press(KeyCode::Up), press(KeyCode::Char('l'))];
    let (engine, _) = run(&three_items(), &keys);
    assert_eq!(engine.phase, Phase::Selected(2));
}

#[test]
fn exit_cancels_the_run() {
    let ctrl_c = KeyPress { code: KeyCode::Char('c'), modifiers: MOD_CONTROL, kind: KeyKind::Press };
    let keys = [press(KeyCode::Down), ctrl_c, press(KeyCode::Enter)];
    let (engine, ops) = run(&three_items(), &keys);
    assert_eq!(engine.phase, Phase::Cancelled);
    assert_eq!(
        &ops[ops.len() - 4..],
        &[TermOp::MoveUp(3), TermOp::ClearFromCursorDown, TermOp::DisableRawMode, TermOp::ShowCursor]
    );
}

#[test]
fn moving_redraws_two_rows() {
    let (mut engine, _) = MenuEngine::start(&three_items());
    let ops = engine.step(press(KeyCode::Char('s')));
    assert_eq!(engine.counter.selected, 1);
    assert_eq!(ops, redraw_rows(3, 0, 1));
    assert_eq!(
        ops,
        vec![
            TermOp::SavePosition,
            TermOp::MoveUp(3),
            TermOp::Item { index: 0, selected: false },
            TermOp::RestorePosition,
            TermOp::SavePosition,
            TermOp::MoveUp(2),
            TermOp::Item { index: 1, selected: true },
            TermOp::RestorePosition,
        ]
    );
    let ops = engine.step(press(KeyCode::Char('w')));
    assert_eq!(engine.counter.selected, 0);
    assert_eq!(ops, redraw_rows(3, 1, 0));
}

#[test]
fn other_keys_change_nothing() {
    let (mut engine, _) = MenuEngine::start(&three_items());
    let ops = engine.step(press(KeyCode::Char('x')));
    assert!(ops.is_empty());
    assert_eq!(engine.phase, Phase::Active);
    assert_eq!(engine.counter.selected, 0);
}

#[test]
fn clearing_moves_up_and_clears() {
    assert_eq!(clear_menu(5), vec![TermOp::MoveUp(5), TermOp::ClearFromCursorDown]);
}

#[test]
fn terminal_mode_restored_after_select_or_exit() {
    let before = TermMode { raw: false, cursor_visible: true };
    let during = TermMode { raw: true, cursor_visible: false };
    let endings = [press(KeyCode::Enter), press(KeyCode::Char(' ')), press(KeyCode::Char('q')), press(KeyCode::Esc)];
    for end in endings {
        let keys = [press(KeyCode::Down), press(KeyCode::Up), press(KeyCode::Up), end];
        let (engine, ops) = run(&three_items(), &keys[..3]);
        assert_eq!(engine.phase, Phase::Active);
        assert_eq!(mode_after(before, &ops), during);
        let (engine, ops) = run(&three_items(), &keys);
        assert_ne!(engine.phase, Phase::Active);
        assert_eq!(mode_after(before, &ops), before);
    }
}
