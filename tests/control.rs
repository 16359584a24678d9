use life_game::control::{
    poll_timeout_ms, tick_due, App, Direction, Input, Mode, Shade, BOARD_HEIGHT, BOARD_WIDTH,
};

fn board_snapshot(app: &App) -> Vec<bool> {
    let b = app.board();
    let (w, h) = b.get_size();
    let mut out = Vec::new();
    for y in 0..h {
        for x in 0..w {
            out.push(b.get_cell(x, y).unwrap().is_alive());
        }
    }
    out
}

#[test]
fn new_app_starts_in_run_mode() {
    let app = App::new();
    assert_eq!(app.mode(), Mode::Run);
    assert_eq!(app.selected_cell(), (0, 0));
    assert_eq!(app.board().get_size(), (BOARD_WIDTH, BOARD_HEIGHT));
    assert_eq!(app.board().get_size(), (30, 30));
    assert!(board_snapshot(&app).iter().all(|a| !a));
}

#[test]
fn mode_change_cycles() {
    let mut app = App::new();
    app.mode_change();
    assert_eq!(app.mode(), Mode::Edit);
    app.mode_change();
    assert_eq!(app.mode(), Mode::Run);
}

#[test]
fn mode_change_keeps_board_and_cursor() {
    let mut app = App::new();
    app.mode_change();
    app.move_cursor(1, 0);
    app.move_cursor(0, 1);
    app.toggle_selected_cell();
    let board = board_snapshot(&app);
    app.mode_change();
    assert_eq!(board_snapshot(&app), board);
    assert_eq!(app.selected_cell(), (1, 1));
}

#[test]
fn move_cursor_ignored_in_run_mode() {
    let mut app = App::new();
    app.move_cursor(1, 1);
    assert_eq!(app.selected_cell(), (0, 0));
}

#[test]
fn move_cursor_stays_pinned_at_edges() {
    let mut app = App::new();
    app.mode_change();
    app.move_cursor(-1, 0);
    assert_eq!(app.selected_cell(), (0, 0));
    app.move_cursor(0, -1);
    assert_eq!(app.selected_cell(), (0, 0));
    for _ in 0..40 {
        app.move_cursor(1, 0);
    }
    assert_eq!(app.selected_cell(), (29, 0));
    for _ in 0..40 {
        app.move_cursor(0, 1);
    }
    assert_eq!(app.selected_cell(), (29, 29));
    // A diagonal move past one edge is refused whole, not slid along it.
    app.move_cursor(-1, 1);
    assert_eq!(app.selected_cell(), (29, 29));
    app.move_cursor(i32::MAX, i32::MIN);
    assert_eq!(app.selected_cell(), (29, 29));
    app.move_cursor(-2, -3);
    assert_eq!(app.selected_cell(), (27, 26));
}

#[test]
fn toggle_selected_cell_flips_under_cursor() {
    let mut app = App::new();
    app.mode_change();
    app.move_cursor(2, 0);
    app.move_cursor(0, 3);
    app.toggle_selected_cell();
    assert!(app.board().get_cell(2, 3).unwrap().is_alive());
    app.toggle_selected_cell();
    assert!(!app.board().get_cell(2, 3).unwrap().is_alive());
}

#[test]
fn on_tick_in_edit_mode_freezes_board() {
    let mut app = App::new();
    app.mode_change();
    app.toggle_selected_cell();
    let board = board_snapshot(&app);
    app.on_tick();
    app.on_tick();
    assert_eq!(board_snapshot(&app), board);
    assert_eq!(app.mode(), Mode::Edit);
}

#[test]
fn on_tick_in_run_mode_steps() {
    let mut app = App::new();
    app.mode_change();
    app.toggle_selected_cell();
    app.mode_change();
    app.on_tick();
    assert!(board_snapshot(&app).iter().all(|a| !a));
}

#[test]
fn handle_input_drives_the_state_machine() {
    let mut app = App::new();
    assert!(app.handle_input(Input::ActivateCell));
    assert!(board_snapshot(&app).iter().all(|a| !a));
    assert!(app.handle_input(Input::MoveCursor(Direction::Right)));
    assert_eq!(app.selected_cell(), (0, 0));
    assert!(app.handle_input(Input::SwitchMode));
    assert_eq!(app.mode(), Mode::Edit);
    assert!(app.handle_input(Input::MoveCursor(Direction::Right)));
    assert!(app.handle_input(Input::MoveCursor(Direction::Down)));
    assert!(app.handle_input(Input::MoveCursor(Direction::Down)));
    assert!(app.handle_input(Input::MoveCursor(Direction::Up)));
    assert!(app.handle_input(Input::MoveCursor(Direction::Left)));
    assert!(app.handle_input(Input::MoveCursor(Direction::Right)));
    assert_eq!(app.selected_cell(), (1, 1));
    assert!(app.handle_input(Input::ActivateCell));
    assert!(app.board().get_cell(1, 1).unwrap().is_alive());
    assert!(!app.handle_input(Input::Quit));
    assert_eq!(app.mode(), Mode::Edit);
    assert_eq!(app.selected_cell(), (1, 1));
}

#[test]
fn shade_at_reports_each_kind() {
    let mut app = App::new();
    app.mode_change();
    app.move_cursor(1, 0);
    app.toggle_selected_cell();
    assert_eq!(app.shade_at(1, 0), Shade::Selected);
    assert_eq!(app.shade_at(0, 0), Shade::Dead);
    assert_eq!(app.shade_at(30, 0), Shade::Absent);
    assert_eq!(app.shade_at(-1, 5), Shade::Absent);
    app.mode_change();
    assert_eq!(app.shade_at(1, 0), Shade::Alive);
    assert_eq!(app.shade_at(0, 0), Shade::Dead);
}

#[test]
fn poll_timeout_is_what_is_left() {
    assert_eq!(poll_timeout_ms(250, 100), 150);
    assert_eq!(poll_timeout_ms(250, 250), 0);
    assert_eq!(poll_timeout_ms(250, 1000), 0);
    assert_eq!(poll_timeout_ms(250, 0), 250);
}

#[test]
fn tick_due_after_an_interval() {
    assert!(!tick_due(250, 249));
    assert!(tick_due(250, 250));
    assert!(tick_due(250, 10_000));
}
