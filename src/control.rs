use crate::game::{in_grid, next_generation, with_toggled, Board};
use vstd::prelude::*;

verus! {

/// Columns of the board that the application plays on.
pub const BOARD_WIDTH: i32 = 30;

/// Rows of the board that the application plays on.
pub const BOARD_HEIGHT: i32 = 30;

/// The interaction mode: the timer drives generations in `Run`; the board is
/// frozen and edited under the cursor in `Edit`.
#[derive(Clone, Copy, Debug, PartialEq, Eq, Structural)]
pub enum Mode {
    Run,
    Edit,
}

/// A direction in which the cursor can be moved.
#[derive(Clone, Copy, Debug, PartialEq, Eq, Structural)]
pub enum Direction {
    Up,
    Down,
    Left,
    Right,
}

/// A discrete input event delivered by the terminal front end.
#[derive(Clone, Copy, Debug, PartialEq, Eq, Structural)]
pub enum Input {
    Quit,
    SwitchMode,
    MoveCursor(Direction),
    ActivateCell,
}

/// What a square of the board looks like on screen.
#[derive(Clone, Copy, Debug, PartialEq, Eq, Structural)]
pub enum Shade {
    /// No cell at these coordinates.
    Absent,
    Alive,
    Dead,
    /// The cell under the cursor while editing.
    Selected,
}

/// The mode that follows `m` when the mode is switched.
pub open spec fn next_mode(m: Mode) -> Mode {
    match m {
        Mode::Run => Mode::Edit,
        Mode::Edit => Mode::Run,
    }
}

/// The step (dx, dy) that a move in direction `d` makes; y grows downwards.
pub open spec fn delta_of(d: Direction) -> (int, int) {
    match d {
        Direction::Up => (0, -1),
        Direction::Down => (0, 1),
        Direction::Left => (-1, 0),
        Direction::Right => (1, 0),
    }
}

/// The application state: a board, the current mode and the cursor.
pub struct App {
    board: Board,
    mode: Mode,
    selected_cell: (i32, i32),
}

impl App {
    /// The board, in specifications.
    pub closed spec fn board_state(&self) -> Board {
        self.board
    }

    /// The current mode, in specifications.
    pub closed spec fn mode_state(&self) -> Mode {
        self.mode
    }

    /// The cursor position, in specifications.
    pub closed spec fn cursor(&self) -> (int, int) {
        (self.selected_cell.0 as int, self.selected_cell.1 as int)
    }

    /// The board is well formed and the cursor is on it.
    pub open spec fn wf(&self) -> bool {
        &&& self.board_state().wf()
        &&& in_grid(
            self.board_state().cols(),
            self.board_state().rows(),
            self.cursor().0,
            self.cursor().1,
        )
    }

    /// The cursor after a move by (dx, dy): moved where the target is on the
    /// board and the mode is `Edit`, else where it was.
    pub open spec fn cursor_after_move(&self, dx: int, dy: int) -> (int, int) {
        let target = (self.cursor().0 + dx, self.cursor().1 + dy);
        if self.mode_state() == Mode::Edit && in_grid(
            self.board_state().cols(),
            self.board_state().rows(),
            target.0,
            target.1,
        ) {
            target
        } else {
            self.cursor()
        }
    }

    /// A fresh application: a dead board of the fixed size, `Run` mode, the
    /// cursor in the top-left corner.
    pub fn new() -> (r: App)
        ensures
            r.wf(),
            r.mode_state() == Mode::Run,
            r.cursor() == (0int, 0int),
            r.board_state().cols() == BOARD_WIDTH,
            r.board_state().rows() == BOARD_HEIGHT,
            r.board_state()@ == Seq::new((BOARD_WIDTH * BOARD_HEIGHT) as nat, |i: int| false),
    {
        App { board: Board::new(BOARD_WIDTH, BOARD_HEIGHT), mode: Mode::Run, selected_cell: (0, 0) }
    }

    /// The board, for reading.
    pub fn board(&self) -> (r: &Board)
        ensures
            *r == self.board_state(),
    {
        &self.board
    }

    /// The current mode.
    pub fn mode(&self) -> (r: Mode)
        ensures
            r == self.mode_state(),
    {
        self.mode
    }

    /// The cursor position.
    pub fn selected_cell(&self) -> (r: (i32, i32))
        ensures
            (r.0 as int, r.1 as int) == self.cursor(),
    {
        self.selected_cell
    }

    /// One timer interval has passed: in `Run` mode the board advances one
    /// generation; in `Edit` mode nothing changes.
    pub fn on_tick(&mut self)
        requires
            old(self).wf(),
        ensures
            final(self).wf(),
            final(self).mode_state() == old(self).mode_state(),
            final(self).cursor() == old(self).cursor(),
            old(self).mode_state() == Mode::Edit ==> final(self).board_state() == old(self).board_state(),
            old(self).mode_state() == Mode::Run ==> {
                &&& final(self).board_state().cols() == old(self).board_state().cols()
                &&& final(self).board_state().rows() == old(self).board_state().rows()
                &&& final(self).board_state()@ == next_generation(
                    old(self).board_state().cols(),
                    old(self).board_state().rows(),
                    old(self).board_state()@,
                )
            },
    {
        if self.mode == Mode::Run {
            self.board.step();
        }
    }

    /// Switches `Run` to `Edit` and `Edit` to `Run`; board and cursor stay.
    pub fn mode_change(&mut self)
        requires
            old(self).wf(),
        ensures
            final(self).wf(),
            final(self).mode_state() == next_mode(old(self).mode_state()),
            final(self).board_state() == old(self).board_state(),
            final(self).cursor() == old(self).cursor(),
    {
        self.mode = match self.mode {
            Mode::Run => Mode::Edit,
            Mode::Edit => Mode::Run,
        };
    }

    /// In `Edit` mode, moves the cursor by (dx, dy) when the target is on the
    /// board; a move past an edge leaves the cursor where it is.
    pub fn move_cursor(&mut self, dx: i32, dy: i32)
        requires
            old(self).wf(),
        ensures
            final(self).wf(),
            final(self).cursor() == old(self).cursor_after_move(dx as int, dy as int),
            final(self).mode_state() == old(self).mode_state(),
            final(self).board_state() == old(self).board_state(),
    {
        if self.mode == Mode::Edit {
            let nx: i64 = self.selected_cell.0 as i64 + dx as i64;
            let ny: i64 = self.selected_cell.1 as i64 + dy as i64;
            let (w, h) = self.board.get_size();
            if 0 <= nx && nx < w as i64 && 0 <= ny && ny < h as i64 {
                self.selected_cell = (nx as i32, ny as i32);
            }
        }
    }

    /// Flips the cell under the cursor.
    pub fn toggle_selected_cell(&mut self)
        requires
            old(self).wf(),
        ensures
            final(self).wf(),
            final(self).mode_state() == old(self).mode_state(),
            final(self).cursor() == old(self).cursor(),
            final(self).board_state().cols() == old(self).board_state().cols(),
            final(self).board_state().rows() == old(self).board_state().rows(),
            final(self).board_state()@ == with_toggled(
                old(self).board_state().cols(),
                old(self).board_state().rows(),
                old(self).board_state()@,
                old(self).cursor().0,
                old(self).cursor().1,
            ),
    {
        self.board.toggle_cell(self.selected_cell.0, self.selected_cell.1);
    }

    /// Applies one input event and says whether the loop goes on: `Quit`
    /// stops it and changes nothing; `SwitchMode` switches the mode; a cursor
    /// move is made as `move_cursor` makes it; `ActivateCell` flips the cell
    /// under the cursor in `Edit` mode and does nothing in `Run` mode.
    pub fn handle_input(&mut self, input: Input) -> (keep_running: bool)
        requires
            old(self).wf(),
        ensures
            final(self).wf(),
            keep_running == (input != Input::Quit),
            match input {
                Input::Quit => {
                    &&& final(self).board_state() == old(self).board_state()
                    &&& final(self).mode_state() == old(self).mode_state()
                    &&& final(self).cursor() == old(self).cursor()
                },
                Input::SwitchMode => {
                    &&& final(self).board_state() == old(self).board_state()
                    &&& final(self).mode_state() == next_mode(old(self).mode_state())
                    &&& final(self).cursor() == old(self).cursor()
                },
                Input::MoveCursor(d) => {
                    &&& final(self).board_state() == old(self).board_state()
                    &&& final(self).mode_state() == old(self).mode_state()
                    &&& final(self).cursor() == old(self).cursor_after_move(delta_of(d).0, delta_of(d).1)
                },
                Input::ActivateCell => {
                    &&& final(self).mode_state() == old(self).mode_state()
                    &&& final(self).cursor() == old(self).cursor()
                    &&& final(self).board_state().cols() == old(self).board_state().cols()
                    &&& final(self).board_state().rows() == old(self).board_state().rows()
                    &&& final(self).board_state()@ == if old(self).mode_state() == Mode::Edit {
                        with_toggled(
                            old(self).board_state().cols(),
                            old(self).board_state().rows(),
                            old(self).board_state()@,
                            old(self).cursor().0,
                            old(self).cursor().1,
                        )
                    } else {
                        old(self).board_state()@
                    }
                },
            },
    {
        match input {
            Input::Quit => false,
            Input::SwitchMode => {
                self.mode_change();
                true
            },
            Input::MoveCursor(d) => {
                match d {
                    Direction::Up => self.move_cursor(0, -1),
                    Direction::Down => self.move_cursor(0, 1),
                    Direction::Left => self.move_cursor(-1, 0),
                    Direction::Right => self.move_cursor(1, 0),
                }
                true
            },
            Input::ActivateCell => {
                if self.mode == Mode::Edit {
                    self.toggle_selected_cell();
                }
                true
            },
        }
    }

    /// How the square (x, y) is drawn: `Selected` under the cursor in `Edit`
    /// mode; otherwise `Absent` off the board, else `Alive` or `Dead`.
    pub fn shade_at(&self, x: i32, y: i32) -> (r: Shade)
        requires
            self.wf(),
        ensures
            r == if self.mode_state() == Mode::Edit && (x as int, y as int) == self.cursor() {
                Shade::Selected
            } else if !in_grid(self.board_state().cols(), self.board_state().rows(), x as int, y as int) {
                Shade::Absent
            } else if self.board_state().alive_at(x as int, y as int) {
                Shade::Alive
            } else {
                Shade::Dead
            },
    {
        if self.mode == Mode::Edit && x == self.selected_cell.0 && y == self.selected_cell.1 {
            return Shade::Selected;
        }
        match self.board.get_cell(x, y) {
            Some(cell) => {
                if cell.is_alive() {
                    Shade::Alive
                } else {
                    Shade::Dead
                }
            },
            None => Shade::Absent,
        }
    }
}

/// A move in any direction, made in any mode, leaves the cursor on the board;
/// a move past an edge leaves it where it was.
pub proof fn lemma_cursor_stays_on_board(app: App, dx: int, dy: int)
    requires
        app.wf(),
    ensures
        in_grid(
            app.board_state().cols(),
            app.board_state().rows(),
            app.cursor_after_move(dx, dy).0,
            app.cursor_after_move(dx, dy).1,
        ),
        !in_grid(
            app.board_state().cols(),
            app.board_state().rows(),
            app.cursor().0 + dx,
            app.cursor().1 + dy,
        ) ==> app.cursor_after_move(dx, dy) == app.cursor(),
{
}

/// How long to wait for input before the next tick is due, in milliseconds:
/// what is left of the interval, or nothing once it has elapsed.
pub fn poll_timeout_ms(tick_rate_ms: u64, elapsed_ms: u128) -> (r: u64)
    ensures
        r == if (elapsed_ms as int) < (tick_rate_ms as int) {
            tick_rate_ms - elapsed_ms
        } else {
            0
        },
{
    if elapsed_ms < tick_rate_ms as u128 {
        (tick_rate_ms as u128 - elapsed_ms) as u64
    } else {
        0
    }
}

/// Whether a tick is due: a whole interval has elapsed since the last one.
pub fn tick_due(tick_rate_ms: u64, elapsed_ms: u128) -> (r: bool)
    ensures
        r == (elapsed_ms as int >= tick_rate_ms as int),
{
    elapsed_ms >= tick_rate_ms as u128
}

} // verus!
