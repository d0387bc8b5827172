//! The menu engine: what to draw, how each key changes the selection, and the
//! terminal modes that a run switches on and must switch off again.
//!
//! The engine performs no I/O. It hands back the terminal operations to carry
//! out, in order, and the caller feeds it one key press at a time.
use vstd::prelude::*;
use crate::keys::{action_of, KeyPress, MenuAction};
use crate::util::{next_index, prev_index, CircularCounter};

verus! {

/// A foreground colour.
#[derive(Debug, Clone, Copy, PartialEq, Eq, Structural)]
pub enum Color {
    Yellow,
    Green,
}

/// How a piece of text is shown.
#[derive(Debug, Clone, Copy, PartialEq, Eq, Structural)]
pub struct TextStyle {
    pub foreground: Option<Color>,
    pub underlined: bool,
}

/// What one run of the menu shows: its rows, the row marked as current (if
/// any), the text of that mark, and the styles of the mark and of the
/// selected row.
pub struct Menu {
    pub items: Vec<String>,
    pub current: Option<usize>,
    pub current_label: String,
    pub current_label_style: TextStyle,
    pub selected_style: TextStyle,
}

impl Menu {
    /// A menu over `items` with the usual look: the current row is marked by a
    /// yellow `(current)`, the selected row is green and underlined.
    pub fn new(items: Vec<String>, current: Option<usize>) -> (r: Menu)
        ensures
            r.items@ == items@,
            r.current == current,
            r.current_label@ == "(current)"@,
            r.current_label_style == (TextStyle { foreground: Some(Color::Yellow), underlined: false }),
            r.selected_style == (TextStyle { foreground: Some(Color::Green), underlined: true }),
    {
        Menu {
            items,
            current,
            current_label: String::from_str("(current)"),
            current_label_style: TextStyle { foreground: Some(Color::Yellow), underlined: false },
            selected_style: TextStyle { foreground: Some(Color::Green), underlined: true },
        }
    }
}

/// One thing to do on the terminal.
#[derive(Debug, Clone, Copy, PartialEq, Eq, Structural)]
pub enum TermOp {
    /// Write row `index` from the cursor on, with no line break: `"> "` and the
    /// row in the selected style where `selected`, else two spaces and the row.
    Item { index: usize, selected: bool },
    /// Write a space and the current-row label, in its style.
    CurrentLabel,
    /// End the line.
    LineBreak,
    /// Remember where the cursor is.
    SavePosition,
    /// Go back to the remembered cursor position.
    RestorePosition,
    /// Move the cursor up by the given number of lines.
    MoveUp(usize),
    /// Clear the screen from the cursor down.
    ClearFromCursorDown,
    EnableRawMode,
    DisableRawMode,
    HideCursor,
    ShowCursor,
}

/// The two process-wide settings of the terminal that a run changes.
#[derive(Debug, Clone, Copy, PartialEq, Eq, Structural)]
pub struct TermMode {
    pub raw: bool,
    pub cursor_visible: bool,
}

/// The terminal's settings outside a run: line input, visible cursor.
pub open spec fn normal_mode() -> TermMode {
    TermMode { raw: false, cursor_visible: true }
}

/// The terminal's settings during a run: raw input, hidden cursor.
pub open spec fn menu_mode() -> TermMode {
    TermMode { raw: true, cursor_visible: false }
}

/// The settings after one operation.
pub open spec fn apply_op(m: TermMode, op: TermOp) -> TermMode {
    match op {
        TermOp::EnableRawMode => TermMode { raw: true, ..m },
        TermOp::DisableRawMode => TermMode { raw: false, ..m },
        TermOp::HideCursor => TermMode { cursor_visible: false, ..m },
        TermOp::ShowCursor => TermMode { cursor_visible: true, ..m },
        _ => m,
    }
}

/// The settings after carrying out `ops` in order.
pub open spec fn apply_ops(m: TermMode, ops: Seq<TermOp>) -> TermMode
    decreases ops.len(),
{
    if ops.len() == 0 {
        m
    } else {
        apply_ops(apply_op(m, ops[0]), ops.drop_first())
    }
}

/// The operations that draw row `i`: the row, the current-row label where `i`
/// is the current row, and a line break.
pub open spec fn row_ops(i: nat, selected: nat, current: Option<usize>) -> Seq<TermOp> {
    seq![TermOp::Item { index: i as usize, selected: i == selected }] + (if current == Some(
        i as usize,
    ) {
        seq![TermOp::CurrentLabel]
    } else {
        seq![]
    }) + seq![TermOp::LineBreak]
}

/// The operations that draw rows `0..n` one below the other.
pub open spec fn render_ops(n: nat, selected: nat, current: Option<usize>) -> Seq<TermOp>
    decreases n,
{
    if n == 0 {
        seq![]
    } else {
        render_ops((n - 1) as nat, selected, current) + row_ops((n - 1) as nat, selected, current)
    }
}

/// The operations that, with the cursor on the line below the `n` rows, draw
/// row `prev` as unselected and row `next` as selected, and leave the cursor
/// where it was.
pub open spec fn redraw_ops(n: nat, prev: nat, next: nat) -> Seq<TermOp> {
    seq![
        TermOp::SavePosition,
        TermOp::MoveUp((n - prev) as usize),
        TermOp::Item { index: prev as usize, selected: false },
        TermOp::RestorePosition,
        TermOp::SavePosition,
        TermOp::MoveUp((n - next) as usize),
        TermOp::Item { index: next as usize, selected: true },
        TermOp::RestorePosition,
    ]
}

/// The operations that erase `n` rows drawn above the cursor.
pub open spec fn clear_ops(n: nat) -> Seq<TermOp> {
    seq![TermOp::MoveUp(n as usize), TermOp::ClearFromCursorDown]
}

/// The operations that end a run: erase the rows, then give the terminal back
/// its line input and its cursor.
pub open spec fn finish_ops(n: nat) -> Seq<TermOp> {
    clear_ops(n) + seq![TermOp::DisableRawMode, TermOp::ShowCursor]
}

/// Draws every row of a menu of `count` rows, `selected` marked as selected
/// and `current` (if any) labelled as current.
pub fn render_menu(count: usize, selected: usize, current: Option<usize>) -> (r: Vec<TermOp>)
    ensures
        r@ == render_ops(count as nat, selected as nat, current),
{
    let mut ops: Vec<TermOp> = Vec::new();
    let mut i: usize = 0;
    while i < count
        invariant
            i <= count,
            ops@ == render_ops(i as nat, selected as nat, current),
        decreases count - i,
    {
        ops.push(TermOp::Item { index: i, selected: i == selected });
        let is_current = match current {
            Some(c) => c == i,
            None => false,
        };
        if is_current {
            ops.push(TermOp::CurrentLabel);
        }
        ops.push(TermOp::LineBreak);
        assert(ops@ == render_ops((i + 1) as nat, selected as nat, current));
        i += 1;
    }
    ops
}

/// Redraws the two rows that a change of selection from `prev` to `next`
/// touches, in a menu of `count` rows drawn just above the cursor.
pub fn redraw_rows(count: usize, prev: usize, next: usize) -> (r: Vec<TermOp>)
    requires
        prev < count,
        next < count,
    ensures
        r@ == redraw_ops(count as nat, prev as nat, next as nat),
{
    let up_prev = count - prev;
    let up_next = count - next;
    let r = vec![
        TermOp::SavePosition,
        TermOp::MoveUp(up_prev),
        TermOp::Item { index: prev, selected: false },
        TermOp::RestorePosition,
        TermOp::SavePosition,
        TermOp::MoveUp(up_next),
        TermOp::Item { index: next, selected: true },
        TermOp::RestorePosition,
    ];
    assert(r@ == redraw_ops(count as nat, prev as nat, next as nat));
    r
}

/// Erases a menu of `line_count` rows drawn just above the cursor.
pub fn clear_menu(line_count: usize) -> (r: Vec<TermOp>)
    ensures
        r@ == clear_ops(line_count as nat),
{
    let r = vec![TermOp::MoveUp(line_count), TermOp::ClearFromCursorDown];
    assert(r@ == clear_ops(line_count as nat));
    r
}

/// The cursor's line and the remembered line after carrying out `ops`, lines
/// counted down from the menu's first row.
pub open spec fn lines_after(line: int, saved: int, ops: Seq<TermOp>) -> (int, int)
    decreases ops.len(),
{
    if ops.len() == 0 {
        (line, saved)
    } else {
        let (l, s) = match ops[0] {
            TermOp::SavePosition => (line, line),
            TermOp::RestorePosition => (saved, saved),
            TermOp::MoveUp(k) => (line - k, saved),
            TermOp::LineBreak => (line + 1, saved),
            _ => (line, saved),
        };
        lines_after(l, s, ops.drop_first())
    }
}

/// The line on which operation `i` of `ops` is carried out.
pub open spec fn line_of_op(line: int, saved: int, ops: Seq<TermOp>, i: int) -> int {
    lines_after(line, saved, ops.take(i)).0
}

proof fn lemma_lines_concat(line: int, saved: int, a: Seq<TermOp>, b: Seq<TermOp>)
    ensures
        lines_after(line, saved, a + b) == ({
            let (l, s) = lines_after(line, saved, a);
            lines_after(l, s, b)
        }),
    decreases a.len(),
{
    if a.len() > 0 {
        assert((a + b).drop_first() == a.drop_first() + b);
        let (l, s) = match a[0] {
            TermOp::SavePosition => (line, line),
            TermOp::RestorePosition => (saved, saved),
            TermOp::MoveUp(k) => (line - k, saved),
            TermOp::LineBreak => (line + 1, saved),
            _ => (line, saved),
        };
        lemma_lines_concat(l, s, a.drop_first(), b);
    }
}

/// Drawing the whole menu from the start of a line puts row `i` on line `i`,
/// marked as selected exactly when it is the selected row, and leaves the
/// cursor on the line below the last row.
pub proof fn lemma_render_lines(n: nat, selected: nat, current: Option<usize>, saved: int)
    requires
        n <= usize::MAX,
    ensures
        lines_after(0, saved, render_ops(n, selected, current)) == (n as int, saved),
        forall|p: int|
            0 <= p < render_ops(n, selected, current).len() ==> (#[trigger] render_ops(
                n,
                selected,
                current,
            )[p] matches TermOp::Item { index, selected: sel } ==> line_of_op(
                0,
                saved,
                render_ops(n, selected, current),
                p,
            ) == index && sel == (index == selected)),
    decreases n,
{
    if n > 0 {
        let m = (n - 1) as nat;
        let a = render_ops(m, selected, current);
        let r = row_ops(m, selected, current);
        lemma_render_lines(m, selected, current, saved);
        lemma_lines_concat(0, saved, a, r);
        reveal_with_fuel(lines_after, 4);
        assert(lines_after(m as int, saved, r) == (n as int, saved));
        assert forall|p: int|
            0 <= p < (a + r).len() implies ((#[trigger] (a + r)[p]) matches TermOp::Item {
            index,
            selected: sel,
        } ==> line_of_op(0, saved, a + r, p) == index && sel == (index == selected)) by {
            if p < a.len() {
                assert((a + r).take(p) == a.take(p));
                assert((a + r)[p] == a[p]);
            } else if p == a.len() {
                assert((a + r).take(p) == a);
            } else {
                assert((a + r)[p] == r[p - a.len()]);
            }
        }
    }
}

/// A redraw writes the old row on its own line and the new row on its own
/// line, and leaves the cursor on the line below the menu where it started.
pub proof fn lemma_redraw_lines(n: nat, prev: nat, next: nat)
    requires
        prev < n,
        next < n,
        n <= usize::MAX,
    ensures
        ({
            let ops = redraw_ops(n, prev, next);
            &&& ops[2] == TermOp::Item { index: prev as usize, selected: false }
            &&& line_of_op(n as int, n as int, ops, 2) == prev
            &&& ops[6] == TermOp::Item { index: next as usize, selected: true }
            &&& line_of_op(n as int, n as int, ops, 6) == next
            &&& lines_after(n as int, n as int, ops).0 == n
        }),
{
    let ops = redraw_ops(n, prev, next);
    reveal_with_fuel(lines_after, 9);
    assert(ops.take(2) =~= seq![TermOp::SavePosition, TermOp::MoveUp((n - prev) as usize)]);
    assert(ops.take(6) =~= seq![
        TermOp::SavePosition,
        TermOp::MoveUp((n - prev) as usize),
        TermOp::Item { index: prev as usize, selected: false },
        TermOp::RestorePosition,
        TermOp::SavePosition,
        TermOp::MoveUp((n - next) as usize),
    ]);
}

/// Where a run stands.
#[derive(Debug, Clone, Copy, PartialEq, Eq, Structural)]
pub enum Phase {
    /// Waiting for keys.
    Active,
    /// The row with this index was chosen.
    Selected(usize),
    /// The user left without choosing.
    Cancelled,
}

/// One run of a menu: the selection and where the run stands.
pub struct MenuEngine {
    pub counter: CircularCounter,
    pub phase: Phase,
}

/// The engine and the operations at the start of a run over `n` rows: draw
/// them with the first selected, then switch to raw input and hide the cursor.
pub open spec fn start_spec(n: nat, current: Option<usize>) -> (MenuEngine, Seq<TermOp>) {
    (
        MenuEngine { counter: CircularCounter { size: n as usize, selected: 0 }, phase: Phase::Active },
        render_ops(n, 0, current) + seq![TermOp::EnableRawMode, TermOp::HideCursor],
    )
}

/// The engine and the operations after one key press in an active run.
pub open spec fn step_spec(e: MenuEngine, key: KeyPress) -> (MenuEngine, Seq<TermOp>) {
    let n = e.counter.size as nat;
    let s = e.counter.selected as nat;
    match action_of(key.code, key.modifiers) {
        MenuAction::Next => {
            let t = next_index(n, s);
            (
                MenuEngine { counter: CircularCounter { size: n as usize, selected: t as usize }, ..e },
                redraw_ops(n, s, t),
            )
        },
        MenuAction::Prev => {
            let t = prev_index(n, s);
            (
                MenuEngine { counter: CircularCounter { size: n as usize, selected: t as usize }, ..e },
                redraw_ops(n, s, t),
            )
        },
        MenuAction::Select => (MenuEngine { phase: Phase::Selected(s as usize), ..e }, finish_ops(n)),
        MenuAction::Exit => (MenuEngine { phase: Phase::Cancelled, ..e }, finish_ops(n)),
        MenuAction::Ignore => (e, seq![]),
    }
}

/// The engine and all the operations after feeding `keys` in order; keys that
/// come after the run has ended are not read.
pub open spec fn run_keys(e: MenuEngine, keys: Seq<KeyPress>) -> (MenuEngine, Seq<TermOp>)
    decreases keys.len(),
{
    if keys.len() == 0 || e.phase != Phase::Active {
        (e, seq![])
    } else {
        let (e1, ops1) = step_spec(e, keys[0]);
        let (e2, ops2) = run_keys(e1, keys.drop_first());
        (e2, ops1 + ops2)
    }
}

impl MenuEngine {
    /// The selection lies among the rows, and so does a chosen row.
    pub open spec fn wf(&self) -> bool {
        &&& self.counter.wf()
        &&& (self.phase matches Phase::Selected(i) ==> i < self.counter.size)
    }

    /// Starts a run over the rows of `menu`.
    pub fn start(menu: &Menu) -> (r: (MenuEngine, Vec<TermOp>))
        requires
            menu.items.len() > 0,
        ensures
            r.0.wf(),
            (r.0, r.1@) == start_spec(menu.items.len() as nat, menu.current),
    {
        let n = menu.items.len();
        let mut ops = render_menu(n, 0, menu.current);
        ops.push(TermOp::EnableRawMode);
        ops.push(TermOp::HideCursor);
        let e = MenuEngine { counter: CircularCounter { size: n, selected: 0 }, phase: Phase::Active };
        (e, ops)
    }

    /// Takes one key press in an active run: moves the selection and redraws
    /// the two rows it touches, or ends the run, erasing the menu and giving
    /// the terminal back its line input and cursor.
    pub fn step(&mut self, key: KeyPress) -> (r: Vec<TermOp>)
        requires
            old(self).wf(),
            old(self).phase == Phase::Active,
        ensures
            final(self).wf(),
            (*final(self), r@) == step_spec(*old(self), key),
    {
        let n = self.counter.size;
        let s = self.counter.selected;
        match MenuAction::from_key_event(key) {
            MenuAction::Next => {
                let t = self.counter.next();
                redraw_rows(n, s, t)
            },
            MenuAction::Prev => {
                let t = self.counter.prev();
                redraw_rows(n, s, t)
            },
            MenuAction::Select => {
                self.phase = Phase::Selected(s);
                self.finish()
            },
            MenuAction::Exit => {
                self.phase = Phase::Cancelled;
                self.finish()
            },
            MenuAction::Ignore => Vec::new(),
        }
    }

    fn finish(&self) -> (r: Vec<TermOp>)
        ensures
            r@ == finish_ops(self.counter.size as nat),
    {
        let mut ops = clear_menu(self.counter.size);
        ops.push(TermOp::DisableRawMode);
        ops.push(TermOp::ShowCursor);
        ops
    }
}

proof fn lemma_apply_concat(m: TermMode, a: Seq<TermOp>, b: Seq<TermOp>)
    ensures
        apply_ops(m, a + b) == apply_ops(apply_ops(m, a), b),
    decreases a.len(),
{
    if a.len() > 0 {
        assert((a + b).drop_first() == a.drop_first() + b);
        lemma_apply_concat(apply_op(m, a[0]), a.drop_first(), b);
    }
}

/// No operation in `ops` touches the terminal's settings.
pub open spec fn keeps_mode(ops: Seq<TermOp>) -> bool {
    forall|i: int|
        0 <= i < ops.len() ==> !(#[trigger] ops[i] is EnableRawMode || ops[i] is DisableRawMode
            || ops[i] is HideCursor || ops[i] is ShowCursor)
}

proof fn lemma_keeps_mode(m: TermMode, ops: Seq<TermOp>)
    requires
        keeps_mode(ops),
    ensures
        apply_ops(m, ops) == m,
    decreases ops.len(),
{
    if ops.len() > 0 {
        assert(keeps_mode(ops.drop_first())) by {
            assert forall|i: int| 0 <= i < ops.drop_first().len() implies !(
            #[trigger] ops.drop_first()[i] is EnableRawMode || ops.drop_first()[i] is DisableRawMode
                || ops.drop_first()[i] is HideCursor || ops.drop_first()[i] is ShowCursor) by {
                assert(ops.drop_first()[i] == ops[i + 1]);
            }
        }
        lemma_keeps_mode(m, ops.drop_first());
    }
}

proof fn lemma_render_keeps_mode(n: nat, selected: nat, current: Option<usize>)
    ensures
        keeps_mode(render_ops(n, selected, current)),
    decreases n,
{
    if n > 0 {
        lemma_render_keeps_mode((n - 1) as nat, selected, current);
    }
}

proof fn lemma_run_mode(e: MenuEngine, keys: Seq<KeyPress>)
    requires
        e.wf(),
        e.phase == Phase::Active,
    ensures
        run_keys(e, keys).0.wf(),
        run_keys(e, keys).0.phase == Phase::Active ==> apply_ops(menu_mode(), run_keys(e, keys).1)
            == menu_mode(),
        run_keys(e, keys).0.phase != Phase::Active ==> apply_ops(menu_mode(), run_keys(e, keys).1)
            == normal_mode(),
    decreases keys.len(),
{
    if keys.len() > 0 {
        let n = e.counter.size as nat;
        let s = e.counter.selected as nat;
        let (e1, ops1) = step_spec(e, keys[0]);
        vstd::arithmetic::div_mod::lemma_mod_bound(s + 1 as int, n as int);
        lemma_apply_concat(menu_mode(), ops1, run_keys(e1, keys.drop_first()).1);
        if e1.phase == Phase::Active {
            assert(keeps_mode(ops1));
            lemma_keeps_mode(menu_mode(), ops1);
            lemma_run_mode(e1, keys.drop_first());
        } else {
            assert(apply_ops(menu_mode(), ops1) == normal_mode()) by {
                lemma_apply_concat(menu_mode(), clear_ops(n), seq![TermOp::DisableRawMode, TermOp::ShowCursor]);
                lemma_keeps_mode(menu_mode(), clear_ops(n));
                reveal_with_fuel(apply_ops, 3);
            }
            assert(run_keys(e1, keys.drop_first()).1 == Seq::<TermOp>::empty());
        }
    }
}

/// A run leaves the terminal as it found it: started from line input and a
/// visible cursor, once the keys fed to it have ended the run (by a choice or
/// by leaving), the terminal is back to line input and a visible cursor; while
/// the run is still active it stays in raw input with the cursor hidden.
pub proof fn lemma_terminal_restored(n: nat, current: Option<usize>, keys: Seq<KeyPress>)
    requires
        0 < n <= usize::MAX,
    ensures
        ({
            let (e0, ops0) = start_spec(n, current);
            let (e, ops) = run_keys(e0, keys);
            &&& e.phase == Phase::Active ==> apply_ops(normal_mode(), ops0 + ops) == menu_mode()
            &&& e.phase != Phase::Active ==> apply_ops(normal_mode(), ops0 + ops) == normal_mode()
        }),
{
    let (e0, ops0) = start_spec(n, current);
    let (e, ops) = run_keys(e0, keys);
    lemma_render_keeps_mode(n, 0, current);
    lemma_keeps_mode(normal_mode(), render_ops(n, 0, current));
    lemma_apply_concat(normal_mode(), render_ops(n, 0, current), seq![TermOp::EnableRawMode, TermOp::HideCursor]);
    reveal_with_fuel(apply_ops, 3);
    assert(apply_ops(normal_mode(), ops0) == menu_mode());
    lemma_apply_concat(normal_mode(), ops0, ops);
    lemma_run_mode(e0, keys);
}

} // verus!
