//! The screen, rendered into a buffer.

use ratatui::backend::TestBackend;
use ratatui::layout::Rect;
use ratatui::style::{Color, Modifier, Style};
use ratatui::text::{Line, Span};
use ratatui::widgets::{Block, Borders, Clear, List, ListItem, ListState, Paragraph, Wrap};
use ratatui::{Frame, Terminal};
use taski_tui::actions::Request;
use taski_tui::actions::Submission;
use taski_tui::app::App;
use taski_tui::grouping::StatusFilter;
use taski_tui::layout::Rect as Area;
use taski_tui::screen::{Body, Screen, draw};
use taski_tui::spans::{Span as TextSpan, Style as TextStyle};
use taski_tui::task::{NoteContent, PendingAction, Status, Task};
use taski_tui::theme::{Color as ThemeColor, Theme, ThemeConfig};

fn task(id: i64, raw: &str, line: usize, note: &str) -> Task {
    Task {
        id,
        note_path: note.to_string(),
        line_number: line,
        indent: 0,
        text: format!("task {id}"),
        status: Status::from_checkbox_char(raw),
        raw_checkbox_char: raw.to_string(),
        due_date: None,
        scheduled_date: None,
        tags: Vec::new(),
        priority: None,
    }
}

fn task_with_scheduled(id: i64, raw: &str, line: usize, note: &str, sched: &str) -> Task {
    let mut t = task(id, raw, line, note);
    t.scheduled_date = Some(sched.to_string());
    t
}

fn new_app() -> App {
    App::new("2026-06-25".to_string())
}

/// A row of the queue.
#[derive(Clone)]
struct Action {
    id: i64,
    task_id: i64,
    note_path: String,
    line_number: usize,
    expected_char: String,
    new_char: String,
    action_type: String,
    payload: Option<String>,
    state: String,
    error: Option<String>,
}

/// An index in memory: tasks in note and line order, note texts and the queue.
struct Index {
    tasks: Vec<Task>,
    notes: Vec<(String, String)>,
    actions: Vec<Action>,
    resolved: Vec<i64>,
}

impl Index {
    fn new() -> Index {
        Index {
            tasks: Vec::new(),
            notes: Vec::new(),
            actions: Vec::new(),
            resolved: Vec::new(),
        }
    }

    fn upsert_task(&mut self, t: Task) {
        self.tasks.retain(|other| other.id != t.id);
        self.tasks.push(t);
        self.tasks
            .sort_by_key(|t| (t.note_path.clone(), t.line_number));
    }

    #[allow(dead_code)]
    fn delete_tasks_for_note(&mut self, note: &str) {
        self.tasks.retain(|t| t.note_path != note);
    }

    #[allow(dead_code)]
    fn upsert_note_content(&mut self, note: &str, text: &str) {
        self.notes.retain(|(n, _)| n != note);
        self.notes.push((note.to_string(), text.to_string()));
    }

    fn lines(lines: &[usize]) -> String {
        let words: Vec<String> = lines.iter().map(|l| l.to_string()).collect();
        words.join(",")
    }

    fn enqueue(&mut self, request: &Request) -> i64 {
        let id = self.actions.len() as i64 + 1;
        let blank = Action {
            id,
            task_id: 0,
            note_path: String::new(),
            line_number: 0,
            expected_char: String::new(),
            new_char: String::new(),
            action_type: String::new(),
            payload: None,
            state: "pending".to_string(),
            error: None,
        };
        let action = match request {
            Request::Checkbox { task_id, note_path, line_number, expected_char, new_char } => Action {
                task_id: *task_id,
                note_path: note_path.clone(),
                line_number: *line_number,
                expected_char: expected_char.clone(),
                new_char: new_char.clone(),
                action_type: "checkbox".to_string(),
                ..blank
            },
            Request::SetScheduled { task_id, note_path, line_number, date } => Action {
                task_id: *task_id,
                note_path: note_path.clone(),
                line_number: *line_number,
                action_type: "set_scheduled".to_string(),
                payload: date.clone(),
                ..blank
            },
            Request::ToggleBullet { task_id, note_path, line_number } => Action {
                task_id: *task_id,
                note_path: note_path.clone(),
                line_number: *line_number,
                action_type: "toggle_bullet".to_string(),
                ..blank
            },
            Request::QuickAdd { inbox_path, text } => Action {
                note_path: inbox_path.clone(),
                action_type: "quick_add".to_string(),
                payload: Some(text.clone()),
                ..blank
            },
            Request::QuickAddUndo { inbox_path, text } => Action {
                note_path: inbox_path.clone(),
                action_type: "quick_add_undo".to_string(),
                payload: Some(text.clone()),
                ..blank
            },
            Request::AddNote { task_id, note_path, line_number, text } => Action {
                task_id: *task_id,
                note_path: note_path.clone(),
                line_number: *line_number,
                action_type: "add_note".to_string(),
                payload: Some(text.clone()),
                ..blank
            },
            Request::Reorder { task_id, note_path, line_number, lines } => Action {
                task_id: *task_id,
                note_path: note_path.clone(),
                line_number: *line_number,
                action_type: "reorder".to_string(),
                payload: Some(Index::lines(lines)),
                ..blank
            },
            Request::Archive { task_id, note_path, line_number, archive_path, lines } => Action {
                task_id: *task_id,
                note_path: note_path.clone(),
                line_number: *line_number,
                action_type: "archive".to_string(),
                payload: Some(format!("{archive_path}\t{}", Index::lines(lines))),
                ..blank
            },
        };
        self.actions.push(action);
        id
    }

    /// Puts a submission into the queue and settles it.
    #[allow(dead_code)]
    fn queue(&mut self, app: &mut App, submission: Option<Submission>) {
        if let Some(s) = submission {
            let id = self.enqueue(&s.request);
            app.settle(s, Some(id));
        }
    }

    #[allow(dead_code)]
    fn pending_actions(&self) -> Vec<Action> {
        self.actions
            .iter()
            .filter(|a| a.state == "pending")
            .cloned()
            .collect()
    }

    #[allow(dead_code)]
    fn resolve_action(&mut self, id: i64, state: &str, error: Option<&str>) {
        for a in &mut self.actions {
            if a.id == id {
                a.state = state.to_string();
                a.error = error.map(|e| e.to_string());
                self.resolved.push(id);
            }
        }
    }

    /// The resolved actions, newest first.
    fn recent_actions(&self, limit: usize) -> Vec<PendingAction> {
        self.resolved
            .iter()
            .rev()
            .take(limit)
            .map(|id| {
                let a = self.actions.iter().find(|a| a.id == *id).unwrap();
                PendingAction {
                    id: a.id,
                    action_type: a.action_type.clone(),
                    note_path: a.note_path.clone(),
                    new_char: a.new_char.clone(),
                    state: a.state.clone(),
                    error: a.error.clone(),
                }
            })
            .collect()
    }

    fn sync(&self, app: &mut App, force: bool) {
        let loaded = app.context_request(force).and_then(|note| {
            self.notes
                .iter()
                .find(|(n, _)| *n == note)
                .map(|(_, text)| NoteContent { content: text.clone() })
        });
        app.sync_context(force, loaded);
    }

    fn refresh(&self, app: &mut App) {
        app.refresh(app.today.clone(), self.tasks.clone());
        if app.awaits_resolution() {
            app.poll_action_resolutions(&self.recent_actions(64));
        }
        self.sync(app, true);
    }
}

fn color(c: ThemeColor) -> Color {
    match c {
        ThemeColor::Reset => Color::Reset,
        ThemeColor::Black => Color::Black,
        ThemeColor::Red => Color::Red,
        ThemeColor::Green => Color::Green,
        ThemeColor::Yellow => Color::Yellow,
        ThemeColor::Blue => Color::Blue,
        ThemeColor::Magenta => Color::Magenta,
        ThemeColor::Cyan => Color::Cyan,
        ThemeColor::Gray => Color::Gray,
        ThemeColor::DarkGray => Color::DarkGray,
        ThemeColor::LightRed => Color::LightRed,
        ThemeColor::LightGreen => Color::LightGreen,
        ThemeColor::LightYellow => Color::LightYellow,
        ThemeColor::LightBlue => Color::LightBlue,
        ThemeColor::LightMagenta => Color::LightMagenta,
        ThemeColor::LightCyan => Color::LightCyan,
        ThemeColor::White => Color::White,
        ThemeColor::Rgb(r, g, b) => Color::Rgb(r, g, b),
    }
}

fn style(s: &TextStyle) -> Style {
    let mut style = Style::default();
    if let Some(c) = s.fg {
        style = style.fg(color(c));
    }
    for (on, modifier) in [
        (s.modifier.bold, Modifier::BOLD),
        (s.modifier.dim, Modifier::DIM),
        (s.modifier.reversed, Modifier::REVERSED),
        (s.modifier.crossed_out, Modifier::CROSSED_OUT),
        (s.modifier.slow_blink, Modifier::SLOW_BLINK),
    ] {
        if on {
            style = style.add_modifier(modifier);
        }
    }
    style
}

fn line(spans: &[TextSpan]) -> Line<'static> {
    Line::from(
        spans
            .iter()
            .map(|s| Span::styled(s.text.clone(), style(&s.style)))
            .collect::<Vec<_>>(),
    )
}

fn place(r: Area) -> Rect {
    Rect { x: r.x, y: r.y, width: r.width, height: r.height }
}

fn paint(frame: &mut Frame, screen: &Screen) {
    let fill = |c: ThemeColor| Block::default().style(Style::default().bg(color(c)));
    if let Some(c) = screen.background {
        frame.render_widget(fill(c), place(screen.area));
    }
    let block = Block::default().borders(Borders::ALL).title(line(&screen.title));
    match &screen.body {
        Body::Message(text) => {
            frame.render_widget(Paragraph::new(text.clone()).block(block), place(screen.list_area));
        }
        Body::Items { items, selected, highlight } => {
            let items: Vec<ListItem> = items
                .iter()
                .map(|i| ListItem::new(line(&i.line)).style(style(&i.style)))
                .collect();
            let list = List::new(items).block(block).highlight_style(style(highlight));
            let mut state = ListState::default();
            state.select(*selected);
            frame.render_stateful_widget(list, place(screen.list_area), &mut state);
        }
    }
    if let Some((area, text)) = &screen.notice {
        frame.render_widget(Paragraph::new(line(text)), place(*area));
    }
    if let Some((area, pane)) = &screen.context {
        let block = Block::default().borders(Borders::ALL).title(line(&pane.title));
        let lines: Vec<Line> = pane.lines.iter().map(|l| line(l)).collect();
        let mut p = Paragraph::new(lines).block(block);
        if pane.wrap {
            p = p.wrap(Wrap { trim: false });
        }
        frame.render_widget(p, place(*area));
    }
    frame.render_widget(
        Paragraph::new(line(&screen.footer)).style(style(&screen.footer_style)),
        place(screen.footer_area),
    );
    if let Some(overlay) = &screen.help {
        frame.render_widget(Clear, place(overlay.area));
        if let Some(c) = overlay.fill {
            frame.render_widget(fill(c), place(overlay.area));
        }
        let lines: Vec<Line> = overlay.lines.iter().map(|l| line(l)).collect();
        let block = Block::default().borders(Borders::ALL).title(overlay.title.clone());
        frame.render_widget(Paragraph::new(lines).block(block), place(overlay.area));
    }
}

fn draw_into(terminal: &mut Terminal<TestBackend>, app: &App) {
    terminal
        .draw(|frame| {
            let a = frame.area();
            let area = Area { x: a.x, y: a.y, width: a.width, height: a.height };
            paint(frame, &draw(app, area));
        })
        .unwrap();
}

#[test]
fn draw_renders_context_pane_without_panic() {
    let mut index = Index::new();
    index.upsert_task(task(1, " ", 3, "alpha.md"));
    index.upsert_note_content("alpha.md", "# Alpha\nsome lead-in\n- [ ] the actual task text here\nfollow-up\n");

    let mut app = new_app();
    app.filter = StatusFilter::All;
    index.refresh(&mut app);
    app.expanded.insert("alpha.md".to_string());
    app.rebuild();
    app.state.select(Some(1));
    index.sync(&mut app, false);

    let backend = TestBackend::new(80, 24);
    let mut terminal = Terminal::new(backend).unwrap();
    draw_into(&mut terminal, &app);

    let buf = terminal.backend().buffer();
    let rendered: String = buf.content.iter().map(|c| c.symbol().to_string()).collect();
    assert!(rendered.contains("Context"), "pane title should render");
    assert!(
        rendered.contains("the actual task text here"),
        "the task line should appear in the context pane"
    );
}

#[test]
fn draw_hides_pane_when_toggled_off() {
    let mut index = Index::new();
    index.upsert_task(task(1, " ", 3, "alpha.md"));
    index.upsert_note_content("alpha.md", "# Alpha\n- [ ] do the thing\n");

    let mut app = new_app();
    app.filter = StatusFilter::All;
    index.refresh(&mut app);
    app.expanded.insert("alpha.md".to_string());
    app.rebuild();
    app.state.select(Some(1));
    index.sync(&mut app, false);
    app.toggle_pane();

    let backend = TestBackend::new(80, 24);
    let mut terminal = Terminal::new(backend).unwrap();
    draw_into(&mut terminal, &app);
    let rendered: String = terminal
        .backend()
        .buffer()
        .content
        .iter()
        .map(|c| c.symbol().to_string())
        .collect();
    assert!(
        !rendered.contains("Context"),
        "pane title must not render when toggled off"
    );
    assert!(rendered.contains("task 1"), "the list still shows the task");
}

#[test]
fn draw_hides_pane_below_min_width() {
    let mut index = Index::new();
    index.upsert_task(task(1, " ", 1, "alpha.md"));
    index.upsert_note_content("alpha.md", "- [ ] short task\n");

    let mut app = new_app();
    app.filter = StatusFilter::All;
    index.refresh(&mut app);
    app.expanded.insert("alpha.md".to_string());
    app.rebuild();
    app.state.select(Some(1));
    index.sync(&mut app, false);
    assert!(app.pane_visible);

    let backend = TestBackend::new(40, 24);
    let mut terminal = Terminal::new(backend).unwrap();
    draw_into(&mut terminal, &app);
    let rendered: String = terminal
        .backend()
        .buffer()
        .content
        .iter()
        .map(|c| c.symbol().to_string())
        .collect();
    assert!(
        !rendered.contains("Context"),
        "pane must auto-hide below MIN_SPLIT_WIDTH"
    );
}

#[test]
fn row_to_item_renders_scheduled_suffix_bold_for_today() {
    let mut index = Index::new();
    let today_today = task_with_scheduled(1, " ", 1, "alpha.md", "2026-06-20");
    let other_day = task_with_scheduled(2, " ", 2, "alpha.md", "2026-06-21");
    index.upsert_task(today_today);
    index.upsert_task(other_day);

    let mut app = new_app();
    app.today = "2026-06-20".to_string();
    app.filter = StatusFilter::All;
    index.refresh(&mut app);
    app.expanded.insert("alpha.md".to_string());
    app.rebuild();

    let backend = TestBackend::new(120, 24);
    let mut terminal = Terminal::new(backend).unwrap();
    draw_into(&mut terminal, &app);
    let rendered: String = terminal
        .backend()
        .buffer()
        .content
        .iter()
        .map(|c| c.symbol().to_string())
        .collect();
    assert!(rendered.contains('⏳'), "scheduled glyph must render");
    assert!(
        rendered.contains("2026-06-20"),
        "today's scheduled date must render"
    );
    assert!(
        rendered.contains("2026-06-21"),
        "the other scheduled date must render"
    );
}

#[test]
fn note_header_dims_dir_prefix() {
    let mut index = Index::new();
    index.upsert_task(task(1, " ", 1, "inbox/today.md"));

    let mut app = new_app();
    app.filter = StatusFilter::All;
    index.refresh(&mut app);
    app.pane_visible = false;
    app.rebuild();

    let backend = TestBackend::new(120, 24);
    let mut terminal = Terminal::new(backend).unwrap();
    draw_into(&mut terminal, &app);
    let buf = terminal.backend().buffer().clone();
    let cells: Vec<&ratatui::buffer::Cell> = buf.content.iter().collect();

    let needle: Vec<char> = "inbox/today.md".chars().collect();
    let start = (0..cells.len())
        .find(|&i| {
            needle.iter().enumerate().all(|(k, ch)| {
                cells
                    .get(i + k)
                    .is_some_and(|c| c.symbol() == ch.to_string())
            })
        })
        .expect("list header must render");

    let prefix_cell = cells[start];
    let filename_cell = cells[start + 6];
    assert_eq!(
        prefix_cell.fg,
        Color::DarkGray,
        "dir prefix must use path_prefix (DarkGray default)"
    );
    assert_ne!(
        filename_cell.fg,
        Color::DarkGray,
        "filename must not be dimmed"
    );
    assert!(
        !filename_cell.modifier.contains(Modifier::BOLD),
        "filename must not be bold by default (global bold toggle is off)"
    );
}

#[test]
fn custom_theme_color_reaches_rendered_cells() {
    let cfg = ThemeConfig {
        accent: Some("#ff00ff".into()),
        ..ThemeConfig::default()
    };
    let resolved = Theme::resolve_from(Some(&cfg));
    assert_eq!(
        resolved.accent,
        ThemeColor::Rgb(255, 0, 255),
        "resolve must parse the configured hex"
    );

    let mut index = Index::new();
    index.upsert_task(task(1, " ", 1, "a.md"));
    let mut app = new_app();
    app.filter = StatusFilter::All;
    index.refresh(&mut app);
    app.theme = resolved;
    app.rebuild();

    let backend = TestBackend::new(120, 24);
    let mut terminal = Terminal::new(backend).unwrap();
    draw_into(&mut terminal, &app);
    let buf = terminal.backend().buffer().clone();
    let cells: Vec<&ratatui::buffer::Cell> = buf.content.iter().collect();

    let needle: Vec<char> = "filter:".chars().collect();
    let start = (0..cells.len())
        .find(|&i| {
            needle.iter().enumerate().all(|(k, ch)| {
                cells
                    .get(i + k)
                    .is_some_and(|c| c.symbol() == ch.to_string())
            })
        })
        .expect("title bar filter label must render");
    assert_eq!(
        cells[start].fg,
        Color::Rgb(255, 0, 255),
        "the configured accent color must reach the rendered cell"
    );
}

#[test]
fn theme_background_fills_the_screen() {
    let render_bg = |bg: ThemeColor| {
        let mut index = Index::new();
        index.upsert_task(task(1, " ", 1, "a.md"));
        let mut app = new_app();
        app.filter = StatusFilter::All;
        index.refresh(&mut app);
        app.theme.background = bg;
        app.rebuild();
        let backend = TestBackend::new(80, 24);
        let mut terminal = Terminal::new(backend).unwrap();
        draw_into(&mut terminal, &app);
        terminal.backend().buffer().clone()
    };

    let nord_bg = Color::Rgb(0x2e, 0x34, 0x40);
    let buf = render_bg(ThemeColor::Rgb(0x2e, 0x34, 0x40));
    assert!(
        buf.content.iter().all(|c| c.bg == nord_bg),
        "a configured background must fill all cells (incl. blank ones)"
    );

    let buf_default = render_bg(ThemeColor::Reset);
    assert!(
        buf_default.content.iter().all(|c| c.bg == Color::Reset),
        "default (Reset) background must leave cells unpainted"
    );
}

#[test]
fn draw_renders_help_overlay_when_show_help() {
    let mut app = new_app();
    app.show_help = true;

    let backend = TestBackend::new(100, 40);
    let mut terminal = Terminal::new(backend).unwrap();
    draw_into(&mut terminal, &app);

    let rendered: String = terminal
        .backend()
        .buffer()
        .content
        .iter()
        .map(|c| c.symbol().to_string())
        .collect();
    assert!(
        rendered.contains("Keybindings"),
        "the help overlay title should render on top"
    );
    assert!(
        rendered.contains("Space"),
        "a keycap from the key list should render"
    );
    assert!(
        rendered.contains("Navigation"),
        "a group header should render"
    );
    assert!(
        rendered.contains("to close"),
        "the dim dismissal hint should render"
    );
}
