//! Tabs, tracks and the state that key presses move through.
//!
//! The state is a value: one event takes it to the next state and may ask for
//! the phrase to be played. Reading events, drawing and playing are left to the
//! owner of the terminal.

use vstd::prelude::*;

verus! {

/// How many tracks there are to select from.
pub const TRACKS_NUM: usize = 6;

/// The tabs of the interface, in the order in which they are drawn.
#[derive(Clone, Copy, Debug, PartialEq, Eq, Structural)]
pub enum Tab {
    Tracks,
    Composition,
    Preview,
}

impl Tab {
    /// The position of the tab in the tab strip, counted from 0.
    pub open spec fn ordinal_spec(self) -> usize {
        match self {
            Tab::Tracks => 0,
            Tab::Composition => 1,
            Tab::Preview => 2,
        }
    }

    #[verifier::when_used_as_spec(ordinal_spec)]
    pub fn ordinal(self) -> (position: usize)
        ensures
            position == self.ordinal_spec(),
    {
        match self {
            Tab::Tracks => 0,
            Tab::Composition => 1,
            Tab::Preview => 2,
        }
    }

    /// The tab at a position of the tab strip.
    pub open spec fn at(position: int) -> Tab
        recommends
            0 <= position < 3,
    {
        if position == 0 {
            Tab::Tracks
        } else if position == 1 {
            Tab::Composition
        } else {
            Tab::Preview
        }
    }

    /// The tab at a position of the tab strip, if there is one.
    pub fn from_ordinal(position: usize) -> (tab: Option<Tab>)
        ensures
            position < 3 ==> tab == Some(Tab::at(position as int)),
            position < 3 ==> tab.unwrap().ordinal_spec() == position,
            position >= 3 ==> tab is None,
    {
        if position == 0 {
            Some(Tab::Tracks)
        } else if position == 1 {
            Some(Tab::Composition)
        } else if position == 2 {
            Some(Tab::Preview)
        } else {
            None
        }
    }

    /// The name under which the tab is shown.
    pub fn title(self) -> (name: &'static str)
        ensures
            self == Tab::Tracks ==> name@ == "Tracks"@,
            self == Tab::Composition ==> name@ == "Composition"@,
            self == Tab::Preview ==> name@ == "Preview"@,
    {
        match self {
            Tab::Tracks => "Tracks",
            Tab::Composition => "Composition",
            Tab::Preview => "Preview",
        }
    }
}

impl Default for Tab {
    fn default() -> (tab: Tab)
        ensures
            tab == Tab::Tracks,
    {
        Tab::Tracks
    }
}

/// The two ways in which the track selection moves.
#[derive(Clone, Copy, Debug, PartialEq, Eq, Structural)]
pub enum Direction {
    Left,
    Right,
}

impl Direction {
    /// The step of a move: -1 to the left, +1 to the right.
    pub open spec fn delta(self) -> int {
        match self {
            Direction::Left => -1,
            Direction::Right => 1,
        }
    }
}

/// The identity of a key: a character, or any key that is none.
#[derive(Clone, Copy, Debug, PartialEq, Eq, Structural)]
pub enum Key {
    Char(char),
    Other,
}

/// What happened to a key.
#[derive(Clone, Copy, Debug, PartialEq, Eq, Structural)]
pub enum KeyEventKind {
    Press,
    Repeat,
    Release,
}

/// A key and what happened to it.
#[derive(Clone, Copy, Debug, PartialEq, Eq, Structural)]
pub struct KeyEvent {
    pub code: Key,
    pub kind: KeyEventKind,
}

impl KeyEvent {
    /// The press of the key with the given character.
    pub open spec fn press(c: char) -> KeyEvent {
        KeyEvent { code: Key::Char(c), kind: KeyEventKind::Press }
    }
}

/// One event of the input stream: a key event, or anything else that a
/// terminal reports.
#[derive(Clone, Copy, Debug, PartialEq, Eq, Structural)]
pub enum InputEvent {
    Key(KeyEvent),
    Other,
}

impl InputEvent {
    /// Whether the event is the press of a key. No other event makes
    /// anything happen.
    pub open spec fn is_press(self) -> bool {
        match self {
            InputEvent::Key(key_event) => key_event.kind == KeyEventKind::Press,
            InputEvent::Other => false,
        }
    }

    /// The command that the event stands for.
    pub open spec fn command(self) -> Command {
        match self {
            InputEvent::Key(key_event) => if key_event.kind == KeyEventKind::Press {
                command_for(key_event.code)
            } else {
                Command::Ignore
            },
            InputEvent::Other => Command::Ignore,
        }
    }
}

/// What a key press asks for.
#[derive(Clone, Copy, Debug, PartialEq, Eq, Structural)]
pub enum Command {
    SelectTab(Tab),
    MoveTrack(Direction),
    Play,
    Quit,
    Ignore,
}

/// What handling an event asks of the owner of the output device.
#[derive(Clone, Copy, Debug, PartialEq, Eq, Structural)]
pub enum Effect {
    Nothing,
    Play,
}

/// The symbols that jump to a tab: the shifted digits 1, 2 and 3.
pub open spec fn shift_symbols() -> Seq<char> {
    seq!['!', '@', '#']
}

/// The command bound to a key: a tab symbol selects the tab at the symbol's
/// position among the tab symbols, `H` and `L` move the track selection, the
/// space bar plays and `q` quits.
pub open spec fn command_for(key: Key) -> Command {
    match key {
        Key::Char(c) => if shift_symbols().contains(c) {
            Command::SelectTab(Tab::at(shift_symbols().index_of(c)))
        } else if c == 'H' {
            Command::MoveTrack(Direction::Left)
        } else if c == 'L' {
            Command::MoveTrack(Direction::Right)
        } else if c == ' ' {
            Command::Play
        } else if c == 'q' {
            Command::Quit
        } else {
            Command::Ignore
        },
        Key::Other => Command::Ignore,
    }
}

/// The tab symbols are `!`, `@` and `#`, at the positions 0, 1 and 2.
pub proof fn lemma_symbol_positions(c: char)
    ensures
        shift_symbols().contains(c) <==> c == '!' || c == '@' || c == '#',
        c == '!' ==> shift_symbols().index_of(c) == 0,
        c == '@' ==> shift_symbols().index_of(c) == 1,
        c == '#' ==> shift_symbols().index_of(c) == 2,
{
    let symbols = shift_symbols();
    assert(symbols[0] == '!' && symbols[1] == '@' && symbols[2] == '#');
    if c == '!' || c == '@' || c == '#' {
        assert(symbols.contains(c));
    }
}

/// Tells which command a key is bound to.
pub fn classify(key: Key) -> (command: Command)
    ensures
        command == command_for(key),
{
    proof {
        if let Key::Char(c) = key {
            lemma_symbol_positions(c);
        }
    }
    match key {
        Key::Char(c) => {
            if c == '!' {
                Command::SelectTab(Tab::Tracks)
            } else if c == '@' {
                Command::SelectTab(Tab::Composition)
            } else if c == '#' {
                Command::SelectTab(Tab::Preview)
            } else if c == 'H' {
                Command::MoveTrack(Direction::Left)
            } else if c == 'L' {
                Command::MoveTrack(Direction::Right)
            } else if c == ' ' {
                Command::Play
            } else if c == 'q' {
                Command::Quit
            } else {
                Command::Ignore
            }
        },
        Key::Other => Command::Ignore,
    }
}

/// The track reached from `track` by one move. The track count is added
/// before the remainder is taken, so that nothing negative is ever divided.
pub open spec fn moved(track: int, direction: Direction) -> int {
    (track + direction.delta() + TRACKS_NUM) % (TRACKS_NUM as int)
}

/// The track reached from `track` by a series of moves, the first move first.
pub open spec fn moved_along(track: int, moves: Seq<Direction>) -> int
    decreases moves.len(),
{
    if moves.len() == 0 {
        track
    } else {
        moved(moved_along(track, moves.drop_last()), moves.last())
    }
}

/// The application state as a value.
pub struct AppState {
    pub current_tab: Tab,
    pub selected_track: int,
    pub exit: bool,
}

impl AppState {
    /// The state in which the application starts.
    pub open spec fn initial() -> AppState {
        AppState { current_tab: Tab::Tracks, selected_track: 0, exit: false }
    }

    /// The selected track is one of the tracks.
    pub open spec fn valid(self) -> bool {
        0 <= self.selected_track < TRACKS_NUM
    }

    /// The state after a command.
    pub open spec fn apply(self, command: Command) -> AppState {
        match command {
            Command::SelectTab(tab) => AppState { current_tab: tab, ..self },
            Command::MoveTrack(direction) => AppState {
                selected_track: moved(self.selected_track, direction),
                ..self
            },
            Command::Play => self,
            Command::Quit => AppState { exit: true, ..self },
            Command::Ignore => self,
        }
    }

    /// The state after an event: a key press applies its command, anything
    /// else changes nothing.
    pub open spec fn reduce(self, event: InputEvent) -> AppState {
        self.apply(event.command())
    }

    /// The state in which the event loop stops when it starts in `self` and is
    /// fed `events` from position `from` on: it handles one event after the
    /// other until it has exited or the events have run out.
    pub open spec fn run_from(self, events: Seq<InputEvent>, from: int) -> AppState
        decreases events.len() - from,
    {
        if self.exit || from < 0 || from >= events.len() {
            self
        } else {
            self.reduce(events[from]).run_from(events, from + 1)
        }
    }

    /// How many of `events`, from position `from` on, the loop handles before
    /// it stops.
    pub open spec fn handled_from(self, events: Seq<InputEvent>, from: int) -> int
        decreases events.len() - from,
    {
        if self.exit || from < 0 || from >= events.len() {
            0
        } else {
            1 + self.reduce(events[from]).handled_from(events, from + 1)
        }
    }
}

/// What the owner of the output device is asked to do for a command.
pub open spec fn effect_of(command: Command) -> Effect {
    if command == Command::Play {
        Effect::Play
    } else {
        Effect::Nothing
    }
}

/// The content of the Tracks tab: which of the tracks is the selected one.
#[derive(Clone, Copy, Debug)]
pub struct TracksView {
    selected_track: usize,
}

/// One cell of the Tracks tab.
#[derive(Clone, Copy, Debug, PartialEq, Eq, Structural)]
pub struct TrackCell {
    /// The number shown in the cell: the track's position, counted from 1.
    pub label: usize,
    /// Whether the cell is drawn as the selected one.
    pub selected: bool,
}

impl TracksView {
    /// The track that the view shows as selected.
    pub closed spec fn selection(self) -> usize {
        self.selected_track
    }

    pub fn new(selected_track: usize) -> (view: TracksView)
        ensures
            view.selection() == selected_track,
    {
        TracksView { selected_track }
    }

    /// Brings any number into the range of the tracks.
    pub fn wrap(input: usize) -> (track: usize)
        ensures
            track == input % TRACKS_NUM,
            track < TRACKS_NUM,
    {
        input % TRACKS_NUM
    }

    pub fn selected_track(&self) -> (track: usize)
        ensures
            track == self.selection(),
    {
        self.selected_track
    }

    /// The cells of the tab from left to right: one for each track, labelled
    /// from 1, the selected track's cell marked.
    pub fn cells(&self) -> (cells: Vec<TrackCell>)
        ensures
            cells@.len() == TRACKS_NUM,
            forall|i: int|
                0 <= i < TRACKS_NUM ==> #[trigger] cells@[i] == (TrackCell {
                    label: (i + 1) as usize,
                    selected: i == self.selection(),
                }),
    {
        let mut cells: Vec<TrackCell> = Vec::new();
        let mut i: usize = 0;
        while i < TRACKS_NUM
            invariant
                i <= TRACKS_NUM,
                cells@.len() == i,
                forall|j: int|
                    0 <= j < i ==> #[trigger] cells@[j] == (TrackCell {
                        label: (j + 1) as usize,
                        selected: j == self.selection(),
                    }),
            decreases TRACKS_NUM - i,
        {
            cells.push(TrackCell { label: i + 1, selected: self.selected_track == i });
            i += 1;
        }
        cells
    }
}

impl Default for TracksView {
    fn default() -> (view: TracksView)
        ensures
            view.selection() == 0,
    {
        TracksView { selected_track: 0 }
    }
}

/// The application: the current tab, the selected track, and whether the
/// event loop is to stop. The selected track is always one of the tracks.
#[derive(Debug)]
pub struct App {
    current_tab: Tab,
    exit: bool,
    selected_track: usize,
}

impl App {
    #[verifier::type_invariant]
    spec fn track_in_range(self) -> bool {
        self.selected_track < TRACKS_NUM
    }

    /// The application's state as a value.
    pub closed spec fn view(&self) -> AppState {
        AppState {
            current_tab: self.current_tab,
            selected_track: self.selected_track as int,
            exit: self.exit,
        }
    }

    /// An application on the first tab and the first track, running.
    pub fn new() -> (app: App)
        ensures
            app@ == AppState::initial(),
            app@.valid(),
    {
        App { current_tab: Tab::Tracks, exit: false, selected_track: 0 }
    }

    pub fn current_tab(&self) -> (tab: Tab)
        ensures
            tab == self@.current_tab,
    {
        self.current_tab
    }

    pub fn selected_track(&self) -> (track: usize)
        ensures
            track == self@.selected_track,
            track < TRACKS_NUM,
    {
        proof {
            use_type_invariant(self);
        }
        self.selected_track
    }

    /// Whether the event loop is to stop.
    pub fn should_exit(&self) -> (exit: bool)
        ensures
            exit == self@.exit,
    {
        self.exit
    }

    /// The content of the Tracks tab for the current selection.
    pub fn tracks_view(&self) -> (view: TracksView)
        ensures
            view.selection() == self@.selected_track,
    {
        TracksView::new(self.selected_track)
    }

    /// Makes `tab` the current tab, whatever the current one is.
    pub fn select_tab(&mut self, tab: Tab)
        ensures
            final(self)@ == old(self)@.apply(Command::SelectTab(tab)),
            final(self)@.current_tab == tab,
            final(self)@.valid(),
    {
        proof {
            use_type_invariant(&*self);
        }
        self.current_tab = tab;
    }

    /// Moves the selection one track to the left or to the right, from the
    /// first track round to the last and from the last round to the first.
    pub fn move_track(&mut self, direction: Direction)
        ensures
            final(self)@ == old(self)@.apply(Command::MoveTrack(direction)),
            final(self)@.selected_track == moved(old(self)@.selected_track, direction),
            final(self)@.valid(),
    {
        proof {
            use_type_invariant(&*self);
        }
        let step: usize = match direction {
            Direction::Left => TRACKS_NUM - 1,
            Direction::Right => 1,
        };
        self.selected_track = TracksView::wrap(self.selected_track + step);
    }

    /// Asks the event loop to stop.
    pub fn exit(&mut self)
        ensures
            final(self)@ == old(self)@.apply(Command::Quit),
            final(self)@.exit,
            final(self)@.valid(),
    {
        proof {
            use_type_invariant(&*self);
        }
        self.exit = true;
    }

    /// Applies the command bound to the key of a key event, and says whether
    /// the phrase is to be played for it. What happened to the key is not
    /// looked at: `handle_events` hands on the presses only.
    pub fn handle_key_event(&mut self, key_event: KeyEvent) -> (effect: Effect)
        ensures
            final(self)@ == old(self)@.apply(command_for(key_event.code)),
            effect == effect_of(command_for(key_event.code)),
            final(self)@.valid(),
    {
        proof {
            use_type_invariant(&*self);
        }
        match classify(key_event.code) {
            Command::SelectTab(tab) => {
                self.select_tab(tab);
                Effect::Nothing
            },
            Command::MoveTrack(direction) => {
                self.move_track(direction);
                Effect::Nothing
            },
            Command::Play => Effect::Play,
            Command::Quit => {
                self.exit();
                Effect::Nothing
            },
            Command::Ignore => Effect::Nothing,
        }
    }

    /// Handles one event of the input stream: a key press goes to
    /// `handle_key_event`, anything else is dropped.
    pub fn handle_events(&mut self, event: InputEvent) -> (effect: Effect)
        ensures
            final(self)@ == old(self)@.reduce(event),
            effect == effect_of(event.command()),
            !event.is_press() ==> final(self)@ == old(self)@ && effect == Effect::Nothing,
            final(self)@.valid(),
    {
        proof {
            use_type_invariant(&*self);
        }
        match event {
            InputEvent::Key(key_event) => {
                match key_event.kind {
                    KeyEventKind::Press => self.handle_key_event(key_event),
                    _ => Effect::Nothing,
                }
            },
            InputEvent::Other => Effect::Nothing,
        }
    }

    /// Runs the event loop over recorded events: handles them in order until
    /// the application has exited or the events have run out, and returns how
    /// many it handled. Requests to play are dropped.
    pub fn run(&mut self, events: &Vec<InputEvent>) -> (handled: usize)
        ensures
            final(self)@ == old(self)@.run_from(events@, 0),
            handled == old(self)@.handled_from(events@, 0),
            handled <= events@.len(),
            handled < events@.len() ==> final(self)@.exit,
            final(self)@.valid(),
    {
        proof {
            use_type_invariant(&*self);
        }
        let ghost start = self@;
        let mut i: usize = 0;
        while i < events.len() && !self.exit
            invariant
                i <= events@.len(),
                self@.valid(),
                start.run_from(events@, 0) == self@.run_from(events@, i as int),
                start.handled_from(events@, 0) == i + self@.handled_from(events@, i as int),
            decreases events@.len() - i,
        {
            let _ = self.handle_events(events[i]);
            i += 1;
        }
        i
    }
}

impl Default for App {
    fn default() -> (app: App)
        ensures
            app@ == AppState::initial(),
    {
        App::new()
    }
}

/// However often and in whichever directions the selection moves, it stays on
/// one of the tracks.
pub proof fn lemma_moves_stay_in_range(track: int, moves: Seq<Direction>)
    requires
        0 <= track < TRACKS_NUM,
    ensures
        0 <= moved_along(track, moves) < TRACKS_NUM,
    decreases moves.len(),
{
    if moves.len() > 0 {
        lemma_moves_stay_in_range(track, moves.drop_last());
    }
}

/// A move to the left from the first track reaches the last one, and a move to
/// the right from the last track reaches the first.
pub proof fn lemma_moves_wrap_around()
    ensures
        moved(0, Direction::Left) == TRACKS_NUM - 1,
        moved(TRACKS_NUM - 1, Direction::Right) == 0,
{
}

/// Away from the two ends a move changes the track by exactly one, and a move
/// followed by the opposite move leads back.
pub proof fn lemma_moves_are_steps(track: int)
    requires
        0 <= track < TRACKS_NUM,
    ensures
        track > 0 ==> moved(track, Direction::Left) == track - 1,
        track < TRACKS_NUM - 1 ==> moved(track, Direction::Right) == track + 1,
        moved(moved(track, Direction::Left), Direction::Right) == track,
        moved(moved(track, Direction::Right), Direction::Left) == track,
{
}

/// Pressing one of the three tab symbols selects the tab at the symbol's
/// position among them, whatever the state was, and changes nothing else.
pub proof fn lemma_symbol_selects_its_tab(state: AppState, position: int)
    requires
        0 <= position < shift_symbols().len(),
    ensures
        state.reduce(InputEvent::Key(KeyEvent::press(shift_symbols()[position]))).current_tab.ordinal_spec()
            == position,
        state.reduce(InputEvent::Key(KeyEvent::press(shift_symbols()[position]))).selected_track
            == state.selected_track,
        state.reduce(InputEvent::Key(KeyEvent::press(shift_symbols()[position]))).exit == state.exit,
{
    lemma_symbol_positions(shift_symbols()[position]);
}

/// Every event leaves a valid state valid.
pub proof fn lemma_reduce_keeps_valid(state: AppState, event: InputEvent)
    requires
        state.valid(),
    ensures
        state.reduce(event).valid(),
{
}

/// Only the press of the quit key stops the application, and nothing starts it
/// again: after an event the application has exited exactly if it had exited
/// before or the event is that press. A request to play never stops it.
pub proof fn lemma_exit_only_by_quit(state: AppState, event: InputEvent)
    ensures
        state.reduce(event).exit <==> state.exit || event == InputEvent::Key(KeyEvent::press('q')),
        effect_of(event.command()) == Effect::Play ==> state.reduce(event) == state,
        !event.is_press() ==> state.reduce(event) == state,
{
    if let InputEvent::Key(key_event) = event {
        if let Key::Char(c) = key_event.code {
            lemma_symbol_positions(c);
        }
    }
}

/// The event loop over recorded events stops in a valid state, and either
/// exited or with all events handled.
pub proof fn lemma_run_keeps_valid(state: AppState, events: Seq<InputEvent>, from: int)
    requires
        state.valid(),
        0 <= from <= events.len(),
    ensures
        state.run_from(events, from).valid(),
        0 <= state.handled_from(events, from) <= events.len() - from,
        state.run_from(events, from).exit || state.handled_from(events, from) == events.len() - from,
    decreases events.len() - from,
{
    if !state.exit && from < events.len() {
        lemma_run_keeps_valid(state.reduce(events[from]), events, from + 1);
    }
}

} // verus!
