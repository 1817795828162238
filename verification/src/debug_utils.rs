//! Aids for watching a running game: a line from the selected entity to the
//! cursor, a periodic report of what stands where, and a small console.

use crate::algebra_basics::Coordinates;
use crate::game_controller::game_managers::{BasicState, UserInput};
use crate::game_data::game_object::GameObject;
use crate::game_data::gameboard::Gameboard;
use vstd::prelude::*;
use vstd::string::*;

verus! {

/// A command of the console.
#[derive(Clone, Copy, Debug, PartialEq, Eq, Structural)]
pub enum ConsoleCommand {
    /// Nothing to do.
    NoCommand,
    /// Close the console.
    Disable,
    /// Put the entity under `id` at `new_position`.
    MoveObject { id: u32, new_position: Coordinates },
}

/// A segment to draw, from `a` to `b`.
#[derive(Clone, Copy, Debug, PartialEq, Eq, Structural)]
pub struct LineObject {
    pub a: Coordinates,
    pub b: Coordinates,
}

/// The state of the aids. Times are in milliseconds on a clock that the
/// caller reads.
#[derive(Clone, Copy, Debug, PartialEq, Eq, Structural)]
pub struct DebugState {
    pub debug_line: LineObject,
    pub debug_prints_enabled: bool,
    pub console_commands_enabled: bool,
    pub last_print_time: u64,
    pub debug_tick_time: u64,
    pub last_command: ConsoleCommand,
}

/// What holds a [`DebugState`] and lends it out.
pub trait DebugStateContainer {
    fn get_debug_state(&mut self) -> &mut DebugState;
}

/// What a periodic report shows: every entity with its identifier, and the
/// cursor where the input carries one.
pub struct DebugReport {
    pub objects: Vec<(u32, GameObject)>,
    pub cursor: Option<Coordinates>,
}

/// Why a line typed into the console was not understood.
#[derive(Clone, Copy, Debug, PartialEq, Eq, Structural)]
pub enum ConsoleCommandError {
    ParsingError,
    NotEnoughArguments { expected: usize, got: usize },
    UnknownCommand,
}

/// The point that the input carries.
pub open spec fn cursor_of(input: UserInput) -> Option<Coordinates> {
    match input {
        UserInput::NoInputCursorPos(coordinates) => Some(coordinates),
        UserInput::LeftMouse(coordinates) => Some(coordinates),
        UserInput::RightMouse(coordinates) => Some(coordinates),
        _ => None,
    }
}

/// Where the selected entity stands, if there is one.
pub open spec fn selected_position(basic_state: BasicState) -> Option<Coordinates> {
    if basic_state.gameboard@.contains_key(basic_state.current_selected_id) {
        Some(basic_state.gameboard@[basic_state.current_selected_id].position)
    } else {
        None
    }
}

/// Draws the line from the selected entity to the cursor, where there are
/// both; else the line stays.
pub fn process_debug_line(basic_state: &BasicState, debug_state: DebugState) -> (r: DebugState)
    ensures
        r == (DebugState {
            debug_line: match (cursor_of(basic_state.external_event), selected_position(*basic_state)) {
                (Some(cursor_pos), Some(object_pos)) => LineObject { a: object_pos, b: cursor_pos },
                _ => debug_state.debug_line,
            },
            ..debug_state
        }),
{
    let mut debug_state = debug_state;
    let cursor_pos = basic_state.external_event.get_coordinates_if_mouse_input();
    let current_selected_coordinates = current_selected_pos(basic_state);
    if let (Some(cursor_pos), Some(object_pos)) = (cursor_pos, current_selected_coordinates) {
        debug_state.debug_line = LineObject { a: object_pos, b: *cursor_pos };
    }
    debug_state
}

/// The key D switches the reports on, the key C the console.
pub fn process_debug_enabled(basic_state: &BasicState, debug_state: DebugState) -> (r: DebugState)
    ensures
        r == (DebugState {
            debug_prints_enabled: debug_state.debug_prints_enabled
                || basic_state.external_event == UserInput::D,
            console_commands_enabled: debug_state.console_commands_enabled
                || basic_state.external_event == UserInput::C,
            ..debug_state
        }),
{
    let mut debug_state = debug_state;
    match basic_state.external_event {
        UserInput::D => {
            debug_state.debug_prints_enabled = true;
        },
        UserInput::C => {
            debug_state.console_commands_enabled = true;
        },
        _ => {},
    }
    debug_state
}

/// Whether a report is due at the time `now`: reports are switched on and
/// more than a tick has passed since the last one.
pub open spec fn report_due(debug_state: DebugState, now: u64) -> bool {
    debug_state.debug_prints_enabled && now - debug_state.last_print_time
        > debug_state.debug_tick_time
}

/// The report that is due at the time `now`, for the caller to print; with
/// it the time of the last report becomes `now`. `None`, and no change,
/// where none is due. The clock must not have gone back behind the last
/// report.
pub fn print_object_positions_and_sizes(
    basic_state: &BasicState,
    debug_state: &mut DebugState,
    now: u64,
) -> (r: Option<DebugReport>)
    requires
        basic_state.gameboard.wf(),
        old(debug_state).debug_prints_enabled ==> now >= old(debug_state).last_print_time,
    ensures
        r is Some == report_due(*old(debug_state), now),
        *final(debug_state) == (DebugState {
            last_print_time: if report_due(*old(debug_state), now) {
                now
            } else {
                old(debug_state).last_print_time
            },
            ..*old(debug_state)
        }),
        r is Some ==> r->0.cursor == cursor_of(basic_state.external_event) && r->0.objects@
            == Gameboard::entries_in_order(
            basic_state.gameboard@,
            basic_state.gameboard.next_id() as nat,
        ),
{
    if !debug_state.debug_prints_enabled {
        return None;
    }
    if now - debug_state.last_print_time <= debug_state.debug_tick_time {
        return None;
    }
    debug_state.last_print_time = now;
    let objects = basic_state.gameboard.get_all_entries();
    let cursor = match basic_state.external_event.get_coordinates_if_mouse_input() {
        Some(coordinates) => Some(*coordinates),
        None => None,
    };
    Some(DebugReport { objects, cursor })
}

/// Where the selected entity stands, if there is one.
pub fn current_selected_pos(basic_state: &BasicState) -> (r: Option<Coordinates>)
    ensures
        r == selected_position(*basic_state),
{
    let current_id = basic_state.current_selected_id;
    if let Some(object) = basic_state.gameboard.get_object_by_id(current_id) {
        return Some(object.position);
    }
    None
}

/// The decimal digit for `d`.
pub open spec fn digit(d: nat) -> char
    recommends
        d < 10,
{
    if d == 0 {
        '0'
    } else if d == 1 {
        '1'
    } else if d == 2 {
        '2'
    } else if d == 3 {
        '3'
    } else if d == 4 {
        '4'
    } else if d == 5 {
        '5'
    } else if d == 6 {
        '6'
    } else if d == 7 {
        '7'
    } else if d == 8 {
        '8'
    } else {
        '9'
    }
}

/// `n` written in decimal digits.
pub open spec fn decimal(n: nat) -> Seq<char>
    decreases n,
{
    if n < 10 {
        seq![digit(n)]
    } else {
        decimal(n / 10).push(digit(n % 10))
    }
}

fn digit_text(d: usize) -> (r: &'static str)
    requires
        d < 10,
    ensures
        r@ == seq![digit(d as nat)],
{
    proof {
        reveal_strlit("0");
        reveal_strlit("1");
        reveal_strlit("2");
        reveal_strlit("3");
        reveal_strlit("4");
        reveal_strlit("5");
        reveal_strlit("6");
        reveal_strlit("7");
        reveal_strlit("8");
        reveal_strlit("9");
    }
    let text = if d == 0 {
        "0"
    } else if d == 1 {
        "1"
    } else if d == 2 {
        "2"
    } else if d == 3 {
        "3"
    } else if d == 4 {
        "4"
    } else if d == 5 {
        "5"
    } else if d == 6 {
        "6"
    } else if d == 7 {
        "7"
    } else if d == 8 {
        "8"
    } else {
        "9"
    };
    assert(text@ =~= seq![digit(d as nat)]);
    text
}

fn decimal_text(n: usize) -> (r: String)
    ensures
        r@ == decimal(n as nat),
    decreases n,
{
    if n < 10 {
        String::from_str(digit_text(n))
    } else {
        let head = decimal_text(n / 10);
        let r = head.concat(digit_text(n % 10));
        assert(r@ =~= decimal((n / 10) as nat).push(digit((n % 10) as nat)));
        r
    }
}

impl ConsoleCommandError {
    /// The words that tell the user of the error.
    pub open spec fn spec_message(self) -> Seq<char> {
        match self {
            ConsoleCommandError::ParsingError => "Incorrect argument provided"@,
            ConsoleCommandError::NotEnoughArguments { expected, got } => {
                "Not enough arguments, expected: "@ + decimal(expected as nat) + ", got: "@
                    + decimal(got as nat)
            },
            ConsoleCommandError::UnknownCommand => "Unknown command"@,
        }
    }

    /// The words that tell the user of the error.
    pub fn message(&self) -> (r: String)
        ensures
            r@ == self.spec_message(),
    {
        match self {
            ConsoleCommandError::ParsingError => String::from_str("Incorrect argument provided"),
            ConsoleCommandError::NotEnoughArguments { expected, got } => {
                let text = String::from_str("Not enough arguments, expected: ");
                let text = text.concat(decimal_text(*expected).as_str());
                let text = text.concat(", got: ");
                text.concat(decimal_text(*got).as_str())
            },
            ConsoleCommandError::UnknownCommand => String::from_str("Unknown command"),
        }
    }
}

/// The length of the first word of `text`: the index of its first space,
/// or its length where it has none.
pub open spec fn first_word_len(text: Seq<char>) -> nat
    decreases text.len(),
{
    if text.len() == 0 || text[0] == ' ' {
        0
    } else {
        1 + first_word_len(text.drop_first())
    }
}

/// What a line of the console means. Its last character, the end of the
/// line, does not count; the first word of the rest is the command.
pub open spec fn command_of(line: Seq<char>) -> Result<ConsoleCommand, ConsoleCommandError>
    recommends
        line.len() > 0,
{
    let text = line.drop_last();
    let word = text.take(first_word_len(text) as int);
    if word == seq!['e', 'x', 'i', 't'] {
        Ok(ConsoleCommand::Disable)
    } else if word == seq!['m', 'o', 'v', 'e'] {
        Ok(ConsoleCommand::NoCommand)
    } else {
        Err(ConsoleCommandError::UnknownCommand)
    }
}

proof fn lemma_first_word_len(text: Seq<char>, i: int)
    requires
        0 <= i <= text.len(),
        forall|j: int| 0 <= j < i ==> text[j] != ' ',
        i == text.len() || text[i] == ' ',
    ensures
        first_word_len(text) == i,
    decreases i,
{
    if i > 0 {
        let rest = text.drop_first();
        assert forall|j: int| 0 <= j < i - 1 implies rest[j] != ' ' by {
            assert(rest[j] == text[j + 1]);
        }
        lemma_first_word_len(rest, i - 1);
    }
}

/// Understands a line typed into the console: `exit` closes it, `move`
/// does nothing yet, any other first word is unknown. The line ends with
/// its line break, which is dropped.
pub fn parse_command(command: String) -> (r: Result<ConsoleCommand, ConsoleCommandError>)
    requires
        command@.len() > 0,
    ensures
        r == command_of(command@),
{
    let line = command.as_str();
    let end: usize = line.unicode_len() - 1;
    let ghost text = line@.drop_last();
    let mut i: usize = 0;
    while i < end && line.get_char(i) != ' '
        invariant
            i <= end,
            end == line@.len() - 1,
            text == line@.drop_last(),
            forall|j: int| 0 <= j < i ==> text[j] != ' ',
        decreases end - i,
    {
        i += 1;
    }
    proof {
        lemma_first_word_len(text, i as int);
    }
    let ghost word = text.take(i as int);
    if i == 4 {
        let c0 = line.get_char(0);
        let c1 = line.get_char(1);
        let c2 = line.get_char(2);
        let c3 = line.get_char(3);
        assert(word =~= seq![c0, c1, c2, c3]);
        if c0 == 'e' && c1 == 'x' && c2 == 'i' && c3 == 't' {
            return Ok(ConsoleCommand::Disable);
        }
        if c0 == 'm' && c1 == 'o' && c2 == 'v' && c3 == 'e' {
            return Ok(ConsoleCommand::NoCommand);
        }
        assert(word != seq!['e', 'x', 'i', 't']) by {
            if word == seq!['e', 'x', 'i', 't'] {
                assert(word[0] == 'e' && word[1] == 'x' && word[2] == 'i' && word[3] == 't');
            }
        }
        assert(word != seq!['m', 'o', 'v', 'e']) by {
            if word == seq!['m', 'o', 'v', 'e'] {
                assert(word[0] == 'm' && word[1] == 'o' && word[2] == 'v' && word[3] == 'e');
            }
        }
        return Err(ConsoleCommandError::UnknownCommand);
    }
    assert(word.len() != 4);
    assert(seq!['e', 'x', 'i', 't'].len() == 4);
    assert(seq!['m', 'o', 'v', 'e'].len() == 4);
    Err(ConsoleCommandError::UnknownCommand)
}

/// Reads the argument at `arg_position` with `parse`.
///
/// Where `args` has no such argument the error says how many were expected
/// and got, as `arg_position` and one less; for that `arg_position` must
/// not be zero.
pub fn parse_arg<T, P: Fn(&str) -> Option<T>>(args: &Vec<&str>, arg_position: usize, parse: P) -> (r:
    Result<T, ConsoleCommandError>)
    requires
        arg_position < args.len() || arg_position > 0,
        forall|arg: &str| #[trigger] parse.requires((arg,)),
    ensures
        match r {
            Ok(parsed_arg) => arg_position < args.len() && parse.ensures(
                (args[arg_position as int],),
                Some(parsed_arg),
            ),
            Err(ConsoleCommandError::ParsingError) => arg_position < args.len() && parse.ensures(
                (args[arg_position as int],),
                None,
            ),
            Err(error) => arg_position >= args.len() && error
                == (ConsoleCommandError::NotEnoughArguments {
                expected: arg_position,
                got: (arg_position - 1) as usize,
            }),
        },
{
    if arg_position < args.len() {
        let arg = args[arg_position];
        return match parse(arg) {
            Some(parsed_arg) => Ok(parsed_arg),
            None => Err(ConsoleCommandError::ParsingError),
        };
    }
    Err(ConsoleCommandError::NotEnoughArguments { expected: arg_position, got: arg_position - 1 })
}

/// Whether the console waits for a line: it is switched on and was not
/// told to close.
pub open spec fn console_reads(debug_state: DebugState) -> bool {
    debug_state.console_commands_enabled && debug_state.last_command != ConsoleCommand::Disable
}

/// Whether the console waits for a line, which the caller then reads and
/// hands to [`process_console_command`].
pub fn console_wants_input(debug_state: &DebugState) -> (r: bool)
    ensures
        r == console_reads(*debug_state),
{
    debug_state.console_commands_enabled && !(debug_state.last_command == ConsoleCommand::Disable)
}

/// The state of the aids after the console's turn, given the line that was
/// read where the console waits for one (`None` where reading failed).
pub open spec fn after_console(debug_state: DebugState, input: Option<Seq<char>>) -> DebugState {
    if !debug_state.console_commands_enabled {
        debug_state
    } else if debug_state.last_command == ConsoleCommand::Disable {
        DebugState { console_commands_enabled: false, ..debug_state }
    } else {
        match input {
            Some(line) => match command_of(line) {
                Ok(command) => DebugState { last_command: command, ..debug_state },
                Err(_) => debug_state,
            },
            None => DebugState { last_command: ConsoleCommand::NoCommand, ..debug_state },
        }
    }
}

/// The console's turn. A console told to close is switched off. A console
/// that waits for a line takes `input`, the line that the caller has read,
/// or `None` where reading failed: a line understood becomes the last
/// command, one not understood gives the error for the caller to show.
pub fn process_console_command(debug_state: DebugState, input: Option<String>) -> (r: (
    DebugState,
    Option<ConsoleCommandError>,
))
    requires
        console_reads(debug_state) && input is Some ==> input->0@.len() > 0,
    ensures
        r.0 == after_console(
            debug_state,
            match input {
                Some(line) => Some(line@),
                None => None,
            },
        ),
        r.1 == if console_reads(debug_state) && input is Some {
            match command_of(input->0@) {
                Ok(_) => None,
                Err(error) => Some(error),
            }
        } else {
            None
        },
{
    let mut debug_state = debug_state;
    if !debug_state.console_commands_enabled {
        return (debug_state, None);
    }
    if debug_state.last_command == ConsoleCommand::Disable {
        debug_state.console_commands_enabled = false;
        return (debug_state, None);
    }
    let command = match input {
        Some(line) => parse_command(line),
        None => Ok(ConsoleCommand::NoCommand),
    };
    match command {
        Ok(command) => {
            debug_state.last_command = command;
            (debug_state, None)
        },
        Err(error) => (debug_state, Some(error)),
    }
}

} // verus!
