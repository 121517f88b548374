use vstd::prelude::*;

verus! {

/// The settings that a game is started with.
#[derive(Clone, Copy, Debug, PartialEq, Eq, Structural)]
pub struct GameConfig {
    pub grid_width: i32,
    pub grid_height: i32,
    pub num_rocks: usize,
    pub wrap_around: bool,
    pub enable_portals: bool,
}

/// The error that `str::parse` gives for text that is no `i32`.
#[verifier::external_type_specification]
#[verifier::external_body]
pub struct ExParseIntError(core::num::ParseIntError);

/// What `str::trim` leaves of a text: the text without the white space at
/// its two ends.
pub uninterp spec fn trimmed(text: Seq<char>) -> Seq<char>;

/// What `str::to_lowercase` makes of a text.
pub uninterp spec fn lowercased(text: Seq<char>) -> Seq<char>;

/// The number that `str::parse::<i32>` reads from a text, if it reads one.
pub uninterp spec fn parsed_i32(text: Seq<char>) -> Option<i32>;

/// What an answer to a yes-or-no question means once it is trimmed and in
/// lower case: `yes` is `true`, `no` is `false`, and nothing else is an
/// answer.
pub open spec fn answer_meaning(answer: Seq<char>) -> Option<bool> {
    if answer == "yes"@ {
        Some(true)
    } else if answer == "no"@ {
        Some(false)
    } else {
        None
    }
}

/// Calls `str::trim`. The result is the text without leading and trailing
/// white space, as that method defines it.
#[verifier::external_body]
fn trim_text(text: &str) -> (inner: &str)
    ensures
        inner@ == trimmed(text@),
{
    text.trim()
}

/// Calls `str::to_lowercase`. The result is the lower-case form of the text,
/// as that method defines it.
#[verifier::external_body]
fn lowercase_text(text: &str) -> (lower: String)
    ensures
        lower@ == lowercased(text@),
{
    text.to_lowercase()
}

/// Calls `str::parse::<i32>`. The result is `Ok` with the number exactly when
/// the text reads as an `i32`.
#[verifier::external_body]
fn parse_i32_text(text: &str) -> (read: Result<i32, core::num::ParseIntError>)
    ensures
        read matches Ok(number) ==> parsed_i32(text@) == Some(number),
        read is Err ==> parsed_i32(text@) is None,
{
    text.parse::<i32>()
}

/// Reads a line that was typed at a prompt for a number: the line is trimmed
/// and read as an `i32`. `None` means that the line holds no such number.
pub fn parse_number(line: &str) -> (number: Option<i32>)
    ensures
        number == parsed_i32(trimmed(line@)),
{
    match parse_i32_text(trim_text(line)) {
        Ok(value) => Some(value),
        Err(_) => None,
    }
}

/// Reads an answer that is already trimmed and in lower case.
pub fn read_answer(answer: &String) -> (meaning: Option<bool>)
    ensures
        meaning == answer_meaning(answer@),
{
    let yes = "yes".to_owned();
    let no = "no".to_owned();
    if *answer == yes {
        Some(true)
    } else if *answer == no {
        Some(false)
    } else {
        None
    }
}

/// Reads a line that was typed at a yes-or-no prompt: the line is trimmed,
/// put in lower case and read as an answer. `None` means that the question
/// has to be asked again.
pub fn parse_yes_no(line: &str) -> (meaning: Option<bool>)
    ensures
        meaning == answer_meaning(lowercased(trimmed(line@))),
{
    let normalized = lowercase_text(trim_text(line));
    read_answer(&normalized)
}

impl GameConfig {
    /// Whether a game can be played with these settings: the grid has at
    /// least one column and one row.
    pub open spec fn valid(self) -> bool {
        self.grid_width > 0 && self.grid_height > 0
    }

    /// The settings made of the values that were read at the prompts, or
    /// `None` when the grid would have no cell or the number of rocks is
    /// negative.
    pub fn new(
        grid_width: i32,
        grid_height: i32,
        num_rocks: i32,
        wrap_around: bool,
        enable_portals: bool,
    ) -> (config: Option<GameConfig>)
        ensures
            config is Some <==> grid_width > 0 && grid_height > 0 && num_rocks >= 0,
            config matches Some(c) ==> c.valid() && c == (GameConfig {
                grid_width,
                grid_height,
                num_rocks: num_rocks as usize,
                wrap_around,
                enable_portals,
            }),
    {
        if grid_width > 0 && grid_height > 0 && num_rocks >= 0 {
            Some(
                GameConfig {
                    grid_width,
                    grid_height,
                    num_rocks: num_rocks as usize,
                    wrap_around,
                    enable_portals,
                },
            )
        } else {
            None
        }
    }
}

} // verus!
