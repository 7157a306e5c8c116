//! Capitalization engines: which characters of a text become capitals.

use crate::text::{
    char_lowercase, char_uppercase, chars_of, count_occurrences, lowercase, lowercase_of,
    occurrences, push_chars, same_chars, str_lowercase, uppercase_of,
};
use vstd::prelude::*;
use vstd::string::*;

verus! {

/// What `char::is_whitespace` answers for `c`: whether `c` has the Unicode property
/// `White_Space`.
pub uninterp spec fn char_is_whitespace(c: char) -> bool;

/// Calls `char::is_whitespace`. Not proved: that the answer is [`char_is_whitespace`] of the
/// character, which names that answer.
#[verifier::external_body]
fn is_whitespace(c: char) -> (b: bool)
    ensures
        b == char_is_whitespace(c),
{
    c.is_whitespace()
}

/// Decides, character by character, which ones are written as capitals.
pub trait CapitalizationEngine: Sized {
    /// What the engine answers for the character at `index`, and the engine that it then
    /// is, where both are known beforehand; `None` where they are not, as with an engine
    /// that throws dice.
    spec fn foreseen(&self, index: usize, character: char) -> Option<(bool, Self)>;

    fn should_capitalize(&mut self, index: usize, character: char) -> (capital: bool)
        ensures
            old(self).foreseen(index, character) matches Some((answer, next)) ==> capital
                == answer && *final(self) == next,
    ;
}

/// Capitalizes every other character.
#[derive(Clone, Copy, Debug, PartialEq, Eq, Structural)]
pub struct AlternatingCapitalizationEngine {
    /// Whether the next character is a capital.
    pub next_is_capital: bool,
    /// Whether whitespace leaves the alternation where it is.
    pub skip_whitespace: bool,
}

impl AlternatingCapitalizationEngine {
    /// The engine after it has seen one character, `whitespace` telling whether that
    /// character was whitespace.
    pub open spec fn after(self, whitespace: bool) -> Self {
        AlternatingCapitalizationEngine {
            next_is_capital: if self.skip_whitespace && whitespace {
                self.next_is_capital
            } else {
                !self.next_is_capital
            },
            skip_whitespace: self.skip_whitespace,
        }
    }

    /// Takes one character, of which only `whitespace` matters: answers whether it is a
    /// capital and moves the alternation on.
    pub fn step(&mut self, whitespace: bool) -> (capital: bool)
        ensures
            capital == old(self).next_is_capital,
            *final(self) == old(self).after(whitespace),
    {
        let capital = self.next_is_capital;
        if !(self.skip_whitespace && whitespace) {
            self.next_is_capital = !self.next_is_capital;
        }
        capital
    }
}

impl CapitalizationEngine for AlternatingCapitalizationEngine {
    open spec fn foreseen(&self, index: usize, character: char) -> Option<(bool, Self)> {
        Some((self.next_is_capital, self.after(char_is_whitespace(character))))
    }

    fn should_capitalize(&mut self, _index: usize, character: char) -> (capital: bool)
        ensures
            capital == old(self).next_is_capital,
            *final(self) == old(self).after(char_is_whitespace(character)),
    {
        let whitespace = is_whitespace(character);
        self.step(whitespace)
    }
}

/// The generator of `rand` that each thread has for itself.
#[verifier::external_type_specification]
#[verifier::external_body]
pub struct ExThreadRng(rand::rngs::ThreadRng);

/// Calls `rand::thread_rng`, which hands out the calling thread's generator.
#[verifier::external_body]
fn thread_rng() -> rand::rngs::ThreadRng {
    rand::thread_rng()
}

/// Calls `rand::Rng::gen_ratio` with one in two: a fair coin. Nothing is promised of the
/// answer.
#[verifier::external_body]
fn flip_coin(rng: &mut rand::rngs::ThreadRng) -> bool {
    rand::Rng::gen_ratio(rng, 1, 2)
}

/// Capitalizes each character on the flip of a fair coin.
pub struct RandomCapitalizationEngine {
    rng: rand::rngs::ThreadRng,
}

impl RandomCapitalizationEngine {
    pub fn new() -> RandomCapitalizationEngine {
        RandomCapitalizationEngine { rng: thread_rng() }
    }
}

impl CapitalizationEngine for RandomCapitalizationEngine {
    open spec fn foreseen(&self, index: usize, character: char) -> Option<(bool, Self)> {
        None
    }

    fn should_capitalize(&mut self, _index: usize, _character: char) -> bool {
        flip_coin(&mut self.rng)
    }
}

/// An engine of either kind.
pub enum Engine {
    Alternating(AlternatingCapitalizationEngine),
    Random(RandomCapitalizationEngine),
}

impl CapitalizationEngine for Engine {
    open spec fn foreseen(&self, index: usize, character: char) -> Option<(bool, Self)> {
        match *self {
            Engine::Alternating(engine) => Some(
                (
                    engine.next_is_capital,
                    Engine::Alternating(engine.after(char_is_whitespace(character))),
                ),
            ),
            Engine::Random(_) => None,
        }
    }

    fn should_capitalize(&mut self, index: usize, character: char) -> (capital: bool)
        ensures
            *old(self) matches Engine::Alternating(before) ==> {
                &&& capital == before.next_is_capital
                &&& *final(self) == Engine::Alternating(
                    before.after(char_is_whitespace(character)),
                )
            },
            *old(self) is Random ==> *final(self) is Random,
    {
        match self {
            Engine::Alternating(engine) => engine.should_capitalize(index, character),
            Engine::Random(engine) => engine.should_capitalize(index, character),
        }
    }
}

/// How a text is to be capitalized.
#[derive(Clone, Copy, Debug, PartialEq, Eq, Structural)]
pub enum CapitalizationStrategy {
    AlternatingInitialUppercase,
    AlternatingInitialLowercase,
    AlternatingInitialUppercaseSkipWhitespace,
    AlternatingInitialLowercaseSkipWhitespace,
    Randomly,
}

impl CapitalizationStrategy {
    /// The alternating engine that the strategy starts from; `None` for the random one.
    pub open spec fn alternation(self) -> Option<AlternatingCapitalizationEngine> {
        match self {
            CapitalizationStrategy::AlternatingInitialUppercase => Some(
                AlternatingCapitalizationEngine { next_is_capital: true, skip_whitespace: false },
            ),
            CapitalizationStrategy::AlternatingInitialLowercase => Some(
                AlternatingCapitalizationEngine { next_is_capital: false, skip_whitespace: false },
            ),
            CapitalizationStrategy::AlternatingInitialUppercaseSkipWhitespace => Some(
                AlternatingCapitalizationEngine { next_is_capital: true, skip_whitespace: true },
            ),
            CapitalizationStrategy::AlternatingInitialLowercaseSkipWhitespace => Some(
                AlternatingCapitalizationEngine { next_is_capital: false, skip_whitespace: true },
            ),
            CapitalizationStrategy::Randomly => None,
        }
    }

    /// Create a `CapitalizationEngine` based on this strategy description.
    pub fn create_engine(&self) -> (engine: Engine)
        ensures
            match self.alternation() {
                Some(start) => engine == Engine::Alternating(start),
                None => engine is Random,
            },
    {
        match self {
            Self::AlternatingInitialUppercase => Engine::Alternating(
                AlternatingCapitalizationEngine { next_is_capital: true, skip_whitespace: false },
            ),
            Self::AlternatingInitialLowercase => Engine::Alternating(
                AlternatingCapitalizationEngine { next_is_capital: false, skip_whitespace: false },
            ),
            Self::AlternatingInitialUppercaseSkipWhitespace => Engine::Alternating(
                AlternatingCapitalizationEngine { next_is_capital: true, skip_whitespace: true },
            ),
            Self::AlternatingInitialLowercaseSkipWhitespace => Engine::Alternating(
                AlternatingCapitalizationEngine { next_is_capital: false, skip_whitespace: true },
            ),
            Self::Randomly => Engine::Random(RandomCapitalizationEngine::new()),
        }
    }
}

impl CapitalizationStrategy {
    /// The strategy written out, each in its own style.
    pub open spec fn label(self) -> Seq<char> {
        match self {
            CapitalizationStrategy::AlternatingInitialLowercase => "lIkE ThIs"@,
            CapitalizationStrategy::AlternatingInitialUppercase => "LiKe tHiS"@,
            CapitalizationStrategy::AlternatingInitialLowercaseSkipWhitespace => "lIkE tHiS"@,
            CapitalizationStrategy::AlternatingInitialUppercaseSkipWhitespace => "LiKe ThIs"@,
            CapitalizationStrategy::Randomly => "RAnDOmlY"@,
        }
    }

    /// The strategy as text: its [`label`](Self::label).
    pub fn to_string(&self) -> (text: String)
        ensures
            text@ == self.label(),
    {
        match self {
            Self::AlternatingInitialLowercase => String::from_str("lIkE ThIs"),
            Self::AlternatingInitialUppercase => String::from_str("LiKe tHiS"),
            Self::AlternatingInitialLowercaseSkipWhitespace => String::from_str("lIkE tHiS"),
            Self::AlternatingInitialUppercaseSkipWhitespace => String::from_str("LiKe ThIs"),
            Self::Randomly => String::from_str("RAnDOmlY"),
        }
    }

    /// The strategy that `input` names, if any. The four alternating strategies go by their
    /// exact labels; the random one by any text whose lowercase form holds the word
    /// `randomly` exactly once.
    pub open spec fn named_by(input: Seq<char>) -> Option<CapitalizationStrategy> {
        if input == "lIkE ThIs"@ {
            Some(CapitalizationStrategy::AlternatingInitialLowercase)
        } else if input == "LiKe tHiS"@ {
            Some(CapitalizationStrategy::AlternatingInitialUppercase)
        } else if input == "lIkE tHiS"@ {
            Some(CapitalizationStrategy::AlternatingInitialLowercaseSkipWhitespace)
        } else if input == "LiKe ThIs"@ {
            Some(CapitalizationStrategy::AlternatingInitialUppercaseSkipWhitespace)
        } else if occurrences(str_lowercase(input), "randomly"@) == 1 {
            Some(CapitalizationStrategy::Randomly)
        } else {
            None
        }
    }

    /// What is said of an `input` that names no strategy.
    pub open spec fn unknown_message(input: Seq<char>) -> Seq<char> {
        "Unknown capitalization \""@ + input + "\""@
    }

    /// Reads a strategy from its name.
    pub fn parse(input: &str) -> (parsed: Result<CapitalizationStrategy, String>)
        ensures
            match Self::named_by(input@) {
                Some(strategy) => parsed == Ok::<CapitalizationStrategy, String>(strategy),
                None => parsed matches Err(message) && message@ == Self::unknown_message(input@),
            },
    {
        let chars = chars_of(input);
        if same_chars(&chars, &chars_of("lIkE ThIs")) {
            return Ok(Self::AlternatingInitialLowercase);
        }
        if same_chars(&chars, &chars_of("LiKe tHiS")) {
            return Ok(Self::AlternatingInitialUppercase);
        }
        if same_chars(&chars, &chars_of("lIkE tHiS")) {
            return Ok(Self::AlternatingInitialLowercaseSkipWhitespace);
        }
        if same_chars(&chars, &chars_of("LiKe ThIs")) {
            return Ok(Self::AlternatingInitialUppercaseSkipWhitespace);
        }
        let lower = lowercase(input);
        let needle = chars_of("randomly");
        proof {
            reveal_strlit("randomly");
        }
        if count_occurrences(&chars_of(lower.as_str()), &needle) == 1 {
            return Ok(Self::Randomly);
        }
        let mut message = String::from_str("Unknown capitalization \"");
        message.append(input);
        message.append("\"");
        Err(message)
    }
}

impl core::str::FromStr for CapitalizationStrategy {
    type Err = String;

    fn from_str(input: &str) -> (parsed: Result<Self, String>)
        ensures
            match Self::named_by(input@) {
                Some(strategy) => parsed == Ok::<CapitalizationStrategy, String>(strategy),
                None => parsed matches Err(message) && message@ == Self::unknown_message(input@),
            },
    {
        Self::parse(input)
    }
}

/// `text` with each character in the case that `capitals` gives it: its uppercase form
/// where the flag is set, its lowercase form where it is not.
pub open spec fn recased(text: Seq<char>, capitals: Seq<bool>) -> Seq<char>
    decreases text.len(),
{
    if text.len() == 0 {
        Seq::empty()
    } else {
        recased(text.drop_last(), capitals.drop_last()) + if capitals.last() {
            char_uppercase(text.last())
        } else {
            char_lowercase(text.last())
        }
    }
}

/// Writes `line` in the case that `capitals` says, one flag for each character.
pub fn recase(line: &str, capitals: &Vec<bool>) -> (out: String)
    requires
        capitals@.len() == line@.len(),
    ensures
        out@ == recased(line@, capitals@),
{
    let chars = chars_of(line);
    let mut out = String::new();
    let mut i: usize = 0;
    while i < chars.len()
        invariant
            i <= chars.len(),
            chars@ == line@,
            capitals@.len() == chars@.len(),
            out@ == recased(chars@.take(i as int), capitals@.take(i as int)),
        decreases chars.len() - i,
    {
        let c = chars[i];
        let form = if capitals[i] {
            uppercase_of(c)
        } else {
            lowercase_of(c)
        };
        push_chars(&mut out, &form);
        proof {
            let text = chars@.take(i + 1);
            let flags = capitals@.take(i + 1);
            assert(text.drop_last() == chars@.take(i as int));
            assert(flags.drop_last() == capitals@.take(i as int));
        }
        i = i + 1;
    }
    assert(chars@.take(chars.len() as int) == chars@);
    assert(capitals@.take(chars.len() as int) == capitals@);
    out
}

/// What `engine` answers for the characters of `text` in turn, each with its position,
/// and the engine that it is after them, where all of this is known beforehand.
pub open spec fn foreseen_flags<E: CapitalizationEngine>(engine: E, text: Seq<char>) -> Option<
    (Seq<bool>, E),
>
    decreases text.len(),
{
    if text.len() == 0 {
        Some((Seq::empty(), engine))
    } else {
        match foreseen_flags(engine, text.drop_last()) {
            Some((flags, before)) => match before.foreseen(
                (text.len() - 1) as usize,
                text.last(),
            ) {
                Some((answer, after)) => Some((flags.push(answer), after)),
                None => None,
            },
            None => None,
        }
    }
}

/// Whether `out` is `line` in a case that an engine which was `before` can have
/// answered: in the case that it was known to answer, where that was known, and in some
/// case of its choice otherwise.
pub open spec fn is_capitalized<E: CapitalizationEngine>(
    out: Seq<char>,
    line: Seq<char>,
    before: E,
    after: E,
) -> bool {
    match foreseen_flags(before, line) {
        Some((flags, end)) => out == recased(line, flags) && after == end,
        None => exists|capitals: Seq<bool>|
            capitals.len() == line.len() && out == #[trigger] recased(line, capitals),
    }
}

/// Asks `engine` about each character of `line` in turn, with the character's position in
/// the line, and writes the line in the case that it answers.
pub fn capitalize_line<E: CapitalizationEngine>(engine: &mut E, line: &str) -> (out: String)
    ensures
        is_capitalized(out@, line@, *old(engine), *final(engine)),
{
    let chars = chars_of(line);
    let mut capitals: Vec<bool> = Vec::new();
    let mut i: usize = 0;
    while i < chars.len()
        invariant
            i <= chars.len(),
            capitals@.len() == i,
            foreseen_flags(*old(engine), chars@.take(i as int)) matches Some((flags, now))
                ==> capitals@ == flags && *engine == now,
        decreases chars.len() - i,
    {
        assert(chars@.take(i + 1).drop_last() == chars@.take(i as int));
        let capital = engine.should_capitalize(i, chars[i]);
        capitals.push(capital);
        i = i + 1;
    }
    assert(chars@.take(chars.len() as int) == chars@);
    recase(line, &capitals)
}

/// A line as it is written out: where lines end with a line break, the text and a line
/// break; where they do not, the text, after a space unless the line is the first.
pub open spec fn framed(text: Seq<char>, newline: bool, first: bool) -> Seq<char> {
    if newline {
        text + "\n"@
    } else if first {
        text
    } else {
        " "@ + text
    }
}

/// What is written out for `line`: the line in the case that `engine` answers, framed as
/// a line of its output is.
pub fn write_line<E: CapitalizationEngine>(
    engine: &mut E,
    line: &str,
    newline: bool,
    first: bool,
) -> (out: String)
    ensures
        exists|text: Seq<char>|
            #[trigger] is_capitalized(text, line@, *old(engine), *final(engine)) && out@ == framed(
                text,
                newline,
                first,
            ),
{
    let text = capitalize_line(engine, line);
    let ghost capitalized = text@;
    let out = if newline {
        text.concat("\n")
    } else if first {
        text
    } else {
        String::from_str(" ").concat(text.as_str())
    };
    assert(out@ == framed(capitalized, newline, first));
    out
}

impl Default for CapitalizationStrategy {
    fn default() -> (strategy: Self)
        ensures
            strategy == CapitalizationStrategy::AlternatingInitialUppercase,
    {
        Self::AlternatingInitialUppercase
    }
}

} // verus!
