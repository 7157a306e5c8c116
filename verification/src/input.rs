//! Where the text to work on comes from.

use crate::text::{chars_of, same_chars};
use vstd::prelude::*;

verus! {

/// Where the text comes from.
#[derive(Clone, Copy, Debug, PartialEq, Eq, Structural)]
pub enum InputChoice {
    /// From standard input.
    Stdin,
    /// The text that was given as such.
    Text,
    /// From the file that was given as such.
    File,
    /// From the file that the free argument names.
    InlineFile,
    /// The free argument itself is the text.
    InlineText,
}

/// The choice among what was given: standard input if it was asked for; else the text
/// given as such; else the file given as such; else the free argument, which stands for
/// standard input where it is `-`, for a file where `exists` says that it names one, and
/// for itself otherwise.
pub open spec fn chosen(
    stdin: bool,
    has_text: bool,
    has_file: bool,
    inline: Option<Seq<char>>,
    exists: bool,
) -> InputChoice {
    if stdin {
        InputChoice::Stdin
    } else if has_text {
        InputChoice::Text
    } else if has_file {
        InputChoice::File
    } else if inline == Some("-"@) {
        InputChoice::Stdin
    } else if exists {
        InputChoice::InlineFile
    } else {
        InputChoice::InlineText
    }
}

/// Whether the choice hangs on whether the free argument names a file.
pub open spec fn asks_for_file(
    stdin: bool,
    has_text: bool,
    has_file: bool,
    inline: Option<Seq<char>>,
) -> bool {
    !stdin && !has_text && !has_file && inline != Some("-"@)
}

/// The characters of the free argument, if there is one.
pub open spec fn name_of(inline: Option<&str>) -> Option<Seq<char>> {
    match inline {
        Some(name) => Some(name@),
        None => None,
    }
}

/// Chooses where the text comes from. Something has to be given. Whether the free argument
/// names a file is asked of `names_file`, and only where the choice hangs on it.
pub fn choose_input<E: FnOnce(&str) -> bool>(
    stdin: bool,
    has_text: bool,
    has_file: bool,
    inline: Option<&str>,
    names_file: E,
) -> (choice: InputChoice)
    requires
        stdin || has_text || has_file || inline is Some,
        inline matches Some(name) ==> call_requires(names_file, (name,)),
    ensures
        !asks_for_file(stdin, has_text, has_file, name_of(inline)) ==> choice == chosen(
            stdin,
            has_text,
            has_file,
            name_of(inline),
            false,
        ),
        asks_for_file(stdin, has_text, has_file, name_of(inline)) ==> exists|answer: bool|
            #[trigger] call_ensures(names_file, (inline->0,), answer) && choice == chosen(
                stdin,
                has_text,
                has_file,
                name_of(inline),
                answer,
            ),
{
    if stdin {
        InputChoice::Stdin
    } else if has_text {
        InputChoice::Text
    } else if has_file {
        InputChoice::File
    } else {
        let name = inline.unwrap();
        if same_chars(&chars_of(name), &chars_of("-")) {
            InputChoice::Stdin
        } else {
            let answer = names_file(name);
            if answer {
                InputChoice::InlineFile
            } else {
                InputChoice::InlineText
            }
        }
    }
}

} // verus!
