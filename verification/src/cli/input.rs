use vstd::prelude::*;

verus! {

/// What a typed command asks for.
#[derive(Debug, Clone, Copy, PartialEq, Eq, Structural)]
pub enum InputType {
    ServiceList,
    Exit,
}

/// The command a trimmed, lowercased input line names, if any: `list` lists
/// the services; `exit`, `quit` and `q` end the session.
pub open spec fn spec_match_command(s: Seq<char>) -> Option<InputType> {
    if s == "list"@ {
        Some(InputType::ServiceList)
    } else if s == "exit"@ || s == "quit"@ || s == "q"@ {
        Some(InputType::Exit)
    } else {
        None
    }
}

pub fn match_command(input: &String) -> (r: Option<InputType>)
    ensures
        r == spec_match_command(input@),
{
    if *input == "list".to_owned() {
        Some(InputType::ServiceList)
    } else if *input == "exit".to_owned() || *input == "quit".to_owned() || *input
        == "q".to_owned() {
        Some(InputType::Exit)
    } else {
        None
    }
}

} // verus!
